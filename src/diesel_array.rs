//! Arrays as a database returns them, with nullable elements, and their reading
//! as arrays of the non-null elements only.
use vstd::prelude::*;

verus! {

/// The elements that are present, in order.
pub open spec fn flatten<T>(s: Seq<Option<T>>) -> Seq<T>
    decreases s.len(),
{
    if s.len() == 0 {
        Seq::empty()
    } else {
        let rest = flatten(s.drop_last());
        match s.last() {
            Some(v) => rest.push(v),
            None => rest,
        }
    }
}

fn flatten_vec<T>(elements: Vec<Option<T>>) -> (r: Vec<T>)
    ensures
        r@ == flatten(elements@),
{
    let mut out: Vec<T> = Vec::new();
    let ghost mut seen: Seq<Option<T>> = Seq::empty();
    for x in iter: elements.into_iter()
        invariant
            iter.seq() == elements@,
            seen == iter.seq().take(iter.index() as int),
            out@ == flatten(seen),
    {
        proof {
            assert(seen.push(x).drop_last() =~= seen);
            seen = seen.push(x);
        }
        match x {
            Some(v) => out.push(v),
            None => {},
        }
    }
    proof {
        assert(seen =~= elements@);
    }
    out
}

/// An array column whose elements may be null.
pub struct DieselArray<T>(pub Vec<Option<T>>);

impl<T> DieselArray<T> {
    pub fn build(row: Vec<Option<T>>) -> (r: Self)
        ensures
            r.0 == row,
    {
        DieselArray(row)
    }

    /// The non-null elements, in order.
    pub fn into_vec(self) -> (r: Vec<T>)
        ensures
            r@ == flatten(self.0@),
    {
        flatten_vec(self.0)
    }
}

/// A nullable array column whose elements may be null.
pub struct OptionalDieselArray<T>(pub Option<Vec<Option<T>>>);

impl<T> OptionalDieselArray<T> {
    pub fn build(row: Option<Vec<Option<T>>>) -> (r: Self)
        ensures
            r.0 == row,
    {
        OptionalDieselArray(row)
    }

    /// The non-null elements, in order, where the column is not null.
    pub fn into_option_vec(self) -> (r: Option<Vec<T>>)
        ensures
            match self.0 {
                Some(array) => r matches Some(v) && v@ == flatten(array@),
                None => r is None,
            },
    {
        match self.0 {
            Some(array) => Some(flatten_vec(array)),
            None => None,
        }
    }
}

} // verus!
