use router::diesel_array::{DieselArray, OptionalDieselArray};
use router::user::{DateTime, UserDetails, UserStatus, GetUsersResponse};

#[test]
fn diesel_array_keeps_present_elements_in_order() {
    let array = DieselArray::build(vec![Some(1), None, Some(3), None, Some(2)]);
    assert_eq!(array.into_vec(), vec![1, 3, 2]);
    let empty: DieselArray<u8> = DieselArray::build(vec![None, None]);
    assert_eq!(empty.into_vec(), Vec::<u8>::new());
}

#[test]
fn optional_diesel_array() {
    let some = OptionalDieselArray::build(Some(vec![None, Some("a".to_string())]));
    assert_eq!(some.into_option_vec(), Some(vec!["a".to_string()]));
    let none: OptionalDieselArray<i32> = OptionalDieselArray::build(None);
    assert_eq!(none.into_option_vec(), None);
}

#[test]
fn date_time_checks_the_calendar() {
    assert!(DateTime::new(2024, 2, 29, 23, 59, 59, 0).is_some());
    assert!(DateTime::new(2023, 2, 29, 0, 0, 0, 0).is_none());
    assert!(DateTime::new(1900, 2, 29, 0, 0, 0, 0).is_none());
    assert!(DateTime::new(2000, 2, 29, 0, 0, 0, 0).is_some());
    assert!(DateTime::new(2024, 4, 31, 0, 0, 0, 0).is_none());
    assert!(DateTime::new(2024, 13, 1, 0, 0, 0, 0).is_none());
    assert!(DateTime::new(2024, 1, 1, 24, 0, 0, 0).is_none());
    assert!(DateTime::new(2024, 1, 1, 0, 0, 0, 1_000_000_000).is_none());
    let users = GetUsersResponse(vec![UserDetails {
        user_id: "u1".to_string(),
        email: "a@b.test".to_string(),
        name: "A".to_string(),
        role_id: "r".to_string(),
        role_name: "admin".to_string(),
        status: UserStatus::Active,
        last_modified_at: DateTime::new(2024, 1, 1, 0, 0, 0, 0).unwrap(),
    }]);
    assert_eq!(users.0.len(), 1);
}
