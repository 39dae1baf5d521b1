//! Requests and responses of the dashboard user API.
use vstd::prelude::*;

verus! {

#[derive(Clone, Debug)]
pub struct ConnectAccountRequest {
    pub email: String,
    pub password: String,
}

#[derive(Clone, Debug)]
pub struct ConnectAccountResponse {
    pub token: String,
    pub merchant_id: String,
    pub name: String,
    pub email: String,
    pub verification_days_left: Option<i64>,
    pub user_role: String,
    /// Kept for audit; never sent back to the caller.
    pub user_id: String,
}

#[derive(Clone, Debug)]
pub struct ChangePasswordRequest {
    pub new_password: String,
    pub old_password: String,
}

#[derive(Clone, Debug)]
pub struct SwitchMerchantIdRequest {
    pub merchant_id: String,
}

#[derive(Clone, Debug)]
pub struct CreateInternalUserRequest {
    pub name: String,
    pub email: String,
    pub password: String,
}

#[derive(Clone, Debug)]
pub struct UserMerchantCreate {
    pub company_name: String,
}

#[derive(Clone, Copy, Debug, PartialEq, Eq, Structural)]
pub enum UserStatus {
    Active,
    InvitationSent,
}

pub open spec fn is_leap_year(year: int) -> bool {
    (year % 4 == 0 && year % 100 != 0) || year % 400 == 0
}

pub open spec fn days_in_month(year: int, month: int) -> int {
    if month == 2 {
        if is_leap_year(year) { 29 } else { 28 }
    } else if month == 4 || month == 6 || month == 9 || month == 11 {
        30
    } else {
        31
    }
}

/// A calendar date and a time of day, without time zone.
#[derive(Clone, Copy, Debug, PartialEq, Eq, Structural)]
pub struct DateTime {
    pub year: i32,
    pub month: u8,
    pub day: u8,
    pub hour: u8,
    pub minute: u8,
    pub second: u8,
    pub nanosecond: u32,
}

impl DateTime {
    /// The fields name an existing day and time.
    pub open spec fn wf(self) -> bool {
        &&& 1 <= self.month <= 12
        &&& 1 <= self.day <= days_in_month(self.year as int, self.month as int)
        &&& self.hour < 24
        &&& self.minute < 60
        &&& self.second < 60
        &&& self.nanosecond < 1_000_000_000
    }

    /// The date and time with these fields, where they name one.
    pub fn new(year: i32, month: u8, day: u8, hour: u8, minute: u8, second: u8, nanosecond: u32) -> (r: Option<DateTime>)
        ensures
            match r {
                Some(d) => d.wf() && d == (DateTime { year, month, day, hour, minute, second, nanosecond }),
                None => !(DateTime { year, month, day, hour, minute, second, nanosecond }).wf(),
            },
    {
        let leap = (year % 4 == 0 && year % 100 != 0) || year % 400 == 0;
        let month_days: u8 = if month == 2 {
            if leap { 29 } else { 28 }
        } else if month == 4 || month == 6 || month == 9 || month == 11 {
            30
        } else {
            31
        };
        if 1 <= month && month <= 12 && 1 <= day && day <= month_days && hour < 24 && minute < 60
            && second < 60 && nanosecond < 1_000_000_000 {
            Some(DateTime { year, month, day, hour, minute, second, nanosecond })
        } else {
            None
        }
    }
}

#[derive(Clone, Debug)]
pub struct UserDetails {
    pub user_id: String,
    pub email: String,
    pub name: String,
    pub role_id: String,
    pub role_name: String,
    pub status: UserStatus,
    pub last_modified_at: DateTime,
}

#[derive(Clone, Debug)]
pub struct GetUsersResponse(pub Vec<UserDetails>);

} // verus!
