//! The decisions of the mail-folder handlers: whether a request may go on,
//! whose request it is, and what each outcome replies.
use vstd::prelude::*;

use crate::types::{Response, ResponseError};

verus! {

/// Whether `c` is a decimal digit.
pub open spec fn is_digit(c: char) -> bool {
    '0' <= c <= '9'
}

/// The number that a nonempty run of decimal digits writes.
pub open spec fn digits_value(s: Seq<char>) -> int
    decreases s.len(),
{
    if s.len() == 0 {
        0
    } else {
        digits_value(s.drop_last()) * 10 + (s.last() as int - '0' as int)
    }
}

/// The digits of `s`, once an optional leading sign is set aside.
pub open spec fn unsigned_part(s: Seq<char>) -> Seq<char> {
    if s.len() > 0 && (s[0] == '-' || s[0] == '+') {
        s.drop_first()
    } else {
        s
    }
}

/// The integer that `s` writes in decimal: an optional `+` or `-`, then one
/// or more digits and nothing else.
pub open spec fn decimal_value(s: Seq<char>) -> Option<int> {
    let body = unsigned_part(s);
    if body.len() > 0 && forall|i: int| 0 <= i < body.len() ==> is_digit(#[trigger] body[i]) {
        if s[0] == '-' {
            Some(-digits_value(body))
        } else {
            Some(digits_value(body))
        }
    } else {
        None
    }
}

/// `s` read as an `i32`: `None` where it is no decimal integer or does not fit.
pub open spec fn parsed_i32(s: Seq<char>) -> Option<i32> {
    match decimal_value(s) {
        Some(v) => if i32::MIN <= v <= i32::MAX {
            Some(v as i32)
        } else {
            None
        },
        None => None,
    }
}

/// Relies on `str::parse::<i32>`, which accepts an optional sign followed by
/// decimal digits only, and fails where the value does not fit.
#[verifier::external_body]
fn parse_i32(s: &str) -> (r: Option<i32>)
    ensures
        r == parsed_i32(s@),
{
    s.parse::<i32>().ok()
}

/// The id of the user that a decoded token names, if it names one.
pub fn caller_id(decoded: &str) -> (r: Option<i32>)
    ensures
        r == parsed_i32(decoded@),
{
    parse_i32(decoded)
}

/// The reply to a request whose bearer token is not valid.
pub fn jwt_error() -> (r: ResponseError)
    ensures
        !r.success,
        r.error@ == "jwt error"@,
{
    ResponseError::new(false, "jwt error".to_string())
}

/// Decides, from the outcome of validating the bearer token (`None` where the
/// validation itself failed), whether the request goes on. It goes on exactly
/// when the token was found valid; otherwise the reply is returned.
pub fn token_gate(validation: Option<bool>) -> (r: Option<ResponseError>)
    ensures
        r is None <==> validation == Some(true),
        r matches Some(e) ==> !e.success && e.error@ == "jwt error"@,
{
    match validation {
        Some(true) => None,
        _ => Some(jwt_error()),
    }
}

/// The reply to a caller who may not change the space's folders.
pub fn admin_required() -> (r: Response<String>)
    ensures
        !r.success,
        r.message@ == "only admin allowed to add users to folder"@,
{
    Response::new(false, "only admin allowed to add users to folder".to_string())
}

/// Decides whether a member of a space, with the given admin flag, may change
/// the members of one of its folders. Only an admin may; anyone else gets the
/// refusal, as a reply and not as a failure.
pub fn admin_gate(admin_status: bool) -> (r: Option<Response<String>>)
    ensures
        r is None <==> admin_status,
        r matches Some(e) ==> !e.success && e.message@
            == "only admin allowed to add users to folder"@,
{
    if admin_status {
        None
    } else {
        Some(admin_required())
    }
}

/// The reply once users have been added to a folder.
pub fn users_added() -> (r: Response<String>)
    ensures
        r.success,
        r.message@ == "Users added successfully"@,
{
    Response::new(true, "Users added successfully".to_string())
}

/// The reply once a user has been removed from a folder.
pub fn user_removed() -> (r: Response<String>)
    ensures
        r.success,
        r.message@ == "user removed successfully"@,
{
    Response::new(true, "user removed successfully".to_string())
}

/// The reply once a folder's mail has gone to all of its members.
pub fn mail_sent() -> (r: Response<String>)
    ensures
        r.success,
        r.message@ == "Email sent to all members successfully"@,
{
    Response::new(true, "Email sent to all members successfully".to_string())
}

/// The reply when a folder's mail could not be sent.
pub fn mail_failed() -> (r: Response<String>)
    ensures
        !r.success,
        r.message@ == "error sending email"@,
{
    Response::new(false, "error sending email".to_string())
}

} // verus!
