//! Field validation for registration credentials: username length 6-30,
//! password length 8-30, and email format checked only when the field is
//! non-empty, so a missing or empty email never rejects a registration.
//! All violated rules are collected before failing, one entry per field
//! in a fixed order, never just the first violation.

use vstd::prelude::*;
use validator::ValidateEmail;
use crate::error::{Error, FieldError};
use crate::message::Register;

verus! {

/// The username rule: 6 to 30 characters.
pub open spec fn username_ok(u: Seq<char>) -> bool {
    6 <= u.len() <= 30
}

/// The password rule: 8 to 30 characters.
pub open spec fn password_ok(p: Seq<char>) -> bool {
    8 <= p.len() <= 30
}

/// The verdict of the email format check, a function of the characters
/// alone.
pub uninterp spec fn email_format_ok(e: Seq<char>) -> bool;

/// The email rule as the workflow applies it: the format check runs only
/// on a non-empty field, so an absent email is always accepted.
pub open spec fn email_ok(e: Seq<char>) -> bool {
    e.len() == 0 || email_format_ok(e)
}

/// All field rules hold for this registration request.
pub open spec fn register_ok(r: Register) -> bool {
    username_ok(r.username@) && email_ok(r.email@) && password_ok(r.password@)
}

/// One collected entry: the given field name with exactly the given
/// single message.
pub open spec fn is_entry(fe: FieldError, f: Seq<char>, m: Seq<char>) -> bool {
    fe.field@ == f && fe.messages@.len() == 1 && fe.messages@[0]@ == m
}

/// The payload that collecting every violated rule of this request
/// produces: in the order username, email, password, one entry with one
/// message for each violated field and nothing else.
pub open spec fn collected_payload(reg: Register, v: Seq<FieldError>) -> bool {
    let ub: int = if !username_ok(reg.username@) { 1int } else { 0int };
    let eb: int = if !email_ok(reg.email@) { 1int } else { 0int };
    let pb: int = if !password_ok(reg.password@) { 1int } else { 0int };
    &&& v.len() == ub + eb + pb
    &&& (ub == 1 ==> is_entry(v[0], "username"@, "Username must be 6-30 charaters long"@))
    &&& (eb == 1 ==> is_entry(v[ub], "email"@, "Email not valid"@))
    &&& (pb == 1 ==> is_entry(v[ub + eb], "password"@, "Password must be 8-30 chracters long"@))
}

/// The payload of the pre-insert uniqueness failure: a single entry
/// scoped to the username field.
pub open spec fn username_taken_payload(v: Seq<FieldError>) -> bool {
    v.len() == 1 && is_entry(v[0], "username"@, "username is taken"@)
}

/// Relies on validator's `ValidateEmail::validate_email` (the HTML5
/// notion of a valid e-mail address): the verdict depends on the
/// characters alone, and the empty string is rejected.
#[verifier::external_body]
fn email_is_valid(e: &str) -> (r: bool)
    ensures
        r == email_format_ok(e@),
        e@.len() == 0 ==> r == false,
{
    e.validate_email()
}

fn single_message(m: &str) -> (r: Vec<String>)
    ensures
        r@.len() == 1,
        r@[0]@ == m@,
{
    let mut v: Vec<String> = Vec::new();
    v.push(m.to_owned());
    v
}

/// Applies every field rule and collects every violation: the result is
/// `Ok` exactly when all rules hold, and otherwise `ValidationFailed`
/// whose payload holds, in the order username, email, password, one
/// entry with one message for each violated field and nothing else.
pub fn validate_register(reg: &Register) -> (r: Result<(), Error>)
    ensures
        r is Ok <==> register_ok(*reg),
        r is Err ==> r->Err_0 is ValidationFailed,
        r is Err ==> collected_payload(*reg, r->Err_0->ValidationFailed_0@),
{
    let mut v: Vec<FieldError> = Vec::new();
    let ulen = reg.username.as_str().unicode_len();
    if ulen < 6 || ulen > 30 {
        v.push(FieldError {
            field: "username".to_owned(),
            messages: single_message("Username must be 6-30 charaters long"),
        });
    }
    if !reg.email.as_str().is_empty() && !email_is_valid(reg.email.as_str()) {
        v.push(FieldError {
            field: "email".to_owned(),
            messages: single_message("Email not valid"),
        });
    }
    let plen = reg.password.as_str().unicode_len();
    if plen < 8 || plen > 30 {
        v.push(FieldError {
            field: "password".to_owned(),
            messages: single_message("Password must be 8-30 chracters long"),
        });
    }
    if v.len() == 0 {
        Ok(())
    } else {
        Err(Error::ValidationFailed(v))
    }
}

} // verus!
