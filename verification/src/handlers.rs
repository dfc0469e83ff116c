use vstd::prelude::*;

use crate::db::DB;
use crate::messages::{found_message, spec_found_message};
use crate::users::{CreateUser, User};

verus! {

/// The characters trimming strips from a name.
pub open spec fn is_space(c: char) -> bool {
    c == ' ' || c == '\t' || c == '\n' || c == '\r'
}

/// A name passes validation when it is non-empty after trimming whitespace:
/// some character of it is not whitespace.
pub open spec fn valid_name(s: Seq<char>) -> bool {
    exists|i: int| 0 <= i < s.len() && !is_space(#[trigger] s[i])
}

/// An email passes validation when it contains at least one `@`.
pub open spec fn valid_email(s: Seq<char>) -> bool {
    exists|i: int| 0 <= i < s.len() && #[trigger] s[i] == '@'
}

/// Decide whether `name` is non-empty once whitespace is trimmed.
pub fn name_is_valid(name: &str) -> (r: bool)
    ensures
        r == valid_name(name@),
{
    let n: usize = name.unicode_len();
    let mut idx: usize = 0;
    while idx < n
        invariant
            n == name@.len(),
            idx <= n,
            forall|i: int| 0 <= i < idx ==> is_space(#[trigger] name@[i]),
        decreases n - idx,
    {
        let c: char = name.get_char(idx);
        if !(c == ' ' || c == '\t' || c == '\n' || c == '\r') {
            return true;
        }
        idx = idx + 1;
    }
    false
}

/// Decide whether `email` contains an `@`.
pub fn email_is_valid(email: &str) -> (r: bool)
    ensures
        r == valid_email(email@),
{
    let n: usize = email.unicode_len();
    let mut idx: usize = 0;
    while idx < n
        invariant
            n == email@.len(),
            idx <= n,
            forall|i: int| 0 <= i < idx ==> #[trigger] email@[i] != '@',
        decreases n - idx,
    {
        let c: char = email.get_char(idx);
        if c == '@' {
            return true;
        }
        idx = idx + 1;
    }
    false
}

/// Why a creation request was rejected; both failures surface as HTTP 400.
#[derive(Clone, Copy, Debug, PartialEq, Eq, Structural)]
pub enum ValidationError {
    /// The name was empty after trimming whitespace.
    EmptyName,
    /// The email contained no `@`.
    InvalidEmail,
}

impl ValidationError {
    /// The HTTP status for a rejected creation request.
    pub fn status_code(&self) -> (code: u16)
        ensures
            code == 400,
    {
        400
    }
}

/// The decision of `POST /api/users`: validate, then create.
///
/// Rejects exactly the requests the interface rejects — first a name that is
/// empty after trimming, then an email without `@` — and leaves the store
/// untouched on rejection; any other request stores one new user, whose
/// identifier is one past the previous count.
pub fn post_users(db: &mut DB, input: CreateUser) -> (r: Result<User, ValidationError>)
    requires
        old(db).wf(),
        old(db)@.len() + 2 <= u64::MAX,
    ensures
        final(db).wf(),
        !valid_name(input.name@) ==> r == Err::<User, ValidationError>(
            ValidationError::EmptyName,
        ) && *final(db) == *old(db),
        valid_name(input.name@) && !valid_email(input.email@) ==> r == Err::<
            User,
            ValidationError,
        >(ValidationError::InvalidEmail) && *final(db) == *old(db),
        valid_name(input.name@) && valid_email(input.email@) ==> {
            &&& r matches Ok(user)
            &&& final(db)@ == old(db)@.push(user@)
            &&& user.id == old(db)@.len() + 1
            &&& user.name@ == input.name@
            &&& user.email@ == input.email@
        },
{
    if !name_is_valid(input.name.as_str()) {
        return Err(ValidationError::EmptyName);
    }
    if !email_is_valid(input.email.as_str()) {
        return Err(ValidationError::InvalidEmail);
    }
    Ok(db.create_user(input))
}

/// The decision of `GET /api/users`: a copy of every record, in issuance
/// order, together with the response's `message` field, `Found N users`.
pub fn get_users(db: &DB) -> (r: (Vec<User>, String))
    ensures
        r.0@.len() == db@.len(),
        forall|i: int| 0 <= i < db@.len() ==> #[trigger] r.0@[i]@ == db@[i],
        r.1@ == spec_found_message(db@.len()),
{
    let users = db.get_all_users();
    let message = found_message(users.len() as u64);
    (users, message)
}

} // verus!
