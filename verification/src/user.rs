//! User accounts as stored in the `users` table, and the login check.
use vstd::prelude::*;
use vstd::string::*;
use vstd::utf8::is_ascii_chars;

use crate::text::join3;

verus! {

/// A row of the `users` table.
#[derive(Debug, Clone)]
pub struct UserDbModel {
    pub id: u32,
    pub name: Option<String>,
    pub email: String,
    pub remember_token: Option<String>,
    pub phone: Option<String>,
    pub roles: Option<Vec<String>>,
}

/// A user row together with its stored bcrypt password hash.
#[derive(Debug)]
pub struct AuthRow {
    pub user: UserDbModel,
    pub password_hash: String,
}

/// Why a password could not be checked against a stored hash.
#[derive(Debug, Clone, Copy, PartialEq, Eq, Structural)]
pub enum CredentialError {
    /// bcrypt refused the stored hash (malformed, bad cost, bad base64, ...).
    UnusableHash,
}

#[verifier::external_type_specification]
#[verifier::external_body]
pub struct ExBcryptError(bcrypt::BcryptError);

/// What `bcrypt::verify(password, hash)` computes: `Some(matches)` when the
/// hash can be used, `None` when bcrypt reports an error.
pub uninterp spec fn bcrypt_verify_outcome(password: Seq<char>, hash: Seq<char>) -> Option<bool>;

/// Calls `bcrypt::verify(password, hash)`. The contract claims that the result
/// is a function of the two texts (named `bcrypt_verify_outcome`), and, as the
/// crate's `split_hash` shows, that a hash that is not exactly 60 ASCII
/// characters is refused with an error. Whether a given password matches a
/// given hash is not stated.
#[verifier::external_body]
fn bcrypt_verify(password: &str, hash: &str) -> (r: Result<bool, bcrypt::BcryptError>)
    ensures
        match r {
            Ok(b) => bcrypt_verify_outcome(password@, hash@) == Some(b),
            Err(_) => bcrypt_verify_outcome(password@, hash@) is None,
        },
        !(hash@.len() == 60 && is_ascii_chars(hash@)) ==> r is Err,
{
    bcrypt::verify(password, hash)
}

/// Checks `password` against the bcrypt `hash`.
pub fn verify_password(password: &str, hash: &str) -> (r: Result<bool, CredentialError>)
    ensures
        match r {
            Ok(b) => bcrypt_verify_outcome(password@, hash@) == Some(b),
            Err(_) => bcrypt_verify_outcome(password@, hash@) is None,
        },
        !(hash@.len() == 60 && is_ascii_chars(hash@)) ==> r is Err,
{
    match bcrypt_verify(password, hash) {
        Ok(b) => Ok(b),
        Err(_) => Err(CredentialError::UnusableHash),
    }
}

/// The account a login attempt yields, given the stored row found for the
/// e-mail address and the outcome of checking the password against its hash.
pub open spec fn login_result(
    row: Option<AuthRow>,
    check: Result<bool, CredentialError>,
) -> Option<UserDbModel> {
    match row {
        Some(a) => if check == Ok::<bool, CredentialError>(true) {
            Some(a.user)
        } else {
            None
        },
        None => None,
    }
}

impl UserDbModel {
    /// The name of the table that holds users.
    pub fn table_name() -> (r: &'static str)
        ensures
            r@ == "users"@,
    {
        "users"
    }

    /// The account a login attempt yields: the row's user when a row was
    /// found and the password matched its hash; no account otherwise (no
    /// row, a wrong password, or a hash that cannot be checked).
    pub fn accept_checked(row: Option<AuthRow>, check: Result<bool, CredentialError>) -> (r:
        Option<UserDbModel>)
        ensures
            r == login_result(row, check),
    {
        match row {
            Some(a) => match check {
                Ok(true) => Some(a.user),
                _ => None,
            },
            None => None,
        }
    }

    /// Checks `password` against the row found for a login (if any) and
    /// returns the account that the login yields: the row's user exactly when
    /// bcrypt reports that the password matches the stored hash.
    pub fn check_credentials(row: Option<AuthRow>, password: &str) -> (r: Option<UserDbModel>)
        ensures
            r == match row {
                Some(a) => if bcrypt_verify_outcome(password@, a.password_hash@) == Some(true) {
                    Some(a.user)
                } else {
                    None
                },
                None => None,
            },
    {
        match row {
            Some(a) => {
                let check = verify_password(password, a.password_hash.as_str());
                Self::accept_checked(Some(a), check)
            },
            None => None,
        }
    }

    /// Records `token` as the user's remember-me token, leaving every other
    /// field as it was.
    pub fn set_remember_token(&mut self, token: String)
        ensures
            final(self).remember_token == Some(token),
            final(self).id == old(self).id,
            final(self).name == old(self).name,
            final(self).email == old(self).email,
            final(self).phone == old(self).phone,
            final(self).roles == old(self).roles,
    {
        self.remember_token = Some(token);
    }
}

/// The query that loads one row of `table_name` by its id.
pub fn find_by_id_query(table_name: &str) -> (r: String)
    ensures
        r@ == "SELECT * FROM "@ + table_name@ + " WHERE id = ?"@,
{
    join3("SELECT * FROM ", table_name, " WHERE id = ?")
}

} // verus!
