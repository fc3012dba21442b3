//! The records that the service stores and exchanges. Timestamps are
//! seconds since the Unix epoch.
use vstd::prelude::*;

verus! {

/// Body of the health-check answer.
pub struct Response {
    pub status: String,
    pub message: String,
}

/// A stored bank.
pub struct Banks {
    pub id: i32,
    pub code: String,
    pub name: String,
    pub created_at: i64,
    pub updated_at: i64,
}

/// The fields of a bank that a caller supplies.
pub struct Bank {
    pub code: String,
    pub name: String,
}

/// A stored agency, which belongs to the bank `bank_id`.
pub struct Agencies {
    pub id: i32,
    pub code: String,
    pub name: String,
    pub bank_id: i32,
    pub created_at: i64,
    pub updated_at: i64,
}

/// The fields of an agency that a caller supplies.
pub struct Agency {
    pub code: String,
    pub name: String,
    pub bank_id: i32,
}

/// A stored account. `password` holds the PHC string of the password's
/// hash, never the password itself.
pub struct Users {
    pub id: i32,
    pub username: String,
    pub password: String,
    pub is_admin: bool,
    pub is_active: bool,
    pub created_at: i64,
    pub updated_at: i64,
}

/// What callers are shown of an account: no hash.
pub struct UserResponse {
    pub id: i32,
    pub username: String,
    pub is_active: bool,
}

/// A registration request: a username and a plaintext password.
pub struct User {
    pub username: String,
    pub password: String,
}

/// A password-change request.
pub struct PasswordChange {
    pub old_password: String,
    pub new_password: String,
    pub new_password_check: String,
}

/// The mathematical value of an account.
pub struct AccountView {
    pub id: int,
    pub username: Seq<char>,
    pub password: Seq<char>,
    pub is_admin: bool,
    pub is_active: bool,
    pub created_at: int,
    pub updated_at: int,
}

impl View for Users {
    type V = AccountView;

    open spec fn view(&self) -> AccountView {
        AccountView {
            id: self.id as int,
            username: self.username@,
            password: self.password@,
            is_admin: self.is_admin,
            is_active: self.is_active,
            created_at: self.created_at as int,
            updated_at: self.updated_at as int,
        }
    }
}

impl Users {
    /// A field-by-field copy.
    pub fn copy(&self) -> (r: Users)
        ensures
            r@ == self@,
    {
        Users {
            id: self.id,
            username: self.username.clone(),
            password: self.password.clone(),
            is_admin: self.is_admin,
            is_active: self.is_active,
            created_at: self.created_at,
            updated_at: self.updated_at,
        }
    }

    /// The public view of the account, without its hash.
    pub fn to_response(&self) -> (r: UserResponse)
        ensures
            r.id == self.id,
            r.username@ == self.username@,
            r.is_active == self.is_active,
    {
        UserResponse { id: self.id, username: self.username.clone(), is_active: self.is_active }
    }
}

/// What can go wrong in an account operation.
#[derive(Clone, Copy, Debug, PartialEq, Eq, Structural)]
pub enum CredentialError {
    /// No account has the given username or id.
    NotFound,
    /// The old password does not verify against the stored hash.
    InvalidCredentials,
    /// The new password and its confirmation differ.
    PasswordMismatch,
    /// An account with the username exists already.
    DuplicateUsername,
    /// The username is empty.
    EmptyUsername,
    /// The stored hash changed between the read and the write.
    Conflict,
    /// The store cannot take the write (no identifier is left).
    StoreUnavailable,
    /// The hash primitive failed, or a stored hash is not a PHC string.
    HashingFailure,
}

impl CredentialError {
    /// The HTTP status that answers the error.
    pub fn status_code(&self) -> (r: u16)
        ensures
            r == match *self {
                CredentialError::NotFound => 404u16,
                CredentialError::InvalidCredentials => 400u16,
                CredentialError::PasswordMismatch => 400u16,
                CredentialError::DuplicateUsername => 409u16,
                CredentialError::EmptyUsername => 400u16,
                CredentialError::Conflict => 409u16,
                CredentialError::StoreUnavailable => 500u16,
                CredentialError::HashingFailure => 500u16,
            },
    {
        match *self {
            CredentialError::NotFound => 404,
            CredentialError::InvalidCredentials => 400,
            CredentialError::PasswordMismatch => 400,
            CredentialError::DuplicateUsername => 409,
            CredentialError::EmptyUsername => 400,
            CredentialError::Conflict => 409,
            CredentialError::StoreUnavailable => 500,
            CredentialError::HashingFailure => 500,
        }
    }

    /// Whether the error is the caller's (4xx) rather than the service's.
    pub fn is_caller_error(&self) -> (r: bool)
        ensures
            r == !(*self is StoreUnavailable || *self is HashingFailure),
    {
        !matches!(*self, CredentialError::StoreUnavailable | CredentialError::HashingFailure)
    }
}

} // verus!
