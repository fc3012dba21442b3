//! The password-hash primitive: argon2 with its default parameters, producing
//! and checking PHC strings (`$argon2id$v=19$...`).
use argon2::password_hash::rand_core::OsRng;
use argon2::password_hash::SaltString;
use argon2::{Argon2, PasswordHash, PasswordHasher, PasswordVerifier};
use vstd::prelude::*;

verus! {

/// Whether a string parses as a PHC password-hash string.
pub uninterp spec fn phc_well_formed(hash: Seq<char>) -> bool;

/// Whether argon2 accepts `password` against the PHC string `hash`.
pub uninterp spec fn password_matches(password: Seq<char>, hash: Seq<char>) -> bool;

/// The PHC string that argon2 with default parameters computes for
/// `password` and the B64 salt `salt`, or `None` where it refuses them.
pub uninterp spec fn argon2_phc(password: Seq<char>, salt: Seq<char>) -> Option<Seq<char>>;

/// A character of the unpadded standard Base64 alphabet.
pub open spec fn is_b64_char(c: char) -> bool {
    ('A' <= c && c <= 'Z') || ('a' <= c && c <= 'z') || ('0' <= c && c <= '9') || c == '+' || c
        == '/'
}

/// The shape of a salt made of 16 bytes in unpadded Base64: 22 characters,
/// the last of which carries two bits and four zero bits.
pub open spec fn generated_salt(s: Seq<char>) -> bool {
    &&& s.len() == 22
    &&& forall|i: int| 0 <= i < 22 ==> is_b64_char(#[trigger] s[i])
    &&& (s[21] == 'A' || s[21] == 'Q' || s[21] == 'g' || s[21] == 'w')
}

/// Relies on `SaltString::generate` over `OsRng`: 16 random bytes, encoded
/// in unpadded Base64. Nothing is promised of the bytes.
#[verifier::external_body]
pub(crate) fn fresh_salt() -> (r: String)
    ensures
        generated_salt(r@),
{
    SaltString::generate(&mut OsRng).as_str().to_string()
}

/// Relies on `PasswordHash::new`: whether `hash` parses as a PHC string.
#[verifier::external_body]
pub(crate) fn parses_as_phc(hash: &str) -> (r: bool)
    ensures
        r == phc_well_formed(hash@),
{
    PasswordHash::new(hash).is_ok()
}

/// Relies on `PasswordVerifier::verify_password` of `Argon2::default()`:
/// the password is hashed again with the salt and parameters that the PHC
/// string carries, and the outputs are compared.
#[verifier::external_body]
pub(crate) fn argon2_verify(password: &str, hash: &str) -> (r: bool)
    requires
        phc_well_formed(hash@),
    ensures
        r == password_matches(password@, hash@),
{
    match PasswordHash::new(hash) {
        Ok(parsed) => Argon2::default().verify_password(password.as_bytes(), &parsed).is_ok(),
        Err(_) => false,
    }
}

/// Relies on `PasswordHasher::hash_password` of `Argon2::default()` (with
/// `SaltString::from_b64` reading the salt): the result depends on the
/// password and the salt alone, parses as a PHC string, and verifies
/// against the same password, since verification recomputes it with the
/// salt and parameters that it carries. It is refused only for a salt that
/// does not read as Base64 of 8 to 48 bytes or a password over `u32::MAX`
/// bytes (a character takes at most four bytes).
#[verifier::external_body]
pub(crate) fn argon2_hash(password: &str, salt: &str) -> (r: Option<String>)
    ensures
        match r {
            Some(h) => argon2_phc(password@, salt@) == Some(h@),
            None => argon2_phc(password@, salt@) is None,
        },
        r matches Some(h) ==> phc_well_formed(h@) && password_matches(password@, h@),
        generated_salt(salt@) && password@.len() <= 0x3fff_ffff ==> r is Some,
{
    let salt = SaltString::from_b64(salt).ok()?;
    Argon2::default().hash_password(password.as_bytes(), &salt).ok().map(|h| h.to_string())
}

/// Relies on `chrono::Utc::now`: the current time in seconds since the Unix
/// epoch. Nothing is promised of its value.
#[verifier::external_body]
pub(crate) fn now_timestamp() -> (r: i64) {
    chrono::Utc::now().timestamp()
}

} // verus!
