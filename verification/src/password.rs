use vstd::prelude::*;
use crate::text::digit_char;

verus! {

/// The bcrypt cost with which account passwords are hashed.
pub const PASSWORD_COST: u32 = 4;

/// `bcrypt::BcryptError`, the error of the bcrypt crate; opaque here.
#[verifier::external_type_specification]
#[verifier::external_body]
pub struct ExBcryptError(bcrypt::BcryptError);

/// What `bcrypt::verify(password, hash)` answers: `Some(matches)`, or `None`
/// when it fails (a hash that is not a bcrypt hash). It depends on the
/// password and the hash alone: the salt and the cost are read from the hash.
pub uninterp spec fn bcrypt_verdict(password: Seq<char>, hash: Seq<char>) -> Option<bool>;

/// Why bcrypt refused to hash a password.
#[derive(Clone, Copy, PartialEq, Eq, Structural, Debug)]
pub enum HashFailure {
    /// `BcryptError::CostNotAllowed`: the cost lies outside 4..=31.
    CostNotAllowed,
    /// `BcryptError::Rand`: the system gave no random bytes for the salt.
    Rand,
    /// Any other `BcryptError`.
    Other,
}

/// A refused hashing: why, and bcrypt's message.
#[derive(Debug)]
pub struct HashError {
    pub failure: HashFailure,
    pub message: String,
}

/// Calls `bcrypt::hash(password, cost)`, which draws a random salt. What it
/// claims: costs outside 4..=31 are refused; a hash it returns is 60
/// characters long, starts with `$2b$`, then the cost in two digits and `$`
/// (`format!("${}${:02}${}{}", ..)`), and `bcrypt::verify` accepts the same
/// password against it (it rehashes with the salt and cost written in the
/// hash). It fails only in two ways (`hash_with_result`): `Rand` when the
/// system gives no random bytes (drawn first, whatever the cost), and
/// `CostNotAllowed` for a cost outside 4..=31. The error is returned with
/// its kind. The hash itself depends on the salt and is not stated.
#[verifier::external_body]
pub(crate) fn bcrypt_hash(password: &str, cost: u32) -> (r: Result<
    String,
    (HashFailure, bcrypt::BcryptError),
>)
    ensures
        !(4 <= cost <= 31) ==> r is Err,
        r matches Err(e) ==> (e.0 == HashFailure::CostNotAllowed || e.0 == HashFailure::Rand),
        r matches Err(e) ==> (e.0 == HashFailure::CostNotAllowed ==> !(4 <= cost <= 31)),
        r matches Ok(h) ==> {
            &&& h@.len() == 60
            &&& h@.subrange(0, 4) == "$2b$"@
            &&& h@[4] == digit_char((cost / 10) as int)
            &&& h@[5] == digit_char((cost % 10) as int)
            &&& h@[6] == '$'
            &&& bcrypt_verdict(password@, h@) == Some(true)
        },
{
    match bcrypt::hash(password, cost) {
        Ok(h) => Ok(h),
        Err(e) => {
            let kind = match &e {
                bcrypt::BcryptError::CostNotAllowed(_) => HashFailure::CostNotAllowed,
                bcrypt::BcryptError::Rand(_) => HashFailure::Rand,
                _ => HashFailure::Other,
            };
            Err((kind, e))
        },
    }
}

/// Calls `bcrypt::verify(password, hash)`; its answer is `bcrypt_verdict`.
#[verifier::external_body]
pub(crate) fn bcrypt_verify(password: &str, hash: &str) -> (r: Result<bool, bcrypt::BcryptError>)
    ensures
        match r {
            Ok(b) => bcrypt_verdict(password@, hash@) == Some(b),
            Err(_) => bcrypt_verdict(password@, hash@) is None,
        },
{
    bcrypt::verify(password, hash)
}

/// The message of a bcrypt error, as its `Display` writes it. Nothing is
/// stated of the text.
#[verifier::external_body]
pub(crate) fn bcrypt_error_message(e: &bcrypt::BcryptError) -> String {
    e.to_string()
}

/// Whether `password` matches the stored `hash`; a hash that bcrypt cannot
/// read matches nothing.
pub open spec fn password_matches(password: Seq<char>, hash: Seq<char>) -> bool {
    bcrypt_verdict(password, hash) == Some(true)
}

/// The start of every password hash stored for an account: bcrypt version
/// `2b`, cost 4.
pub open spec fn account_hash_prefix() -> Seq<char> {
    "$2b$04$"@
}

/// Hashes a new account's password with cost 4. It fails only when the
/// system gives no random bytes for the salt, with bcrypt's message.
pub fn hash_password(password: &str) -> (r: Result<String, HashError>)
    ensures
        r matches Err(e) ==> e.failure == HashFailure::Rand,
        r matches Ok(h) ==> {
            &&& password_matches(password@, h@)
            &&& h@.len() == 60
            &&& h@.subrange(0, 7) == account_hash_prefix()
        },
{
    match bcrypt_hash(password, PASSWORD_COST) {
        Ok(h) => {
            proof {
                reveal_strlit("$2b$");
                reveal_strlit("$2b$04$");
                assert(h@.subrange(0, 4)[0] == h@[0]);
                assert(h@.subrange(0, 4)[1] == h@[1]);
                assert(h@.subrange(0, 4)[2] == h@[2]);
                assert(h@.subrange(0, 4)[3] == h@[3]);
                assert(h@.subrange(0, 7) =~= account_hash_prefix());
            }
            Ok(h)
        },
        Err((failure, e)) => Err(HashError { failure, message: bcrypt_error_message(&e) }),
    }
}

/// Checks a login password against the stored hash; an unreadable hash
/// refuses the login.
pub fn check_password(password: &str, hash: &str) -> (ok: bool)
    ensures
        ok == password_matches(password@, hash@),
{
    match bcrypt_verify(password, hash) {
        Ok(b) => b,
        Err(_) => false,
    }
}

} // verus!
