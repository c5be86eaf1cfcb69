//! The session manager: who may log in, what a token looks like, and how the
//! store's answers about the active-token set are judged.

use vstd::prelude::*;
use vstd::string::*;
use crate::models::ErrorResponse;
use crate::redis_store::{
    add_active_token, is_active_token, remove_active_token, token_active, token_added,
    tokens_removed, RedisError, StoreOutcome,
};

verus! {

/// Name of the set that holds every token currently in force.
pub const ACTIVE_TOKENS: &'static str = "active_tokens";

/// Why a call was turned down. Each kind ends the call that met it.
#[derive(Clone, Copy, Debug, PartialEq, Eq, Structural)]
pub enum ApiError {
    /// The credentials were not of the expected shape.
    InvalidInput,
    /// The password is not the configured one.
    InvalidCredentials,
    /// The token is missing, unknown or already revoked.
    InvalidToken,
    /// No connection to the store could be obtained.
    StoreUnavailable,
    /// The store was reached but an operation failed.
    StoreCommandFailed,
}

impl ApiError {
    /// The failure a store error is reported as.
    pub open spec fn spec_from_store(error: RedisError) -> ApiError {
        match error {
            RedisError::Unavailable => ApiError::StoreUnavailable,
            RedisError::Command => ApiError::StoreCommandFailed,
        }
    }

    /// The status each kind is answered with: 400 for malformed input, 401
    /// for anything about credentials or tokens, 500 for the store.
    pub open spec fn spec_status_code(&self) -> u16 {
        match *self {
            ApiError::InvalidInput => 400,
            ApiError::InvalidCredentials => 401,
            ApiError::InvalidToken => 401,
            ApiError::StoreUnavailable => 500,
            ApiError::StoreCommandFailed => 500,
        }
    }

    /// The text each kind is answered with.
    pub open spec fn spec_message(&self) -> Seq<char> {
        match *self {
            ApiError::InvalidInput => "Invalid JSON or Email format"@,
            ApiError::InvalidCredentials => "Invalid credentials"@,
            ApiError::InvalidToken => "Invalid Token"@,
            ApiError::StoreUnavailable => "Redis unavailable"@,
            ApiError::StoreCommandFailed => "Redis error"@,
        }
    }

    #[verifier::when_used_as_spec(spec_from_store)]
    pub fn from_store(error: RedisError) -> (failure: ApiError)
        ensures
            failure == Self::spec_from_store(error),
    {
        match error {
            RedisError::Unavailable => ApiError::StoreUnavailable,
            RedisError::Command => ApiError::StoreCommandFailed,
        }
    }

    #[verifier::when_used_as_spec(spec_status_code)]
    pub fn status_code(&self) -> (status: u16)
        ensures
            status == self.spec_status_code(),
    {
        match *self {
            ApiError::InvalidInput => 400,
            ApiError::InvalidCredentials | ApiError::InvalidToken => 401,
            ApiError::StoreUnavailable | ApiError::StoreCommandFailed => 500,
        }
    }

    pub fn message(&self) -> (text: &'static str)
        ensures
            text@ == self.spec_message(),
    {
        match *self {
            ApiError::InvalidInput => "Invalid JSON or Email format",
            ApiError::InvalidCredentials => "Invalid credentials",
            ApiError::InvalidToken => "Invalid Token",
            ApiError::StoreUnavailable => "Redis unavailable",
            ApiError::StoreCommandFailed => "Redis error",
        }
    }

    /// The body sent with this failure.
    pub fn to_response(&self) -> (body: ErrorResponse)
        ensures
            body.error@ == self.spec_message(),
    {
        ErrorResponse { error: String::from_str(self.message()) }
    }
}

/// The characters a token spells its digits with.
pub open spec fn is_lower_hex(c: char) -> bool {
    ('0' <= c && c <= '9') || ('a' <= c && c <= 'f')
}

/// The shape of a freshly issued token: thirty-two lower-case hexadecimal
/// digits in groups of 8, 4, 4, 4 and 12 with hyphens between them, where the
/// third group starts with `4` and the fourth with `8`, `9`, `a` or `b`.
pub open spec fn is_token_text(text: Seq<char>) -> bool {
    &&& text.len() == 36
    &&& forall|i: int|
        0 <= i < 36 ==> if i == 8 || i == 13 || i == 18 || i == 23 {
            #[trigger] text[i] == '-'
        } else {
            is_lower_hex(text[i])
        }
    &&& text[14] == '4'
    &&& (text[19] == '8' || text[19] == '9' || text[19] == 'a' || text[19] == 'b')
}

/// Makes a random identifier with `uuid::Uuid::new_v4` and writes it with its
/// `Display` impl, the hyphenated lower-case form. Whatever bits were drawn,
/// the text has the shape of `is_token_text`: the version digit is `4` and
/// the variant bits are `10`. The call panics where the operating system
/// yields no random bytes.
#[verifier::external_body]
pub(crate) fn new_token() -> (token: String)
    ensures
        is_token_text(token@),
{
    uuid::Uuid::new_v4().to_string()
}

/// Whether `password` is the configured secret: exact equality of the texts.
pub open spec fn credentials_accepted(secret: Seq<char>, password: Seq<char>) -> bool {
    password == secret
}

/// The verdict on a password: accepted, or refused as invalid credentials.
pub open spec fn authenticated(secret: Seq<char>, password: Seq<char>) -> Result<(), ApiError> {
    if credentials_accepted(secret, password) {
        Ok(())
    } else {
        Err(ApiError::InvalidCredentials)
    }
}

/// The verdict on a membership test of the active-token set.
pub open spec fn checked(outcome: StoreOutcome) -> Result<(), ApiError> {
    match token_active(outcome) {
        Ok(true) => Ok(()),
        Ok(false) => Err(ApiError::InvalidToken),
        Err(e) => Err(ApiError::spec_from_store(e)),
    }
}

/// The verdict on a removal from the active-token set.
pub open spec fn revoked(outcome: StoreOutcome) -> Result<(), ApiError> {
    match tokens_removed(outcome) {
        Ok(count) => if count > 0 {
            Ok(())
        } else {
            Err(ApiError::InvalidToken)
        },
        Err(e) => Err(ApiError::spec_from_store(e)),
    }
}

/// The verdict on an insertion into the active-token set.
pub open spec fn issued(outcome: StoreOutcome) -> Result<(), ApiError> {
    match token_added(outcome) {
        Ok(()) => Ok(()),
        Err(e) => Err(ApiError::spec_from_store(e)),
    }
}

/// Compares the presented password with the configured secret. Nothing else
/// about the credentials is looked at.
pub fn authenticate(secret: &str, password: &str) -> (verdict: Result<(), ApiError>)
    ensures
        verdict == authenticated(secret@, password@),
{
    if String::from_str(password) == String::from_str(secret) {
        Ok(())
    } else {
        Err(ApiError::InvalidCredentials)
    }
}

/// Judges the store's answer to the insertion of a new token: any answer
/// that reports an insertion makes the token valid.
pub fn issue(outcome: StoreOutcome) -> (verdict: Result<(), ApiError>)
    ensures
        verdict == issued(outcome),
{
    match add_active_token(outcome) {
        Ok(()) => Ok(()),
        Err(e) => Err(ApiError::from_store(e)),
    }
}

/// Judges the store's answer to the removal of a token: the token was in
/// force exactly if something was removed.
pub fn revoke(outcome: StoreOutcome) -> (verdict: Result<(), ApiError>)
    ensures
        verdict == revoked(outcome),
{
    match remove_active_token(outcome) {
        Ok(count) => if count > 0 {
            Ok(())
        } else {
            Err(ApiError::InvalidToken)
        },
        Err(e) => Err(ApiError::from_store(e)),
    }
}

/// Judges the store's answer to a membership test: the bearer is
/// authenticated exactly if the token is a member.
pub fn check(outcome: StoreOutcome) -> (verdict: Result<(), ApiError>)
    ensures
        verdict == checked(outcome),
{
    match is_active_token(outcome) {
        Ok(true) => Ok(()),
        Ok(false) => Err(ApiError::InvalidToken),
        Err(e) => Err(ApiError::from_store(e)),
    }
}

} // verus!
