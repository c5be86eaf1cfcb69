//! Request and response payloads.

use vstd::prelude::*;

verus! {

/// Whether `email_address::EmailAddress` accepts `address` under its default
/// options.
pub uninterp spec fn email_is_valid(address: Seq<char>) -> bool;

/// Calls `email_address::EmailAddress::is_valid`, which parses the text with
/// the default options and reports whether parsing succeeded. The answer
/// depends on the text alone.
#[verifier::external_body]
fn is_valid_email(address: &str) -> (valid: bool)
    ensures
        valid == email_is_valid(address@),
{
    email_address::EmailAddress::is_valid(address)
}

/// An e-mail address that has passed the syntax check.
#[derive(Debug, PartialEq, Eq)]
pub struct ValidEmail(String);

impl View for ValidEmail {
    type V = Seq<char>;

    closed spec fn view(&self) -> Seq<char> {
        self.0@
    }
}

impl Clone for ValidEmail {
    fn clone(&self) -> (copy: ValidEmail)
        ensures
            copy@ == self@,
    {
        proof {
            use_type_invariant(self);
        }
        ValidEmail(self.0.clone())
    }
}

impl ValidEmail {
    #[verifier::type_invariant]
    spec fn well_formed(self) -> bool {
        email_is_valid(self.0@)
    }

    /// Accepts `address` exactly when it is a syntactically valid e-mail
    /// address, and keeps its text unchanged.
    pub fn parse(address: String) -> (email: Option<ValidEmail>)
        ensures
            email is Some <==> email_is_valid(address@),
            email is Some ==> email.unwrap()@ == address@,
    {
        if is_valid_email(address.as_str()) {
            Some(ValidEmail(address))
        } else {
            None
        }
    }

    /// The address as text.
    pub fn as_str(&self) -> (text: &str)
        ensures
            text@ == self@,
            email_is_valid(text@),
    {
        proof {
            use_type_invariant(self);
        }
        self.0.as_str()
    }
}

/// Credentials presented at login.
#[derive(Clone, Debug, PartialEq, Eq)]
pub struct LoginRequest {
    pub email: ValidEmail,
    pub password: String,
}

/// Body returned by a successful login.
#[derive(Clone, Debug, PartialEq, Eq)]
pub struct LoginResponse {
    pub token: String,
}

/// Body returned by a game round.
#[derive(Clone, Copy, Debug, PartialEq, Eq)]
pub struct TryLuckResponse {
    pub win: bool,
}

/// Body returned with every failure.
#[derive(Clone, Debug, PartialEq, Eq)]
pub struct ErrorResponse {
    pub error: String,
}

} // verus!
