//! The ways in which a run can fail.

use vstd::prelude::*;
use vstd::string::*;
use crate::salt::Salt;

verus! {

/// Why a password could not be hashed.
#[derive(Debug)]
pub enum HashFault {
    /// The primitive rejected the input; its own error says why.
    Rejected(argon2::password_hash::Error),
    /// The primitive returned a text that is no record for the input.
    Malformed,
}

/// What went wrong.
#[derive(Debug)]
pub enum ErrorKind {
    /// No password could be generated for the policy.
    GenerationError,
    /// A password could not be hashed under `salt`.
    HashingError { salt: Salt, cause: HashFault },
    /// The cost parameters lie outside what the primitive accepts.
    ParamError,
}

/// Has the primitive's error describe itself through its `Display`.
#[verifier::external_body]
fn refusal_text(refusal: &argon2::password_hash::Error) -> (text: String) {
    refusal.to_string()
}

/// How a message about a failed hash begins: it names the salt, never the
/// password.
pub open spec fn hashing_message_head(salt: Seq<char>) -> Seq<char> {
    "hashing failed under salt "@ + salt + ": "@
}

impl ErrorKind {
    /// A message for the user. It names the stage that failed and, for a
    /// failed hash, the salt.
    pub fn message(&self) -> (text: String)
        ensures
            match *self {
                ErrorKind::GenerationError => text@ == "password generation failed"@,
                ErrorKind::HashingError { salt, cause } => {
                    &&& hashing_message_head(salt@).is_prefix_of(text@)
                    &&& cause is Malformed ==> text@ == hashing_message_head(salt@)
                        + "the primitive returned a malformed record"@
                },
                ErrorKind::ParamError => text@ == "invalid Argon2 parameters"@,
            },
    {
        match self {
            ErrorKind::GenerationError => String::from_str("password generation failed"),
            ErrorKind::HashingError { salt, cause } => {
                let mut text = String::from_str("hashing failed under salt ");
                text.append(salt.as_str());
                text.append(": ");
                match cause {
                    HashFault::Rejected(refusal) => {
                        let why = refusal_text(refusal);
                        text.append(why.as_str());
                    },
                    HashFault::Malformed => {
                        text.append("the primitive returned a malformed record");
                    },
                }
                text
            },
            ErrorKind::ParamError => String::from_str("invalid Argon2 parameters"),
        }
    }
}

} // verus!
