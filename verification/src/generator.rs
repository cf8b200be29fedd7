//! Drawing a password for a policy and scoring its strength.

use vstd::prelude::*;
use crate::error::ErrorKind;
use crate::policy::{PasswordPolicy, MAX_LENGTH};
use passwords::{analyzer, scorer, PasswordGenerator};

verus! {

/// Bit pattern of the score 100, the highest there is.
pub const TOP_SCORE_BITS: u64 = 0x4059_0000_0000_0000;

/// The strength score of a password, as the bit pattern of a binary64
/// number.
pub uninterp spec fn strength_bits(password: Seq<char>) -> u64;

/// Has `analyzer::analyze` count what `password` is made of and
/// `scorer::score` weigh the counts, and returns the bit pattern of the
/// score. The score depends on the characters of the password alone and lies
/// between 0 and 100; of two such numbers the greater has the greater bit
/// pattern.
#[verifier::external_body]
fn score_bits(password: &str) -> (bits: u64)
    ensures
        bits == strength_bits(password@),
        bits <= TOP_SCORE_BITS,
{
    scorer::score(&analyzer::analyze(password)).to_bits()
}

/// The score is a function of the password: the same characters have the
/// same score.
pub proof fn lemma_score_deterministic(a: Seq<char>, b: Seq<char>)
    requires
        a == b,
    ensures
        strength_bits(a) == strength_bits(b),
{
}

/// Has `PasswordGenerator::generate_one` draw a password for `policy`, with
/// spaces switched off. The call fails exactly on a policy that no password
/// meets; whatever it draws otherwise is a password that the policy admits.
/// It reserves a buffer of the policy's length at once, so a caller keeps
/// that length within what a buffer can hold.
#[verifier::external_body]
fn draw_password(policy: &PasswordPolicy) -> (r: Result<String, &'static str>)
    requires
        policy.length <= MAX_LENGTH,
    ensures
        r is Ok <==> policy.satisfiable(),
        r matches Ok(drawn) ==> policy.admits(drawn@),
{
    let generator = PasswordGenerator {
        length: policy.length,
        numbers: policy.include_numbers,
        lowercase_letters: policy.include_lowercase,
        uppercase_letters: policy.include_uppercase,
        symbols: policy.include_symbols,
        spaces: false,
        exclude_similar_characters: policy.exclude_similar_characters,
        strict: policy.strict,
    };
    generator.generate_one()
}

/// A password in the clear, with its strength score.
pub struct GeneratedPassword {
    /// The password. It is wiped once it has been hashed.
    pub plaintext: String,
    /// The strength score, as the bit pattern of a binary64 number.
    pub score_bits: u64,
}

impl GeneratedPassword {
    /// Whether the password is one that `policy` asks for and carries the
    /// score of its own plaintext.
    pub open spec fn meets(self, policy: PasswordPolicy) -> bool {
        &&& policy.admits(self.plaintext@)
        &&& self.score_bits == strength_bits(self.plaintext@)
        &&& self.score_bits <= TOP_SCORE_BITS
    }
}

/// The strength score of `password`, as the bit pattern of a binary64 number
/// between 0 and 100.
pub fn score(password: &str) -> (bits: u64)
    ensures
        bits == strength_bits(password@),
        bits <= TOP_SCORE_BITS,
{
    score_bits(password)
}

/// What becomes of a draw for `policy`: a drawn text that the policy admits
/// is the password, with its score; anything else is a failed generation.
pub open spec fn admitted(
    policy: PasswordPolicy,
    drawn: Option<Seq<char>>,
    r: Result<GeneratedPassword, ErrorKind>,
) -> bool {
    match r {
        Ok(password) => {
            &&& drawn == Some(password.plaintext@)
            &&& password.meets(policy)
        },
        Err(e) => {
            &&& e is GenerationError
            &&& drawn matches Some(text) ==> !policy.admits(text)
        },
    }
}

/// The text that a draw carries, if any.
pub open spec fn drawn_text(drawn: Result<String, &'static str>) -> Option<Seq<char>> {
    match drawn {
        Ok(text) => Some(text@),
        Err(_) => None,
    }
}

/// Takes a draw for `policy`, checks the drawn text against the policy and
/// scores it.
pub fn admit_draw(policy: &PasswordPolicy, drawn: Result<String, &'static str>) -> (r: Result<
    GeneratedPassword,
    ErrorKind,
>)
    ensures
        admitted(*policy, drawn_text(drawn), r),
{
    match drawn {
        Ok(plaintext) => {
            if policy.accepts(plaintext.as_str()) {
                let score_bits = score(plaintext.as_str());
                Ok(GeneratedPassword { plaintext, score_bits })
            } else {
                Err(ErrorKind::GenerationError)
            }
        },
        Err(_) => Err(ErrorKind::GenerationError),
    }
}

/// What a generation for `policy` gives: a password that the policy admits,
/// with its score, exactly where some password meets the policy.
pub open spec fn generated(policy: PasswordPolicy, r: Result<GeneratedPassword, ErrorKind>) -> bool {
    match r {
        Ok(password) => {
            &&& policy.satisfiable()
            &&& password.meets(policy)
        },
        Err(e) => {
            &&& !policy.satisfiable()
            &&& e is GenerationError
        },
    }
}

/// Generates one password for `policy` and scores it.
pub fn generate_password(policy: &PasswordPolicy) -> (r: Result<GeneratedPassword, ErrorKind>)
    ensures
        generated(*policy, r),
{
    if policy.length > MAX_LENGTH {
        return Err(ErrorKind::GenerationError);
    }
    admit_draw(policy, draw_password(policy))
}

} // verus!
