//! Salts: short texts over the alphabet that a hash record may embed.

use vstd::prelude::*;
use argon2::password_hash::SaltString;
use rand_core::OsRng;

verus! {

/// The alphabet of unpadded standard Base64: letters, digits, `+` and `/`.
pub open spec fn is_b64_char(c: char) -> bool {
    ||| 'a' <= c <= 'z'
    ||| 'A' <= c <= 'Z'
    ||| '0' <= c <= '9'
    ||| c == '+'
    ||| c == '/'
}

/// The characters that a salt may hold: the Base64 alphabet, `.` and `-`.
pub open spec fn is_salt_char(c: char) -> bool {
    ||| is_b64_char(c)
    ||| c == '.'
    ||| c == '-'
}

/// Fewest characters of a salt.
pub const MIN_SALT_CHARS: usize = 4;

/// Most characters of a salt.
pub const MAX_SALT_CHARS: usize = 64;

/// Number of characters of a freshly drawn salt: 16 random bytes in Base64.
pub const FRESH_SALT_CHARS: usize = 22;

/// Whether `s` is the text of a salt.
pub open spec fn is_salt_text(s: Seq<char>) -> bool {
    &&& MIN_SALT_CHARS <= s.len() <= MAX_SALT_CHARS
    &&& forall|i: int| 0 <= i < s.len() ==> is_salt_char(#[trigger] s[i])
}

/// Whether `s` is what a fresh salt looks like.
pub open spec fn is_fresh_salt_text(s: Seq<char>) -> bool {
    &&& s.len() == FRESH_SALT_CHARS
    &&& forall|i: int| 0 <= i < s.len() ==> is_b64_char(#[trigger] s[i])
}

/// A salt, held as its text.
#[derive(Debug)]
pub struct Salt {
    text: String,
}

impl View for Salt {
    type V = Seq<char>;

    closed spec fn view(&self) -> Seq<char> {
        self.text@
    }
}

/// Draws 16 bytes from the operating system's random source with
/// `SaltString::generate` and returns their text. Whatever was drawn, the
/// text is the unpadded Base64 of 16 bytes: 22 characters of that alphabet.
#[verifier::external_body]
fn draw_salt_text() -> (text: String)
    ensures
        is_fresh_salt_text(text@),
{
    SaltString::generate(&mut OsRng).as_str().to_owned()
}

/// Decides whether `c` may occur in a salt.
fn fits_salt(c: char) -> (r: bool)
    ensures
        r == is_salt_char(c),
{
    ('a' <= c && c <= 'z') || ('A' <= c && c <= 'Z') || ('0' <= c && c <= '9') || c == '+' || c
        == '/' || c == '.' || c == '-'
}

impl Salt {
    #[verifier::type_invariant]
    spec fn well_formed(self) -> bool {
        is_salt_text(self.text@)
    }

    /// Makes a salt of `text`, or nothing where `text` is no salt text.
    pub fn parse(text: &str) -> (r: Option<Salt>)
        ensures
            match r {
                Some(salt) => is_salt_text(text@) && salt@ == text@,
                None => !is_salt_text(text@),
            },
    {
        let n = text.unicode_len();
        if n < MIN_SALT_CHARS || n > MAX_SALT_CHARS {
            return None;
        }
        for c in it: text.chars()
            invariant
                it.seq() == text@,
                forall|i: int| 0 <= i < it.index() ==> is_salt_char(#[trigger] text@[i]),
        {
            if !fits_salt(c) {
                return None;
            }
        }
        Some(Salt { text: text.to_owned() })
    }

    /// A salt drawn afresh from the operating system's random source.
    pub fn generate() -> (salt: Salt)
        ensures
            is_fresh_salt_text(salt@),
    {
        let text = draw_salt_text();
        Salt { text }
    }

    /// The text of the salt.
    pub fn as_str(&self) -> (text: &str)
        ensures
            text@ == self@,
            is_salt_text(text@),
    {
        proof {
            use_type_invariant(self);
        }
        self.text.as_str()
    }
}

} // verus!
