//! Character classes and the password policy built from them.

use vstd::prelude::*;

verus! {

/// The decimal digits.
pub open spec fn is_digit(c: char) -> bool {
    '0' <= c <= '9'
}

/// The lowercase Latin letters.
pub open spec fn is_lowercase(c: char) -> bool {
    'a' <= c <= 'z'
}

/// The uppercase Latin letters.
pub open spec fn is_uppercase(c: char) -> bool {
    'A' <= c <= 'Z'
}

/// The printable ASCII characters that are neither a letter, a digit nor the
/// space.
pub open spec fn is_symbol(c: char) -> bool {
    ||| '!' <= c <= '/'
    ||| ':' <= c <= '@'
    ||| '[' <= c <= '`'
    ||| '{' <= c <= '~'
}

/// The characters that are easily mistaken for one another.
pub open spec fn is_similar(c: char) -> bool {
    ||| c == 'i'
    ||| c == 'I'
    ||| c == '1'
    ||| c == 'l'
    ||| c == 'o'
    ||| c == 'O'
    ||| c == '0'
    ||| c == '"'
    ||| c == '\''
    ||| c == '`'
    ||| c == '|'
}

/// Whether a digit occurs in `s`.
pub open spec fn has_digit(s: Seq<char>) -> bool {
    exists|i: int| 0 <= i < s.len() && is_digit(#[trigger] s[i])
}

/// Whether a lowercase letter occurs in `s`.
pub open spec fn has_lowercase(s: Seq<char>) -> bool {
    exists|i: int| 0 <= i < s.len() && is_lowercase(#[trigger] s[i])
}

/// Whether an uppercase letter occurs in `s`.
pub open spec fn has_uppercase(s: Seq<char>) -> bool {
    exists|i: int| 0 <= i < s.len() && is_uppercase(#[trigger] s[i])
}

/// Whether a symbol occurs in `s`.
pub open spec fn has_symbol(s: Seq<char>) -> bool {
    exists|i: int| 0 <= i < s.len() && is_symbol(#[trigger] s[i])
}

/// Most characters of a password: what the largest buffer can hold.
pub const MAX_LENGTH: usize = usize::MAX / 2;

/// What a generated password has to look like.
#[derive(Clone, Copy, Debug, PartialEq, Eq, Structural)]
pub struct PasswordPolicy {
    /// Number of characters of a password.
    pub length: usize,
    /// Digits may occur, and must if `strict`.
    pub include_numbers: bool,
    /// Lowercase letters may occur, and must if `strict`.
    pub include_lowercase: bool,
    /// Uppercase letters may occur, and must if `strict`.
    pub include_uppercase: bool,
    /// Symbols may occur, and must if `strict`.
    pub include_symbols: bool,
    /// No character of the ambiguous set may occur.
    pub exclude_similar_characters: bool,
    /// Every enabled class must occur at least once.
    pub strict: bool,
}

impl PasswordPolicy {
    /// Number of enabled character classes.
    pub open spec fn class_count(self) -> nat {
        (if self.include_numbers { 1nat } else { 0nat })
            + (if self.include_lowercase { 1nat } else { 0nat })
            + (if self.include_uppercase { 1nat } else { 0nat })
            + (if self.include_symbols { 1nat } else { 0nat })
    }

    /// A policy that some password meets: a positive length that a buffer
    /// can hold, at least one class, and under `strict` room for one
    /// character of each class.
    pub open spec fn satisfiable(self) -> bool {
        &&& 0 < self.length <= MAX_LENGTH
        &&& self.class_count() > 0
        &&& self.strict ==> self.length >= self.class_count()
    }

    /// Whether `c` belongs to the union of the enabled classes.
    pub open spec fn in_enabled_class(self, c: char) -> bool {
        ||| self.include_numbers && is_digit(c)
        ||| self.include_lowercase && is_lowercase(c)
        ||| self.include_uppercase && is_uppercase(c)
        ||| self.include_symbols && is_symbol(c)
    }

    /// Whether `c` may occur in a password.
    pub open spec fn permits(self, c: char) -> bool {
        &&& self.in_enabled_class(c)
        &&& self.exclude_similar_characters ==> !is_similar(c)
    }

    /// Whether every enabled class occurs in `s`.
    pub open spec fn covered_by(self, s: Seq<char>) -> bool {
        &&& self.include_numbers ==> has_digit(s)
        &&& self.include_lowercase ==> has_lowercase(s)
        &&& self.include_uppercase ==> has_uppercase(s)
        &&& self.include_symbols ==> has_symbol(s)
    }

    /// Whether `s` is a password that the policy asks for.
    pub open spec fn admits(self, s: Seq<char>) -> bool {
        &&& s.len() == self.length
        &&& forall|i: int| 0 <= i < s.len() ==> self.permits(#[trigger] s[i])
        &&& self.strict ==> self.covered_by(s)
    }

    /// A password that the policy admits has the length that the policy
    /// names, holds only characters of the enabled classes, none of them
    /// ambiguous where those are excluded, and under `strict` at least one
    /// character of each enabled class.
    pub proof fn lemma_admitted(self, s: Seq<char>)
        requires
            self.admits(s),
        ensures
            s.len() == self.length,
            forall|i: int| 0 <= i < s.len() ==> self.in_enabled_class(#[trigger] s[i]),
            self.exclude_similar_characters ==> forall|i: int|
                0 <= i < s.len() ==> !is_similar(#[trigger] s[i]),
            self.strict && self.include_numbers ==> has_digit(s),
            self.strict && self.include_lowercase ==> has_lowercase(s),
            self.strict && self.include_uppercase ==> has_uppercase(s),
            self.strict && self.include_symbols ==> has_symbol(s),
    {
        assert forall|i: int| 0 <= i < s.len() implies self.in_enabled_class(#[trigger] s[i]) by {
            assert(self.permits(s[i]));
        }
        if self.exclude_similar_characters {
            assert forall|i: int| 0 <= i < s.len() implies !is_similar(#[trigger] s[i]) by {
                assert(self.permits(s[i]));
            }
        }
    }

    /// Decides whether any password can meet the policy.
    pub fn is_satisfiable(&self) -> (r: bool)
        ensures
            r == self.satisfiable(),
    {
        let mut classes: usize = 0;
        if self.include_numbers {
            classes = classes + 1;
        }
        if self.include_lowercase {
            classes = classes + 1;
        }
        if self.include_uppercase {
            classes = classes + 1;
        }
        if self.include_symbols {
            classes = classes + 1;
        }
        self.length > 0 && self.length <= MAX_LENGTH && classes > 0 && (!self.strict || self.length
            >= classes)
    }

    /// Decides whether `c` may occur in a password.
    pub fn permits_char(&self, c: char) -> (r: bool)
        ensures
            r == self.permits(c),
    {
        let digit = '0' <= c && c <= '9';
        let lower = 'a' <= c && c <= 'z';
        let upper = 'A' <= c && c <= 'Z';
        let symbol = ('!' <= c && c <= '/') || (':' <= c && c <= '@') || ('[' <= c && c <= '`')
            || ('{' <= c && c <= '~');
        let similar = c == 'i' || c == 'I' || c == '1' || c == 'l' || c == 'o' || c == 'O'
            || c == '0' || c == '"' || c == '\'' || c == '`' || c == '|';
        let in_class = (self.include_numbers && digit) || (self.include_lowercase && lower)
            || (self.include_uppercase && upper) || (self.include_symbols && symbol);
        in_class && !(self.exclude_similar_characters && similar)
    }

    /// Decides whether `password` is one that the policy asks for.
    pub fn accepts(&self, password: &str) -> (r: bool)
        ensures
            r == self.admits(password@),
    {
        let n = password.unicode_len();
        if n != self.length {
            return false;
        }
        let mut permitted = true;
        let mut digit = false;
        let mut lower = false;
        let mut upper = false;
        let mut symbol = false;
        for c in it: password.chars()
            invariant
                it.seq() == password@,
                permitted == (forall|i: int|
                    0 <= i < it.index() ==> self.permits(#[trigger] password@[i])),
                digit == (exists|i: int|
                    0 <= i < it.index() && is_digit(#[trigger] password@[i])),
                lower == (exists|i: int|
                    0 <= i < it.index() && is_lowercase(#[trigger] password@[i])),
                upper == (exists|i: int|
                    0 <= i < it.index() && is_uppercase(#[trigger] password@[i])),
                symbol == (exists|i: int|
                    0 <= i < it.index() && is_symbol(#[trigger] password@[i])),
        {
            permitted = permitted && self.permits_char(c);
            digit = digit || ('0' <= c && c <= '9');
            lower = lower || ('a' <= c && c <= 'z');
            upper = upper || ('A' <= c && c <= 'Z');
            symbol = symbol || ('!' <= c && c <= '/') || (':' <= c && c <= '@')
                || ('[' <= c && c <= '`') || ('{' <= c && c <= '~');
        }
        let covered = (!self.include_numbers || digit) && (!self.include_lowercase || lower)
            && (!self.include_uppercase || upper) && (!self.include_symbols || symbol);
        permitted && (!self.strict || covered)
    }
}

} // verus!
