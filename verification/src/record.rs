//! Hash records: the text of an Argon2id hash, held together with what it
//! embeds.

use vstd::prelude::*;
use crate::engine::HashingEngine;
use crate::error::{ErrorKind, HashFault};
use crate::layout::{
    decimal, digest_chars, digit_char, header, is_record_text, lemma_record_text_determines,
    preamble,
};
use crate::salt::{is_b64_char, is_salt_text, Salt};

verus! {

/// The exec counterpart of [`digit_char`].
fn digit_of(d: u32) -> (c: char)
    requires
        d < 10,
    ensures
        c == digit_char(d as nat),
{
    if d == 0 {
        '0'
    } else if d == 1 {
        '1'
    } else if d == 2 {
        '2'
    } else if d == 3 {
        '3'
    } else if d == 4 {
        '4'
    } else if d == 5 {
        '5'
    } else if d == 6 {
        '6'
    } else if d == 7 {
        '7'
    } else if d == 8 {
        '8'
    } else {
        '9'
    }
}

/// Appends the decimal numeral of `n` to `out`.
fn push_decimal(out: &mut Vec<char>, n: u32)
    ensures
        final(out)@ == old(out)@ + decimal(n as nat),
    decreases n,
{
    if n < 10 {
        out.push(digit_of(n));
    } else {
        push_decimal(out, n / 10);
        out.push(digit_of(n % 10));
    }
}

/// Appends the characters of `s` to `out`.
fn push_text(out: &mut Vec<char>, s: &str)
    ensures
        final(out)@ == old(out)@ + s@,
{
    for c in it: s.chars()
        invariant
            it.seq() == s@,
            out@ == old(out)@ + s@.take(it.index() as int),
    {
        out.push(c);
    }
}

/// The characters of a record up to its digest.
fn header_chars(memory_cost: u32, time_cost: u32, parallelism: u32, salt: &str) -> (head: Vec<char>)
    ensures
        head@ == header(memory_cost, time_cost, parallelism, salt@),
{
    let mut head: Vec<char> = Vec::new();
    push_text(&mut head, "$argon2id$v=19$m=");
    proof {
        reveal_strlit("$argon2id$v=19$m=");
        assert(head@ =~= preamble());
    }
    push_decimal(&mut head, memory_cost);
    push_text(&mut head, ",t=");
    proof {
        reveal_strlit(",t=");
        assert(",t="@ =~= seq![',', 't', '=']);
    }
    push_decimal(&mut head, time_cost);
    push_text(&mut head, ",p=");
    proof {
        reveal_strlit(",p=");
        assert(",p="@ =~= seq![',', 'p', '=']);
    }
    push_decimal(&mut head, parallelism);
    head.push('$');
    push_text(&mut head, salt);
    head.push('$');
    proof {
        assert(head@ =~= header(memory_cost, time_cost, parallelism, salt@));
    }
    head
}

/// The text of an Argon2id hash together with what it embeds.
#[derive(Debug)]
pub struct HashRecord {
    encoded: String,
    memory_cost: u32,
    time_cost: u32,
    parallelism: u32,
    output_len: usize,
    salt: Salt,
}

impl View for HashRecord {
    type V = Seq<char>;

    closed spec fn view(&self) -> Seq<char> {
        self.encoded@
    }
}

/// Decides whether `c` belongs to the Base64 alphabet.
fn is_b64(c: char) -> (r: bool)
    ensures
        r == is_b64_char(c),
{
    ('a' <= c && c <= 'z') || ('A' <= c && c <= 'Z') || ('0' <= c && c <= '9') || c == '+' || c
        == '/'
}

/// Decides whether `text` is the record of a digest of `output_len` bytes
/// under the given cost parameters and salt.
pub fn check_record_text(
    text: &str,
    memory_cost: u32,
    time_cost: u32,
    parallelism: u32,
    output_len: usize,
    salt: &str,
) -> (r: bool)
    ensures
        r == is_record_text(text@, memory_cost, time_cost, parallelism, output_len, salt@),
{
    let head = header_chars(memory_cost, time_cost, parallelism, salt);
    let n = text.unicode_len();
    if n < head.len() {
        return false;
    }
    let tail: u128 = (n - head.len()) as u128;
    if (4 * (output_len as u128) + 2) / 3 != tail {
        return false;
    }
    let mut k: usize = 0;
    for c in it: text.chars()
        invariant
            it.seq() == text@,
            n == text@.len(),
            head@ == header(memory_cost, time_cost, parallelism, salt@),
            n == head.len() + digest_chars(output_len),
            k == it.index(),
            forall|i: int| 0 <= i < k && i < head.len() ==> #[trigger] text@[i] == head@[i],
            forall|i: int| head.len() <= i < k ==> is_b64_char(#[trigger] text@[i]),
    {
        if k < head.len() {
            if c != head[k] {
                return false;
            }
        } else if !is_b64(c) {
            return false;
        }
        k = k + 1;
    }
    true
}

/// The text that an outcome of the primitive carries, if any.
pub open spec fn outcome_text(outcome: Result<String, argon2::password_hash::Error>) -> Option<
    Seq<char>,
> {
    match outcome {
        Ok(text) => Some(text@),
        Err(_) => None,
    }
}

/// What sealing makes of the text that the primitive gave for `salt` under
/// the parameters of `engine`: the record that holds it where it is the
/// record text of these, and else a hashing error that keeps the salt.
pub open spec fn sealed(
    engine: HashingEngine,
    salt: Salt,
    text: Option<Seq<char>>,
    r: Result<HashRecord, ErrorKind>,
) -> bool {
    match r {
        Ok(record) => {
            &&& text == Some(record@)
            &&& record.wf()
            &&& record.spec_memory_cost() == engine.spec_memory_cost()
            &&& record.spec_time_cost() == engine.spec_time_cost()
            &&& record.spec_parallelism() == engine.spec_parallelism()
            &&& record.spec_output_len() == engine.spec_output_len()
            &&& record.spec_salt() == salt@
        },
        Err(e) => {
            &&& e matches ErrorKind::HashingError { salt: kept, cause }
            &&& kept == salt
            &&& match text {
                Some(t) => cause is Malformed && !is_record_text(
                    t,
                    engine.spec_memory_cost(),
                    engine.spec_time_cost(),
                    engine.spec_parallelism(),
                    engine.spec_output_len(),
                    salt@,
                ),
                None => cause is Rejected,
            }
        },
    }
}

impl HashRecord {
    #[verifier::type_invariant]
    spec fn describes_itself(self) -> bool {
        self.wf()
    }

    /// Memory cost that the record names, in KiB.
    pub closed spec fn spec_memory_cost(&self) -> u32 {
        self.memory_cost
    }

    /// Number of passes that the record names.
    pub closed spec fn spec_time_cost(&self) -> u32 {
        self.time_cost
    }

    /// Degree of parallelism that the record names.
    pub closed spec fn spec_parallelism(&self) -> u32 {
        self.parallelism
    }

    /// Length in bytes of the digest that the record holds.
    pub closed spec fn spec_output_len(&self) -> usize {
        self.output_len
    }

    /// Text of the salt that the record holds.
    pub closed spec fn spec_salt(&self) -> Seq<char> {
        self.salt@
    }

    /// The text of the record is the record text of what it embeds.
    pub open spec fn wf(self) -> bool {
        &&& is_salt_text(self.spec_salt())
        &&& is_record_text(
            self@,
            self.spec_memory_cost(),
            self.spec_time_cost(),
            self.spec_parallelism(),
            self.spec_output_len(),
            self.spec_salt(),
        )
    }

    /// Makes the record of what the primitive gave for `salt` under the
    /// parameters of `engine`. A text that is not the record text of these
    /// is refused, and so is the primitive's own refusal, which is kept as
    /// the cause.
    pub fn seal(
        engine: &HashingEngine,
        salt: Salt,
        outcome: Result<String, argon2::password_hash::Error>,
    ) -> (r: Result<HashRecord, ErrorKind>)
        ensures
            sealed(*engine, salt, outcome_text(outcome), r),
            outcome matches Err(refusal) ==> r matches Err(
                ErrorKind::HashingError { cause: HashFault::Rejected(kept), .. },
            ) && kept == refusal,
    {
        match outcome {
            Ok(encoded) => {
                let fits = check_record_text(
                    encoded.as_str(),
                    engine.memory_cost(),
                    engine.time_cost(),
                    engine.parallelism(),
                    engine.output_len(),
                    salt.as_str(),
                );
                if fits {
                    Ok(
                        HashRecord {
                            encoded,
                            memory_cost: engine.memory_cost(),
                            time_cost: engine.time_cost(),
                            parallelism: engine.parallelism(),
                            output_len: engine.output_len(),
                            salt,
                        },
                    )
                } else {
                    Err(ErrorKind::HashingError { salt, cause: HashFault::Malformed })
                }
            },
            Err(refusal) => Err(
                ErrorKind::HashingError { salt, cause: HashFault::Rejected(refusal) },
            ),
        }
    }

    /// The text of the record.
    pub fn as_str(&self) -> (text: &str)
        ensures
            text@ == self@,
    {
        self.encoded.as_str()
    }

    /// Memory cost that the record names, in KiB.
    #[verifier::when_used_as_spec(spec_memory_cost)]
    pub fn memory_cost(&self) -> (r: u32)
        ensures
            r == self.spec_memory_cost(),
    {
        self.memory_cost
    }

    /// Number of passes that the record names.
    #[verifier::when_used_as_spec(spec_time_cost)]
    pub fn time_cost(&self) -> (r: u32)
        ensures
            r == self.spec_time_cost(),
    {
        self.time_cost
    }

    /// Degree of parallelism that the record names.
    #[verifier::when_used_as_spec(spec_parallelism)]
    pub fn parallelism(&self) -> (r: u32)
        ensures
            r == self.spec_parallelism(),
    {
        self.parallelism
    }

    /// Length in bytes of the digest that the record holds.
    #[verifier::when_used_as_spec(spec_output_len)]
    pub fn output_len(&self) -> (r: usize)
        ensures
            r == self.spec_output_len(),
    {
        self.output_len
    }

    /// The salt that the record holds.
    pub fn salt(&self) -> (salt: &Salt)
        ensures
            salt@ == self.spec_salt(),
    {
        &self.salt
    }
}

/// A record describes itself: two records with the same text embed the same
/// cost parameters, the same salt and a digest of the same length.
pub proof fn lemma_text_determines_embedding(a: HashRecord, b: HashRecord)
    requires
        a.wf(),
        b.wf(),
        a@ == b@,
    ensures
        a.spec_memory_cost() == b.spec_memory_cost(),
        a.spec_time_cost() == b.spec_time_cost(),
        a.spec_parallelism() == b.spec_parallelism(),
        a.spec_output_len() == b.spec_output_len(),
        a.spec_salt() == b.spec_salt(),
{
    lemma_record_text_determines(
        a@,
        a.spec_memory_cost(),
        a.spec_time_cost(),
        a.spec_parallelism(),
        a.spec_output_len(),
        a.spec_salt(),
        b.spec_memory_cost(),
        b.spec_time_cost(),
        b.spec_parallelism(),
        b.spec_output_len(),
        b.spec_salt(),
    );
}

/// Hashing one password under two different salts never gives the same
/// result: two records differ in their text, and two failures keep
/// different salts.
pub proof fn lemma_distinct_salts_distinct_results(
    engine: HashingEngine,
    password: Seq<char>,
    salt_a: Salt,
    result_a: Result<HashRecord, ErrorKind>,
    salt_b: Salt,
    result_b: Result<HashRecord, ErrorKind>,
)
    requires
        salt_a@ != salt_b@,
        sealed(engine, salt_a, engine.outcome(password, salt_a@), result_a),
        sealed(engine, salt_b, engine.outcome(password, salt_b@), result_b),
    ensures
        result_a != result_b,
        result_a is Ok && result_b is Ok ==> result_a->Ok_0@ != result_b->Ok_0@,
{
    if result_a is Ok && result_b is Ok {
        let a = result_a->Ok_0;
        let b = result_b->Ok_0;
        if a@ == b@ {
            lemma_text_determines_embedding(a, b);
        }
    }
}

} // verus!
