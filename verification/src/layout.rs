//! The layout of a hash record.
//!
//! A record reads `$argon2id$v=19$m=<memory>,t=<passes>,p=<lanes>$<salt>$<digest>`,
//! with the three cost parameters in decimal and the digest in unpadded
//! Base64. The layout is self-describing: the text of a record determines
//! every value that it embeds.

use vstd::prelude::*;
use crate::salt::{is_b64_char, is_salt_text};

verus! {

/// The character of a decimal digit.
pub open spec fn digit_char(d: nat) -> char {
    if d == 0 {
        '0'
    } else if d == 1 {
        '1'
    } else if d == 2 {
        '2'
    } else if d == 3 {
        '3'
    } else if d == 4 {
        '4'
    } else if d == 5 {
        '5'
    } else if d == 6 {
        '6'
    } else if d == 7 {
        '7'
    } else if d == 8 {
        '8'
    } else {
        '9'
    }
}

/// The decimal numeral of `n`, without leading zeros.
pub open spec fn decimal(n: nat) -> Seq<char>
    decreases n,
{
    if n < 10 {
        seq![digit_char(n)]
    } else {
        decimal(n / 10).push(digit_char(n % 10))
    }
}

/// What every record starts with: the algorithm and its version.
pub open spec fn preamble() -> Seq<char> {
    seq!['$', 'a', 'r', 'g', 'o', 'n', '2', 'i', 'd', '$', 'v', '=', '1', '9', '$', 'm', '=']
}

/// A record from its salt up to its digest.
pub open spec fn salt_part(salt: Seq<char>) -> Seq<char> {
    seq!['$'] + (salt + seq!['$'])
}

/// A record from its degree of parallelism up to its digest.
pub open spec fn parallelism_part(parallelism: u32, salt: Seq<char>) -> Seq<char> {
    seq![',', 'p', '='] + (decimal(parallelism as nat) + salt_part(salt))
}

/// A record from its number of passes up to its digest.
pub open spec fn time_part(time_cost: u32, parallelism: u32, salt: Seq<char>) -> Seq<char> {
    seq![',', 't', '='] + (decimal(time_cost as nat) + parallelism_part(parallelism, salt))
}

/// A record up to its digest.
pub open spec fn header(memory_cost: u32, time_cost: u32, parallelism: u32, salt: Seq<char>) -> Seq<
    char,
> {
    preamble() + (decimal(memory_cost as nat) + time_part(time_cost, parallelism, salt))
}

/// Number of characters of the unpadded Base64 of `output_len` bytes.
pub open spec fn digest_chars(output_len: usize) -> nat {
    ((4 * output_len + 2) / 3) as nat
}

/// Whether `text` is the record of a digest of `output_len` bytes under the
/// given cost parameters and salt.
pub open spec fn is_record_text(
    text: Seq<char>,
    memory_cost: u32,
    time_cost: u32,
    parallelism: u32,
    output_len: usize,
    salt: Seq<char>,
) -> bool {
    let head = header(memory_cost, time_cost, parallelism, salt);
    &&& text.len() == head.len() + digest_chars(output_len)
    &&& forall|i: int| 0 <= i < head.len() ==> #[trigger] text[i] == head[i]
    &&& forall|i: int| head.len() <= i < text.len() ==> is_b64_char(#[trigger] text[i])
}

/// Whether `c` is a decimal digit.
pub open spec fn is_decimal_digit(c: char) -> bool {
    '0' <= c <= '9'
}

/// A decimal numeral is not empty and holds digits only.
pub proof fn lemma_decimal_digits(n: nat)
    ensures
        decimal(n).len() >= 1,
        n >= 10 ==> decimal(n).len() >= 2,
        forall|i: int| 0 <= i < decimal(n).len() ==> is_decimal_digit(#[trigger] decimal(n)[i]),
    decreases n,
{
    if n >= 10 {
        lemma_decimal_digits(n / 10);
    }
}

/// Two digits with the same character are the same.
pub proof fn lemma_digit_char_injective(a: nat, b: nat)
    requires
        a < 10,
        b < 10,
        digit_char(a) == digit_char(b),
    ensures
        a == b,
{
}

/// Two numbers with the same decimal numeral are the same.
pub proof fn lemma_decimal_injective(a: nat, b: nat)
    requires
        decimal(a) == decimal(b),
    ensures
        a == b,
    decreases a,
{
    lemma_decimal_digits(a);
    lemma_decimal_digits(b);
    if a < 10 || b < 10 {
        assert(a < 10 && b < 10);
        assert(decimal(a)[0] == digit_char(a));
        assert(decimal(b)[0] == digit_char(b));
        lemma_digit_char_injective(a, b);
    } else {
        assert(decimal(a / 10) =~= decimal(a).drop_last());
        assert(decimal(b / 10) =~= decimal(b).drop_last());
        assert(decimal(a).last() == digit_char(a % 10));
        assert(decimal(b).last() == digit_char(b % 10));
        lemma_decimal_injective(a / 10, b / 10);
        lemma_digit_char_injective(a % 10, b % 10);
    }
}

/// Two texts that are each a stretch free of `stop` followed by `stop` and a
/// rest, and that are the same text, have the same stretch and the same
/// rest.
pub proof fn lemma_cut_at_stop(
    a: Seq<char>,
    rest_a: Seq<char>,
    b: Seq<char>,
    rest_b: Seq<char>,
    stop: char,
)
    requires
        a + rest_a == b + rest_b,
        rest_a.len() > 0 && rest_a[0] == stop,
        rest_b.len() > 0 && rest_b[0] == stop,
        forall|i: int| 0 <= i < a.len() ==> #[trigger] a[i] != stop,
        forall|i: int| 0 <= i < b.len() ==> #[trigger] b[i] != stop,
    ensures
        a == b,
        rest_a == rest_b,
{
    let whole = a + rest_a;
    if a.len() < b.len() {
        assert(whole[a.len() as int] == rest_a[0]);
        assert((b + rest_b)[a.len() as int] == b[a.len() as int]);
        assert(false);
    }
    if b.len() < a.len() {
        assert((b + rest_b)[b.len() as int] == rest_b[0]);
        assert(whole[b.len() as int] == a[b.len() as int]);
        assert(false);
    }
    assert(a =~= whole.subrange(0, a.len() as int));
    assert(b =~= (b + rest_b).subrange(0, b.len() as int));
    assert(rest_a =~= whole.subrange(a.len() as int, whole.len() as int));
    assert(rest_b =~= (b + rest_b).subrange(b.len() as int, whole.len() as int));
}

/// Two texts that begin with the same stretch and are the same text have the
/// same rest.
pub proof fn lemma_strip_prefix(prefix: Seq<char>, rest_a: Seq<char>, rest_b: Seq<char>)
    requires
        prefix + rest_a == prefix + rest_b,
    ensures
        rest_a == rest_b,
{
    assert(rest_a =~= (prefix + rest_a).subrange(
        prefix.len() as int,
        (prefix + rest_a).len() as int,
    ));
    assert(rest_b =~= (prefix + rest_b).subrange(
        prefix.len() as int,
        (prefix + rest_b).len() as int,
    ));
}

/// The number of characters of a digest determines the number of its bytes.
pub proof fn lemma_digest_chars_injective(a: usize, b: usize)
    requires
        digest_chars(a) == digest_chars(b),
    ensures
        a == b,
{
}

/// A record text is its header followed by a digest in Base64.
pub proof fn lemma_record_text_split(
    text: Seq<char>,
    memory_cost: u32,
    time_cost: u32,
    parallelism: u32,
    output_len: usize,
    salt: Seq<char>,
)
    requires
        is_record_text(text, memory_cost, time_cost, parallelism, output_len, salt),
    ensures
        text == header(memory_cost, time_cost, parallelism, salt) + text.skip(
            header(memory_cost, time_cost, parallelism, salt).len() as int,
        ),
        text.skip(header(memory_cost, time_cost, parallelism, salt).len() as int).len()
            == digest_chars(output_len),
{
    let head = header(memory_cost, time_cost, parallelism, salt);
    assert(text =~= head + text.skip(head.len() as int));
}

/// Two texts that are each a decimal numeral followed by `stop` and a rest,
/// and that are the same text, hold the same number and the same rest.
pub proof fn lemma_numeral_cut(
    a: nat,
    rest_a: Seq<char>,
    b: nat,
    rest_b: Seq<char>,
    stop: char,
)
    requires
        decimal(a) + rest_a == decimal(b) + rest_b,
        rest_a.len() > 0 && rest_a[0] == stop,
        rest_b.len() > 0 && rest_b[0] == stop,
        !is_decimal_digit(stop),
    ensures
        a == b,
        rest_a == rest_b,
{
    lemma_decimal_digits(a);
    lemma_decimal_digits(b);
    lemma_cut_at_stop(decimal(a), rest_a, decimal(b), rest_b, stop);
    lemma_decimal_injective(a, b);
}

/// The end of a header determines its salt and what follows the header.
pub proof fn lemma_salt_part_determines(
    salt_a: Seq<char>,
    digest_a: Seq<char>,
    salt_b: Seq<char>,
    digest_b: Seq<char>,
)
    requires
        is_salt_text(salt_a),
        is_salt_text(salt_b),
        salt_part(salt_a) + digest_a == salt_part(salt_b) + digest_b,
    ensures
        salt_a == salt_b,
        digest_a == digest_b,
{
    let after_a = seq!['$'] + digest_a;
    let after_b = seq!['$'] + digest_b;
    assert(salt_part(salt_a) + digest_a =~= seq!['$'] + (salt_a + after_a));
    assert(salt_part(salt_b) + digest_b =~= seq!['$'] + (salt_b + after_b));
    lemma_strip_prefix(seq!['$'], salt_a + after_a, salt_b + after_b);
    lemma_cut_at_stop(salt_a, after_a, salt_b, after_b, '$');
    lemma_strip_prefix(seq!['$'], digest_a, digest_b);
}

/// A header from its degree of parallelism on determines that degree, the
/// salt and what follows the header.
pub proof fn lemma_parallelism_part_determines(
    lanes_a: u32,
    salt_a: Seq<char>,
    digest_a: Seq<char>,
    lanes_b: u32,
    salt_b: Seq<char>,
    digest_b: Seq<char>,
)
    requires
        is_salt_text(salt_a),
        is_salt_text(salt_b),
        parallelism_part(lanes_a, salt_a) + digest_a == parallelism_part(lanes_b, salt_b)
            + digest_b,
    ensures
        lanes_a == lanes_b,
        salt_a == salt_b,
        digest_a == digest_b,
{
    let after_a = salt_part(salt_a) + digest_a;
    let after_b = salt_part(salt_b) + digest_b;
    assert(parallelism_part(lanes_a, salt_a) + digest_a =~= seq![',', 'p', '='] + (decimal(
        lanes_a as nat,
    ) + after_a));
    assert(parallelism_part(lanes_b, salt_b) + digest_b =~= seq![',', 'p', '='] + (decimal(
        lanes_b as nat,
    ) + after_b));
    lemma_strip_prefix(
        seq![',', 'p', '='],
        decimal(lanes_a as nat) + after_a,
        decimal(lanes_b as nat) + after_b,
    );
    assert(after_a[0] == '$');
    assert(after_b[0] == '$');
    lemma_numeral_cut(lanes_a as nat, after_a, lanes_b as nat, after_b, '$');
    lemma_salt_part_determines(salt_a, digest_a, salt_b, digest_b);
}

/// A header from its number of passes on determines that number, the degree
/// of parallelism, the salt and what follows the header.
pub proof fn lemma_time_part_determines(
    time_a: u32,
    lanes_a: u32,
    salt_a: Seq<char>,
    digest_a: Seq<char>,
    time_b: u32,
    lanes_b: u32,
    salt_b: Seq<char>,
    digest_b: Seq<char>,
)
    requires
        is_salt_text(salt_a),
        is_salt_text(salt_b),
        time_part(time_a, lanes_a, salt_a) + digest_a == time_part(time_b, lanes_b, salt_b)
            + digest_b,
    ensures
        time_a == time_b,
        lanes_a == lanes_b,
        salt_a == salt_b,
        digest_a == digest_b,
{
    let after_a = parallelism_part(lanes_a, salt_a) + digest_a;
    let after_b = parallelism_part(lanes_b, salt_b) + digest_b;
    assert(time_part(time_a, lanes_a, salt_a) + digest_a =~= seq![',', 't', '='] + (decimal(
        time_a as nat,
    ) + after_a));
    assert(time_part(time_b, lanes_b, salt_b) + digest_b =~= seq![',', 't', '='] + (decimal(
        time_b as nat,
    ) + after_b));
    lemma_strip_prefix(
        seq![',', 't', '='],
        decimal(time_a as nat) + after_a,
        decimal(time_b as nat) + after_b,
    );
    assert(after_a[0] == ',');
    assert(after_b[0] == ',');
    lemma_numeral_cut(time_a as nat, after_a, time_b as nat, after_b, ',');
    lemma_parallelism_part_determines(lanes_a, salt_a, digest_a, lanes_b, salt_b, digest_b);
}

/// A header determines the cost parameters, the salt and what follows the
/// header.
pub proof fn lemma_header_determines(
    memory_a: u32,
    time_a: u32,
    lanes_a: u32,
    salt_a: Seq<char>,
    digest_a: Seq<char>,
    memory_b: u32,
    time_b: u32,
    lanes_b: u32,
    salt_b: Seq<char>,
    digest_b: Seq<char>,
)
    requires
        is_salt_text(salt_a),
        is_salt_text(salt_b),
        header(memory_a, time_a, lanes_a, salt_a) + digest_a == header(
            memory_b,
            time_b,
            lanes_b,
            salt_b,
        ) + digest_b,
    ensures
        memory_a == memory_b,
        time_a == time_b,
        lanes_a == lanes_b,
        salt_a == salt_b,
        digest_a == digest_b,
{
    let after_a = time_part(time_a, lanes_a, salt_a) + digest_a;
    let after_b = time_part(time_b, lanes_b, salt_b) + digest_b;
    assert(header(memory_a, time_a, lanes_a, salt_a) + digest_a =~= preamble() + (decimal(
        memory_a as nat,
    ) + after_a));
    assert(header(memory_b, time_b, lanes_b, salt_b) + digest_b =~= preamble() + (decimal(
        memory_b as nat,
    ) + after_b));
    lemma_strip_prefix(
        preamble(),
        decimal(memory_a as nat) + after_a,
        decimal(memory_b as nat) + after_b,
    );
    assert(after_a[0] == ',');
    assert(after_b[0] == ',');
    lemma_numeral_cut(memory_a as nat, after_a, memory_b as nat, after_b, ',');
    lemma_time_part_determines(
        time_a,
        lanes_a,
        salt_a,
        digest_a,
        time_b,
        lanes_b,
        salt_b,
        digest_b,
    );
}

/// The text of a record determines what it embeds: two readings of one text
/// as a record agree on the cost parameters, the salt and the length of the
/// digest.
pub proof fn lemma_record_text_determines(
    text: Seq<char>,
    memory_a: u32,
    time_a: u32,
    lanes_a: u32,
    len_a: usize,
    salt_a: Seq<char>,
    memory_b: u32,
    time_b: u32,
    lanes_b: u32,
    len_b: usize,
    salt_b: Seq<char>,
)
    requires
        is_salt_text(salt_a),
        is_salt_text(salt_b),
        is_record_text(text, memory_a, time_a, lanes_a, len_a, salt_a),
        is_record_text(text, memory_b, time_b, lanes_b, len_b, salt_b),
    ensures
        memory_a == memory_b,
        time_a == time_b,
        lanes_a == lanes_b,
        len_a == len_b,
        salt_a == salt_b,
{
    lemma_record_text_split(text, memory_a, time_a, lanes_a, len_a, salt_a);
    lemma_record_text_split(text, memory_b, time_b, lanes_b, len_b, salt_b);
    let digest_a = text.skip(header(memory_a, time_a, lanes_a, salt_a).len() as int);
    let digest_b = text.skip(header(memory_b, time_b, lanes_b, salt_b).len() as int);
    lemma_header_determines(
        memory_a,
        time_a,
        lanes_a,
        salt_a,
        digest_a,
        memory_b,
        time_b,
        lanes_b,
        salt_b,
        digest_b,
    );
    lemma_digest_chars_injective(len_a, len_b);
}

} // verus!
