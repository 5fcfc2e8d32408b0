//! The content hash of a block: the text that is hashed, and its digest.

use vstd::prelude::*;

verus! {

/// The character that stands for a decimal digit.
pub open spec fn digit_char(d: nat) -> char {
    if d == 0 {
        '0'
    } else if d == 1 {
        '1'
    } else if d == 2 {
        '2'
    } else if d == 3 {
        '3'
    } else if d == 4 {
        '4'
    } else if d == 5 {
        '5'
    } else if d == 6 {
        '6'
    } else if d == 7 {
        '7'
    } else if d == 8 {
        '8'
    } else {
        '9'
    }
}

/// The decimal numeral of `n`, most significant digit first, without
/// leading zeros (`0` is written "0").
pub open spec fn decimal(n: nat) -> Seq<char>
    decreases n,
{
    if n < 10 {
        seq![digit_char(n)]
    } else {
        decimal(n / 10).push(digit_char(n % 10))
    }
}

fn digit_str(d: u64) -> (s: &'static str)
    requires
        d < 10,
    ensures
        s@ == seq![digit_char(d as nat)],
{
    proof {
        reveal_strlit("0");
        reveal_strlit("1");
        reveal_strlit("2");
        reveal_strlit("3");
        reveal_strlit("4");
        reveal_strlit("5");
        reveal_strlit("6");
        reveal_strlit("7");
        reveal_strlit("8");
        reveal_strlit("9");
    }
    if d == 0 {
        "0"
    } else if d == 1 {
        "1"
    } else if d == 2 {
        "2"
    } else if d == 3 {
        "3"
    } else if d == 4 {
        "4"
    } else if d == 5 {
        "5"
    } else if d == 6 {
        "6"
    } else if d == 7 {
        "7"
    } else if d == 8 {
        "8"
    } else {
        "9"
    }
}

/// Appends the decimal numeral of `n` to `out`.
pub fn push_decimal(out: &mut String, n: u64)
    ensures
        final(out)@ == old(out)@ + decimal(n as nat),
    decreases n,
{
    if n >= 10 {
        push_decimal(out, n / 10);
    }
    out.append(digit_str(n % 10));
}

/// A hexadecimal digit, in either case.
pub open spec fn is_hex_char(c: char) -> bool {
    ('0' <= c <= '9') || ('a' <= c <= 'f') || ('A' <= c <= 'F')
}

/// The number that a hexadecimal digit stands for.
pub open spec fn hex_value(c: char) -> nat
    recommends
        is_hex_char(c),
{
    if '0' <= c <= '9' {
        (c as int - '0' as int) as nat
    } else if 'a' <= c <= 'f' {
        (c as int - 'a' as int + 10) as nat
    } else {
        (c as int - 'A' as int + 10) as nat
    }
}

/// A text made of hexadecimal digits only.
pub open spec fn is_hex(s: Seq<char>) -> bool {
    forall|i: int| 0 <= i < s.len() ==> is_hex_char(#[trigger] s[i])
}

/// The shape of a SHA-256 digest in text form: 64 lower-case hexadecimal
/// digits.
pub open spec fn is_hex_digest(s: Seq<char>) -> bool {
    &&& s.len() == 64
    &&& forall|i: int| 0 <= i < s.len() ==> ('0' <= #[trigger] s[i] <= '9') || ('a' <= s[i] <= 'f')
}

/// The SHA-256 digest of the UTF-8 encoding of `input`, as lower-case
/// hexadecimal text.
pub uninterp spec fn sha256_hex(input: Seq<char>) -> Seq<char>;

/// The text whose digest identifies a block: the decimal numerals of the
/// numeric fields and the two texts, in the fixed order index, previous
/// hash, timestamp, data, difficulty, nonce, with nothing between them.
pub open spec fn preimage(
    index: nat,
    previous_hash: Seq<char>,
    timestamp: nat,
    data: Seq<char>,
    difficulty: nat,
    nonce: nat,
) -> Seq<char> {
    decimal(index) + previous_hash + decimal(timestamp) + data + decimal(difficulty) + decimal(
        nonce,
    )
}

/// The content hash of the six fields.
pub open spec fn content_hash(
    index: nat,
    previous_hash: Seq<char>,
    timestamp: nat,
    data: Seq<char>,
    difficulty: nat,
    nonce: nat,
) -> Seq<char> {
    sha256_hex(preimage(index, previous_hash, timestamp, data, difficulty, nonce))
}

/// Calls `sha256::digest` on a `String`. Trusted: the result is the digest
/// named `sha256_hex` of the text, and it has the shape that `hex::encode`
/// gives to 32 bytes, 64 lower-case hexadecimal digits.
#[verifier::external_body]
fn sha256_digest(input: String) -> (hex: String)
    ensures
        hex@ == sha256_hex(input@),
        is_hex_digest(hex@),
{
    sha256::digest(input)
}

/// Builds the text that is hashed for the six fields.
pub fn hash_preimage(
    index: u64,
    previous_hash: &String,
    timestamp: u64,
    data: &String,
    difficulty: u8,
    nonce: u64,
) -> (text: String)
    ensures
        text@ == preimage(
            index as nat,
            previous_hash@,
            timestamp as nat,
            data@,
            difficulty as nat,
            nonce as nat,
        ),
{
    let mut text = String::new();
    push_decimal(&mut text, index);
    text.append(previous_hash.as_str());
    push_decimal(&mut text, timestamp);
    text.append(data.as_str());
    push_decimal(&mut text, difficulty as u64);
    push_decimal(&mut text, nonce);
    text
}

/// The content hash of the six fields: the SHA-256 digest of their
/// preimage, as 64 lower-case hexadecimal digits.
pub fn calculate_hash(
    index: u64,
    previous_hash: String,
    timestamp: u64,
    data: &String,
    difficulty: u8,
    nonce: u64,
) -> (hash: String)
    ensures
        hash@ == content_hash(
            index as nat,
            previous_hash@,
            timestamp as nat,
            data@,
            difficulty as nat,
            nonce as nat,
        ),
        is_hex_digest(hash@),
{
    sha256_digest(hash_preimage(index, &previous_hash, timestamp, data, difficulty, nonce))
}

} // verus!
