//! Character-level helpers shared by the parsers: character classes, string
//! conversions, and decimal number reading.

use vstd::prelude::*;
use vstd::string::StrSliceExecFns;
use vstd::string::StringExecFns;

verus! {

/// Whether `c` is an ASCII letter or an underscore.
pub open spec fn spec_alpha_or_underscore(c: char) -> bool {
    ('a' <= c && c <= 'z') || ('A' <= c && c <= 'Z') || c == '_'
}

/// Whether `c` is an ASCII letter, digit, or underscore.
pub open spec fn spec_alphanum_or_underscore(c: char) -> bool {
    spec_alpha_or_underscore(c) || ('0' <= c && c <= '9')
}

/// Whether `c` is an ASCII decimal digit.
pub open spec fn spec_digit(c: char) -> bool {
    '0' <= c && c <= '9'
}

/// Tests for an identifier head character (letter or underscore).
pub fn alpha_or_underscore(c: char) -> (r: bool)
    ensures
        r == spec_alpha_or_underscore(c),
{
    ('a' <= c && c <= 'z') || ('A' <= c && c <= 'Z') || c == '_'
}

/// Tests for an identifier tail character (letter, digit, or underscore).
pub fn alphanum_or_underscore(c: char) -> (r: bool)
    ensures
        r == spec_alphanum_or_underscore(c),
{
    alpha_or_underscore(c) || ('0' <= c && c <= '9')
}

/// Tests for a decimal digit.
pub fn is_digit(c: char) -> (r: bool)
    ensures
        r == spec_digit(c),
{
    '0' <= c && c <= '9'
}

/// Turns a string into the character vector the parsers consume.
/// Relies on `str::chars`: the characters of the string, in order.
#[verifier::external_body]
pub fn to_chars(input: &str) -> (r: Vec<char>)
    ensures
        r@ == input@,
{
    input.chars().collect()
}

/// Rebuilds a string from a character vector.
/// Relies on `FromIterator for String`: collecting characters in order.
#[verifier::external_body]
pub fn chars_to_string(input: &Vec<char>) -> (r: String)
    ensures
        r@ == input@,
{
    input.iter().collect()
}

/// Whether every byte of the sequence is ASCII.
pub open spec fn all_ascii(b: Seq<u8>) -> bool {
    forall|i: int| 0 <= i < b.len() ==> b[i] < 128
}

/// The characters of an ASCII byte sequence, code point for code point.
pub open spec fn ascii_chars(b: Seq<u8>) -> Seq<char> {
    Seq::new(b.len(), |i: int| b[i] as char)
}

/// Decodes bytes as UTF-8, replacing invalid sequences, and yields the
/// characters.  Relies on `String::from_utf8_lossy`: ASCII bytes decode to
/// the characters of the same code point, one for one.
#[verifier::external_body]
pub fn bytes_to_chars(input: &[u8]) -> (r: Vec<char>)
    ensures
        all_ascii(input@) ==> r@ == ascii_chars(input@),
{
    String::from_utf8_lossy(input).chars().collect()
}

/// Copies the bytes of `v[a..b]` into a fresh vector.
pub fn subvec_bytes(v: &Vec<u8>, a: usize, b: usize) -> (r: Vec<u8>)
    requires
        a <= b <= v@.len(),
    ensures
        r@ == v@.subrange(a as int, b as int),
{
    let mut out: Vec<u8> = Vec::new();
    let mut p = a;
    while p < b
        invariant
            a <= p <= b <= v@.len(),
            out@ == v@.subrange(a as int, p as int),
        decreases b - p,
    {
        proof {
            assert(v@.subrange(a as int, p + 1) =~= v@.subrange(a as int, p as int).push(
                v@[p as int],
            ));
        }
        out.push(v[p]);
        p += 1;
    }
    out
}

/// Compares two string slices character by character.
pub fn str_eq(a: &str, b: &str) -> (r: bool)
    ensures
        r == (a@ == b@),
{
    let n = a.unicode_len();
    let m = b.unicode_len();
    if n != m {
        proof {
            assert(a@.len() != b@.len());
        }
        return false;
    }
    let mut i: usize = 0;
    while i < n
        invariant
            n == a@.len(),
            n == b@.len(),
            0 <= i <= n,
            forall|j: int| 0 <= j < i ==> a@[j] == b@[j],
        decreases n - i,
    {
        if a.get_char(i) != b.get_char(i) {
            return false;
        }
        i += 1;
    }
    proof {
        assert(a@ =~= b@);
    }
    true
}

/// Concatenation of sequences is associative.
pub broadcast proof fn lemma_seq_add_assoc<A>(a: Seq<A>, b: Seq<A>, c: Seq<A>)
    ensures
        #[trigger] (a + b + c) == a + (b + c),
{
    assert(a + b + c =~= a + (b + c));
}

/// The numeric value of a digit character; other characters count zero.
pub open spec fn digit_value(c: char) -> nat {
    if '0' <= c && c <= '9' {
        (c as int - '0' as int) as nat
    } else {
        0
    }
}

/// The numeric value of the decimal digits `s[from..to]`.
pub open spec fn dec_value(s: Seq<char>, from: int, to: int) -> nat
    decreases to - from,
{
    if from >= to {
        0
    } else {
        dec_value(s, from, to - 1) * 10 + digit_value(s[to - 1])
    }
}

/// The decimal rendering of `n`, most significant digit first.
pub open spec fn dec_digits(n: nat) -> Seq<char>
    decreases n,
{
    if n < 10 {
        seq![digit_char(n)]
    } else {
        dec_digits(n / 10).push(digit_char(n % 10))
    }
}

/// The digit character for a value below ten.
pub open spec fn digit_char(n: nat) -> char {
    if n == 0 {
        '0'
    } else if n == 1 {
        '1'
    } else if n == 2 {
        '2'
    } else if n == 3 {
        '3'
    } else if n == 4 {
        '4'
    } else if n == 5 {
        '5'
    } else if n == 6 {
        '6'
    } else if n == 7 {
        '7'
    } else if n == 8 {
        '8'
    } else {
        '9'
    }
}

/// The decimal rendering of a signed value: a minus sign when negative.
pub open spec fn dec_int_digits(n: int) -> Seq<char> {
    if n < 0 {
        seq!['-'] + dec_digits((-n) as nat)
    } else {
        dec_digits(n as nat)
    }
}

/// Renders a digit below ten.
fn digit_str(d: u64) -> (r: &'static str)
    requires
        d < 10,
    ensures
        r@ =~= seq![digit_char(d as nat)],
{
    proof {
        reveal_strlit("0");
        reveal_strlit("1");
        reveal_strlit("2");
        reveal_strlit("3");
        reveal_strlit("4");
        reveal_strlit("5");
        reveal_strlit("6");
        reveal_strlit("7");
        reveal_strlit("8");
        reveal_strlit("9");
    }
    if d == 0 {
        "0"
    } else if d == 1 {
        "1"
    } else if d == 2 {
        "2"
    } else if d == 3 {
        "3"
    } else if d == 4 {
        "4"
    } else if d == 5 {
        "5"
    } else if d == 6 {
        "6"
    } else if d == 7 {
        "7"
    } else if d == 8 {
        "8"
    } else {
        "9"
    }
}

/// Renders an unsigned value in decimal.
pub fn u64_to_string(n: u64) -> (r: String)
    ensures
        r@ == dec_digits(n as nat),
    decreases n,
{
    if n < 10 {
        let mut s = String::new();
        s.append(digit_str(n));
        proof {
            assert(s@ =~= dec_digits(n as nat));
        }
        s
    } else {
        let mut s = u64_to_string(n / 10);
        s.append(digit_str(n % 10));
        proof {
            assert(s@ =~= dec_digits(n as nat));
        }
        s
    }
}

/// Renders a signed value in decimal, with a leading minus when negative.
pub fn i64_to_string(n: i64) -> (r: String)
    ensures
        r@ == dec_int_digits(n as int),
{
    if n >= 0 {
        u64_to_string(n as u64)
    } else {
        let mut s = String::new();
        s.append("-");
        let mag: u64 = if n == i64::MIN {
            9223372036854775808u64
        } else {
            (-n) as u64
        };
        let rest = u64_to_string(mag);
        s.append(rest.as_str());
        proof {
            reveal_strlit("-");
            assert(s@ =~= dec_int_digits(n as int));
        }
        s
    }
}

} // verus!
