//! The recursive-descent parser for the RestQ surface syntax.
//!
//! Each parsing function takes the input characters and a position and
//! returns the parsed value with the position after it.  Alongside each
//! executable parser stands a specification function that defines the
//! grammar mathematically; the executable parser is proved to agree with it.
//! A `Missing` outcome backtracks; the fault outcomes are committed errors
//! that abort alternation, as the grammar's expect points demand.

use vstd::prelude::*;
use vstd::string::StrSliceExecFns;
use vstd::string::StringExecFns;

use crate::ast::parser::utils::chars_to_string;
use crate::ast::parser::utils::dec_value;
use crate::ast::parser::utils::spec_alpha_or_underscore;
use crate::ast::parser::utils::spec_alphanum_or_underscore;
use crate::ast::parser::utils::spec_digit;
use crate::ast::parser::utils::alpha_or_underscore;
use crate::ast::parser::utils::alphanum_or_underscore;
use crate::ast::parser::utils::is_digit;

pub mod utils;

verus! {

/// Why a parse did not yield a value.
#[derive(Debug, PartialEq)]
pub enum PErr {
    /// The input does not match this production; alternation may go on.
    /// Carries the position where the production was tried.
    Miss(usize),
    /// A committed mismatch after a distinguishing prefix: no alternation.
    /// Carries the failing position and what was expected there.
    Fail(usize, &'static str),
    /// A committed failure on an unknown data-type tag.
    DataType(String),
    /// A committed failure coercing a default value; carries the text.
    BadValue(String),
}

impl Clone for PErr {
    fn clone(&self) -> (res: Self)
        ensures
            res == *self,
    {
        match self {
            PErr::Miss(p) => PErr::Miss(*p),
            PErr::Fail(p, w) => PErr::Fail(*p, *w),
            PErr::DataType(s) => PErr::DataType(s.clone()),
            PErr::BadValue(s) => PErr::BadValue(s.clone()),
        }
    }
}

/// The outcome of a specification-level parse.
pub enum Parsed<T> {
    /// The parsed value and the position after it.
    Found(T, int),
    /// A backtrackable mismatch.
    Missing,
    /// A committed syntax failure.
    Halted,
    /// An unknown data-type tag.
    TypeFault(Seq<char>),
    /// A default value that does not coerce; carries the text.
    ValueFault(Seq<char>),
}

/// The result of a positional parse: the value and the position after it,
/// or a parse error.
pub type PRes<T> = Result<(T, usize), PErr>;

/// The result of a positional parse of a machine integer.
pub type PResInt = Result<(i64, usize), PErr>;

/// Whether the executable result `r` agrees with the specification outcome
/// `sp`, comparing parsed values by their deep views.
pub open spec fn agrees<T: DeepView>(r: PRes<T>, sp: Parsed<T::V>) -> bool {
    match sp {
        Parsed::Found(v, p) => r matches Ok((x, q)) && x.deep_view() == v && q as int == p,
        Parsed::Missing => r matches Err(PErr::Miss(_)),
        Parsed::Halted => r matches Err(PErr::Fail(_, _)),
        Parsed::TypeFault(t) => r matches Err(PErr::DataType(u)) && u@ == t,
        Parsed::ValueFault(t) => r matches Err(PErr::BadValue(u)) && u@ == t,
    }
}

/// Whether a successful result stays within the input bounds.
pub open spec fn in_bounds<T>(r: PRes<T>, pos: usize, len: int) -> bool {
    r matches Ok((_, q)) ==> pos <= q <= len
}

/// The end of the run of identifier characters starting at `i`.
pub open spec fn ident_run_end(s: Seq<char>, i: int) -> int
    decreases s.len() - i,
{
    if 0 <= i < s.len() && spec_alphanum_or_underscore(s[i]) {
        ident_run_end(s, i + 1)
    } else {
        i
    }
}

/// An identifier: a letter or underscore, then letters, digits, underscores.
pub open spec fn sp_ident(s: Seq<char>, i: int) -> Parsed<Seq<char>> {
    if 0 <= i < s.len() && spec_alpha_or_underscore(s[i]) {
        let e = ident_run_end(s, i + 1);
        Parsed::Found(s.subrange(i, e), e)
    } else {
        Parsed::Missing
    }
}

/// Reads an identifier at `pos`.
pub fn ident_at(input: &Vec<char>, pos: usize) -> (r: PRes<String>)
    requires
        pos <= input@.len(),
    ensures
        agrees(r, sp_ident(input@, pos as int)),
        in_bounds(r, pos, input@.len() as int),
{
    if pos < input.len() && alpha_or_underscore(input[pos]) {
        let mut text: Vec<char> = Vec::new();
        text.push(input[pos]);
        let mut p = pos + 1;
        while p < input.len() && alphanum_or_underscore(input[p])
            invariant
                pos < input@.len(),
                pos < p <= input@.len(),
                text@ == input@.subrange(pos as int, p as int),
                ident_run_end(input@, pos + 1) == ident_run_end(input@, p as int),
            decreases input@.len() - p,
        {
            proof {
                assert(input@.subrange(pos as int, p + 1) =~= input@.subrange(
                    pos as int,
                    p as int,
                ).push(input@[p as int]));
            }
            text.push(input[p]);
            p += 1;
        }
        let name = chars_to_string(&text);
        Ok((name, p))
    } else {
        Err(PErr::Miss(pos))
    }
}

/// Whether `w` occurs in `s` starting at `i`.
pub open spec fn starts_with(s: Seq<char>, i: int, w: Seq<char>) -> bool {
    0 <= i && i + w.len() <= s.len() && s.subrange(i, i + w.len()) == w
}

/// Tests whether the tag occurs at `pos`.
pub fn at_tag(input: &Vec<char>, pos: usize, tag: &str) -> (r: bool)
    requires
        pos <= input@.len(),
    ensures
        r == starts_with(input@, pos as int, tag@),
{
    broadcast use vstd::string::group_string_axioms;

    let n = tag.unicode_len();
    if n > input.len() - pos {
        proof {
            assert(!starts_with(input@, pos as int, tag@));
        }
        return false;
    }
    let mut k: usize = 0;
    while k < n
        invariant
            n == tag@.len(),
            pos + n <= input@.len(),
            input@.len() <= usize::MAX,
            0 <= k <= n,
            forall|j: int| 0 <= j < k ==> input@[pos + j] == tag@[j],
        decreases n - k,
    {
        proof {
            assert(pos + k < input@.len());
        }
        if input[pos + k] != tag.get_char(k) {
            proof {
                assert(input@.subrange(pos as int, pos + n) != tag@) by {
                    assert(input@.subrange(pos as int, pos + n)[k as int] == input@[pos + k]);
                }
            }
            return false;
        }
        k += 1;
    }
    proof {
        assert(input@.subrange(pos as int, pos + n) =~= tag@);
    }
    true
}

/// The query keywords that may not stand as bare identifiers or values.
pub open spec fn is_restricted_word(w: Seq<char>) -> bool {
    w == "from"@ || w == "group_by"@ || w == "having"@ || w == "order_by"@ || w == "limit"@ || w
        == "asc"@ || w == "desc"@ || w == "page"@ || w == "page_size"@
}

/// Whether any restricted keyword occurs at `i`.
pub open spec fn restricted_at(s: Seq<char>, i: int) -> bool {
    starts_with(s, i, "from"@) || starts_with(s, i, "group_by"@) || starts_with(s, i, "having"@)
        || starts_with(s, i, "order_by"@) || starts_with(s, i, "limit"@) || starts_with(
        s,
        i,
        "asc"@,
    ) || starts_with(s, i, "desc"@) || starts_with(s, i, "page"@) || starts_with(
        s,
        i,
        "page_size"@,
    )
}

/// Tests whether the given word is a restricted keyword.
pub fn is_restricted(w: &str) -> (r: bool)
    ensures
        r == is_restricted_word(w@),
{
    crate::ast::parser::utils::str_eq(w, "from") || crate::ast::parser::utils::str_eq(w, "group_by")
        || crate::ast::parser::utils::str_eq(w, "having") || crate::ast::parser::utils::str_eq(
        w,
        "order_by",
    ) || crate::ast::parser::utils::str_eq(w, "limit") || crate::ast::parser::utils::str_eq(
        w,
        "asc",
    ) || crate::ast::parser::utils::str_eq(w, "desc") || crate::ast::parser::utils::str_eq(
        w,
        "page",
    ) || crate::ast::parser::utils::str_eq(w, "page_size")
}

/// Tests whether a restricted keyword occurs at `pos`.
pub fn restricted_at_pos(input: &Vec<char>, pos: usize) -> (r: bool)
    requires
        pos <= input@.len(),
    ensures
        r == restricted_at(input@, pos as int),
{
    at_tag(input, pos, "from") || at_tag(input, pos, "group_by") || at_tag(input, pos, "having")
        || at_tag(input, pos, "order_by") || at_tag(input, pos, "limit") || at_tag(
        input,
        pos,
        "asc",
    ) || at_tag(input, pos, "desc") || at_tag(input, pos, "page") || at_tag(
        input,
        pos,
        "page_size",
    )
}

/// Whether position `i` sits at the end of the input or at a newline.
pub open spec fn at_end_or_ln(s: Seq<char>, i: int) -> bool {
    i >= s.len() || s[i] == '\n' || (s[i] == '\r' && i + 1 < s.len() && s[i + 1] == '\n')
}

/// The boundary characters that arm the restricted-identifier guard.
pub open spec fn restricted_boundary(s: Seq<char>, i: int) -> bool {
    at_end_or_ln(s, i) || (i < s.len() && (s[i] == ',' || s[i] == '&' || s[i] == '='))
}

/// A strict identifier: an identifier, unless it is a restricted keyword
/// followed by the end of input or one of `, & =`.
pub open spec fn sp_strict_ident(s: Seq<char>, i: int) -> Parsed<Seq<char>> {
    match sp_ident(s, i) {
        Parsed::Found(w, e) => if is_restricted_word(w) && restricted_boundary(s, e) {
            Parsed::Missing
        } else {
            Parsed::Found(w, e)
        },
        _ => Parsed::Missing,
    }
}

/// Reads a strict identifier at `pos`.
pub fn strict_ident_at(input: &Vec<char>, pos: usize) -> (r: PRes<String>)
    requires
        pos <= input@.len(),
    ensures
        agrees(r, sp_strict_ident(input@, pos as int)),
        in_bounds(r, pos, input@.len() as int),
{
    match ident_at(input, pos) {
        Ok((w, e)) => {
            let boundary = e >= input.len() || input[e] == '\n' || input[e] == ',' || input[e]
                == '&' || input[e] == '=' || (input[e] == '\r' && e + 1 < input.len() && input[e
                + 1] == '\n');
            if is_restricted(w.as_str()) && boundary {
                Err(PErr::Miss(pos))
            } else {
                Ok((w, e))
            }
        },
        Err(e) => Err(e),
    }
}

/// A table name: a strict identifier with at most one `.ident` suffix.
pub open spec fn sp_table_name(s: Seq<char>, i: int) -> Parsed<Seq<char>> {
    match sp_strict_ident(s, i) {
        Parsed::Found(w1, p1) => if p1 < s.len() && s[p1] == '.' {
            match sp_strict_ident(s, p1 + 1) {
                Parsed::Found(w2, p2) => Parsed::Found(w1 + "."@ + w2, p2),
                _ => Parsed::Found(w1, p1),
            }
        } else {
            Parsed::Found(w1, p1)
        },
        _ => Parsed::Missing,
    }
}

/// Reads a table name at `pos`.
pub fn table_name_at(input: &Vec<char>, pos: usize) -> (r: PRes<String>)
    requires
        pos <= input@.len(),
    ensures
        agrees(r, sp_table_name(input@, pos as int)),
        in_bounds(r, pos, input@.len() as int),
{
    broadcast use crate::ast::parser::utils::lemma_seq_add_assoc;

    match strict_ident_at(input, pos) {
        Ok((w1, p1)) => {
            if p1 < input.len() && input[p1] == '.' {
                match strict_ident_at(input, p1 + 1) {
                    Ok((w2, p2)) => {
                        let mut name = w1;
                        name.append(".");
                        name.append(w2.as_str());
                        Ok((name, p2))
                    },
                    Err(_) => Ok((w1, p1)),
                }
            } else {
                Ok((w1, p1))
            }
        },
        Err(e) => Err(e),
    }
}

/// A column name: a strict identifier with up to two `.ident` suffixes.
pub open spec fn sp_column_name(s: Seq<char>, i: int) -> Parsed<Seq<char>> {
    match sp_strict_ident(s, i) {
        Parsed::Found(w1, p1) => if p1 < s.len() && s[p1] == '.' {
            match sp_strict_ident(s, p1 + 1) {
                Parsed::Found(w2, p2) => if p2 < s.len() && s[p2] == '.' {
                    match sp_strict_ident(s, p2 + 1) {
                        Parsed::Found(w3, p3) => Parsed::Found(
                            w1 + "."@ + w2 + "."@ + w3,
                            p3,
                        ),
                        _ => Parsed::Found(w1 + "."@ + w2, p2),
                    }
                } else {
                    Parsed::Found(w1 + "."@ + w2, p2)
                },
                _ => Parsed::Found(w1, p1),
            }
        } else {
            Parsed::Found(w1, p1)
        },
        _ => Parsed::Missing,
    }
}

/// Reads a column name at `pos`.
pub fn column_name_at(input: &Vec<char>, pos: usize) -> (r: PRes<String>)
    requires
        pos <= input@.len(),
    ensures
        agrees(r, sp_column_name(input@, pos as int)),
        in_bounds(r, pos, input@.len() as int),
{
    broadcast use crate::ast::parser::utils::lemma_seq_add_assoc;

    match strict_ident_at(input, pos) {
        Ok((w1, p1)) => {
            if p1 < input.len() && input[p1] == '.' {
                match strict_ident_at(input, p1 + 1) {
                    Ok((w2, p2)) => {
                        let mut name = w1;
                        name.append(".");
                        name.append(w2.as_str());
                        if p2 < input.len() && input[p2] == '.' {
                            match strict_ident_at(input, p2 + 1) {
                                Ok((w3, p3)) => {
                                    name.append(".");
                                    name.append(w3.as_str());
                                    Ok((name, p3))
                                },
                                Err(_) => Ok((name, p2)),
                            }
                        } else {
                            Ok((name, p2))
                        }
                    },
                    Err(_) => Ok((w1, p1)),
                }
            } else {
                Ok((w1, p1))
            }
        },
        Err(e) => Err(e),
    }
}


/// The end of the run of decimal digits starting at `i`.
pub open spec fn digit_run_end(s: Seq<char>, i: int) -> int
    decreases s.len() - i,
{
    if 0 <= i < s.len() && spec_digit(s[i]) {
        digit_run_end(s, i + 1)
    } else {
        i
    }
}

/// The digit-run end lies between `i` and the input's end.
pub proof fn lemma_digit_run_end(s: Seq<char>, i: int)
    requires
        0 <= i <= s.len(),
    ensures
        i <= digit_run_end(s, i) <= s.len(),
    decreases s.len() - i,
{
    if i < s.len() && spec_digit(s[i]) {
        lemma_digit_run_end(s, i + 1);
    }
}

/// Every character before the digit-run end is a digit.
pub proof fn lemma_digit_run_digits(s: Seq<char>, i: int)
    requires
        0 <= i <= s.len(),
    ensures
        forall|k: int| i <= k < digit_run_end(s, i) ==> spec_digit(s[k]),
    decreases s.len() - i,
{
    lemma_digit_run_end(s, i);
    if i < s.len() && spec_digit(s[i]) {
        lemma_digit_run_digits(s, i + 1);
    }
}

/// Reads to the end of the digit run starting at `pos`.
pub fn digit_run_at(input: &Vec<char>, pos: usize) -> (r: usize)
    requires
        pos <= input@.len(),
    ensures
        r as int == digit_run_end(input@, pos as int),
        pos <= r <= input@.len(),
{
    let mut p = pos;
    while p < input.len() && is_digit(input[p])
        invariant
            pos <= p <= input@.len(),
            digit_run_end(input@, pos as int) == digit_run_end(input@, p as int),
        decreases input@.len() - p,
    {
        p += 1;
    }
    p
}

/// Copies the characters of `input[a..b]` into a fresh string.
pub fn substring_at(input: &Vec<char>, a: usize, b: usize) -> (r: String)
    requires
        a <= b,
        b <= input@.len(),
    ensures
        r@ == input@.subrange(a as int, b as int),
{
    let mut text: Vec<char> = Vec::new();
    let mut p = a;
    while p < b
        invariant
            a <= p <= b <= input@.len(),
            text@ == input@.subrange(a as int, p as int),
        decreases b - p,
    {
        proof {
            assert(input@.subrange(a as int, p + 1) =~= input@.subrange(a as int, p as int).push(
                input@[p as int],
            ));
        }
        text.push(input[p]);
        p += 1;
    }
    chars_to_string(&text)
}

/// The end of a decimal number literal at `i`: an optional minus sign, an
/// integer part without leading zeros, an optional fraction, an optional
/// exponent.  Nothing when no digit follows the sign.
pub open spec fn number_end(s: Seq<char>, i: int) -> Option<int> {
    let j = if 0 <= i < s.len() && s[i] == '-' {
        i + 1
    } else {
        i
    };
    if j < s.len() && '1' <= s[j] && s[j] <= '9' {
        Some(number_tail_end(s, digit_run_end(s, j + 1)))
    } else if j < s.len() && s[j] == '0' {
        Some(number_tail_end(s, j + 1))
    } else {
        None
    }
}

/// The end of the optional fraction and exponent of a number whose integer
/// part ends at `e`.
pub open spec fn number_tail_end(s: Seq<char>, e: int) -> int {
    let f = if e < s.len() && s[e] == '.' && e + 1 < s.len() && spec_digit(s[e + 1]) {
        digit_run_end(s, e + 1)
    } else {
        e
    };
    if f < s.len() && (s[f] == 'e' || s[f] == 'E') {
        let k = if f + 1 < s.len() && (s[f + 1] == '+' || s[f + 1] == '-') {
            f + 2
        } else {
            f + 1
        };
        if k < s.len() && spec_digit(s[k]) {
            digit_run_end(s, k)
        } else {
            f
        }
    } else {
        f
    }
}

/// A number literal: its text.
pub open spec fn sp_number(s: Seq<char>, i: int) -> Parsed<Seq<char>> {
    match number_end(s, i) {
        Some(e) => Parsed::Found(s.subrange(i, e), e),
        None => Parsed::Missing,
    }
}

/// Reads a number literal at `pos`, keeping its text.
pub fn number_at(input: &Vec<char>, pos: usize) -> (r: PRes<String>)
    requires
        pos <= input@.len(),
    ensures
        agrees(r, sp_number(input@, pos as int)),
        in_bounds(r, pos, input@.len() as int),
{
    let j = if pos < input.len() && input[pos] == '-' {
        pos + 1
    } else {
        pos
    };
    let int_end: usize;
    if j < input.len() && '1' <= input[j] && input[j] <= '9' {
        int_end = digit_run_at(input, j + 1);
    } else if j < input.len() && input[j] == '0' {
        int_end = j + 1;
    } else {
        return Err(PErr::Miss(pos));
    }
    let f = if int_end < input.len() && input[int_end] == '.' && int_end + 1 < input.len()
        && is_digit(input[int_end + 1]) {
        digit_run_at(input, int_end + 1)
    } else {
        int_end
    };
    let e = if f < input.len() && (input[f] == 'e' || input[f] == 'E') {
        let k = if f + 1 < input.len() && (input[f + 1] == '+' || input[f + 1] == '-') {
            f + 2
        } else {
            f + 1
        };
        if k < input.len() && is_digit(input[k]) {
            digit_run_at(input, k)
        } else {
            f
        }
    } else {
        f
    };
    let text = substring_at(input, pos, e);
    Ok((text, e))
}

/// Extending a digit range does not shrink its decimal value.
pub proof fn lemma_dec_value_mono(s: Seq<char>, i: int, p: int, e: int)
    requires
        i <= p <= e,
    ensures
        dec_value(s, i, e) >= dec_value(s, i, p),
    decreases e - p,
{
    if p < e {
        lemma_dec_value_mono(s, i, p, e - 1);
    }
}

/// An integer literal: decimal digits without sign, valid while the value
/// fits a signed 64-bit integer.
pub open spec fn sp_integer(s: Seq<char>, i: int) -> Parsed<i64> {
    let e = if 0 <= i < s.len() && '1' <= s[i] && s[i] <= '9' {
        digit_run_end(s, i + 1)
    } else if 0 <= i < s.len() && s[i] == '0' {
        i + 1
    } else {
        i
    };
    if e == i {
        Parsed::Missing
    } else {
        let v = dec_value(s, i, e);
        if v <= i64::MAX {
            Parsed::Found(v as i64, e)
        } else {
            Parsed::Missing
        }
    }
}

/// Reads an unsigned decimal integer at `pos` into a signed 64-bit value.
pub fn integer_at(input: &Vec<char>, pos: usize) -> (r: PResInt)
    requires
        pos <= input@.len(),
    ensures
        agrees(r, sp_integer(input@, pos as int)),
        in_bounds(r, pos, input@.len() as int),
{
    let e: usize = if pos < input.len() && '1' <= input[pos] && input[pos] <= '9' {
        digit_run_at(input, pos + 1)
    } else if pos < input.len() && input[pos] == '0' {
        pos + 1
    } else {
        return Err(PErr::Miss(pos));
    };
    proof {
        lemma_digit_run_digits(input@, pos as int);
        if pos + 1 <= input@.len() {
            lemma_digit_run_digits(input@, pos + 1);
        }
    }
    let mut acc: u64 = 0;
    let mut over = false;
    let mut p = pos;
    while p < e
        invariant
            pos <= p <= e <= input@.len(),
            forall|k: int| pos <= k < e ==> spec_digit(input@[k]),
            !over ==> acc == dec_value(input@, pos as int, p as int),
            !over ==> acc <= 0x7fffffffffffffff,
            over ==> (dec_value(input@, pos as int, p as int) > 0x7fffffffffffffff),
        decreases e - p,
    {
        let d: u64 = (input[p] as u32 as u64) - ('0' as u32 as u64);
        if !over {
            if acc > (9223372036854775807u64 - d) / 10 {
                over = true;
            } else {
                acc = acc * 10 + d;
            }
        }
        p += 1;
    }
    if over {
        proof {
            lemma_dec_value_mono(input@, pos as int, p as int, e as int);
        }
        return Err(PErr::Miss(pos));
    }
    Ok((acc as i64, e))
}


/// What a backslash escape stands for inside a quoted string: the backslash,
/// the slash, the quote character `eq`, or one of `b f n r t`.
pub open spec fn esc_char(eq: char, c: char) -> Option<char> {
    if c == '\\' {
        Some('\\')
    } else if c == '/' {
        Some('/')
    } else if c == eq {
        Some(eq)
    } else if c == 'b' {
        Some('\u{0008}')
    } else if c == 'f' {
        Some('\u{000c}')
    } else if c == 'n' {
        Some('\n')
    } else if c == 'r' {
        Some('\r')
    } else if c == 't' {
        Some('\t')
    } else {
        None
    }
}

/// Resolves a backslash escape.
pub fn esc_char_at(eq: char, c: char) -> (r: Option<char>)
    ensures
        r == esc_char(eq, c),
{
    if c == '\\' {
        Some('\\')
    } else if c == '/' {
        Some('/')
    } else if c == eq {
        Some(eq)
    } else if c == 'b' {
        Some('\u{0008}')
    } else if c == 'f' {
        Some('\u{000c}')
    } else if c == 'n' {
        Some('\n')
    } else if c == 'r' {
        Some('\r')
    } else if c == 't' {
        Some('\t')
    } else {
        None
    }
}

/// The body of a quoted string after the opening quote: characters and
/// escapes up to the terminating quote.
pub open spec fn sp_qbody(s: Seq<char>, i: int, term: char, eq: char) -> Parsed<Seq<char>>
    decreases s.len() - i,
{
    if i < 0 || i >= s.len() {
        Parsed::Missing
    } else if s[i] == term {
        Parsed::Found(Seq::empty(), i + 1)
    } else if s[i] == '\\' {
        if i + 1 < s.len() {
            match esc_char(eq, s[i + 1]) {
                Some(d) => match sp_qbody(s, i + 2, term, eq) {
                    Parsed::Found(t, e) => Parsed::Found(seq![d] + t, e),
                    Parsed::Missing => Parsed::Missing,
                    Parsed::Halted => Parsed::Halted,
                    Parsed::TypeFault(t) => Parsed::TypeFault(t),
                    Parsed::ValueFault(t) => Parsed::ValueFault(t),
                },
                None => Parsed::Missing,
            }
        } else {
            Parsed::Missing
        }
    } else {
        match sp_qbody(s, i + 1, term, eq) {
            Parsed::Found(t, e) => Parsed::Found(seq![s[i]] + t, e),
            Parsed::Missing => Parsed::Missing,
            Parsed::Halted => Parsed::Halted,
            Parsed::TypeFault(t) => Parsed::TypeFault(t),
            Parsed::ValueFault(t) => Parsed::ValueFault(t),
        }
    }
}

/// Reads the body of a quoted string at `pos`.
pub fn qbody_at(input: &Vec<char>, pos: usize, term: char, eq: char) -> (r: PRes<Vec<char>>)
    requires
        pos <= input@.len(),
    ensures
        agrees(r, sp_qbody(input@, pos as int, term, eq)),
        in_bounds(r, pos, input@.len() as int),
    decreases input@.len() - pos,
{
    if pos >= input.len() {
        Err(PErr::Miss(pos))
    } else if input[pos] == term {
        let empty: Vec<char> = Vec::new();
        proof {
            assert(empty.deep_view() =~= Seq::<char>::empty());
        }
        Ok((empty, pos + 1))
    } else if input[pos] == '\\' {
        if pos + 1 < input.len() {
            match esc_char_at(eq, input[pos + 1]) {
                Some(d) => match qbody_at(input, pos + 2, term, eq) {
                    Ok((t, e)) => {
                        let mut t2 = t;
                        let ghost t0 = t2.deep_view();
                        t2.insert(0, d);
                        proof {
                            assert(t2.deep_view() =~= seq![d] + t0);
                        }
                        Ok((t2, e))
                    },
                    Err(x) => Err(x),
                },
                None => Err(PErr::Miss(pos)),
            }
        } else {
            Err(PErr::Miss(pos))
        }
    } else {
        match qbody_at(input, pos + 1, term, eq) {
            Ok((t, e)) => {
                let mut t2 = t;
                let ghost t0 = t2.deep_view();
                t2.insert(0, input[pos]);
                proof {
                    assert(t2.deep_view() =~= seq![input@[pos as int]] + t0);
                }
                Ok((t2, e))
            },
            Err(x) => Err(x),
        }
    }
}

/// A quoted string: the terminator opens and closes it; `eq` is the quote
/// character its escapes reproduce.
pub open spec fn sp_quoted(s: Seq<char>, i: int, term: char, eq: char) -> Parsed<Seq<char>> {
    if 0 <= i < s.len() && s[i] == term {
        sp_qbody(s, i + 1, term, eq)
    } else {
        Parsed::Missing
    }
}

/// Reads a quoted string at `pos`.
pub fn quoted_at(input: &Vec<char>, pos: usize, term: char, eq: char) -> (r: PRes<String>)
    requires
        pos <= input@.len(),
    ensures
        agrees(r, sp_quoted(input@, pos as int, term, eq)),
        in_bounds(r, pos, input@.len() as int),
{
    if pos < input.len() && input[pos] == term {
        match qbody_at(input, pos + 1, term, eq) {
            Ok((t, e)) => {
                proof {
                    assert(t.deep_view() =~= t@);
                }
                Ok((chars_to_string(&t), e))
            },
            Err(x) => Err(x),
        }
    } else {
        Err(PErr::Miss(pos))
    }
}

/// Whether `c` ends an unquoted string.
pub open spec fn spec_unquoted_stop(c: char) -> bool {
    c == '=' || c == '&' || c == '(' || c == ')'
}

/// The end of the run of unquoted-string characters starting at `i`.
pub open spec fn unquoted_run_end(s: Seq<char>, i: int) -> int
    decreases s.len() - i,
{
    if 0 <= i < s.len() && !spec_unquoted_stop(s[i]) {
        unquoted_run_end(s, i + 1)
    } else {
        i
    }
}

/// An unquoted string: every character up to `= & ( )` or the end; it may
/// be empty.
pub open spec fn sp_unquoted(s: Seq<char>, i: int) -> Parsed<Seq<char>> {
    if 0 <= i <= s.len() {
        Parsed::Found(s.subrange(i, unquoted_run_end(s, i)), unquoted_run_end(s, i))
    } else {
        Parsed::Missing
    }
}

/// Reads an unquoted string at `pos`.
pub fn unquoted_at(input: &Vec<char>, pos: usize) -> (r: PRes<String>)
    requires
        pos <= input@.len(),
    ensures
        agrees(r, sp_unquoted(input@, pos as int)),
        in_bounds(r, pos, input@.len() as int),
{
    let mut p = pos;
    while p < input.len() && !(input[p] == '=' || input[p] == '&' || input[p] == '(' || input[p]
        == ')')
        invariant
            pos <= p <= input@.len(),
            unquoted_run_end(input@, pos as int) == unquoted_run_end(input@, p as int),
        decreases input@.len() - p,
    {
        p += 1;
    }
    let text = substring_at(input, pos, p);
    Ok((text, p))
}

/// A boolean literal.
pub open spec fn sp_bool(s: Seq<char>, i: int) -> Parsed<bool> {
    if starts_with(s, i, "true"@) {
        Parsed::Found(true, i + "true"@.len())
    } else if starts_with(s, i, "false"@) {
        Parsed::Found(false, i + "false"@.len())
    } else {
        Parsed::Missing
    }
}

/// Reads a boolean literal at `pos`.
pub fn bool_at(input: &Vec<char>, pos: usize) -> (r: PRes<bool>)
    requires
        pos <= input@.len(),
    ensures
        agrees(r, sp_bool(input@, pos as int)),
        in_bounds(r, pos, input@.len() as int),
{
    let n = input.len();
    proof {
        reveal_strlit("true");
        reveal_strlit("false");
    }
    if at_tag(input, pos, "true") {
        Ok((true, pos + 4))
    } else if at_tag(input, pos, "false") {
        Ok((false, pos + 5))
    } else {
        Err(PErr::Miss(pos))
    }
}

/// A coarse scalar value: `null`, a boolean, a number, a quoted string of
/// any of the three quote kinds, or an unquoted string that does not start
/// with a restricted keyword.
pub open spec fn sp_value(s: Seq<char>, i: int) -> Parsed<crate::ast::expr::ValueV> {
    if starts_with(s, i, "null"@) {
        Parsed::Found(crate::ast::expr::ValueV::Null, i + "null"@.len())
    } else {
        match sp_bool(s, i) {
            Parsed::Found(b, e) => Parsed::Found(crate::ast::expr::ValueV::Bool(b), e),
            _ => match sp_number(s, i) {
                Parsed::Found(t, e) => Parsed::Found(crate::ast::expr::ValueV::Num(t), e),
                _ => match sp_quoted(s, i, '"', '"') {
                    Parsed::Found(t, e) => Parsed::Found(crate::ast::expr::ValueV::Str(t), e),
                    _ => match sp_quoted(s, i, '\'', '\'') {
                        Parsed::Found(t, e) => Parsed::Found(
                            crate::ast::expr::ValueV::Str(t),
                            e,
                        ),
                        _ => match sp_quoted(s, i, '`', '\'') {
                            Parsed::Found(t, e) => Parsed::Found(
                                crate::ast::expr::ValueV::Str(t),
                                e,
                            ),
                            _ => if restricted_at(s, i) {
                                Parsed::Missing
                            } else {
                                match sp_unquoted(s, i) {
                                    Parsed::Found(t, e) => Parsed::Found(
                                        crate::ast::expr::ValueV::Str(t),
                                        e,
                                    ),
                                    _ => Parsed::Missing,
                                }
                            },
                        },
                    },
                },
            },
        }
    }
}

/// Reads a coarse value at `pos`.
pub fn value_at(input: &Vec<char>, pos: usize) -> (r: PRes<crate::ast::expr::Value>)
    requires
        pos <= input@.len(),
    ensures
        agrees(r, sp_value(input@, pos as int)),
        in_bounds(r, pos, input@.len() as int),
{
    let n = input.len();
    proof {
        reveal_strlit("null");
    }
    if at_tag(input, pos, "null") {
        return Ok((crate::ast::expr::Value::Null, pos + 4));
    }
    match bool_at(input, pos) {
        Ok((b, e)) => {
            return Ok((crate::ast::expr::Value::Bool(b), e));
        },
        Err(_) => {},
    }
    match number_at(input, pos) {
        Ok((t, e)) => {
            return Ok((crate::ast::expr::Value::Number(t), e));
        },
        Err(_) => {},
    }
    match quoted_at(input, pos, '"', '"') {
        Ok((t, e)) => {
            return Ok((crate::ast::expr::Value::String(t), e));
        },
        Err(_) => {},
    }
    match quoted_at(input, pos, '\'', '\'') {
        Ok((t, e)) => {
            return Ok((crate::ast::expr::Value::String(t), e));
        },
        Err(_) => {},
    }
    match quoted_at(input, pos, '`', '\'') {
        Ok((t, e)) => {
            return Ok((crate::ast::expr::Value::String(t), e));
        },
        Err(_) => {},
    }
    if restricted_at_pos(input, pos) {
        return Err(PErr::Miss(pos));
    }
    match unquoted_at(input, pos) {
        Ok((t, e)) => Ok((crate::ast::expr::Value::String(t), e)),
        Err(x) => Err(x),
    }
}

/// A committed comma-separated list of values: after a separator, a value
/// must follow or the whole parse halts.
pub open spec fn sp_value_list(s: Seq<char>, i: int) -> Parsed<Seq<crate::ast::expr::ValueV>>
    decreases s.len() - i,
{
    match sp_value(s, i) {
        Parsed::Found(v, p) => if i <= p && p < s.len() && s[p] == ',' {
            match sp_value_list(s, p + 1) {
                Parsed::Found(vs, e) => Parsed::Found(seq![v] + vs, e),
                Parsed::Missing => Parsed::Halted,
                Parsed::Halted => Parsed::Halted,
                Parsed::TypeFault(t) => Parsed::TypeFault(t),
                Parsed::ValueFault(t) => Parsed::ValueFault(t),
            }
        } else {
            Parsed::Found(seq![v], p)
        },
        Parsed::Missing => Parsed::Missing,
        Parsed::Halted => Parsed::Halted,
        Parsed::TypeFault(t) => Parsed::TypeFault(t),
        Parsed::ValueFault(t) => Parsed::ValueFault(t),
    }
}

/// Reads a committed comma-separated list of values at `pos`.
pub fn value_list_at(input: &Vec<char>, pos: usize) -> (r: PRes<Vec<crate::ast::expr::Value>>)
    requires
        pos <= input@.len(),
    ensures
        agrees(r, sp_value_list(input@, pos as int)),
        in_bounds(r, pos, input@.len() as int),
    decreases input@.len() - pos,
{
    match value_at(input, pos) {
        Ok((v, p)) => {
            if p < input.len() && input[p] == ',' {
                match value_list_at(input, p + 1) {
                    Ok((vs, e)) => {
                        let mut vs2 = vs;
                        let ghost vs0 = vs2.deep_view();
                        let ghost v0 = v.deep_view();
                        vs2.insert(0, v);
                        proof {
                            assert(vs2.deep_view() =~= seq![v0] + vs0);
                        }
                        Ok((vs2, e))
                    },
                    Err(PErr::Miss(_q)) => Err(PErr::Fail(_q, "value list")),
                    Err(x) => Err(x),
                }
            } else {
                let ghost v0 = v.deep_view();
                let mut vs: Vec<crate::ast::expr::Value> = Vec::new();
                vs.push(v);
                proof {
                    assert(vs.deep_view() =~= seq![v0]);
                }
                Ok((vs, p))
            }
        },
        Err(x) => Err(x),
    }
}

/// A bracketed multi-value: `[v, v, ...]`.
pub open spec fn sp_multi_values(s: Seq<char>, i: int) -> Parsed<Seq<crate::ast::expr::ValueV>> {
    if 0 <= i < s.len() && s[i] == '[' {
        match sp_value_list(s, i + 1) {
            Parsed::Found(vs, p) => if 0 <= p < s.len() && s[p] == ']' {
                Parsed::Found(vs, p + 1)
            } else {
                Parsed::Missing
            },
            Parsed::Missing => Parsed::Missing,
            Parsed::Halted => Parsed::Halted,
            Parsed::TypeFault(t) => Parsed::TypeFault(t),
            Parsed::ValueFault(t) => Parsed::ValueFault(t),
        }
    } else {
        Parsed::Missing
    }
}

/// Reads a bracketed multi-value at `pos`.
pub fn multi_values_at(input: &Vec<char>, pos: usize) -> (r: PRes<Vec<crate::ast::expr::Value>>)
    requires
        pos <= input@.len(),
    ensures
        agrees(r, sp_multi_values(input@, pos as int)),
        in_bounds(r, pos, input@.len() as int),
{
    if pos < input.len() && input[pos] == '[' {
        match value_list_at(input, pos + 1) {
            Ok((vs, p)) => {
                if p < input.len() && input[p] == ']' {
                    Ok((vs, p + 1))
                } else {
                    Err(PErr::Miss(pos))
                }
            },
            Err(x) => Err(x),
        }
    } else {
        Err(PErr::Miss(pos))
    }
}



/// The binary-operator token at `i`, longest spelling first within each
/// family: named comparisons and patterns, then connectors, then arithmetic.
pub open spec fn sp_operator(s: Seq<char>, i: int) -> Parsed<crate::ast::Operator> {
    if starts_with(s, i, "eq"@) {
        Parsed::Found(crate::ast::Operator::Eq, i + "eq"@.len())
    } else if starts_with(s, i, "neq"@) {
        Parsed::Found(crate::ast::Operator::Neq, i + "neq"@.len())
    } else if starts_with(s, i, "lte"@) {
        Parsed::Found(crate::ast::Operator::Lte, i + "lte"@.len())
    } else if starts_with(s, i, "lt"@) {
        Parsed::Found(crate::ast::Operator::Lt, i + "lt"@.len())
    } else if starts_with(s, i, "gte"@) {
        Parsed::Found(crate::ast::Operator::Gte, i + "gte"@.len())
    } else if starts_with(s, i, "gt"@) {
        Parsed::Found(crate::ast::Operator::Gt, i + "gt"@.len())
    } else if starts_with(s, i, "in"@) {
        Parsed::Found(crate::ast::Operator::In, i + "in"@.len())
    } else if starts_with(s, i, "not_in"@) {
        Parsed::Found(crate::ast::Operator::NotIn, i + "not_in"@.len())
    } else if starts_with(s, i, "is_not"@) {
        Parsed::Found(crate::ast::Operator::IsNot, i + "is_not"@.len())
    } else if starts_with(s, i, "like"@) {
        Parsed::Found(crate::ast::Operator::Like, i + "like"@.len())
    } else if starts_with(s, i, "ilike"@) {
        Parsed::Found(crate::ast::Operator::Ilike, i + "ilike"@.len())
    } else if starts_with(s, i, "starts"@) {
        Parsed::Found(crate::ast::Operator::Starts, i + "starts"@.len())
    } else if starts_with(s, i, "|"@) {
        Parsed::Found(crate::ast::Operator::Or, i + 1)
    } else if starts_with(s, i, "&"@) {
        Parsed::Found(crate::ast::Operator::And, i + 1)
    } else if starts_with(s, i, "+"@) {
        Parsed::Found(crate::ast::Operator::Plus, i + 1)
    } else if starts_with(s, i, "-"@) {
        Parsed::Found(crate::ast::Operator::Minus, i + 1)
    } else if starts_with(s, i, "*"@) {
        Parsed::Found(crate::ast::Operator::Multiply, i + 1)
    } else if starts_with(s, i, "/"@) {
        Parsed::Found(crate::ast::Operator::Divide, i + 1)
    } else if starts_with(s, i, "%"@) {
        Parsed::Found(crate::ast::Operator::Modulus, i + 1)
    } else {
        Parsed::Missing
    }
}

/// Reads a binary-operator token at `pos`.
pub fn operator_at(input: &Vec<char>, pos: usize) -> (r: PRes<crate::ast::Operator>)
    requires
        pos <= input@.len(),
    ensures
        agrees(r, sp_operator(input@, pos as int)),
        in_bounds(r, pos, input@.len() as int),
        r matches Ok((_, q)) ==> q > pos,
    decreases input@.len() - pos,
{
    let n = input.len();
    proof {
        reveal_strlit("eq");
        reveal_strlit("neq");
        reveal_strlit("lte");
        reveal_strlit("lt");
        reveal_strlit("gte");
        reveal_strlit("gt");
        reveal_strlit("in");
        reveal_strlit("not_in");
        reveal_strlit("is_not");
        reveal_strlit("like");
        reveal_strlit("ilike");
        reveal_strlit("starts");
        reveal_strlit("|");
        reveal_strlit("&");
        reveal_strlit("+");
        reveal_strlit("-");
        reveal_strlit("*");
        reveal_strlit("/");
        reveal_strlit("%");
    }
    if at_tag(input, pos, "eq") {
        Ok((crate::ast::Operator::Eq, pos + 2))
    } else if at_tag(input, pos, "neq") {
        Ok((crate::ast::Operator::Neq, pos + 3))
    } else if at_tag(input, pos, "lte") {
        Ok((crate::ast::Operator::Lte, pos + 3))
    } else if at_tag(input, pos, "lt") {
        Ok((crate::ast::Operator::Lt, pos + 2))
    } else if at_tag(input, pos, "gte") {
        Ok((crate::ast::Operator::Gte, pos + 3))
    } else if at_tag(input, pos, "gt") {
        Ok((crate::ast::Operator::Gt, pos + 2))
    } else if at_tag(input, pos, "in") {
        Ok((crate::ast::Operator::In, pos + 2))
    } else if at_tag(input, pos, "not_in") {
        Ok((crate::ast::Operator::NotIn, pos + 6))
    } else if at_tag(input, pos, "is_not") {
        Ok((crate::ast::Operator::IsNot, pos + 6))
    } else if at_tag(input, pos, "like") {
        Ok((crate::ast::Operator::Like, pos + 4))
    } else if at_tag(input, pos, "ilike") {
        Ok((crate::ast::Operator::Ilike, pos + 5))
    } else if at_tag(input, pos, "starts") {
        Ok((crate::ast::Operator::Starts, pos + 6))
    } else if at_tag(input, pos, "|") {
        Ok((crate::ast::Operator::Or, pos + 1))
    } else if at_tag(input, pos, "&") {
        Ok((crate::ast::Operator::And, pos + 1))
    } else if at_tag(input, pos, "+") {
        Ok((crate::ast::Operator::Plus, pos + 1))
    } else if at_tag(input, pos, "-") {
        Ok((crate::ast::Operator::Minus, pos + 1))
    } else if at_tag(input, pos, "*") {
        Ok((crate::ast::Operator::Multiply, pos + 1))
    } else if at_tag(input, pos, "/") {
        Ok((crate::ast::Operator::Divide, pos + 1))
    } else if at_tag(input, pos, "%") {
        Ok((crate::ast::Operator::Modulus, pos + 1))
    } else {
        Err(PErr::Miss(pos))
    }
}

/// An atomic expression: a parenthesized atom, a multi-value, a literal, a
/// function call, a column reference, or a bare value, tried in that order.
pub open spec fn sp_atom(s: Seq<char>, i: int) -> Parsed<crate::ast::expr::ExprV>
    decreases s.len() - i, 2int,
{
    if 0 <= i < s.len() && s[i] == '(' {
        match sp_atom(s, i + 1) {
            Parsed::Found(e, p) => if i < p && p < s.len() && s[p] == ')' {
                Parsed::Found(crate::ast::expr::ExprV::Nested(Box::new(e)), p + 1)
            } else {
                sp_atom_flat(s, i)
            },
            Parsed::Missing => sp_atom_flat(s, i),
            Parsed::Halted => Parsed::Halted,
            Parsed::TypeFault(t) => Parsed::TypeFault(t),
            Parsed::ValueFault(t) => Parsed::ValueFault(t),
        }
    } else {
        sp_atom_flat(s, i)
    }
}

/// The alternatives of an atom that do not open a parenthesis.
pub open spec fn sp_atom_flat(s: Seq<char>, i: int) -> Parsed<crate::ast::expr::ExprV>
    decreases s.len() - i, 1int,
{
    match sp_multi_values(s, i) {
        Parsed::Found(vs, p) => Parsed::Found(crate::ast::expr::ExprV::MultiValue(vs), p),
        Parsed::Halted => Parsed::Halted,
        Parsed::TypeFault(t) => Parsed::TypeFault(t),
        Parsed::ValueFault(t) => Parsed::ValueFault(t),
        Parsed::Missing => if starts_with(s, i, "null"@) {
            Parsed::Found(
                crate::ast::expr::ExprV::Value(crate::ast::expr::ValueV::Null),
                i + "null"@.len(),
            )
        } else {
            match sp_bool(s, i) {
                Parsed::Found(b, p) => Parsed::Found(
                    crate::ast::expr::ExprV::Value(crate::ast::expr::ValueV::Bool(b)),
                    p,
                ),
                _ => match sp_number(s, i) {
                    Parsed::Found(t, p) => Parsed::Found(
                        crate::ast::expr::ExprV::Value(crate::ast::expr::ValueV::Num(t)),
                        p,
                    ),
                    _ => match sp_function(s, i) {
                        Parsed::Found(f, p) => Parsed::Found(
                            crate::ast::expr::ExprV::Function(f),
                            p,
                        ),
                        Parsed::Halted => Parsed::Halted,
                        Parsed::TypeFault(t) => Parsed::TypeFault(t),
                        Parsed::ValueFault(t) => Parsed::ValueFault(t),
                        Parsed::Missing => match sp_column_name(s, i) {
                            Parsed::Found(c, p) => Parsed::Found(
                                crate::ast::expr::ExprV::Column(c),
                                p,
                            ),
                            _ => match sp_value(s, i) {
                                Parsed::Found(v, p) => Parsed::Found(
                                    crate::ast::expr::ExprV::Value(v),
                                    p,
                                ),
                                _ => Parsed::Missing,
                            },
                        },
                    },
                },
            }
        },
    }
}

/// A function call: a strict identifier directly followed by a parenthesized
/// and possibly empty argument list.
pub open spec fn sp_function(s: Seq<char>, i: int) -> Parsed<crate::ast::expr::FunctionV>
    decreases s.len() - i, 0int,
{
    match sp_strict_ident(s, i) {
        Parsed::Found(name, p) => if i <= p && p < s.len() && s[p] == '(' {
            if p + 1 < s.len() && s[p + 1] == ')' {
                Parsed::Found(
                    crate::ast::expr::FunctionV { name, params: Seq::empty() },
                    p + 2,
                )
            } else {
                match sp_expr_list(s, p + 1) {
                    Parsed::Found(es, p2) => if p2 < s.len() && s[p2] == ')' {
                        Parsed::Found(
                            crate::ast::expr::FunctionV { name, params: es },
                            p2 + 1,
                        )
                    } else {
                        Parsed::Missing
                    },
                    Parsed::Missing => Parsed::Missing,
                    Parsed::Halted => Parsed::Halted,
                    Parsed::TypeFault(t) => Parsed::TypeFault(t),
                    Parsed::ValueFault(t) => Parsed::ValueFault(t),
                }
            }
        } else {
            Parsed::Missing
        },
        _ => Parsed::Missing,
    }
}

/// A committed comma-separated list of atomic expressions.
pub open spec fn sp_expr_list(s: Seq<char>, i: int) -> Parsed<Seq<crate::ast::expr::ExprV>>
    decreases s.len() - i, 3int,
{
    match sp_atom(s, i) {
        Parsed::Found(e, p) => if i <= p && p < s.len() && s[p] == ',' {
            match sp_expr_list(s, p + 1) {
                Parsed::Found(es, p2) => Parsed::Found(seq![e] + es, p2),
                Parsed::Missing => Parsed::Halted,
                Parsed::Halted => Parsed::Halted,
                Parsed::TypeFault(t) => Parsed::TypeFault(t),
                Parsed::ValueFault(t) => Parsed::ValueFault(t),
            }
        } else {
            Parsed::Found(seq![e], p)
        },
        Parsed::Missing => Parsed::Missing,
        Parsed::Halted => Parsed::Halted,
        Parsed::TypeFault(t) => Parsed::TypeFault(t),
        Parsed::ValueFault(t) => Parsed::ValueFault(t),
    }
}

/// One piece of a filter: a parenthesized filter, or an atom followed by
/// `=op.` and an atom, a connector and another piece, or a bare operator and
/// an atom.
pub open spec fn sp_filter_unit(s: Seq<char>, i: int) -> Parsed<crate::ast::expr::ExprV>
    decreases s.len() - i, 4int,
{
    let par = if 0 <= i < s.len() && s[i] == '(' {
        match sp_filter_expr(s, i + 1) {
            Parsed::Found(e, p) => if i < p && p < s.len() && s[p] == ')' {
                Parsed::Found(crate::ast::expr::ExprV::Nested(Box::new(e)), p + 1)
            } else {
                Parsed::Missing
            },
            Parsed::Missing => Parsed::Missing,
            Parsed::Halted => Parsed::Halted,
            Parsed::TypeFault(t) => Parsed::TypeFault(t),
            Parsed::ValueFault(t) => Parsed::ValueFault(t),
        }
    } else {
        Parsed::Missing
    };
    match par {
        Parsed::Found(e, p) => Parsed::Found(e, p),
        Parsed::Halted => Parsed::Halted,
        Parsed::TypeFault(t) => Parsed::TypeFault(t),
        Parsed::ValueFault(t) => Parsed::ValueFault(t),
        Parsed::Missing => match sp_atom(s, i) {
            Parsed::Found(a, p) => if i <= p && p < s.len() && s[p] == '=' {
                sp_eq_tail(s, i, a, p)
            } else if i <= p && p < s.len() && (s[p] == '&' || s[p] == '|') {
                let conn = if s[p] == '&' {
                    crate::ast::Operator::And
                } else {
                    crate::ast::Operator::Or
                };
                match sp_filter_unit(s, p + 1) {
                    Parsed::Found(r2, e2) => Parsed::Found(
                        crate::ast::expr::ExprV::BinaryOperation(
                            Box::new(
                                crate::ast::expr::BinaryOperationV {
                                    left: a,
                                    operator: conn,
                                    right: r2,
                                },
                            ),
                        ),
                        e2,
                    ),
                    Parsed::Missing => sp_op_tail(s, i, a, p),
                    Parsed::Halted => Parsed::Halted,
                    Parsed::TypeFault(t) => Parsed::TypeFault(t),
                    Parsed::ValueFault(t) => Parsed::ValueFault(t),
                }
            } else if i <= p {
                sp_op_tail(s, i, a, p)
            } else {
                Parsed::Missing
            },
            Parsed::Missing => Parsed::Missing,
            Parsed::Halted => Parsed::Halted,
            Parsed::TypeFault(t) => Parsed::TypeFault(t),
            Parsed::ValueFault(t) => Parsed::ValueFault(t),
        },
    }
}

/// The `=`-form tail of a binary operation: an optional `op.` after the
/// equals sign, defaulting to equality, then the right-hand atom.
pub open spec fn sp_eq_tail(s: Seq<char>, i: int, a: crate::ast::expr::ExprV, p: int) -> Parsed<
    crate::ast::expr::ExprV,
>
    decreases s.len() - i, 3int,
{
    if i <= p && p < s.len() {
        let op_dot = match sp_operator(s, p + 1) {
            Parsed::Found(op, p2) => if p < p2 && p2 < s.len() && s[p2] == '.' {
                Some((op, p2 + 1))
            } else {
                None
            },
            _ => None,
        };
        let (op, rp) = match op_dot {
            Some(x) => x,
            None => (crate::ast::Operator::Eq, p + 1),
        };
        if p < rp && rp <= s.len() {
            match sp_atom(s, rp) {
                Parsed::Found(rhs, e) => Parsed::Found(
                    crate::ast::expr::ExprV::BinaryOperation(
                        Box::new(
                            crate::ast::expr::BinaryOperationV { left: a, operator: op, right: rhs },
                        ),
                    ),
                    e,
                ),
                Parsed::Missing => Parsed::Missing,
                Parsed::Halted => Parsed::Halted,
                Parsed::TypeFault(t) => Parsed::TypeFault(t),
                Parsed::ValueFault(t) => Parsed::ValueFault(t),
            }
        } else {
            Parsed::Missing
        }
    } else {
        Parsed::Missing
    }
}

/// The bare-operator tail of a binary operation: an operator token and the
/// right-hand atom.
pub open spec fn sp_op_tail(s: Seq<char>, i: int, a: crate::ast::expr::ExprV, p: int) -> Parsed<
    crate::ast::expr::ExprV,
>
    decreases s.len() - i, 3int,
{
    if i <= p && p <= s.len() {
        match sp_operator(s, p) {
            Parsed::Found(op, p2) => if p < p2 && p2 <= s.len() {
                match sp_atom(s, p2) {
                    Parsed::Found(rhs, e) => Parsed::Found(
                        crate::ast::expr::ExprV::BinaryOperation(
                            Box::new(
                                crate::ast::expr::BinaryOperationV {
                                    left: a,
                                    operator: op,
                                    right: rhs,
                                },
                            ),
                        ),
                        e,
                    ),
                    Parsed::Missing => Parsed::Missing,
                    Parsed::Halted => Parsed::Halted,
                    Parsed::TypeFault(t) => Parsed::TypeFault(t),
                    Parsed::ValueFault(t) => Parsed::ValueFault(t),
                }
            } else {
                Parsed::Missing
            },
            _ => Parsed::Missing,
        }
    } else {
        Parsed::Missing
    }
}

/// A filter expression: a chain of filter pieces joined right-associatively
/// by operator tokens; a trailing operator that joins nothing backtracks.
pub open spec fn sp_filter_expr(s: Seq<char>, i: int) -> Parsed<crate::ast::expr::ExprV>
    decreases s.len() - i, 5int,
{
    match sp_filter_unit(s, i) {
        Parsed::Found(l, p) => if i <= p && p < s.len() {
            match sp_operator(s, p) {
                Parsed::Found(op, p2) => if p < p2 && p2 <= s.len() {
                    match sp_filter_expr(s, p2) {
                        Parsed::Found(r2, e) => Parsed::Found(
                            crate::ast::expr::ExprV::BinaryOperation(
                                Box::new(
                                    crate::ast::expr::BinaryOperationV {
                                        left: l,
                                        operator: op,
                                        right: r2,
                                    },
                                ),
                            ),
                            e,
                        ),
                        Parsed::Missing => match sp_atom(s, p2) {
                            Parsed::Found(r2, e) => Parsed::Found(
                                crate::ast::expr::ExprV::BinaryOperation(
                                    Box::new(
                                        crate::ast::expr::BinaryOperationV {
                                            left: l,
                                            operator: op,
                                            right: r2,
                                        },
                                    ),
                                ),
                                e,
                            ),
                            Parsed::Missing => Parsed::Found(l, p),
                            Parsed::Halted => Parsed::Halted,
                            Parsed::TypeFault(t) => Parsed::TypeFault(t),
                            Parsed::ValueFault(t) => Parsed::ValueFault(t),
                        },
                        Parsed::Halted => Parsed::Halted,
                        Parsed::TypeFault(t) => Parsed::TypeFault(t),
                        Parsed::ValueFault(t) => Parsed::ValueFault(t),
                    }
                } else {
                    Parsed::Found(l, p)
                },
                _ => Parsed::Found(l, p),
            }
        } else {
            Parsed::Found(l, p)
        },
        Parsed::Missing => Parsed::Missing,
        Parsed::Halted => Parsed::Halted,
        Parsed::TypeFault(t) => Parsed::TypeFault(t),
        Parsed::ValueFault(t) => Parsed::ValueFault(t),
    }
}



/// Reads an atomic expression at `pos`.
pub fn atom_at(input: &Vec<char>, pos: usize) -> (r: PRes<crate::ast::Expr>)
    requires
        pos <= input@.len(),
    ensures
        agrees(r, sp_atom(input@, pos as int)),
        in_bounds(r, pos, input@.len() as int),
    decreases input@.len() - pos, 2int,
{
    if pos < input.len() && input[pos] == '(' {
        match atom_at(input, pos + 1) {
            Ok((e, p)) => {
                if p < input.len() && input[p] == ')' {
                    Ok((crate::ast::Expr::Nested(Box::new(e)), p + 1))
                } else {
                    atom_flat_at(input, pos)
                }
            },
            Err(PErr::Miss(_q)) => atom_flat_at(input, pos),
            Err(x) => Err(x),
        }
    } else {
        atom_flat_at(input, pos)
    }
}

/// Reads the non-parenthesized alternatives of an atom at `pos`.
pub fn atom_flat_at(input: &Vec<char>, pos: usize) -> (r: PRes<crate::ast::Expr>)
    requires
        pos <= input@.len(),
    ensures
        agrees(r, sp_atom_flat(input@, pos as int)),
        in_bounds(r, pos, input@.len() as int),
    decreases input@.len() - pos, 1int,
{
    let n = input.len();
    match multi_values_at(input, pos) {
        Ok((vs, p)) => {
            return Ok((crate::ast::Expr::MultiValue(vs), p));
        },
        Err(PErr::Miss(_q)) => {},
        Err(x) => {
            return Err(x);
        },
    }
    proof {
        reveal_strlit("null");
    }
    if at_tag(input, pos, "null") {
        return Ok((crate::ast::Expr::Value(crate::ast::Value::Null), pos + 4));
    }
    match bool_at(input, pos) {
        Ok((b, p)) => {
            return Ok((crate::ast::Expr::Value(crate::ast::Value::Bool(b)), p));
        },
        Err(_) => {},
    }
    match number_at(input, pos) {
        Ok((t, p)) => {
            return Ok((crate::ast::Expr::Value(crate::ast::Value::Number(t)), p));
        },
        Err(_) => {},
    }
    match function_at(input, pos) {
        Ok((f, p)) => {
            return Ok((crate::ast::Expr::Function(f), p));
        },
        Err(PErr::Miss(_q)) => {},
        Err(x) => {
            return Err(x);
        },
    }
    match column_name_at(input, pos) {
        Ok((c, p)) => {
            return Ok((
                crate::ast::Expr::Column(crate::ast::ColumnName { name: c }),
                p,
            ));
        },
        Err(_) => {},
    }
    match value_at(input, pos) {
        Ok((v, p)) => Ok((crate::ast::Expr::Value(v), p)),
        Err(x) => Err(x),
    }
}

/// Reads a function call at `pos`.
pub fn function_at(input: &Vec<char>, pos: usize) -> (r: PRes<crate::ast::Function>)
    requires
        pos <= input@.len(),
    ensures
        agrees(r, sp_function(input@, pos as int)),
        in_bounds(r, pos, input@.len() as int),
    decreases input@.len() - pos, 0int,
{
    match strict_ident_at(input, pos) {
        Ok((name, p)) => {
            if p < input.len() && input[p] == '(' {
                if p + 1 < input.len() && input[p + 1] == ')' {
                    let f = crate::ast::Function { name, params: Vec::new() };
                    proof {
                        crate::ast::expr::lemma_exprs_deep(f.params@);
                        assert(f.deep_view().params =~= Seq::<crate::ast::expr::ExprV>::empty());
                    }
                    Ok((f, p + 2))
                } else {
                    match expr_list_at(input, p + 1) {
                        Ok((es, p2)) => {
                            if p2 < input.len() && input[p2] == ')' {
                                let f = crate::ast::Function { name, params: es };
                                proof {
                                    crate::ast::expr::lemma_exprs_deep(f.params@);
                                    crate::ast::expr::lemma_exprs_deep_vec(&f.params);
                                }
                                Ok((f, p2 + 1))
                            } else {
                                Err(PErr::Miss(pos))
                            }
                        },
                        Err(x) => Err(x),
                    }
                }
            } else {
                Err(PErr::Miss(pos))
            }
        },
        Err(_) => Err(PErr::Miss(pos)),
    }
}

/// Reads a committed comma-separated list of atoms at `pos`.
pub fn expr_list_at(input: &Vec<char>, pos: usize) -> (r: PRes<Vec<crate::ast::Expr>>)
    requires
        pos <= input@.len(),
    ensures
        agrees(r, sp_expr_list(input@, pos as int)),
        in_bounds(r, pos, input@.len() as int),
    decreases input@.len() - pos, 3int,
{
    match atom_at(input, pos) {
        Ok((e, p)) => {
            if p < input.len() && input[p] == ',' {
                match expr_list_at(input, p + 1) {
                    Ok((es, p2)) => {
                        let mut es2 = es;
                        let ghost es0 = es2.deep_view();
                        let ghost e0 = e.deep_view();
                        es2.insert(0, e);
                        proof {
                            assert(es2.deep_view() =~= seq![e0] + es0);
                        }
                        Ok((es2, p2))
                    },
                    Err(PErr::Miss(_q)) => Err(PErr::Fail(_q, "expression list")),
                    Err(x) => Err(x),
                }
            } else {
                let ghost e0 = e.deep_view();
                let mut es: Vec<crate::ast::Expr> = Vec::new();
                es.push(e);
                proof {
                    assert(es.deep_view() =~= seq![e0]);
                }
                Ok((es, p))
            }
        },
        Err(x) => Err(x),
    }
}

/// Reads one filter piece at `pos`.
pub fn filter_unit_at(input: &Vec<char>, pos: usize) -> (r: PRes<crate::ast::Expr>)
    requires
        pos <= input@.len(),
    ensures
        agrees(r, sp_filter_unit(input@, pos as int)),
        in_bounds(r, pos, input@.len() as int),
    decreases input@.len() - pos, 4int,
{
    if pos < input.len() && input[pos] == '(' {
        match filter_expr_at(input, pos + 1) {
            Ok((e, p)) => {
                if p < input.len() && input[p] == ')' {
                    return Ok((crate::ast::Expr::Nested(Box::new(e)), p + 1));
                }
            },
            Err(PErr::Miss(_q)) => {},
            Err(x) => {
                return Err(x);
            },
        }
    }
    match atom_at(input, pos) {
        Ok((a, p)) => {
            if p < input.len() && input[p] == '=' {
                eq_tail_at(input, pos, a, p)
            } else if p < input.len() && (input[p] == '&' || input[p] == '|') {
                let conn = if input[p] == '&' {
                    crate::ast::Operator::And
                } else {
                    crate::ast::Operator::Or
                };
                match filter_unit_at(input, p + 1) {
                    Ok((r2, e2)) => Ok((
                        crate::ast::Expr::BinaryOperation(
                            Box::new(
                                crate::ast::BinaryOperation {
                                    left: a,
                                    operator: conn,
                                    right: r2,
                                },
                            ),
                        ),
                        e2,
                    )),
                    Err(PErr::Miss(_q)) => op_tail_at(input, pos, a, p),
                    Err(x) => Err(x),
                }
            } else {
                op_tail_at(input, pos, a, p)
            }
        },
        Err(x) => Err(x),
    }
}

/// Reads the `=op.`-form tail of a binary operation.
pub fn eq_tail_at(input: &Vec<char>, pos: usize, a: crate::ast::Expr, p: usize) -> (r: PRes<
    crate::ast::Expr,
>)
    requires
        pos <= p < input@.len(),
    ensures
        agrees(r, sp_eq_tail(input@, pos as int, a.deep_view(), p as int)),
        in_bounds(r, pos, input@.len() as int),
    decreases input@.len() - pos, 3int,
{
    let n = input.len();
    let op_dot: Option<(crate::ast::Operator, usize)> = match operator_at(input, p + 1) {
        Ok((op, p2)) => {
            if p2 < input.len() && input[p2] == '.' {
                Some((op, p2 + 1))
            } else {
                None
            }
        },
        Err(_) => None,
    };
    let (op, rp) = match op_dot {
        Some(x) => x,
        None => (crate::ast::Operator::Eq, p + 1),
    };
    match atom_at(input, rp) {
        Ok((rhs, e)) => Ok((
            crate::ast::Expr::BinaryOperation(
                Box::new(crate::ast::BinaryOperation { left: a, operator: op, right: rhs }),
            ),
            e,
        )),
        Err(x) => Err(x),
    }
}

/// Reads the bare-operator tail of a binary operation.
pub fn op_tail_at(input: &Vec<char>, pos: usize, a: crate::ast::Expr, p: usize) -> (r: PRes<
    crate::ast::Expr,
>)
    requires
        pos <= p <= input@.len(),
    ensures
        agrees(r, sp_op_tail(input@, pos as int, a.deep_view(), p as int)),
        in_bounds(r, pos, input@.len() as int),
    decreases input@.len() - pos, 3int,
{
    match operator_at(input, p) {
        Ok((op, p2)) => {
            match atom_at(input, p2) {
                Ok((rhs, e)) => Ok((
                    crate::ast::Expr::BinaryOperation(
                        Box::new(
                            crate::ast::BinaryOperation { left: a, operator: op, right: rhs },
                        ),
                    ),
                    e,
                )),
                Err(PErr::Miss(_q)) => Err(PErr::Miss(pos)),
                Err(x) => Err(x),
            }
        },
        Err(_) => Err(PErr::Miss(pos)),
    }
}

/// Reads a filter expression at `pos`.
pub fn filter_expr_at(input: &Vec<char>, pos: usize) -> (r: PRes<crate::ast::Expr>)
    requires
        pos <= input@.len(),
    ensures
        agrees(r, sp_filter_expr(input@, pos as int)),
        in_bounds(r, pos, input@.len() as int),
    decreases input@.len() - pos, 5int,
{
    match filter_unit_at(input, pos) {
        Ok((l, p)) => {
            if p < input.len() {
                match operator_at(input, p) {
                    Ok((op, p2)) => {
                        match filter_expr_at(input, p2) {
                            Ok((r2, e)) => Ok((
                                crate::ast::Expr::BinaryOperation(
                                    Box::new(
                                        crate::ast::BinaryOperation {
                                            left: l,
                                            operator: op,
                                            right: r2,
                                        },
                                    ),
                                ),
                                e,
                            )),
                            Err(PErr::Miss(_q)) => {
                                match atom_at(input, p2) {
                                    Ok((r2, e)) => Ok((
                                        crate::ast::Expr::BinaryOperation(
                                            Box::new(
                                                crate::ast::BinaryOperation {
                                                    left: l,
                                                    operator: op,
                                                    right: r2,
                                                },
                                            ),
                                        ),
                                        e,
                                    )),
                                    Err(PErr::Miss(_q)) => Ok((l, p)),
                                    Err(x) => Err(x),
                                }
                            },
                            Err(x) => Err(x),
                        }
                    },
                    Err(_) => Ok((l, p)),
                }
            } else {
                Ok((l, p))
            }
        },
        Err(x) => Err(x),
    }
}



/// A projection entry: an atom with an optional `=>` or `=^` rename.
pub open spec fn sp_expr_rename(s: Seq<char>, i: int) -> Parsed<crate::ast::expr::ExprRenameV> {
    match sp_atom(s, i) {
        Parsed::Found(e, p) => if i <= p && (starts_with(s, p, "=>"@) || starts_with(s, p, "=^"@)) {
            match sp_strict_ident(s, p + 2) {
                Parsed::Found(w, p2) => Parsed::Found(
                    crate::ast::expr::ExprRenameV { expr: e, rename: Some(w) },
                    p2,
                ),
                _ => Parsed::Found(crate::ast::expr::ExprRenameV { expr: e, rename: None }, p),
            }
        } else {
            Parsed::Found(crate::ast::expr::ExprRenameV { expr: e, rename: None }, p)
        },
        Parsed::Missing => Parsed::Missing,
        Parsed::Halted => Parsed::Halted,
        Parsed::TypeFault(t) => Parsed::TypeFault(t),
        Parsed::ValueFault(t) => Parsed::ValueFault(t),
    }
}

/// Reads a projection entry at `pos`.
pub fn expr_rename_at(input: &Vec<char>, pos: usize) -> (r: PRes<crate::ast::ExprRename>)
    requires
        pos <= input@.len(),
    ensures
        agrees(r, sp_expr_rename(input@, pos as int)),
        in_bounds(r, pos, input@.len() as int),
{
    let n = input.len();
    proof {
        reveal_strlit("=>");
        reveal_strlit("=^");
    }
    match atom_at(input, pos) {
        Ok((e, p)) => {
            if at_tag(input, p, "=>") || at_tag(input, p, "=^") {
                match strict_ident_at(input, p + 2) {
                    Ok((w, p2)) => Ok((
                        crate::ast::ExprRename { expr: e, rename: Some(w) },
                        p2,
                    )),
                    Err(_) => Ok((crate::ast::ExprRename { expr: e, rename: None }, p)),
                }
            } else {
                Ok((crate::ast::ExprRename { expr: e, rename: None }, p))
            }
        },
        Err(x) => Err(x),
    }
}

/// A committed comma-separated list of projection entries.
pub open spec fn sp_rename_list(s: Seq<char>, i: int) -> Parsed<Seq<crate::ast::expr::ExprRenameV>>
    decreases s.len() - i,
{
    match sp_expr_rename(s, i) {
        Parsed::Found(e, p) => if i <= p && p < s.len() && s[p] == ',' {
            match sp_rename_list(s, p + 1) {
                Parsed::Found(es, p2) => Parsed::Found(seq![e] + es, p2),
                Parsed::Missing => Parsed::Halted,
                Parsed::Halted => Parsed::Halted,
                Parsed::TypeFault(t) => Parsed::TypeFault(t),
                Parsed::ValueFault(t) => Parsed::ValueFault(t),
            }
        } else {
            Parsed::Found(seq![e], p)
        },
        Parsed::Missing => Parsed::Missing,
        Parsed::Halted => Parsed::Halted,
        Parsed::TypeFault(t) => Parsed::TypeFault(t),
        Parsed::ValueFault(t) => Parsed::ValueFault(t),
    }
}

/// Reads a committed list of projection entries at `pos`.
pub fn rename_list_at(input: &Vec<char>, pos: usize) -> (r: PRes<Vec<crate::ast::ExprRename>>)
    requires
        pos <= input@.len(),
    ensures
        agrees(r, sp_rename_list(input@, pos as int)),
        in_bounds(r, pos, input@.len() as int),
    decreases input@.len() - pos,
{
    match expr_rename_at(input, pos) {
        Ok((e, p)) => {
            if p < input.len() && input[p] == ',' {
                match rename_list_at(input, p + 1) {
                    Ok((es, p2)) => {
                        let mut es2 = es;
                        let ghost es0 = es2.deep_view();
                        let ghost e0 = e.deep_view();
                        es2.insert(0, e);
                        proof {
                            assert(es2.deep_view() =~= seq![e0] + es0);
                        }
                        Ok((es2, p2))
                    },
                    Err(PErr::Miss(_q)) => Err(PErr::Fail(_q, "column expression list")),
                    Err(x) => Err(x),
                }
            } else {
                let ghost e0 = e.deep_view();
                let mut es: Vec<crate::ast::ExprRename> = Vec::new();
                es.push(e);
                proof {
                    assert(es.deep_view() =~= seq![e0]);
                }
                Ok((es, p))
            }
        },
        Err(x) => Err(x),
    }
}

/// An order-by entry: an atom with an optional `.asc` or `.desc`.
pub open spec fn sp_order(s: Seq<char>, i: int) -> Parsed<crate::ast::OrderV> {
    match sp_atom(s, i) {
        Parsed::Found(e, p) => if i <= p && starts_with(s, p, ".asc"@) {
            Parsed::Found(
                crate::ast::OrderV { expr: e, direction: Some(crate::ast::Direction::Asc) },
                p + ".asc"@.len(),
            )
        } else if i <= p && starts_with(s, p, ".desc"@) {
            Parsed::Found(
                crate::ast::OrderV { expr: e, direction: Some(crate::ast::Direction::Desc) },
                p + ".desc"@.len(),
            )
        } else {
            Parsed::Found(crate::ast::OrderV { expr: e, direction: None }, p)
        },
        Parsed::Missing => Parsed::Missing,
        Parsed::Halted => Parsed::Halted,
        Parsed::TypeFault(t) => Parsed::TypeFault(t),
        Parsed::ValueFault(t) => Parsed::ValueFault(t),
    }
}

/// Reads an order-by entry at `pos`.
pub fn order_at(input: &Vec<char>, pos: usize) -> (r: PRes<crate::ast::Order>)
    requires
        pos <= input@.len(),
    ensures
        agrees(r, sp_order(input@, pos as int)),
        in_bounds(r, pos, input@.len() as int),
{
    let n = input.len();
    proof {
        reveal_strlit(".asc");
        reveal_strlit(".desc");
    }
    match atom_at(input, pos) {
        Ok((e, p)) => {
            if at_tag(input, p, ".asc") {
                Ok((
                    crate::ast::Order { expr: e, direction: Some(crate::ast::Direction::Asc) },
                    p + 4,
                ))
            } else if at_tag(input, p, ".desc") {
                Ok((
                    crate::ast::Order { expr: e, direction: Some(crate::ast::Direction::Desc) },
                    p + 5,
                ))
            } else {
                Ok((crate::ast::Order { expr: e, direction: None }, p))
            }
        },
        Err(x) => Err(x),
    }
}

/// A committed comma-separated list of order-by entries.
pub open spec fn sp_order_list(s: Seq<char>, i: int) -> Parsed<Seq<crate::ast::OrderV>>
    decreases s.len() - i,
{
    match sp_order(s, i) {
        Parsed::Found(e, p) => if i <= p && p < s.len() && s[p] == ',' {
            match sp_order_list(s, p + 1) {
                Parsed::Found(es, p2) => Parsed::Found(seq![e] + es, p2),
                Parsed::Missing => Parsed::Halted,
                Parsed::Halted => Parsed::Halted,
                Parsed::TypeFault(t) => Parsed::TypeFault(t),
                Parsed::ValueFault(t) => Parsed::ValueFault(t),
            }
        } else {
            Parsed::Found(seq![e], p)
        },
        Parsed::Missing => Parsed::Missing,
        Parsed::Halted => Parsed::Halted,
        Parsed::TypeFault(t) => Parsed::TypeFault(t),
        Parsed::ValueFault(t) => Parsed::ValueFault(t),
    }
}

/// Reads a committed list of order-by entries at `pos`.
pub fn order_list_at(input: &Vec<char>, pos: usize) -> (r: PRes<Vec<crate::ast::Order>>)
    requires
        pos <= input@.len(),
    ensures
        agrees(r, sp_order_list(input@, pos as int)),
        in_bounds(r, pos, input@.len() as int),
    decreases input@.len() - pos,
{
    match order_at(input, pos) {
        Ok((e, p)) => {
            if p < input.len() && input[p] == ',' {
                match order_list_at(input, p + 1) {
                    Ok((es, p2)) => {
                        let mut es2 = es;
                        let ghost es0 = es2.deep_view();
                        let ghost e0 = e.deep_view();
                        es2.insert(0, e);
                        proof {
                            assert(es2.deep_view() =~= seq![e0] + es0);
                        }
                        Ok((es2, p2))
                    },
                    Err(PErr::Miss(_q)) => Err(PErr::Fail(_q, "order-by list")),
                    Err(x) => Err(x),
                }
            } else {
                let ghost e0 = e.deep_view();
                let mut es: Vec<crate::ast::Order> = Vec::new();
                es.push(e);
                proof {
                    assert(es.deep_view() =~= seq![e0]);
                }
                Ok((es, p))
            }
        },
        Err(x) => Err(x),
    }
}

/// A join arrow: inner, full, left, or right.
pub open spec fn sp_join_type(s: Seq<char>, i: int) -> Parsed<crate::ast::JoinType> {
    if starts_with(s, i, "-><-"@) {
        Parsed::Found(crate::ast::JoinType::InnerJoin, i + "-><-"@.len())
    } else if starts_with(s, i, "<-->"@) {
        Parsed::Found(crate::ast::JoinType::FullJoin, i + "<-->"@.len())
    } else if starts_with(s, i, "<-"@) {
        Parsed::Found(crate::ast::JoinType::LeftJoin, i + "<-"@.len())
    } else if starts_with(s, i, "->"@) {
        Parsed::Found(crate::ast::JoinType::RightJoin, i + "->"@.len())
    } else {
        Parsed::Missing
    }
}

/// Reads a join arrow at `pos`.
pub fn join_type_at(input: &Vec<char>, pos: usize) -> (r: PRes<crate::ast::JoinType>)
    requires
        pos <= input@.len(),
    ensures
        agrees(r, sp_join_type(input@, pos as int)),
        in_bounds(r, pos, input@.len() as int),
        r matches Ok((_, q)) ==> q > pos,
{
    let n = input.len();
    proof {
        reveal_strlit("-><-");
        reveal_strlit("<-->");
        reveal_strlit("<-");
        reveal_strlit("->");
    }
    if at_tag(input, pos, "-><-") {
        Ok((crate::ast::JoinType::InnerJoin, pos + 4))
    } else if at_tag(input, pos, "<-->") {
        Ok((crate::ast::JoinType::FullJoin, pos + 4))
    } else if at_tag(input, pos, "<-") {
        Ok((crate::ast::JoinType::LeftJoin, pos + 2))
    } else if at_tag(input, pos, "->") {
        Ok((crate::ast::JoinType::RightJoin, pos + 2))
    } else {
        Err(PErr::Miss(pos))
    }
}

/// A join chain: a table name, which must be present, optionally followed
/// by a join arrow and another chain.
pub open spec fn sp_from_table(s: Seq<char>, i: int) -> Parsed<crate::ast::table::FromTableV>
    decreases s.len() - i,
{
    match sp_table_name(s, i) {
        Parsed::Found(name, p) => if i <= p {
            match sp_join_type(s, p) {
                Parsed::Found(jt, p2) => if p < p2 && p2 <= s.len() {
                    match sp_from_table(s, p2) {
                        Parsed::Found(rest, e) => Parsed::Found(
                            crate::ast::table::FromTableV::Join(name, jt, Box::new(rest)),
                            e,
                        ),
                        Parsed::Missing => Parsed::Halted,
                        Parsed::Halted => Parsed::Halted,
                        Parsed::TypeFault(t) => Parsed::TypeFault(t),
                        Parsed::ValueFault(t) => Parsed::ValueFault(t),
                    }
                } else {
                    Parsed::Found(crate::ast::table::FromTableV::Leaf(name), p)
                },
                _ => Parsed::Found(crate::ast::table::FromTableV::Leaf(name), p),
            }
        } else {
            Parsed::Missing
        },
        _ => Parsed::Halted,
    }
}

/// Reads a join chain at `pos`.
pub fn from_table_at(input: &Vec<char>, pos: usize) -> (r: PRes<crate::ast::FromTable>)
    requires
        pos <= input@.len(),
    ensures
        agrees(r, sp_from_table(input@, pos as int)),
        in_bounds(r, pos, input@.len() as int),
    decreases input@.len() - pos,
{
    match table_name_at(input, pos) {
        Ok((name, p)) => {
            match join_type_at(input, p) {
                Ok((jt, p2)) => {
                    match from_table_at(input, p2) {
                        Ok((rest, e)) => Ok((
                            crate::ast::FromTable {
                                from: crate::ast::TableName { name },
                                join: Some((jt, Box::new(rest))),
                            },
                            e,
                        )),
                        Err(PErr::Miss(_q)) => Err(PErr::Fail(_q, "table reference")),
                        Err(x) => Err(x),
                    }
                },
                Err(_) => Ok((
                    crate::ast::FromTable { from: crate::ast::TableName { name }, join: None },
                    p,
                )),
            }
        },
        Err(_) => Err(PErr::Fail(pos, "table reference")),
    }
}

/// A page clause: `page=N&page_size=M`, both integers committed.
pub open spec fn sp_page(s: Seq<char>, i: int) -> Parsed<crate::ast::Page> {
    if starts_with(s, i, "page="@) {
        match sp_integer(s, i + "page="@.len()) {
            Parsed::Found(pv, p) => if p < s.len() && s[p] == '&' {
                if starts_with(s, p + 1, "page_size="@) {
                    match sp_integer(s, p + 1 + "page_size="@.len()) {
                        Parsed::Found(sz, e) => Parsed::Found(
                            crate::ast::Page { page: pv, page_size: sz },
                            e,
                        ),
                        _ => Parsed::Halted,
                    }
                } else {
                    Parsed::Halted
                }
            } else {
                Parsed::Missing
            },
            _ => Parsed::Halted,
        }
    } else {
        Parsed::Missing
    }
}

/// Reads a page clause at `pos`.
pub fn page_at(input: &Vec<char>, pos: usize) -> (r: PRes<crate::ast::Page>)
    requires
        pos <= input@.len(),
    ensures
        agrees(r, sp_page(input@, pos as int)),
        in_bounds(r, pos, input@.len() as int),
{
    let n = input.len();
    proof {
        reveal_strlit("page=");
        reveal_strlit("page_size=");
    }
    if at_tag(input, pos, "page=") {
        match integer_at(input, pos + 5) {
            Ok((pv, p)) => {
                if p < input.len() && input[p] == '&' {
                    if at_tag(input, p + 1, "page_size=") {
                        match integer_at(input, p + 11) {
                            Ok((sz, e)) => Ok((crate::ast::Page { page: pv, page_size: sz }, e)),
                            Err(_) => Err(PErr::Fail(pos, "page number")),
                        }
                    } else {
                        Err(PErr::Fail(pos, "page number"))
                    }
                } else {
                    Err(PErr::Miss(pos))
                }
            },
            Err(_) => Err(PErr::Fail(pos, "page number")),
        }
    } else {
        Err(PErr::Miss(pos))
    }
}

/// A limit clause: `limit=N` with an optional `&offset=M`.
pub open spec fn sp_limit(s: Seq<char>, i: int) -> Parsed<crate::ast::Limit> {
    if starts_with(s, i, "limit="@) {
        match sp_integer(s, i + "limit="@.len()) {
            Parsed::Found(lv, p) => if p < s.len() && s[p] == '&' && starts_with(
                s,
                p + 1,
                "offset="@,
            ) {
                match sp_integer(s, p + 1 + "offset="@.len()) {
                    Parsed::Found(ov, e) => Parsed::Found(
                        crate::ast::Limit { limit: lv, offset: Some(ov) },
                        e,
                    ),
                    _ => Parsed::Halted,
                }
            } else {
                Parsed::Found(crate::ast::Limit { limit: lv, offset: None }, p)
            },
            _ => Parsed::Halted,
        }
    } else {
        Parsed::Missing
    }
}

/// Reads a limit clause at `pos`.
pub fn limit_at(input: &Vec<char>, pos: usize) -> (r: PRes<crate::ast::Limit>)
    requires
        pos <= input@.len(),
    ensures
        agrees(r, sp_limit(input@, pos as int)),
        in_bounds(r, pos, input@.len() as int),
{
    let n = input.len();
    proof {
        reveal_strlit("limit=");
        reveal_strlit("offset=");
    }
    if at_tag(input, pos, "limit=") {
        match integer_at(input, pos + 6) {
            Ok((lv, p)) => {
                if p < input.len() && input[p] == '&' && at_tag(input, p + 1, "offset=") {
                    match integer_at(input, p + 8) {
                        Ok((ov, e)) => Ok((crate::ast::Limit { limit: lv, offset: Some(ov) }, e)),
                        Err(_) => Err(PErr::Fail(pos, "limit count")),
                    }
                } else {
                    Ok((crate::ast::Limit { limit: lv, offset: None }, p))
                }
            },
            Err(_) => Err(PErr::Fail(pos, "limit count")),
        }
    } else {
        Err(PErr::Miss(pos))
    }
}

/// A range clause: a page, or otherwise a limit.
pub open spec fn sp_range(s: Seq<char>, i: int) -> Parsed<crate::ast::Range> {
    match sp_page(s, i) {
        Parsed::Found(pg, e) => Parsed::Found(crate::ast::Range::Page(pg), e),
        Parsed::Missing => match sp_limit(s, i) {
            Parsed::Found(l, e) => Parsed::Found(crate::ast::Range::Limit(l), e),
            Parsed::Missing => Parsed::Missing,
            Parsed::Halted => Parsed::Halted,
            Parsed::TypeFault(t) => Parsed::TypeFault(t),
            Parsed::ValueFault(t) => Parsed::ValueFault(t),
        },
        Parsed::Halted => Parsed::Halted,
        Parsed::TypeFault(t) => Parsed::TypeFault(t),
        Parsed::ValueFault(t) => Parsed::ValueFault(t),
    }
}

/// Reads a range clause at `pos`.
pub fn range_at(input: &Vec<char>, pos: usize) -> (r: PRes<crate::ast::Range>)
    requires
        pos <= input@.len(),
    ensures
        agrees(r, sp_range(input@, pos as int)),
        in_bounds(r, pos, input@.len() as int),
{
    match page_at(input, pos) {
        Ok((pg, e)) => Ok((crate::ast::Range::Page(pg), e)),
        Err(PErr::Miss(_q)) => match limit_at(input, pos) {
            Ok((l, e)) => Ok((crate::ast::Range::Limit(l), e)),
            Err(x) => Err(x),
        },
        Err(x) => Err(x),
    }
}

/// Where the line ends at `i`: past the end of input, a newline, or a
/// carriage return before a newline; nothing otherwise.
pub open spec fn sp_end_or_ln(s: Seq<char>, i: int) -> Option<int> {
    if i >= s.len() {
        Some(i)
    } else if s[i] == '\n' {
        Some(i + 1)
    } else if s[i] == '\r' && i + 1 < s.len() && s[i + 1] == '\n' {
        Some(i + 2)
    } else {
        None
    }
}

/// Consumes the end of line at `pos`, if the line ends there.
pub fn end_or_ln_at(input: &Vec<char>, pos: usize) -> (r: Option<usize>)
    requires
        pos <= input@.len(),
    ensures
        match r {
            Some(q) => sp_end_or_ln(input@, pos as int) == Some(q as int) && pos <= q
                <= input@.len(),
            None => sp_end_or_ln(input@, pos as int) is None,
        },
{
    if pos >= input.len() {
        Some(pos)
    } else if input[pos] == '\n' {
        Some(pos + 1)
    } else if input[pos] == '\r' && pos + 1 < input.len() && input[pos + 1] == '\n' {
        Some(pos + 2)
    } else {
        None
    }
}

/// A select statement: the join chain, an optional projection in braces, an
/// optional `?` and filter, then the optional `group_by`, `having`,
/// `order_by` and range parameters, each introduced by `&`, up to the end
/// of the line.
pub open spec fn sp_select(s: Seq<char>, i: int) -> Parsed<crate::ast::SelectV> {
    match sp_from_table(s, i) {
        Parsed::Found(ft, p0) => if i <= p0 && p0 <= s.len() {
            let (proj, p1) = if p0 < s.len() && s[p0] == '{' {
                match sp_rename_list(s, p0 + 1) {
                    Parsed::Found(es, q) => if q < s.len() && s[q] == '}' {
                        (Parsed::Found(Some(es), q + 1), q + 1)
                    } else {
                        (Parsed::Found(None, p0), p0)
                    },
                    Parsed::Missing => (Parsed::Found(None, p0), p0),
                    Parsed::Halted => (Parsed::<Option<Seq<crate::ast::expr::ExprRenameV>>>::Halted, p0),
                    Parsed::TypeFault(t) => (Parsed::TypeFault(t), p0),
                    Parsed::ValueFault(t) => (Parsed::ValueFault(t), p0),
                }
            } else {
                (Parsed::Found(None, p0), p0)
            };
            match proj {
                Parsed::Found(projection, _) => sp_select_after_proj(s, i, ft, projection, p1),
                Parsed::Missing => Parsed::Missing,
                Parsed::Halted => Parsed::Halted,
                Parsed::TypeFault(t) => Parsed::TypeFault(t),
                Parsed::ValueFault(t) => Parsed::ValueFault(t),
            }
        } else {
            Parsed::Missing
        },
        Parsed::Missing => Parsed::Missing,
        Parsed::Halted => Parsed::Halted,
        Parsed::TypeFault(t) => Parsed::TypeFault(t),
        Parsed::ValueFault(t) => Parsed::ValueFault(t),
    }
}

/// The part of a select after the projection: filter and query parameters.
pub open spec fn sp_select_after_proj(
    s: Seq<char>,
    i: int,
    ft: crate::ast::table::FromTableV,
    projection: Option<Seq<crate::ast::expr::ExprRenameV>>,
    p1: int,
) -> Parsed<crate::ast::SelectV> {
    if 0 <= p1 <= s.len() {
        let p2 = if p1 < s.len() && s[p1] == '?' {
            p1 + 1
        } else {
            p1
        };
        match sp_opt_filter(s, p2) {
            Parsed::Found(filter, p3) => match sp_opt_group_by(s, p3) {
                Parsed::Found(group_by, p4) => match sp_opt_having(s, p4) {
                    Parsed::Found(having, p5) => match sp_opt_order_by(s, p5) {
                        Parsed::Found(order_by, p6) => {
                            let (range, p7) = if p6 < s.len() && s[p6] == '&' {
                                match sp_range(s, p6 + 1) {
                                    Parsed::Found(rg, q) => (Some(Some(rg)), q)
                                    ,
                                    Parsed::Missing => (Some(Option::<crate::ast::Range>::None), p6),
                                    _ => (None, p6),
                                }
                            } else {
                                (Some(Option::<crate::ast::Range>::None), p6)
                            };
                            match range {
                                Some(range_val) => match sp_end_or_ln(s, p7) {
                                    Some(e) => Parsed::Found(
                                        crate::ast::SelectV {
                                            from_table: ft,
                                            filter,
                                            group_by,
                                            having,
                                            projection,
                                            order_by,
                                            range: range_val,
                                        },
                                        e,
                                    ),
                                    None => Parsed::Missing,
                                },
                                None => sp_range_fault(s, p6 + 1),
                            }
                        },
                        Parsed::Missing => Parsed::Missing,
                        Parsed::Halted => Parsed::Halted,
                        Parsed::TypeFault(t) => Parsed::TypeFault(t),
                        Parsed::ValueFault(t) => Parsed::ValueFault(t),
                    },
                    Parsed::Missing => Parsed::Missing,
                    Parsed::Halted => Parsed::Halted,
                    Parsed::TypeFault(t) => Parsed::TypeFault(t),
                    Parsed::ValueFault(t) => Parsed::ValueFault(t),
                },
                Parsed::Missing => Parsed::Missing,
                Parsed::Halted => Parsed::Halted,
                Parsed::TypeFault(t) => Parsed::TypeFault(t),
                Parsed::ValueFault(t) => Parsed::ValueFault(t),
            },
            Parsed::Missing => Parsed::Missing,
            Parsed::Halted => Parsed::Halted,
            Parsed::TypeFault(t) => Parsed::TypeFault(t),
            Parsed::ValueFault(t) => Parsed::ValueFault(t),
        }
    } else {
        Parsed::Missing
    }
}

/// The committed failure a range clause left at `i`, as a select outcome.
pub open spec fn sp_range_fault(s: Seq<char>, i: int) -> Parsed<crate::ast::SelectV> {
    if 0 <= i <= s.len() {
        match sp_range(s, i) {
            Parsed::Halted => Parsed::Halted,
            Parsed::TypeFault(t) => Parsed::TypeFault(t),
            Parsed::ValueFault(t) => Parsed::ValueFault(t),
            _ => Parsed::Halted,
        }
    } else {
        Parsed::Halted
    }
}

/// An optional filter expression; its absence consumes nothing.
pub open spec fn sp_opt_filter(s: Seq<char>, i: int) -> Parsed<Option<crate::ast::expr::ExprV>> {
    if 0 <= i <= s.len() {
        match sp_filter_expr(s, i) {
            Parsed::Found(e, p) => Parsed::Found(Some(e), p),
            Parsed::Missing => Parsed::Found(None, i),
            Parsed::Halted => Parsed::Halted,
            Parsed::TypeFault(t) => Parsed::TypeFault(t),
            Parsed::ValueFault(t) => Parsed::ValueFault(t),
        }
    } else {
        Parsed::Missing
    }
}

/// An optional `&group_by=` list; its absence consumes nothing.
pub open spec fn sp_opt_group_by(s: Seq<char>, i: int) -> Parsed<
    Option<Seq<crate::ast::expr::ExprV>>,
> {
    if 0 <= i <= s.len() {
        if starts_with(s, i, "&group_by="@) {
            match sp_expr_list(s, i + "&group_by="@.len()) {
                Parsed::Found(es, p) => Parsed::Found(Some(es), p),
                Parsed::Missing => Parsed::Found(None, i),
                Parsed::Halted => Parsed::Halted,
                Parsed::TypeFault(t) => Parsed::TypeFault(t),
                Parsed::ValueFault(t) => Parsed::ValueFault(t),
            }
        } else {
            Parsed::Found(None, i)
        }
    } else {
        Parsed::Missing
    }
}

/// An optional `&having=` filter; its absence consumes nothing.
pub open spec fn sp_opt_having(s: Seq<char>, i: int) -> Parsed<Option<crate::ast::expr::ExprV>> {
    if 0 <= i <= s.len() {
        if starts_with(s, i, "&having="@) {
            match sp_filter_expr(s, i + "&having="@.len()) {
                Parsed::Found(e, p) => Parsed::Found(Some(e), p),
                Parsed::Missing => Parsed::Found(None, i),
                Parsed::Halted => Parsed::Halted,
                Parsed::TypeFault(t) => Parsed::TypeFault(t),
                Parsed::ValueFault(t) => Parsed::ValueFault(t),
            }
        } else {
            Parsed::Found(None, i)
        }
    } else {
        Parsed::Missing
    }
}

/// An optional `&order_by=` list; its absence consumes nothing.
pub open spec fn sp_opt_order_by(s: Seq<char>, i: int) -> Parsed<Option<Seq<crate::ast::OrderV>>> {
    if 0 <= i <= s.len() {
        if starts_with(s, i, "&order_by="@) {
            match sp_order_list(s, i + "&order_by="@.len()) {
                Parsed::Found(es, p) => Parsed::Found(Some(es), p),
                Parsed::Missing => Parsed::Found(None, i),
                Parsed::Halted => Parsed::Halted,
                Parsed::TypeFault(t) => Parsed::TypeFault(t),
                Parsed::ValueFault(t) => Parsed::ValueFault(t),
            }
        } else {
            Parsed::Found(None, i)
        }
    } else {
        Parsed::Missing
    }
}

/// Reads a select statement at `pos`.
#[verifier::rlimit(100)]
pub fn select_at(input: &Vec<char>, pos: usize) -> (r: PRes<crate::ast::Select>)
    requires
        pos <= input@.len(),
    ensures
        agrees(r, sp_select(input@, pos as int)),
        in_bounds(r, pos, input@.len() as int),
{
    let n = input.len();
    proof {
        reveal_strlit("&group_by=");
        reveal_strlit("&having=");
        reveal_strlit("&order_by=");
    }
    let (ft, p0) = match from_table_at(input, pos) {
        Ok(x) => x,
        Err(x) => {
            return Err(x);
        },
    };
    let (projection, p1): (Option<Vec<crate::ast::ExprRename>>, usize) = if p0 < input.len()
        && input[p0] == '{' {
        match rename_list_at(input, p0 + 1) {
            Ok((es, q)) => {
                if q < input.len() && input[q] == '}' {
                    (Some(es), q + 1)
                } else {
                    (None, p0)
                }
            },
            Err(PErr::Miss(_q)) => (None, p0),
            Err(x) => {
                return Err(x);
            },
        }
    } else {
        (None, p0)
    };
    let p2 = if p1 < input.len() && input[p1] == '?' {
        p1 + 1
    } else {
        p1
    };
    let (filter, p3): (Option<crate::ast::Expr>, usize) = match filter_expr_at(input, p2) {
        Ok((e, p)) => (Some(e), p),
        Err(PErr::Miss(_q)) => (None, p2),
        Err(x) => {
            return Err(x);
        },
    };
    let (group_by, p4): (Option<Vec<crate::ast::Expr>>, usize) = if at_tag(
        input,
        p3,
        "&group_by=",
    ) {
        match expr_list_at(input, p3 + 10) {
            Ok((es, p)) => (Some(es), p),
            Err(PErr::Miss(_q)) => (None, p3),
            Err(x) => {
                return Err(x);
            },
        }
    } else {
        (None, p3)
    };
    let (having, p5): (Option<crate::ast::Expr>, usize) = if at_tag(input, p4, "&having=") {
        match filter_expr_at(input, p4 + 8) {
            Ok((e, p)) => (Some(e), p),
            Err(PErr::Miss(_q)) => (None, p4),
            Err(x) => {
                return Err(x);
            },
        }
    } else {
        (None, p4)
    };
    let (order_by, p6): (Option<Vec<crate::ast::Order>>, usize) = if at_tag(
        input,
        p5,
        "&order_by=",
    ) {
        match order_list_at(input, p5 + 10) {
            Ok((es, p)) => (Some(es), p),
            Err(PErr::Miss(_q)) => (None, p5),
            Err(x) => {
                return Err(x);
            },
        }
    } else {
        (None, p5)
    };
    let (range, p7): (Option<crate::ast::Range>, usize) = if p6 < input.len() && input[p6] == '&' {
        match range_at(input, p6 + 1) {
            Ok((rg, q)) => (Some(rg), q),
            Err(PErr::Miss(_q)) => (None, p6),
            Err(x) => {
                return Err(x);
            },
        }
    } else {
        (None, p6)
    };
    match end_or_ln_at(input, p7) {
        Some(e) => Ok((
            crate::ast::Select { from_table: ft, filter, group_by, having, projection, order_by, range },
            e,
        )),
        None => Err(PErr::Miss(pos)),
    }
}



/// A column attribute sigil.
pub open spec fn sp_attribute(s: Seq<char>, i: int) -> Parsed<crate::ast::ddl::ColumnAttribute> {
    if 0 <= i < s.len() && s[i] == '*' {
        Parsed::Found(crate::ast::ddl::ColumnAttribute::Primary, i + 1)
    } else if 0 <= i < s.len() && s[i] == '&' {
        Parsed::Found(crate::ast::ddl::ColumnAttribute::Unique, i + 1)
    } else if 0 <= i < s.len() && s[i] == '@' {
        Parsed::Found(crate::ast::ddl::ColumnAttribute::Index, i + 1)
    } else {
        Parsed::Missing
    }
}

/// One or more attribute sigils.
pub open spec fn sp_attribute_list(s: Seq<char>, i: int) -> Parsed<
    Seq<crate::ast::ddl::ColumnAttribute>,
>
    decreases s.len() - i,
{
    match sp_attribute(s, i) {
        Parsed::Found(a, p) => if i < p && p <= s.len() {
            match sp_attribute_list(s, p) {
                Parsed::Found(rest, e) => Parsed::Found(seq![a] + rest, e),
                _ => Parsed::Found(seq![a], p),
            }
        } else {
            Parsed::Found(seq![a], p)
        },
        _ => Parsed::Missing,
    }
}

/// Reads the attribute sigils at `pos`.
pub fn attribute_list_at(input: &Vec<char>, pos: usize) -> (r: PRes<
    Vec<crate::ast::ddl::ColumnAttribute>,
>)
    requires
        pos <= input@.len(),
    ensures
        agrees(r, sp_attribute_list(input@, pos as int)),
        in_bounds(r, pos, input@.len() as int),
    decreases input@.len() - pos,
{
    let a = if pos < input.len() && input[pos] == '*' {
        crate::ast::ddl::ColumnAttribute::Primary
    } else if pos < input.len() && input[pos] == '&' {
        crate::ast::ddl::ColumnAttribute::Unique
    } else if pos < input.len() && input[pos] == '@' {
        crate::ast::ddl::ColumnAttribute::Index
    } else {
        return Err(PErr::Miss(pos));
    };
    match attribute_list_at(input, pos + 1) {
        Ok((rest, e)) => {
            let mut out = rest;
            let ghost r0 = out.deep_view();
            out.insert(0, a);
            proof {
                assert(out.deep_view() =~= seq![a] + r0);
            }
            Ok((out, e))
        },
        Err(_) => {
            let mut out: Vec<crate::ast::ddl::ColumnAttribute> = Vec::new();
            out.push(a);
            proof {
                assert(out.deep_view() =~= seq![a]);
            }
            Ok((out, pos + 1))
        },
    }
}

/// A foreign reference: `(table)` or `(table::column)`.
pub open spec fn sp_foreign(s: Seq<char>, i: int) -> Parsed<crate::ast::ddl::ForeignV> {
    if 0 <= i < s.len() && s[i] == '(' {
        match sp_table_name(s, i + 1) {
            Parsed::Found(t, p) => if 0 <= p && starts_with(s, p, "::"@) {
                match sp_column_name(s, p + 2) {
                    Parsed::Found(c, p2) => if p2 < s.len() && s[p2] == ')' {
                        Parsed::Found(
                            crate::ast::ddl::ForeignV { table: t, column: Some(c) },
                            p2 + 1,
                        )
                    } else {
                        Parsed::Missing
                    },
                    _ => Parsed::Missing,
                }
            } else if 0 <= p && p < s.len() && s[p] == ')' {
                Parsed::Found(crate::ast::ddl::ForeignV { table: t, column: None }, p + 1)
            } else {
                Parsed::Missing
            },
            _ => Parsed::Missing,
        }
    } else {
        Parsed::Missing
    }
}

/// Reads a foreign reference at `pos`.
pub fn foreign_at(input: &Vec<char>, pos: usize) -> (r: PRes<crate::ast::ddl::Foreign>)
    requires
        pos <= input@.len(),
    ensures
        agrees(r, sp_foreign(input@, pos as int)),
        in_bounds(r, pos, input@.len() as int),
{
    proof {
        reveal_strlit("::");
    }
    if pos < input.len() && input[pos] == '(' {
        match table_name_at(input, pos + 1) {
            Ok((t, p)) => {
                if at_tag(input, p, "::") {
                    match column_name_at(input, p + 2) {
                        Ok((c, p2)) => {
                            if p2 < input.len() && input[p2] == ')' {
                                Ok((
                                    crate::ast::ddl::Foreign {
                                        table: crate::ast::TableName { name: t },
                                        column: Some(crate::ast::ColumnName { name: c }),
                                    },
                                    p2 + 1,
                                ))
                            } else {
                                Err(PErr::Miss(pos))
                            }
                        },
                        Err(_) => Err(PErr::Miss(pos)),
                    }
                } else if p < input.len() && input[p] == ')' {
                    Ok((
                        crate::ast::ddl::Foreign {
                            table: crate::ast::TableName { name: t },
                            column: None,
                        },
                        p + 1,
                    ))
                } else {
                    Err(PErr::Miss(pos))
                }
            },
            Err(_) => Err(PErr::Miss(pos)),
        }
    } else {
        Err(PErr::Miss(pos))
    }
}

/// A data-type tag: an identifier resolved against the tag set; an unknown
/// tag is a committed fault carrying the tag.
pub open spec fn sp_data_type(s: Seq<char>, i: int) -> Parsed<crate::data_type::DataType> {
    match sp_ident(s, i) {
        Parsed::Found(w, p) => match crate::data_type::DataType::spec_of_tag(w) {
            Some(t) => Parsed::Found(t, p),
            None => Parsed::TypeFault(w),
        },
        _ => Parsed::Missing,
    }
}

/// Reads a data-type tag at `pos`.
pub fn data_type_at(input: &Vec<char>, pos: usize) -> (r: PRes<crate::data_type::DataType>)
    requires
        pos <= input@.len(),
    ensures
        agrees(r, sp_data_type(input@, pos as int)),
        in_bounds(r, pos, input@.len() as int),
{
    match ident_at(input, pos) {
        Ok((w, p)) => {
            match crate::data_type::DataType::match_data_type(w.as_str()) {
                Ok(t) => Ok((t, p)),
                Err(_) => Err(PErr::DataType(w)),
            }
        },
        Err(x) => Err(x),
    }
}

/// A column type: the data type, an optional `?`, and an optional default
/// in parentheses, which is a function call or a value coerced to the type;
/// a value that does not coerce is a committed fault.
pub open spec fn sp_data_type_def(s: Seq<char>, i: int) -> Parsed<crate::ast::ddl::DataTypeDefV> {
    match sp_data_type(s, i) {
        Parsed::Found(t, p) => {
            let p1 = if 0 <= p && p < s.len() && s[p] == '?' {
                p + 1
            } else {
                p
            };
            if 0 <= p1 && p1 < s.len() && s[p1] == '(' {
                match sp_function(s, p1 + 1) {
                    Parsed::Found(f, q) => if q < s.len() && s[q] == ')' {
                        Parsed::Found(
                            crate::ast::ddl::DataTypeDefV {
                                data_type: t,
                                is_optional: p1 != p,
                                default: Some(crate::ast::ddl::DefaultValueV::Function(f)),
                            },
                            q + 1,
                        )
                    } else {
                        sp_data_type_def_value(s, t, p, p1)
                    },
                    _ => sp_data_type_def_value(s, t, p, p1),
                }
            } else {
                Parsed::Found(
                    crate::ast::ddl::DataTypeDefV {
                        data_type: t,
                        is_optional: p1 != p,
                        default: None,
                    },
                    p1,
                )
            }
        },
        Parsed::Missing => Parsed::Missing,
        Parsed::Halted => Parsed::Halted,
        Parsed::TypeFault(t) => Parsed::TypeFault(t),
        Parsed::ValueFault(t) => Parsed::ValueFault(t),
    }
}

/// The value alternative of a default: `(value)` coerced to the data type.
pub open spec fn sp_data_type_def_value(s: Seq<char>, t: crate::data_type::DataType, p: int, p1: int) -> Parsed<
    crate::ast::ddl::DataTypeDefV,
> {
    if 0 <= p1 && p1 + 1 <= s.len() {
        match sp_value(s, p1 + 1) {
            Parsed::Found(v, q) => if 0 <= q && q < s.len() && s[q] == ')' {
                match crate::data_value::spec_cast(v, t) {
                    Some(d) => Parsed::Found(
                        crate::ast::ddl::DataTypeDefV {
                            data_type: t,
                            is_optional: p1 != p,
                            default: Some(crate::ast::ddl::DefaultValueV::DataValue(d)),
                        },
                        q + 1,
                    ),
                    None => Parsed::ValueFault(crate::ast::expr::value_text(v)),
                }
            } else {
                Parsed::Found(
                    crate::ast::ddl::DataTypeDefV {
                        data_type: t,
                        is_optional: p1 != p,
                        default: None,
                    },
                    p1,
                )
            },
            _ => Parsed::Found(
                crate::ast::ddl::DataTypeDefV { data_type: t, is_optional: p1 != p, default: None },
                p1,
            ),
        }
    } else {
        Parsed::Missing
    }
}

/// Reads a column type at `pos`.
pub fn data_type_def_at(input: &Vec<char>, pos: usize) -> (r: PRes<crate::ast::ddl::DataTypeDef>)
    requires
        pos <= input@.len(),
    ensures
        agrees(r, sp_data_type_def(input@, pos as int)),
        in_bounds(r, pos, input@.len() as int),
{
    let (t, p) = match data_type_at(input, pos) {
        Ok(x) => x,
        Err(x) => {
            return Err(x);
        },
    };
    let p1 = if p < input.len() && input[p] == '?' {
        p + 1
    } else {
        p
    };
    let is_optional = p1 != p;
    if p1 < input.len() && input[p1] == '(' {
        match function_at(input, p1 + 1) {
            Ok((f, q)) => {
                if q < input.len() && input[q] == ')' {
                    return Ok((
                        crate::ast::ddl::DataTypeDef {
                            data_type: t,
                            is_optional,
                            default: Some(crate::ast::ddl::DefaultValue::Function(f)),
                        },
                        q + 1,
                    ));
                }
            },
            Err(_) => {},
        }
        match value_at(input, p1 + 1) {
            Ok((v, q)) => {
                if q < input.len() && input[q] == ')' {
                    match crate::data_value::cast_data_value(&v, &t) {
                        Ok(d) => Ok((
                            crate::ast::ddl::DataTypeDef {
                                data_type: t,
                                is_optional,
                                default: Some(crate::ast::ddl::DefaultValue::DataValue(d)),
                            },
                            q + 1,
                        )),
                        Err(_) => Err(PErr::BadValue(v.to_text())),
                    }
                } else {
                    Ok((
                        crate::ast::ddl::DataTypeDef { data_type: t, is_optional, default: None },
                        p1,
                    ))
                }
            },
            Err(_) => Ok((
                crate::ast::ddl::DataTypeDef { data_type: t, is_optional, default: None },
                p1,
            )),
        }
    } else {
        Ok((crate::ast::ddl::DataTypeDef { data_type: t, is_optional, default: None }, p1))
    }
}

/// A column definition: optional attribute sigils, a plain or quoted column
/// name, an optional foreign reference, a colon, and the column type.
pub open spec fn sp_column_def(s: Seq<char>, i: int) -> Parsed<crate::ast::ddl::ColumnDefV> {
    let attrs = match sp_attribute_list(s, i) {
        Parsed::Found(a, p) => Some((a, p)),
        _ => None,
    };
    let (attributes, p0) = match attrs {
        Some((a, p)) => (Some(a), p),
        None => (None, i),
    };
    if 0 <= p0 <= s.len() {
        let nm = match sp_quoted(s, p0, '"', '"') {
            Parsed::Found(t, p) => Some((t, p)),
            _ => match sp_column_name(s, p0) {
                Parsed::Found(t, p) => Some((t, p)),
                _ => None,
            },
        };
        match nm {
            Some((name, p1)) => if 0 <= p1 <= s.len() {
                let (foreign, p2) = match sp_foreign(s, p1) {
                    Parsed::Found(f, p) => (Some(f), p),
                    _ => (None, p1),
                };
                if 0 <= p2 && p2 < s.len() && s[p2] == ':' {
                    match sp_data_type_def(s, p2 + 1) {
                        Parsed::Found(dtd, e) => Parsed::Found(
                            crate::ast::ddl::ColumnDefV {
                                column: name,
                                attributes,
                                data_type_def: dtd,
                                foreign,
                            },
                            e,
                        ),
                        Parsed::Missing => Parsed::Missing,
                        Parsed::Halted => Parsed::Halted,
                        Parsed::TypeFault(t) => Parsed::TypeFault(t),
                        Parsed::ValueFault(t) => Parsed::ValueFault(t),
                    }
                } else {
                    Parsed::Missing
                }
            } else {
                Parsed::Missing
            },
            None => Parsed::Missing,
        }
    } else {
        Parsed::Missing
    }
}

/// Reads a column definition at `pos`.
pub fn column_def_at(input: &Vec<char>, pos: usize) -> (r: PRes<crate::ast::ddl::ColumnDef>)
    requires
        pos <= input@.len(),
    ensures
        agrees(r, sp_column_def(input@, pos as int)),
        in_bounds(r, pos, input@.len() as int),
{
    let (attributes, p0): (Option<Vec<crate::ast::ddl::ColumnAttribute>>, usize) =
        match attribute_list_at(input, pos) {
        Ok((a, p)) => (Some(a), p),
        Err(_) => (None, pos),
    };
    let (name, p1): (String, usize) = match quoted_at(input, p0, '"', '"') {
        Ok(x) => x,
        Err(_) => match column_name_at(input, p0) {
            Ok(x) => x,
            Err(_) => {
                return Err(PErr::Miss(pos));
            },
        },
    };
    let (foreign, p2): (Option<crate::ast::ddl::Foreign>, usize) = match foreign_at(input, p1) {
        Ok((f, p)) => (Some(f), p),
        Err(_) => (None, p1),
    };
    if p2 < input.len() && input[p2] == ':' {
        match data_type_def_at(input, p2 + 1) {
            Ok((dtd, e)) => Ok((
                crate::ast::ddl::ColumnDef {
                    column: crate::ast::ColumnName { name },
                    attributes,
                    data_type_def: dtd,
                    foreign,
                },
                e,
            )),
            Err(x) => Err(x),
        }
    } else {
        Err(PErr::Miss(pos))
    }
}

/// A committed comma-separated list of column definitions.
pub open spec fn sp_column_def_list(s: Seq<char>, i: int) -> Parsed<
    Seq<crate::ast::ddl::ColumnDefV>,
>
    decreases s.len() - i,
{
    match sp_column_def(s, i) {
        Parsed::Found(c, p) => if i <= p && p < s.len() && s[p] == ',' {
            match sp_column_def_list(s, p + 1) {
                Parsed::Found(cs, e) => Parsed::Found(seq![c] + cs, e),
                Parsed::Missing => Parsed::Halted,
                Parsed::Halted => Parsed::Halted,
                Parsed::TypeFault(t) => Parsed::TypeFault(t),
                Parsed::ValueFault(t) => Parsed::ValueFault(t),
            }
        } else {
            Parsed::Found(seq![c], p)
        },
        Parsed::Missing => Parsed::Missing,
        Parsed::Halted => Parsed::Halted,
        Parsed::TypeFault(t) => Parsed::TypeFault(t),
        Parsed::ValueFault(t) => Parsed::ValueFault(t),
    }
}

/// Reads a committed list of column definitions at `pos`.
pub fn column_def_list_at(input: &Vec<char>, pos: usize) -> (r: PRes<
    Vec<crate::ast::ddl::ColumnDef>,
>)
    requires
        pos <= input@.len(),
    ensures
        agrees(r, sp_column_def_list(input@, pos as int)),
        in_bounds(r, pos, input@.len() as int),
    decreases input@.len() - pos,
{
    match column_def_at(input, pos) {
        Ok((c, p)) => {
            if p < input.len() && input[p] == ',' {
                match column_def_list_at(input, p + 1) {
                    Ok((cs, e)) => {
                        let mut cs2 = cs;
                        let ghost cs0 = cs2.deep_view();
                        let ghost c0 = c.deep_view();
                        cs2.insert(0, c);
                        proof {
                            assert(cs2.deep_view() =~= seq![c0] + cs0);
                        }
                        Ok((cs2, e))
                    },
                    Err(PErr::Miss(_q)) => Err(PErr::Fail(_q, "column definition")),
                    Err(x) => Err(x),
                }
            } else {
                let ghost c0 = c.deep_view();
                let mut cs: Vec<crate::ast::ddl::ColumnDef> = Vec::new();
                cs.push(c);
                proof {
                    assert(cs.deep_view() =~= seq![c0]);
                }
                Ok((cs, p))
            }
        },
        Err(x) => Err(x),
    }
}

/// A column-definition list enclosed in parentheses or braces.
pub open spec fn sp_enclosed_columns(s: Seq<char>, i: int) -> Parsed<
    Seq<crate::ast::ddl::ColumnDefV>,
> {
    if 0 <= i < s.len() && (s[i] == '(' || s[i] == '{') {
        let close = if s[i] == '(' {
            ')'
        } else {
            '}'
        };
        match sp_column_def_list(s, i + 1) {
            Parsed::Found(cs, p) => if p < s.len() && s[p] == close {
                Parsed::Found(cs, p + 1)
            } else {
                Parsed::Missing
            },
            Parsed::Missing => Parsed::Missing,
            Parsed::Halted => Parsed::Halted,
            Parsed::TypeFault(t) => Parsed::TypeFault(t),
            Parsed::ValueFault(t) => Parsed::ValueFault(t),
        }
    } else {
        Parsed::Missing
    }
}

/// Reads an enclosed column-definition list at `pos`.
pub fn enclosed_columns_at(input: &Vec<char>, pos: usize) -> (r: PRes<
    Vec<crate::ast::ddl::ColumnDef>,
>)
    requires
        pos <= input@.len(),
    ensures
        agrees(r, sp_enclosed_columns(input@, pos as int)),
        in_bounds(r, pos, input@.len() as int),
{
    if pos < input.len() && (input[pos] == '(' || input[pos] == '{') {
        let close = if input[pos] == '(' {
            ')'
        } else {
            '}'
        };
        match column_def_list_at(input, pos + 1) {
            Ok((cs, p)) => {
                if p < input.len() && input[p] == close {
                    Ok((cs, p + 1))
                } else {
                    Err(PErr::Miss(pos))
                }
            },
            Err(x) => Err(x),
        }
    } else {
        Err(PErr::Miss(pos))
    }
}

/// A table definition: a table name, its enclosed columns, and the end of
/// the line; a duplicate column name is a committed failure.
pub open spec fn sp_table_def(s: Seq<char>, i: int) -> Parsed<crate::ast::ddl::TableDefV> {
    match sp_table_name(s, i) {
        Parsed::Found(name, p) => if 0 <= p <= s.len() {
            match sp_enclosed_columns(s, p) {
                Parsed::Found(cols, q) => match sp_end_or_ln(s, q) {
                    Some(e) => {
                        let td = crate::ast::ddl::TableDefV { table: name, columns: cols };
                        if td.no_duplicate_columns() {
                            Parsed::Found(td, e)
                        } else {
                            Parsed::Halted
                        }
                    },
                    None => Parsed::Missing,
                },
                Parsed::Missing => Parsed::Missing,
                Parsed::Halted => Parsed::Halted,
                Parsed::TypeFault(t) => Parsed::TypeFault(t),
                Parsed::ValueFault(t) => Parsed::ValueFault(t),
            }
        } else {
            Parsed::Missing
        },
        _ => Parsed::Missing,
    }
}

/// Tests whether two of the column definitions share a name.
pub fn has_duplicate_columns(cols: &Vec<crate::ast::ddl::ColumnDef>) -> (r: bool)
    ensures
        r == !(crate::ast::ddl::TableDefV {
            table: Seq::empty(),
            columns: cols.deep_view(),
        }).no_duplicate_columns(),
{
    let ghost cv = cols.deep_view();
    let mut i: usize = 0;
    while i < cols.len()
        invariant
            cv == cols.deep_view(),
            i <= cols@.len(),
            cv.len() == cols@.len(),
            forall|a: int, b: int| 0 <= a < b < cv.len() && a < i ==> cv[a].column != cv[b].column,
        decreases cols@.len() - i,
    {
        let mut j: usize = i + 1;
        while j < cols.len()
            invariant
                cv == cols.deep_view(),
                cv.len() == cols@.len(),
                i < cols@.len(),
                i + 1 <= j <= cols@.len(),
                forall|b: int| i < b < j ==> cv[i as int].column != cv[b].column,
            decreases cols@.len() - j,
        {
            if crate::ast::parser::utils::str_eq(
                cols[i].column.name.as_str(),
                cols[j].column.name.as_str(),
            ) {
                proof {
                    assert(cv[i as int].column == cv[j as int].column);
                }
                return true;
            }
            j += 1;
        }
        i += 1;
    }
    false
}

/// Reads a table definition at `pos`.
pub fn table_def_at(input: &Vec<char>, pos: usize) -> (r: PRes<crate::ast::TableDef>)
    requires
        pos <= input@.len(),
    ensures
        agrees(r, sp_table_def(input@, pos as int)),
        in_bounds(r, pos, input@.len() as int),
{
    match table_name_at(input, pos) {
        Ok((name, p)) => {
            match enclosed_columns_at(input, p) {
                Ok((cols, q)) => {
                    match end_or_ln_at(input, q) {
                        Some(e) => {
                            if has_duplicate_columns(&cols) {
                                Err(PErr::Fail(pos, "column definitions"))
                            } else {
                                Ok((
                                    crate::ast::TableDef {
                                        table: crate::ast::TableName { name },
                                        columns: cols,
                                    },
                                    e,
                                ))
                            }
                        },
                        None => Err(PErr::Miss(pos)),
                    }
                },
                Err(x) => Err(x),
            }
        },
        Err(_) => Err(PErr::Miss(pos)),
    }
}

/// A table drop: `-table` to the end of the line.
pub open spec fn sp_drop_table(s: Seq<char>, i: int) -> Parsed<Seq<char>> {
    if 0 <= i < s.len() && s[i] == '-' {
        match sp_table_name(s, i + 1) {
            Parsed::Found(name, p) => match sp_end_or_ln(s, p) {
                Some(e) => Parsed::Found(name, e),
                None => Parsed::Missing,
            },
            _ => Parsed::Missing,
        }
    } else {
        Parsed::Missing
    }
}

/// Reads a table drop at `pos`.
pub fn drop_table_at(input: &Vec<char>, pos: usize) -> (r: PRes<crate::ast::DropTable>)
    requires
        pos <= input@.len(),
    ensures
        agrees(r, sp_drop_table(input@, pos as int)),
        in_bounds(r, pos, input@.len() as int),
{
    if pos < input.len() && input[pos] == '-' {
        match table_name_at(input, pos + 1) {
            Ok((name, p)) => {
                match end_or_ln_at(input, p) {
                    Some(e) => Ok((
                        crate::ast::DropTable { table: crate::ast::TableName { name } },
                        e,
                    )),
                    None => Err(PErr::Miss(pos)),
                }
            },
            Err(_) => Err(PErr::Miss(pos)),
        }
    } else {
        Err(PErr::Miss(pos))
    }
}

/// One alter operation: a column rename or retype, a column drop, or a
/// column addition, tried in that order.
pub open spec fn sp_alter_operation(s: Seq<char>, i: int) -> Parsed<
    crate::ast::ddl::AlterOperationV,
> {
    let alter = match sp_column_name(s, i) {
        Parsed::Found(c, p) => if 0 <= p && p < s.len() && s[p] == '=' {
            match sp_column_def(s, p + 1) {
                Parsed::Found(d, e) => Parsed::Found(
                    crate::ast::ddl::AlterOperationV::AlterColumn(c, d),
                    e,
                ),
                Parsed::Missing => Parsed::Missing,
                Parsed::Halted => Parsed::Halted,
                Parsed::TypeFault(t) => Parsed::TypeFault(t),
                Parsed::ValueFault(t) => Parsed::ValueFault(t),
            }
        } else {
            Parsed::Missing
        },
        _ => Parsed::Missing,
    };
    match alter {
        Parsed::Found(x, e) => Parsed::Found(x, e),
        Parsed::Halted => Parsed::Halted,
        Parsed::TypeFault(t) => Parsed::TypeFault(t),
        Parsed::ValueFault(t) => Parsed::ValueFault(t),
        Parsed::Missing => if 0 <= i < s.len() && s[i] == '-' {
            match sp_column_name(s, i + 1) {
                Parsed::Found(c, p) => Parsed::Found(
                    crate::ast::ddl::AlterOperationV::DropColumn(c),
                    p,
                ),
                _ => Parsed::Missing,
            }
        } else if 0 <= i < s.len() && s[i] == '+' {
            match sp_column_def(s, i + 1) {
                Parsed::Found(d, e) => Parsed::Found(
                    crate::ast::ddl::AlterOperationV::AddColumn(d),
                    e,
                ),
                Parsed::Missing => Parsed::Missing,
                Parsed::Halted => Parsed::Halted,
                Parsed::TypeFault(t) => Parsed::TypeFault(t),
                Parsed::ValueFault(t) => Parsed::ValueFault(t),
            }
        } else {
            Parsed::Missing
        },
    }
}

/// Reads one alter operation at `pos`.
pub fn alter_operation_at(input: &Vec<char>, pos: usize) -> (r: PRes<
    crate::ast::ddl::AlterOperation,
>)
    requires
        pos <= input@.len(),
    ensures
        agrees(r, sp_alter_operation(input@, pos as int)),
        in_bounds(r, pos, input@.len() as int),
{
    match column_name_at(input, pos) {
        Ok((c, p)) => {
            if p < input.len() && input[p] == '=' {
                match column_def_at(input, p + 1) {
                    Ok((d, e)) => {
                        return Ok((
                            crate::ast::ddl::AlterOperation::AlterColumn(
                                crate::ast::ColumnName { name: c },
                                d,
                            ),
                            e,
                        ));
                    },
                    Err(PErr::Miss(_q)) => {},
                    Err(x) => {
                        return Err(x);
                    },
                }
            }
        },
        Err(_) => {},
    }
    if pos < input.len() && input[pos] == '-' {
        match column_name_at(input, pos + 1) {
            Ok((c, p)) => Ok((
                crate::ast::ddl::AlterOperation::DropColumn(crate::ast::ColumnName { name: c }),
                p,
            )),
            Err(_) => Err(PErr::Miss(pos)),
        }
    } else if pos < input.len() && input[pos] == '+' {
        match column_def_at(input, pos + 1) {
            Ok((d, e)) => Ok((crate::ast::ddl::AlterOperation::AddColumn(d), e)),
            Err(x) => Err(x),
        }
    } else {
        Err(PErr::Miss(pos))
    }
}

/// A committed comma-separated list of alter operations.
pub open spec fn sp_alter_op_list(s: Seq<char>, i: int) -> Parsed<
    Seq<crate::ast::ddl::AlterOperationV>,
>
    decreases s.len() - i,
{
    match sp_alter_operation(s, i) {
        Parsed::Found(o, p) => if i <= p && p < s.len() && s[p] == ',' {
            match sp_alter_op_list(s, p + 1) {
                Parsed::Found(os, e) => Parsed::Found(seq![o] + os, e),
                Parsed::Missing => Parsed::Halted,
                Parsed::Halted => Parsed::Halted,
                Parsed::TypeFault(t) => Parsed::TypeFault(t),
                Parsed::ValueFault(t) => Parsed::ValueFault(t),
            }
        } else {
            Parsed::Found(seq![o], p)
        },
        Parsed::Missing => Parsed::Missing,
        Parsed::Halted => Parsed::Halted,
        Parsed::TypeFault(t) => Parsed::TypeFault(t),
        Parsed::ValueFault(t) => Parsed::ValueFault(t),
    }
}

/// Reads a committed list of alter operations at `pos`.
pub fn alter_op_list_at(input: &Vec<char>, pos: usize) -> (r: PRes<
    Vec<crate::ast::ddl::AlterOperation>,
>)
    requires
        pos <= input@.len(),
    ensures
        agrees(r, sp_alter_op_list(input@, pos as int)),
        in_bounds(r, pos, input@.len() as int),
    decreases input@.len() - pos,
{
    match alter_operation_at(input, pos) {
        Ok((o, p)) => {
            if p < input.len() && input[p] == ',' {
                match alter_op_list_at(input, p + 1) {
                    Ok((os, e)) => {
                        let mut os2 = os;
                        let ghost os0 = os2.deep_view();
                        let ghost o0 = o.deep_view();
                        os2.insert(0, o);
                        proof {
                            assert(os2.deep_view() =~= seq![o0] + os0);
                        }
                        Ok((os2, e))
                    },
                    Err(PErr::Miss(_q)) => Err(PErr::Fail(_q, "alter operation")),
                    Err(x) => Err(x),
                }
            } else {
                let ghost o0 = o.deep_view();
                let mut os: Vec<crate::ast::ddl::AlterOperation> = Vec::new();
                os.push(o);
                proof {
                    assert(os.deep_view() =~= seq![o0]);
                }
                Ok((os, p))
            }
        },
        Err(x) => Err(x),
    }
}

/// A table alteration: the table name, the enclosed operations, the end of
/// the line.
pub open spec fn sp_alter_table(s: Seq<char>, i: int) -> Parsed<crate::ast::ddl::AlterTableV> {
    match sp_table_name(s, i) {
        Parsed::Found(name, p) => if 0 <= p < s.len() && (s[p] == '(' || s[p] == '{') {
            let close = if s[p] == '(' {
                ')'
            } else {
                '}'
            };
            match sp_alter_op_list(s, p + 1) {
                Parsed::Found(os, q) => if q < s.len() && s[q] == close {
                    match sp_end_or_ln(s, q + 1) {
                        Some(e) => Parsed::Found(
                            crate::ast::ddl::AlterTableV { table: name, alter_operations: os },
                            e,
                        ),
                        None => Parsed::Missing,
                    }
                } else {
                    Parsed::Missing
                },
                Parsed::Missing => Parsed::Missing,
                Parsed::Halted => Parsed::Halted,
                Parsed::TypeFault(t) => Parsed::TypeFault(t),
                Parsed::ValueFault(t) => Parsed::ValueFault(t),
            }
        } else {
            Parsed::Missing
        },
        _ => Parsed::Missing,
    }
}

/// Reads a table alteration at `pos`.
pub fn alter_table_at(input: &Vec<char>, pos: usize) -> (r: PRes<crate::ast::AlterTable>)
    requires
        pos <= input@.len(),
    ensures
        agrees(r, sp_alter_table(input@, pos as int)),
        in_bounds(r, pos, input@.len() as int),
{
    match table_name_at(input, pos) {
        Ok((name, p)) => {
            if p < input.len() && (input[p] == '(' || input[p] == '{') {
                let close = if input[p] == '(' {
                    ')'
                } else {
                    '}'
                };
                match alter_op_list_at(input, p + 1) {
                    Ok((os, q)) => {
                        if q < input.len() && input[q] == close {
                            match end_or_ln_at(input, q + 1) {
                                Some(e) => Ok((
                                    crate::ast::AlterTable {
                                        table: crate::ast::TableName { name },
                                        alter_operations: os,
                                    },
                                    e,
                                )),
                                None => Err(PErr::Miss(pos)),
                            }
                        } else {
                            Err(PErr::Miss(pos))
                        }
                    },
                    Err(x) => Err(x),
                }
            } else {
                Err(PErr::Miss(pos))
            }
        },
        Err(_) => Err(PErr::Miss(pos)),
    }
}



/// A committed comma-separated list of column names.
pub open spec fn sp_column_list(s: Seq<char>, i: int) -> Parsed<Seq<Seq<char>>>
    decreases s.len() - i,
{
    match sp_column_name(s, i) {
        Parsed::Found(c, p) => if i <= p && p < s.len() && s[p] == ',' {
            match sp_column_list(s, p + 1) {
                Parsed::Found(cs, e) => Parsed::Found(seq![c] + cs, e),
                Parsed::Missing => Parsed::Halted,
                Parsed::Halted => Parsed::Halted,
                Parsed::TypeFault(t) => Parsed::TypeFault(t),
                Parsed::ValueFault(t) => Parsed::ValueFault(t),
            }
        } else {
            Parsed::Found(seq![c], p)
        },
        _ => Parsed::Missing,
    }
}

/// Reads a committed list of column names at `pos`.
pub fn column_list_at(input: &Vec<char>, pos: usize) -> (r: PRes<Vec<crate::ast::ColumnName>>)
    requires
        pos <= input@.len(),
    ensures
        agrees(r, sp_column_list(input@, pos as int)),
        in_bounds(r, pos, input@.len() as int),
    decreases input@.len() - pos,
{
    match column_name_at(input, pos) {
        Ok((c, p)) => {
            if p < input.len() && input[p] == ',' {
                match column_list_at(input, p + 1) {
                    Ok((cs, e)) => {
                        let mut cs2 = cs;
                        let ghost cs0 = cs2.deep_view();
                        let ghost c0 = c@;
                        cs2.insert(0, crate::ast::ColumnName { name: c });
                        proof {
                            assert(cs2.deep_view() =~= seq![c0] + cs0);
                        }
                        Ok((cs2, e))
                    },
                    Err(PErr::Miss(_q)) => Err(PErr::Fail(_q, "column name list")),
                    Err(x) => Err(x),
                }
            } else {
                let ghost c0 = c@;
                let mut cs: Vec<crate::ast::ColumnName> = Vec::new();
                cs.push(crate::ast::ColumnName { name: c });
                proof {
                    assert(cs.deep_view() =~= seq![c0]);
                }
                Ok((cs, p))
            }
        },
        Err(_) => Err(PErr::Miss(pos)),
    }
}

/// An insert: `table{columns}` with an optional `?returning=columns`.
pub open spec fn sp_insert(s: Seq<char>, i: int) -> Parsed<crate::ast::dml::InsertV> {
    match sp_table_name(s, i) {
        Parsed::Found(name, p) => if 0 <= p < s.len() && s[p] == '{' {
            match sp_column_list(s, p + 1) {
                Parsed::Found(cols, q) => if q < s.len() && s[q] == '}' {
                    let after = q + 1;
                    if after < s.len() && s[after] == '?' && starts_with(
                        s,
                        after + 1,
                        "returning="@,
                    ) {
                        match sp_column_list(s, after + 1 + "returning="@.len()) {
                            Parsed::Found(rets, e) => Parsed::Found(
                                crate::ast::dml::InsertV {
                                    into: name,
                                    columns: cols,
                                    source: crate::ast::dml::SourceV::Values(Seq::empty()),
                                    returning: Some(rets),
                                },
                                e,
                            ),
                            Parsed::Missing => Parsed::Found(
                                crate::ast::dml::InsertV {
                                    into: name,
                                    columns: cols,
                                    source: crate::ast::dml::SourceV::Values(Seq::empty()),
                                    returning: None,
                                },
                                after,
                            ),
                            Parsed::Halted => Parsed::Halted,
                            Parsed::TypeFault(t) => Parsed::TypeFault(t),
                            Parsed::ValueFault(t) => Parsed::ValueFault(t),
                        }
                    } else {
                        Parsed::Found(
                            crate::ast::dml::InsertV {
                                into: name,
                                columns: cols,
                                source: crate::ast::dml::SourceV::Values(Seq::empty()),
                                returning: None,
                            },
                            after,
                        )
                    }
                } else {
                    Parsed::Missing
                },
                Parsed::Missing => Parsed::Missing,
                Parsed::Halted => Parsed::Halted,
                Parsed::TypeFault(t) => Parsed::TypeFault(t),
                Parsed::ValueFault(t) => Parsed::ValueFault(t),
            }
        } else {
            Parsed::Missing
        },
        _ => Parsed::Missing,
    }
}

/// An insert source holding no rows yet.
fn empty_values_source() -> (r: crate::ast::dml::Source)
    ensures
        r.deep_view() == crate::ast::dml::SourceV::Values(
            Seq::<Seq<crate::ast::expr::ValueV>>::empty(),
        ),
{
    let rows: Vec<Vec<crate::ast::Value>> = Vec::new();
    proof {
        assert(rows.deep_view() =~= Seq::<Seq<crate::ast::expr::ValueV>>::empty());
    }
    crate::ast::dml::Source::Values(rows)
}

/// Reads an insert at `pos`.
pub fn insert_at(input: &Vec<char>, pos: usize) -> (r: PRes<crate::ast::Insert>)
    requires
        pos <= input@.len(),
    ensures
        agrees(r, sp_insert(input@, pos as int)),
        in_bounds(r, pos, input@.len() as int),
{
    proof {
        reveal_strlit("returning=");
    }
    match table_name_at(input, pos) {
        Ok((name, p)) => {
            if p < input.len() && input[p] == '{' {
                match column_list_at(input, p + 1) {
                    Ok((cols, q)) => {
                        if q < input.len() && input[q] == '}' {
                            let after = q + 1;
                            if after < input.len() && input[after] == '?' && at_tag(
                                input,
                                after + 1,
                                "returning=",
                            ) {
                                match column_list_at(input, after + 11) {
                                    Ok((rets, e)) => Ok((
                                        crate::ast::Insert {
                                            into: crate::ast::TableName { name },
                                            columns: cols,
                                            source: empty_values_source(),
                                            returning: Some(rets),
                                        },
                                        e,
                                    )),
                                    Err(PErr::Miss(_q)) => Ok((
                                        crate::ast::Insert {
                                            into: crate::ast::TableName { name },
                                            columns: cols,
                                            source: empty_values_source(),
                                            returning: None,
                                        },
                                        after,
                                    )),
                                    Err(x) => Err(x),
                                }
                            } else {
                                Ok((
                                    crate::ast::Insert {
                                        into: crate::ast::TableName { name },
                                        columns: cols,
                                        source: empty_values_source(),
                                        returning: None,
                                    },
                                    after,
                                ))
                            }
                        } else {
                            Err(PErr::Miss(pos))
                        }
                    },
                    Err(x) => Err(x),
                }
            } else {
                Err(PErr::Miss(pos))
            }
        },
        Err(_) => Err(PErr::Miss(pos)),
    }
}

/// A column assignment: `column=value`.
pub open spec fn sp_column_value(s: Seq<char>, i: int) -> Parsed<
    (Seq<char>, crate::ast::expr::ValueV),
> {
    match sp_column_name(s, i) {
        Parsed::Found(c, p) => if 0 <= p && p < s.len() && s[p] == '=' {
            match sp_value(s, p + 1) {
                Parsed::Found(v, e) => Parsed::Found((c, v), e),
                _ => Parsed::Missing,
            }
        } else {
            Parsed::Missing
        },
        _ => Parsed::Missing,
    }
}

/// A committed list of column assignments; the model splits it into the
/// column-name and value sequences.
pub open spec fn sp_column_values(s: Seq<char>, i: int) -> Parsed<
    (Seq<Seq<char>>, Seq<crate::ast::expr::ValueV>),
>
    decreases s.len() - i,
{
    match sp_column_value(s, i) {
        Parsed::Found(cv, p) => if i <= p && p < s.len() && s[p] == ',' {
            match sp_column_values(s, p + 1) {
                Parsed::Found(rest, e) => Parsed::Found(
                    (seq![cv.0] + rest.0, seq![cv.1] + rest.1),
                    e,
                ),
                Parsed::Missing => Parsed::Halted,
                Parsed::Halted => Parsed::Halted,
                Parsed::TypeFault(t) => Parsed::TypeFault(t),
                Parsed::ValueFault(t) => Parsed::ValueFault(t),
            }
        } else {
            Parsed::Found((seq![cv.0], seq![cv.1]), p)
        },
        _ => Parsed::Missing,
    }
}

/// Reads a committed list of column assignments at `pos`.
pub fn column_values_at(input: &Vec<char>, pos: usize) -> (r: Result<
    (Vec<crate::ast::ColumnName>, Vec<crate::ast::Value>, usize),
    PErr,
>)
    requires
        pos <= input@.len(),
    ensures
        match r {
            Ok(t) => match sp_column_values(input@, pos as int) {
                Parsed::Found(m, p) => t.0.deep_view() == m.0 && t.1.deep_view() == m.1 && t.2
                    as int == p && pos <= p <= input@.len(),
                _ => false,
            },
            Err(e) => match sp_column_values(input@, pos as int) {
                Parsed::Found(m, p) => false,
                Parsed::Missing => e matches PErr::Miss(_),
                Parsed::Halted => e matches PErr::Fail(_, _),
                Parsed::TypeFault(t) => e matches PErr::DataType(u) && u@ == t,
                Parsed::ValueFault(t) => e matches PErr::BadValue(u) && u@ == t,
            },
        },
    decreases input@.len() - pos,
{
    match column_name_at(input, pos) {
        Ok((c, p)) => {
            if p < input.len() && input[p] == '=' {
                match value_at(input, p + 1) {
                    Ok((v, q)) => {
                        if q < input.len() && input[q] == ',' {
                            match column_values_at(input, q + 1) {
                                Ok((cs, vs, e)) => {
                                    let mut cs2 = cs;
                                    let mut vs2 = vs;
                                    let ghost cs0 = cs2.deep_view();
                                    let ghost vs0 = vs2.deep_view();
                                    let ghost c0 = c@;
                                    let ghost v0 = v.deep_view();
                                    cs2.insert(0, crate::ast::ColumnName { name: c });
                                    vs2.insert(0, v);
                                    proof {
                                        assert(cs2.deep_view() =~= seq![c0] + cs0);
                                        assert(vs2.deep_view() =~= seq![v0] + vs0);
                                    }
                                    Ok((cs2, vs2, e))
                                },
                                Err(PErr::Miss(_q)) => Err(PErr::Fail(_q, "column list")),
                                Err(x) => Err(x),
                            }
                        } else {
                            let ghost c0 = c@;
                            let ghost v0 = v.deep_view();
                            let mut cs: Vec<crate::ast::ColumnName> = Vec::new();
                            let mut vs: Vec<crate::ast::Value> = Vec::new();
                            cs.push(crate::ast::ColumnName { name: c });
                            vs.push(v);
                            proof {
                                assert(cs.deep_view() =~= seq![c0]);
                                assert(vs.deep_view() =~= seq![v0]);
                            }
                            Ok((cs, vs, q))
                        }
                    },
                    Err(_) => Err(PErr::Miss(pos)),
                }
            } else {
                Err(PErr::Miss(pos))
            }
        },
        Err(_) => Err(PErr::Miss(pos)),
    }
}

/// An update: `table{column=value,...}` with an optional `?filter`.
pub open spec fn sp_update(s: Seq<char>, i: int) -> Parsed<crate::ast::dml::UpdateV> {
    match sp_table_name(s, i) {
        Parsed::Found(name, p) => if 0 <= p < s.len() && s[p] == '{' {
            match sp_column_values(s, p + 1) {
                Parsed::Found(cvs, q) => if q < s.len() && s[q] == '}' {
                    let after = q + 1;
                    let (cond, e) = if after < s.len() && s[after] == '?' {
                        match sp_filter_expr(s, after + 1) {
                            Parsed::Found(f, e2) => (Some(Some(f)), e2),
                            Parsed::Missing => (Some(Option::<crate::ast::expr::ExprV>::None), after),
                            _ => (None, after),
                        }
                    } else {
                        (Some(Option::<crate::ast::expr::ExprV>::None), after)
                    };
                    match cond {
                        Some(condition) => Parsed::Found(
                            crate::ast::dml::UpdateV {
                                table: name,
                                columns: cvs.0,
                                values: cvs.1,
                                condition,
                            },
                            e,
                        ),
                        None => sp_filter_fault(s, after + 1),
                    }
                } else {
                    Parsed::Missing
                },
                Parsed::Missing => Parsed::Missing,
                Parsed::Halted => Parsed::Halted,
                Parsed::TypeFault(t) => Parsed::TypeFault(t),
                Parsed::ValueFault(t) => Parsed::ValueFault(t),
            }
        } else {
            Parsed::Missing
        },
        _ => Parsed::Missing,
    }
}

/// The committed failure a filter left at `i`, as an update outcome.
pub open spec fn sp_filter_fault<T>(s: Seq<char>, i: int) -> Parsed<T> {
    if 0 <= i <= s.len() {
        match sp_filter_expr(s, i) {
            Parsed::Halted => Parsed::Halted,
            Parsed::TypeFault(t) => Parsed::TypeFault(t),
            Parsed::ValueFault(t) => Parsed::ValueFault(t),
            _ => Parsed::Halted,
        }
    } else {
        Parsed::Halted
    }
}

/// Reads an update at `pos`.
pub fn update_at(input: &Vec<char>, pos: usize) -> (r: PRes<crate::ast::Update>)
    requires
        pos <= input@.len(),
    ensures
        agrees(r, sp_update(input@, pos as int)),
        in_bounds(r, pos, input@.len() as int),
{
    match table_name_at(input, pos) {
        Ok((name, p)) => {
            if p < input.len() && input[p] == '{' {
                match column_values_at(input, p + 1) {
                    Ok((cols, vals, q)) => {
                        if q < input.len() && input[q] == '}' {
                            let after = q + 1;
                            let (condition, e): (Option<crate::ast::Expr>, usize) = if after
                                < input.len() && input[after] == '?' {
                                match filter_expr_at(input, after + 1) {
                                    Ok((f, e2)) => (Some(f), e2),
                                    Err(PErr::Miss(_q)) => (None, after),
                                    Err(x) => {
                                        return Err(x);
                                    },
                                }
                            } else {
                                (None, after)
                            };
                            Ok((
                                crate::ast::Update {
                                    table: crate::ast::TableName { name },
                                    columns: cols,
                                    values: vals,
                                    condition,
                                },
                                e,
                            ))
                        } else {
                            Err(PErr::Miss(pos))
                        }
                    },
                    Err(x) => Err(x),
                }
            } else {
                Err(PErr::Miss(pos))
            }
        },
        Err(_) => Err(PErr::Miss(pos)),
    }
}

/// A delete: `table` with an optional `?filter`.
pub open spec fn sp_delete(s: Seq<char>, i: int) -> Parsed<crate::ast::dml::DeleteV> {
    match sp_table_name(s, i) {
        Parsed::Found(name, p) => if 0 <= p <= s.len() {
            let (cond, e) = if p < s.len() && s[p] == '?' {
                match sp_filter_expr(s, p + 1) {
                    Parsed::Found(f, e2) => (Some(Some(f)), e2),
                    Parsed::Missing => (Some(Option::<crate::ast::expr::ExprV>::None), p),
                    _ => (None, p),
                }
            } else {
                (Some(Option::<crate::ast::expr::ExprV>::None), p)
            };
            match cond {
                Some(condition) => Parsed::Found(
                    crate::ast::dml::DeleteV { from: name, condition },
                    e,
                ),
                None => sp_filter_fault(s, p + 1),
            }
        } else {
            Parsed::Missing
        },
        _ => Parsed::Missing,
    }
}

/// Reads a delete at `pos`.
pub fn delete_at(input: &Vec<char>, pos: usize) -> (r: PRes<crate::ast::Delete>)
    requires
        pos <= input@.len(),
    ensures
        agrees(r, sp_delete(input@, pos as int)),
        in_bounds(r, pos, input@.len() as int),
{
    match table_name_at(input, pos) {
        Ok((name, p)) => {
            let (condition, e): (Option<crate::ast::Expr>, usize) = if p < input.len() && input[p]
                == '?' {
                match filter_expr_at(input, p + 1) {
                    Ok((f, e2)) => (Some(f), e2),
                    Err(PErr::Miss(_q)) => (None, p),
                    Err(x) => {
                        return Err(x);
                    },
                }
            } else {
                (None, p)
            };
            Ok((
                crate::ast::Delete { from: crate::ast::TableName { name }, condition },
                e,
            ))
        },
        Err(_) => Err(PErr::Miss(pos)),
    }
}

/// A bulk operation head: `table{columns}`.
pub open spec fn sp_bulk_head(s: Seq<char>, i: int) -> Parsed<(Seq<char>, Seq<Seq<char>>)> {
    match sp_table_name(s, i) {
        Parsed::Found(name, p) => if 0 <= p < s.len() && s[p] == '{' {
            match sp_column_list(s, p + 1) {
                Parsed::Found(cols, q) => if q < s.len() && s[q] == '}' {
                    Parsed::Found((name, cols), q + 1)
                } else {
                    Parsed::Missing
                },
                Parsed::Missing => Parsed::Missing,
                Parsed::Halted => Parsed::Halted,
                Parsed::TypeFault(t) => Parsed::TypeFault(t),
                Parsed::ValueFault(t) => Parsed::ValueFault(t),
            }
        } else {
            Parsed::Missing
        },
        _ => Parsed::Missing,
    }
}

/// Reads a bulk-operation head at `pos`.
pub fn bulk_head_at(input: &Vec<char>, pos: usize) -> (r: Result<
    (crate::ast::TableName, Vec<crate::ast::ColumnName>, usize),
    PErr,
>)
    requires
        pos <= input@.len(),
    ensures
        match r {
            Ok(t) => match sp_bulk_head(input@, pos as int) {
                Parsed::Found(m, p) => t.0.name@ == m.0 && t.1.deep_view() == m.1 && t.2 as int
                    == p && pos <= p <= input@.len(),
                _ => false,
            },
            Err(e) => match sp_bulk_head(input@, pos as int) {
                Parsed::Found(m, p) => false,
                Parsed::Missing => e matches PErr::Miss(_),
                Parsed::Halted => e matches PErr::Fail(_, _),
                Parsed::TypeFault(t) => e matches PErr::DataType(u) && u@ == t,
                Parsed::ValueFault(t) => e matches PErr::BadValue(u) && u@ == t,
            },
        },
{
    match table_name_at(input, pos) {
        Ok((name, p)) => {
            if p < input.len() && input[p] == '{' {
                match column_list_at(input, p + 1) {
                    Ok((cols, q)) => {
                        if q < input.len() && input[q] == '}' {
                            Ok((crate::ast::TableName { name }, cols, q + 1))
                        } else {
                            Err(PErr::Miss(pos))
                        }
                    },
                    Err(x) => Err(x),
                }
            } else {
                Err(PErr::Miss(pos))
            }
        },
        Err(_) => Err(PErr::Miss(pos)),
    }
}

/// The characters the statement dispatcher skips between the method token
/// and the slash.
pub open spec fn spec_space(c: char) -> bool {
    c == ' ' || c == '\t' || c == '\r' || c == '\n'
}

/// The end of the run of whitespace characters starting at `i`.
pub open spec fn space_run_end(s: Seq<char>, i: int) -> int
    decreases s.len() - i,
{
    if 0 <= i < s.len() && spec_space(s[i]) {
        space_run_end(s, i + 1)
    } else {
        i
    }
}

/// Skips the whitespace run at `pos`.
pub fn space_at(input: &Vec<char>, pos: usize) -> (r: usize)
    requires
        pos <= input@.len(),
    ensures
        r as int == space_run_end(input@, pos as int),
        pos <= r <= input@.len(),
{
    let mut p = pos;
    while p < input.len() && (input[p] == ' ' || input[p] == '\t' || input[p] == '\r' || input[p]
        == '\n')
        invariant
            pos <= p <= input@.len(),
            space_run_end(input@, pos as int) == space_run_end(input@, p as int),
        decreases input@.len() - p,
    {
        p += 1;
    }
    p
}



/// Whether the executable result of a whole-input parse agrees with the
/// specification outcome, mapping the faults to the library's errors.
pub open spec fn wrap_agrees<T: DeepView>(r: Result<T, crate::Error>, sp: Parsed<T::V>) -> bool {
    match sp {
        Parsed::Found(v, _) => r matches Ok(x) && x.deep_view() == v,
        Parsed::Missing => r matches Err(crate::Error::ParseError(_, _)),
        Parsed::Halted => r matches Err(crate::Error::ParseError(_, _)),
        Parsed::TypeFault(t) => r matches Err(crate::Error::InvalidDataType(u)) && u@ == t,
        Parsed::ValueFault(t) => r matches Err(crate::Error::InvalidValue(u)) && u@ == t,
    }
}

/// Maps a parse error to the library's error type, keeping the failing
/// position; `expected` names the production the caller was after, and a
/// committed mismatch keeps its own more precise label instead.
pub fn perr_to_error(e: PErr, expected: &'static str) -> (r: crate::Error)
    ensures
        match e {
            PErr::Miss(p) => (r matches crate::Error::ParseError(q, w) && q == p && w@
                == expected@),
            PErr::Fail(p, lbl) => (r matches crate::Error::ParseError(q, w) && q == p && w@
                == lbl@),
            PErr::DataType(s) => r matches crate::Error::InvalidDataType(u) && u == s,
            PErr::BadValue(s) => r matches crate::Error::InvalidValue(u) && u == s,
        },
{
    match e {
        PErr::Miss(p) => crate::Error::ParseError(p, expected.to_string()),
        PErr::Fail(p, lbl) => crate::Error::ParseError(p, lbl.to_string()),
        PErr::DataType(s) => crate::Error::InvalidDataType(s),
        PErr::BadValue(s) => crate::Error::InvalidValue(s),
    }
}

/// The insert statement after a POST prefix; its absence past the slash is
/// committed.
pub open spec fn sp_post_tail(s: Seq<char>, j: int) -> Parsed<crate::ast::StatementV> {
    if 0 <= j < s.len() && s[j] == '/' {
        match sp_insert(s, j + 1) {
            Parsed::Found(v, e) => Parsed::Found(crate::ast::StatementV::Insert(v), e),
            Parsed::Missing => Parsed::Halted,
            Parsed::Halted => Parsed::Halted,
            Parsed::TypeFault(t) => Parsed::TypeFault(t),
            Parsed::ValueFault(t) => Parsed::ValueFault(t),
        }
    } else {
        Parsed::Missing
    }
}

/// The create statement after a PUT prefix, with an optional leading plus.
pub open spec fn sp_put_tail(s: Seq<char>, j: int) -> Parsed<crate::ast::StatementV> {
    if 0 <= j < s.len() && s[j] == '/' {
        let k = if j + 1 < s.len() && s[j + 1] == '+' {
            j + 2
        } else {
            j + 1
        };
        match sp_table_def(s, k) {
            Parsed::Found(v, e) => Parsed::Found(crate::ast::StatementV::Create(v), e),
            Parsed::Missing => Parsed::Halted,
            Parsed::Halted => Parsed::Halted,
            Parsed::TypeFault(t) => Parsed::TypeFault(t),
            Parsed::ValueFault(t) => Parsed::ValueFault(t),
        }
    } else {
        Parsed::Missing
    }
}

/// The drop or delete statement after a DELETE prefix.
pub open spec fn sp_delete_tail(s: Seq<char>, j: int) -> Parsed<crate::ast::StatementV> {
    if 0 <= j < s.len() && s[j] == '/' {
        match sp_drop_table(s, j + 1) {
            Parsed::Found(name, e) => Parsed::Found(crate::ast::StatementV::DropTable(name), e),
            Parsed::Missing => match sp_delete(s, j + 1) {
                Parsed::Found(v, e) => Parsed::Found(crate::ast::StatementV::Delete(v), e),
                Parsed::Missing => Parsed::Halted,
                Parsed::Halted => Parsed::Halted,
                Parsed::TypeFault(t) => Parsed::TypeFault(t),
                Parsed::ValueFault(t) => Parsed::ValueFault(t),
            },
            Parsed::Halted => Parsed::Halted,
            Parsed::TypeFault(t) => Parsed::TypeFault(t),
            Parsed::ValueFault(t) => Parsed::ValueFault(t),
        }
    } else {
        Parsed::Missing
    }
}

/// The alter or update statement after a PATCH prefix.
pub open spec fn sp_patch_tail(s: Seq<char>, j: int) -> Parsed<crate::ast::StatementV> {
    if 0 <= j < s.len() && s[j] == '/' {
        match sp_alter_table(s, j + 1) {
            Parsed::Found(v, e) => Parsed::Found(crate::ast::StatementV::AlterTable(v), e),
            Parsed::Missing => match sp_update(s, j + 1) {
                Parsed::Found(v, e) => Parsed::Found(crate::ast::StatementV::Update(v), e),
                Parsed::Missing => Parsed::Halted,
                Parsed::Halted => Parsed::Halted,
                Parsed::TypeFault(t) => Parsed::TypeFault(t),
                Parsed::ValueFault(t) => Parsed::ValueFault(t),
            },
            Parsed::Halted => Parsed::Halted,
            Parsed::TypeFault(t) => Parsed::TypeFault(t),
            Parsed::ValueFault(t) => Parsed::ValueFault(t),
        }
    } else {
        Parsed::Missing
    }
}

/// The select statement after a GET prefix or a bare slash.
pub open spec fn sp_get_tail(s: Seq<char>, j: int) -> Parsed<crate::ast::StatementV> {
    if 0 <= j < s.len() && s[j] == '/' {
        match sp_select(s, j + 1) {
            Parsed::Found(v, e) => Parsed::Found(crate::ast::StatementV::Select(v), e),
            Parsed::Missing => Parsed::Halted,
            Parsed::Halted => Parsed::Halted,
            Parsed::TypeFault(t) => Parsed::TypeFault(t),
            Parsed::ValueFault(t) => Parsed::ValueFault(t),
        }
    } else {
        Parsed::Missing
    }
}

/// A statement line: a method token choosing the sub-grammar, optional
/// whitespace, a slash, and the statement; a bare slash reads a select.
pub open spec fn sp_statement(s: Seq<char>, i: int) -> Parsed<crate::ast::StatementV> {
    if starts_with(s, i, "POST"@) {
        sp_post_tail(s, space_run_end(s, i + "POST"@.len()))
    } else if starts_with(s, i, "PUT"@) {
        sp_put_tail(s, space_run_end(s, i + "PUT"@.len()))
    } else if starts_with(s, i, "DELETE"@) {
        sp_delete_tail(s, space_run_end(s, i + "DELETE"@.len()))
    } else if starts_with(s, i, "PATCH"@) {
        sp_patch_tail(s, space_run_end(s, i + "PATCH"@.len()))
    } else if starts_with(s, i, "GET"@) {
        sp_get_tail(s, space_run_end(s, i + "GET"@.len()))
    } else if 0 <= i < s.len() && s[i] == '/' {
        match sp_select(s, i + 1) {
            Parsed::Found(v, e) => Parsed::Found(crate::ast::StatementV::Select(v), e),
            Parsed::Missing => Parsed::Halted,
            Parsed::Halted => Parsed::Halted,
            Parsed::TypeFault(t) => Parsed::TypeFault(t),
            Parsed::ValueFault(t) => Parsed::ValueFault(t),
        }
    } else {
        Parsed::Missing
    }
}

/// Reads the insert of a POST line at the slash position.
fn post_tail_at(input: &Vec<char>, j: usize) -> (r: PRes<crate::ast::Statement>)
    requires
        j <= input@.len(),
    ensures
        agrees(r, sp_post_tail(input@, j as int)),
        in_bounds(r, j, input@.len() as int),
{
    if j < input.len() && input[j] == '/' {
        match insert_at(input, j + 1) {
            Ok((v, e)) => Ok((crate::ast::Statement::Insert(v), e)),
            Err(PErr::Miss(_q)) => Err(PErr::Fail(_q, "insert statement after POST")),
            Err(x) => Err(x),
        }
    } else {
        Err(PErr::Miss(j))
    }
}

/// Reads the create of a PUT line at the slash position.
fn put_tail_at(input: &Vec<char>, j: usize) -> (r: PRes<crate::ast::Statement>)
    requires
        j <= input@.len(),
    ensures
        agrees(r, sp_put_tail(input@, j as int)),
        in_bounds(r, j, input@.len() as int),
{
    if j < input.len() && input[j] == '/' {
        let k = if j + 1 < input.len() && input[j + 1] == '+' {
            j + 2
        } else {
            j + 1
        };
        match table_def_at(input, k) {
            Ok((v, e)) => Ok((crate::ast::Statement::Create(v), e)),
            Err(PErr::Miss(_q)) => Err(PErr::Fail(_q, "table definition after PUT")),
            Err(x) => Err(x),
        }
    } else {
        Err(PErr::Miss(j))
    }
}

/// Reads the drop or delete of a DELETE line at the slash position.
fn delete_tail_at(input: &Vec<char>, j: usize) -> (r: PRes<crate::ast::Statement>)
    requires
        j <= input@.len(),
    ensures
        agrees(r, sp_delete_tail(input@, j as int)),
        in_bounds(r, j, input@.len() as int),
{
    if j < input.len() && input[j] == '/' {
        match drop_table_at(input, j + 1) {
            Ok((v, e)) => Ok((crate::ast::Statement::DropTable(v), e)),
            Err(PErr::Miss(_q)) => match delete_at(input, j + 1) {
                Ok((v, e)) => Ok((crate::ast::Statement::Delete(v), e)),
                Err(PErr::Miss(_q)) => Err(PErr::Fail(_q, "drop table or bulk delete after DELETE")),
                Err(x) => Err(x),
            },
            Err(x) => Err(x),
        }
    } else {
        Err(PErr::Miss(j))
    }
}

/// Reads the alter or update of a PATCH line at the slash position.
fn patch_tail_at(input: &Vec<char>, j: usize) -> (r: PRes<crate::ast::Statement>)
    requires
        j <= input@.len(),
    ensures
        agrees(r, sp_patch_tail(input@, j as int)),
        in_bounds(r, j, input@.len() as int),
{
    if j < input.len() && input[j] == '/' {
        match alter_table_at(input, j + 1) {
            Ok((v, e)) => Ok((crate::ast::Statement::AlterTable(v), e)),
            Err(PErr::Miss(_q)) => match update_at(input, j + 1) {
                Ok((v, e)) => Ok((crate::ast::Statement::Update(v), e)),
                Err(PErr::Miss(_q)) => Err(PErr::Fail(_q, "alter table or bulk update after PATCH")),
                Err(x) => Err(x),
            },
            Err(x) => Err(x),
        }
    } else {
        Err(PErr::Miss(j))
    }
}

/// Reads the select of a GET line at the slash position.
fn get_tail_at(input: &Vec<char>, j: usize) -> (r: PRes<crate::ast::Statement>)
    requires
        j <= input@.len(),
    ensures
        agrees(r, sp_get_tail(input@, j as int)),
        in_bounds(r, j, input@.len() as int),
{
    if j < input.len() && input[j] == '/' {
        match select_at(input, j + 1) {
            Ok((v, e)) => Ok((crate::ast::Statement::Select(v), e)),
            Err(PErr::Miss(_q)) => Err(PErr::Fail(_q, "select statement after GET")),
            Err(x) => Err(x),
        }
    } else {
        Err(PErr::Miss(j))
    }
}

/// Reads a statement line at `pos`.
pub fn statement_at(input: &Vec<char>, pos: usize) -> (r: PRes<crate::ast::Statement>)
    requires
        pos <= input@.len(),
    ensures
        agrees(r, sp_statement(input@, pos as int)),
        in_bounds(r, pos, input@.len() as int),
{
    let n = input.len();
    proof {
        reveal_strlit("POST");
        reveal_strlit("PUT");
        reveal_strlit("DELETE");
        reveal_strlit("PATCH");
        reveal_strlit("GET");
    }
    if at_tag(input, pos, "POST") {
        post_tail_at(input, space_at(input, pos + 4))
    } else if at_tag(input, pos, "PUT") {
        put_tail_at(input, space_at(input, pos + 3))
    } else if at_tag(input, pos, "DELETE") {
        delete_tail_at(input, space_at(input, pos + 6))
    } else if at_tag(input, pos, "PATCH") {
        patch_tail_at(input, space_at(input, pos + 5))
    } else if at_tag(input, pos, "GET") {
        get_tail_at(input, space_at(input, pos + 3))
    } else if pos < input.len() && input[pos] == '/' {
        match select_at(input, pos + 1) {
            Ok((v, e)) => Ok((crate::ast::Statement::Select(v), e)),
            Err(PErr::Miss(_q)) => Err(PErr::Fail(_q, "statement after method prefix")),
            Err(x) => Err(x),
        }
    } else {
        Err(PErr::Miss(pos))
    }
}

/// Parses a filter expression from the start of the input; what follows the
/// parsed prefix is left unread.
pub fn filter_expr(input: &Vec<char>) -> (r: Result<crate::ast::Expr, crate::Error>)
    ensures
        wrap_agrees(r, sp_filter_expr(input@, 0)),
{
    match filter_expr_at(input, 0) {
        Ok((v, _)) => Ok(v),
        Err(e) => Err(perr_to_error(e, "filter expression")),
    }
}

/// Parses a select statement from the start of the input.
pub fn select(input: &Vec<char>) -> (r: Result<crate::ast::Select, crate::Error>)
    ensures
        wrap_agrees(r, sp_select(input@, 0)),
{
    match select_at(input, 0) {
        Ok((v, _)) => Ok(v),
        Err(e) => Err(perr_to_error(e, "select")),
    }
}

/// Parses a column name from the start of the input.
pub fn column(input: &Vec<char>) -> (r: Result<crate::ast::ColumnName, crate::Error>)
    ensures
        match sp_column_name(input@, 0) {
            Parsed::Found(v, _) => r matches Ok(x) && x.name@ == v,
            _ => r is Err,
        },
{
    match column_name_at(input, 0) {
        Ok((v, _)) => Ok(crate::ast::ColumnName { name: v }),
        Err(e) => Err(perr_to_error(e, "column name")),
    }
}

/// Parses a table name from the start of the input.
pub fn table(input: &Vec<char>) -> (r: Result<crate::ast::TableName, crate::Error>)
    ensures
        match sp_table_name(input@, 0) {
            Parsed::Found(v, _) => r matches Ok(x) && x.name@ == v,
            _ => r is Err,
        },
{
    match table_name_at(input, 0) {
        Ok((v, _)) => Ok(crate::ast::TableName { name: v }),
        Err(e) => Err(perr_to_error(e, "table name")),
    }
}

/// Parses a coarse value from the start of the input.
pub fn value(input: &Vec<char>) -> (r: Result<crate::ast::Value, crate::Error>)
    ensures
        wrap_agrees(r, sp_value(input@, 0)),
{
    match value_at(input, 0) {
        Ok((v, _)) => Ok(v),
        Err(e) => Err(perr_to_error(e, "value")),
    }
}

/// Parses a projection entry from the start of the input.
pub fn expr_rename(input: &Vec<char>) -> (r: Result<crate::ast::ExprRename, crate::Error>)
    ensures
        wrap_agrees(r, sp_expr_rename(input@, 0)),
{
    match expr_rename_at(input, 0) {
        Ok((v, _)) => Ok(v),
        Err(e) => Err(perr_to_error(e, "column expression")),
    }
}


} // verus!
