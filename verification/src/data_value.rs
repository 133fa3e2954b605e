//! The strict, typed value domain, and the coercion from coarse values.

use vstd::prelude::*;
use vstd::string::StringExecFns;

use crate::ast::parser::utils::dec_digits;
use crate::ast::parser::utils::dec_int_digits;
use crate::ast::parser::utils::i64_to_string;
use crate::ast::parser::utils::u64_to_string;
use crate::data_type::DataType;

verus! {

/// A strictly typed value.  The serial family holds unsigned integers.
/// Floats keep the text of their decimal literal; timestamps hold
/// milliseconds since the epoch; UUIDs hold their canonical rendering.
#[derive(Debug, PartialEq)]
pub enum DataValue {
    Nil,
    Bool(bool),
    S8(u8),
    S16(u16),
    S32(u32),
    S64(u64),
    F32(String),
    F64(String),
    U8(u8),
    U16(u16),
    U32(u32),
    U64(u64),
    I8(i8),
    I16(i16),
    I32(i32),
    I64(i64),
    Uuid(String),
    UuidRand(String),
    UuidSlug(String),
    Local(i64),
    Utc(i64),
    Text(String),
    Ident(String),
    Url(String),
    Bytes(Vec<u8>),
}

/// The mathematical shape of a `DataValue`.
pub enum DataValueV {
    Nil,
    Bool(bool),
    S8(u8),
    S16(u16),
    S32(u32),
    S64(u64),
    F32(Seq<char>),
    F64(Seq<char>),
    U8(u8),
    U16(u16),
    U32(u32),
    U64(u64),
    I8(i8),
    I16(i16),
    I32(i32),
    I64(i64),
    Uuid(Seq<char>),
    UuidRand(Seq<char>),
    UuidSlug(Seq<char>),
    Local(i64),
    Utc(i64),
    Text(Seq<char>),
    Ident(Seq<char>),
    Url(Seq<char>),
    Bytes(Seq<u8>),
}

impl DeepView for DataValue {
    type V = DataValueV;

    open spec fn deep_view(&self) -> DataValueV {
        match self {
            DataValue::Nil => DataValueV::Nil,
            DataValue::Bool(v) => DataValueV::Bool(*v),
            DataValue::S8(v) => DataValueV::S8(*v),
            DataValue::S16(v) => DataValueV::S16(*v),
            DataValue::S32(v) => DataValueV::S32(*v),
            DataValue::S64(v) => DataValueV::S64(*v),
            DataValue::F32(v) => DataValueV::F32(v@),
            DataValue::F64(v) => DataValueV::F64(v@),
            DataValue::U8(v) => DataValueV::U8(*v),
            DataValue::U16(v) => DataValueV::U16(*v),
            DataValue::U32(v) => DataValueV::U32(*v),
            DataValue::U64(v) => DataValueV::U64(*v),
            DataValue::I8(v) => DataValueV::I8(*v),
            DataValue::I16(v) => DataValueV::I16(*v),
            DataValue::I32(v) => DataValueV::I32(*v),
            DataValue::I64(v) => DataValueV::I64(*v),
            DataValue::Uuid(v) => DataValueV::Uuid(v@),
            DataValue::UuidRand(v) => DataValueV::UuidRand(v@),
            DataValue::UuidSlug(v) => DataValueV::UuidSlug(v@),
            DataValue::Local(v) => DataValueV::Local(*v),
            DataValue::Utc(v) => DataValueV::Utc(*v),
            DataValue::Text(v) => DataValueV::Text(v@),
            DataValue::Ident(v) => DataValueV::Ident(v@),
            DataValue::Url(v) => DataValueV::Url(v@),
            DataValue::Bytes(v) => DataValueV::Bytes(v@),
        }
    }
}

impl Clone for DataValue {
    fn clone(&self) -> (res: Self)
        ensures
            res.deep_view() == self.deep_view(),
    {
        match self {
            DataValue::Nil => DataValue::Nil,
            DataValue::Bool(v) => DataValue::Bool(*v),
            DataValue::S8(v) => DataValue::S8(*v),
            DataValue::S16(v) => DataValue::S16(*v),
            DataValue::S32(v) => DataValue::S32(*v),
            DataValue::S64(v) => DataValue::S64(*v),
            DataValue::F32(v) => DataValue::F32(v.clone()),
            DataValue::F64(v) => DataValue::F64(v.clone()),
            DataValue::U8(v) => DataValue::U8(*v),
            DataValue::U16(v) => DataValue::U16(*v),
            DataValue::U32(v) => DataValue::U32(*v),
            DataValue::U64(v) => DataValue::U64(*v),
            DataValue::I8(v) => DataValue::I8(*v),
            DataValue::I16(v) => DataValue::I16(*v),
            DataValue::I32(v) => DataValue::I32(*v),
            DataValue::I64(v) => DataValue::I64(*v),
            DataValue::Uuid(v) => DataValue::Uuid(v.clone()),
            DataValue::UuidRand(v) => DataValue::UuidRand(v.clone()),
            DataValue::UuidSlug(v) => DataValue::UuidSlug(v.clone()),
            DataValue::Local(v) => DataValue::Local(*v),
            DataValue::Utc(v) => DataValue::Utc(*v),
            DataValue::Text(v) => DataValue::Text(v.clone()),
            DataValue::Ident(v) => DataValue::Ident(v.clone()),
            DataValue::Url(v) => DataValue::Url(v.clone()),
            DataValue::Bytes(v) => DataValue::Bytes(v.clone()),
        }
    }
}

impl DataValue {
    /// The data-type tag of this value; `Nil` carries none.
    pub open spec fn spec_data_type(self) -> Option<DataType> {
        match self {
            DataValue::Nil => None,
            DataValue::Bool(_) => Some(DataType::Bool),
            DataValue::S8(_) => Some(DataType::S8),
            DataValue::S16(_) => Some(DataType::S16),
            DataValue::S32(_) => Some(DataType::S32),
            DataValue::S64(_) => Some(DataType::S64),
            DataValue::F32(_) => Some(DataType::F32),
            DataValue::F64(_) => Some(DataType::F64),
            DataValue::U8(_) => Some(DataType::U8),
            DataValue::U16(_) => Some(DataType::U16),
            DataValue::U32(_) => Some(DataType::U32),
            DataValue::U64(_) => Some(DataType::U64),
            DataValue::I8(_) => Some(DataType::I8),
            DataValue::I16(_) => Some(DataType::I16),
            DataValue::I32(_) => Some(DataType::I32),
            DataValue::I64(_) => Some(DataType::I64),
            DataValue::Uuid(_) => Some(DataType::Uuid),
            DataValue::UuidRand(_) => Some(DataType::UuidRand),
            DataValue::UuidSlug(_) => Some(DataType::UuidSlug),
            DataValue::Local(_) => Some(DataType::Local),
            DataValue::Utc(_) => Some(DataType::Utc),
            DataValue::Text(_) => Some(DataType::Text),
            DataValue::Ident(_) => Some(DataType::Ident),
            DataValue::Url(_) => Some(DataType::Url),
            DataValue::Bytes(_) => Some(DataType::Bytes),
        }
    }

    /// Reports the data-type tag of this value.
    pub fn get_data_type(&self) -> (r: Option<DataType>)
        ensures
            r == self.spec_data_type(),
    {
        match self {
            DataValue::Nil => None,
            DataValue::Bool(_) => Some(DataType::Bool),
            DataValue::S8(_) => Some(DataType::S8),
            DataValue::S16(_) => Some(DataType::S16),
            DataValue::S32(_) => Some(DataType::S32),
            DataValue::S64(_) => Some(DataType::S64),
            DataValue::F32(_) => Some(DataType::F32),
            DataValue::F64(_) => Some(DataType::F64),
            DataValue::U8(_) => Some(DataType::U8),
            DataValue::U16(_) => Some(DataType::U16),
            DataValue::U32(_) => Some(DataType::U32),
            DataValue::U64(_) => Some(DataType::U64),
            DataValue::I8(_) => Some(DataType::I8),
            DataValue::I16(_) => Some(DataType::I16),
            DataValue::I32(_) => Some(DataType::I32),
            DataValue::I64(_) => Some(DataType::I64),
            DataValue::Uuid(_) => Some(DataType::Uuid),
            DataValue::UuidRand(_) => Some(DataType::UuidRand),
            DataValue::UuidSlug(_) => Some(DataType::UuidSlug),
            DataValue::Local(_) => Some(DataType::Local),
            DataValue::Utc(_) => Some(DataType::Utc),
            DataValue::Text(_) => Some(DataType::Text),
            DataValue::Ident(_) => Some(DataType::Ident),
            DataValue::Url(_) => Some(DataType::Url),
            DataValue::Bytes(_) => Some(DataType::Bytes),
        }
    }
}

/// What the outside timestamp parser yields for a string: milliseconds since
/// the epoch when one of the accepted formats matches, in their fixed order.
pub uninterp spec fn ts_parse_millis(s: Seq<char>) -> Option<i64>;

/// The RFC-3339 rendering of a timestamp in milliseconds since the epoch.
pub uninterp spec fn rfc3339_text(ms: i64) -> Seq<char>;

/// The canonical hyphenated rendering of a UUID string, if it parses.
pub uninterp spec fn uuid_canonical(s: Seq<char>) -> Option<Seq<char>>;

/// The bytes a Base64 string decodes to, if it decodes.
pub uninterp spec fn base64_decoded(s: Seq<char>) -> Option<Seq<u8>>;

/// The Base64 rendering of a byte string.
pub uninterp spec fn base64_text(b: Seq<u8>) -> Seq<char>;

/// Relies on chrono's parsers, tried in order: RFC-3339, then
/// `%Y-%m-%dT%H:%M:%S%z`, `%Y-%m-%d %H:%M:%S`, `%Y-%m-%d %H:%M:%S.%f`, and
/// `%Y-%m-%d` taken as midnight; the first match wins and is read as a
/// timestamp in milliseconds.
#[verifier::external_body]
pub fn parse_timestamp(s: &str) -> (r: Option<i64>)
    ensures
        r == ts_parse_millis(s@),
{
    let nd = |d: chrono::NaiveDate| d.and_hms_milli_opt(0, 0, 0, 0);
    let ts = chrono::DateTime::parse_from_rfc3339(s)
        .map(|dt| dt.naive_local())
        .or_else(|_| chrono::NaiveDateTime::parse_from_str(s, "%Y-%m-%dT%H:%M:%S%z"))
        .or_else(|_| chrono::NaiveDateTime::parse_from_str(s, "%Y-%m-%d %H:%M:%S"))
        .or_else(|_| chrono::NaiveDateTime::parse_from_str(s, "%Y-%m-%d %H:%M:%S.%f"))
        .or_else(|_| chrono::NaiveDate::parse_from_str(s, "%Y-%m-%d").map(|d| nd(d).unwrap_or_default()));
    ts.ok().map(|t| t.and_utc().timestamp_millis())
}

/// Relies on chrono's `to_rfc3339` on the UTC timestamp of the given
/// milliseconds; a value outside chrono's range renders empty.
#[verifier::external_body]
pub fn format_timestamp(ms: i64) -> (r: String)
    ensures
        r@ == rfc3339_text(ms),
{
    match chrono::DateTime::<chrono::Utc>::from_timestamp_millis(ms) {
        Some(dt) => dt.to_rfc3339(),
        None => String::new(),
    }
}

/// Relies on `uuid::Uuid::parse_str` and the hyphenated `to_string`: accepts
/// the RFC-4122 textual form and yields the canonical rendering.
#[verifier::external_body]
pub fn parse_uuid(s: &str) -> (r: Option<String>)
    ensures
        match r {
            Some(t) => uuid_canonical(s@) == Some(t@),
            None => uuid_canonical(s@) is None,
        },
{
    match uuid::Uuid::parse_str(s) {
        Ok(u) => Some(u.to_string()),
        Err(_) => None,
    }
}

/// Relies on the base64 crate's standard-alphabet decode.
#[verifier::external_body]
pub fn base64_decode(s: &str) -> (r: Option<Vec<u8>>)
    ensures
        match r {
            Some(b) => base64_decoded(s@) == Some(b@),
            None => base64_decoded(s@) is None,
        },
{
    match base64::Engine::decode(&base64::engine::general_purpose::STANDARD, s) {
        Ok(b) => Some(b),
        Err(_) => None,
    }
}

/// Relies on the base64 crate's standard-alphabet encode.
#[verifier::external_body]
pub fn base64_encode(b: &Vec<u8>) -> (r: String)
    ensures
        r@ == base64_text(b@),
{
    base64::Engine::encode(&base64::engine::general_purpose::STANDARD, b)
}

/// The rendering of a typed value: numbers in decimal, timestamps in
/// RFC-3339, bytes in Base64, text raw, and `Nil` empty.
pub open spec fn data_value_text(v: DataValueV) -> Seq<char> {
    match v {
        DataValueV::Nil => Seq::empty(),
        DataValueV::Bool(b) => if b {
            "true"@
        } else {
            "false"@
        },
        DataValueV::S8(n) => dec_digits(n as nat),
        DataValueV::S16(n) => dec_digits(n as nat),
        DataValueV::S32(n) => dec_digits(n as nat),
        DataValueV::S64(n) => dec_digits(n as nat),
        DataValueV::F32(t) => t,
        DataValueV::F64(t) => t,
        DataValueV::U8(n) => dec_digits(n as nat),
        DataValueV::U16(n) => dec_digits(n as nat),
        DataValueV::U32(n) => dec_digits(n as nat),
        DataValueV::U64(n) => dec_digits(n as nat),
        DataValueV::I8(n) => dec_int_digits(n as int),
        DataValueV::I16(n) => dec_int_digits(n as int),
        DataValueV::I32(n) => dec_int_digits(n as int),
        DataValueV::I64(n) => dec_int_digits(n as int),
        DataValueV::Uuid(t) => t,
        DataValueV::UuidRand(t) => t,
        DataValueV::UuidSlug(t) => t,
        DataValueV::Local(ms) => rfc3339_text(ms),
        DataValueV::Utc(ms) => rfc3339_text(ms),
        DataValueV::Text(t) => t,
        DataValueV::Ident(t) => t,
        DataValueV::Url(t) => t,
        DataValueV::Bytes(b) => base64_text(b),
    }
}

impl DataValue {
    /// Renders this value as its field text.
    pub fn to_text(&self) -> (r: String)
        ensures
            r@ == data_value_text(self.deep_view()),
    {
        match self {
            DataValue::Nil => String::new(),
            DataValue::Bool(b) => if *b {
                "true".to_owned()
            } else {
                "false".to_owned()
            },
            DataValue::S8(n) => u64_to_string(*n as u64),
            DataValue::S16(n) => u64_to_string(*n as u64),
            DataValue::S32(n) => u64_to_string(*n as u64),
            DataValue::S64(n) => u64_to_string(*n),
            DataValue::F32(t) => t.clone(),
            DataValue::F64(t) => t.clone(),
            DataValue::U8(n) => u64_to_string(*n as u64),
            DataValue::U16(n) => u64_to_string(*n as u64),
            DataValue::U32(n) => u64_to_string(*n as u64),
            DataValue::U64(n) => u64_to_string(*n),
            DataValue::I8(n) => i64_to_string(*n as i64),
            DataValue::I16(n) => i64_to_string(*n as i64),
            DataValue::I32(n) => i64_to_string(*n as i64),
            DataValue::I64(n) => i64_to_string(*n),
            DataValue::Uuid(t) => t.clone(),
            DataValue::UuidRand(t) => t.clone(),
            DataValue::UuidSlug(t) => t.clone(),
            DataValue::Local(ms) => format_timestamp(*ms),
            DataValue::Utc(ms) => format_timestamp(*ms),
            DataValue::Text(t) => t.clone(),
            DataValue::Ident(t) => t.clone(),
            DataValue::Url(t) => t.clone(),
            DataValue::Bytes(b) => base64_encode(b),
        }
    }
}


/// The index of the first character of `s` that is not a space or tab.
pub open spec fn first_non_space(s: Seq<char>, i: int) -> int
    decreases s.len() - i,
{
    if 0 <= i < s.len() && (s[i] == ' ' || s[i] == '\t') {
        first_non_space(s, i + 1)
    } else {
        i
    }
}

/// The index after the last character of `s[..j]` that is not a space or tab.
pub open spec fn last_non_space(s: Seq<char>, j: int) -> int
    decreases j,
{
    if 0 < j <= s.len() && (s[j - 1] == ' ' || s[j - 1] == '\t') {
        last_non_space(s, j - 1)
    } else {
        j
    }
}

/// `s` without leading and trailing spaces and tabs.
pub open spec fn trimmed(s: Seq<char>) -> Seq<char> {
    let a = first_non_space(s, 0);
    let b = last_non_space(s, s.len() as int);
    if a <= b {
        s.subrange(a, b)
    } else {
        Seq::empty()
    }
}

/// The value of a non-empty all-digit string, in decimal.
pub open spec fn unsigned_dec(s: Seq<char>) -> Option<nat> {
    if s.len() > 0 && (forall|k: int| 0 <= k < s.len() ==> crate::ast::parser::utils::spec_digit(
        s[k],
    )) {
        Some(crate::ast::parser::utils::dec_value(s, 0, s.len() as int))
    } else {
        None
    }
}

/// The value of a decimal string with an optional leading minus sign.
pub open spec fn signed_dec(s: Seq<char>) -> Option<int> {
    if s.len() > 0 && s[0] == '-' {
        match unsigned_dec(s.subrange(1, s.len() as int)) {
            Some(n) => Some(-(n as int)),
            None => None,
        }
    } else {
        match unsigned_dec(s) {
            Some(n) => Some(n as int),
            None => None,
        }
    }
}

/// The string with one leading plus sign removed: integer coercion accepts
/// an optional plus, as the host integer parsers do.
pub open spec fn unplus(s: Seq<char>) -> Seq<char> {
    if s.len() > 0 && s[0] == '+' {
        s.subrange(1, s.len() as int)
    } else {
        s
    }
}

/// The value of a decimal string with an optional leading plus or minus
/// sign; a plus admits digits only.
pub open spec fn signed_dec_plus(s: Seq<char>) -> Option<int> {
    if s.len() > 0 && s[0] == '+' {
        match unsigned_dec(s.subrange(1, s.len() as int)) {
            Some(n) => Some(n as int),
            None => None,
        }
    } else {
        signed_dec(s)
    }
}

/// The integer value of a numeric literal: an optional minus sign, digits,
/// and an optional fraction that truncates away.
pub open spec fn int_of_num_text(s: Seq<char>) -> Option<int> {
    let neg = s.len() > 0 && s[0] == '-';
    let body = if neg {
        s.subrange(1, s.len() as int)
    } else {
        s
    };
    match dot_split_value(body) {
        Some(n) => if neg {
            Some(-(n as int))
        } else {
            Some(n as int)
        },
        None => None,
    }
}

/// The value of `digits` or `digits.digits`, truncating the fraction.
pub open spec fn dot_split_value(s: Seq<char>) -> Option<nat> {
    let dot = first_dot(s, 0);
    if dot == s.len() {
        unsigned_dec(s)
    } else {
        match unsigned_dec(s.subrange(0, dot)) {
            Some(n) => match unsigned_dec(s.subrange(dot + 1, s.len() as int)) {
                Some(_) => Some(n),
                None => None,
            },
            None => None,
        }
    }
}

/// The index of the first dot in `s`, or its length.
pub open spec fn first_dot(s: Seq<char>, i: int) -> int
    decreases s.len() - i,
{
    if 0 <= i < s.len() {
        if s[i] == '.' {
            i
        } else {
            first_dot(s, i + 1)
        }
    } else {
        s.len() as int
    }
}

/// Whether `s` is exactly one numeric literal of the surface grammar.
pub open spec fn is_number_text(s: Seq<char>) -> bool {
    crate::ast::parser::number_end(s, 0) == Some(s.len() as int)
}

/// What a coarse value coerces to under the given data type, if anything:
/// `Null` coerces to `Nil`; booleans fill the boolean and integer types;
/// numbers fill the numeric types, truncating fractions and rejecting
/// out-of-range values; strings are read by the target type, the empty
/// string standing for `Nil` in the numeric, float and byte types.
pub open spec fn spec_cast(v: crate::ast::expr::ValueV, t: DataType) -> Option<DataValueV> {
    match v {
        crate::ast::expr::ValueV::Null => Some(DataValueV::Nil),
        crate::ast::expr::ValueV::Bool(b) => spec_cast_bool(b, t),
        crate::ast::expr::ValueV::Num(s) => spec_cast_num(s, t),
        crate::ast::expr::ValueV::Str(s) => spec_cast_str(s, t),
    }
}

/// Coercion of a boolean: itself, or one and zero for the integer types.
pub open spec fn spec_cast_bool(b: bool, t: DataType) -> Option<DataValueV> {
    let n: u8 = if b {
        1
    } else {
        0
    };
    match t {
        DataType::Bool => Some(DataValueV::Bool(b)),
        DataType::U8 => Some(DataValueV::U8(n)),
        DataType::U16 => Some(DataValueV::U16(n as u16)),
        DataType::U32 => Some(DataValueV::U32(n as u32)),
        DataType::U64 => Some(DataValueV::U64(n as u64)),
        DataType::I8 => Some(DataValueV::I8(n as i8)),
        DataType::I16 => Some(DataValueV::I16(n as i16)),
        DataType::I32 => Some(DataValueV::I32(n as i32)),
        DataType::I64 => Some(DataValueV::I64(n as i64)),
        DataType::S8 => Some(DataValueV::S8(n)),
        DataType::S16 => Some(DataValueV::S16(n as u16)),
        DataType::S32 => Some(DataValueV::S32(n as u32)),
        DataType::S64 => Some(DataValueV::S64(n as u64)),
        _ => None,
    }
}

/// Coercion of a numeric literal: the integer types truncate the fraction
/// and demand the range; the float types keep the literal text.
pub open spec fn spec_cast_num(s: Seq<char>, t: DataType) -> Option<DataValueV> {
    match t {
        DataType::F32 => if is_number_text(s) {
            Some(DataValueV::F32(s))
        } else {
            None
        },
        DataType::F64 => if is_number_text(s) {
            Some(DataValueV::F64(s))
        } else {
            None
        },
        _ => match int_of_num_text(s) {
            Some(n) => spec_int_fit(n, t),
            None => None,
        },
    }
}

/// The integer `n` as a value of the integer type `t`, when it fits.
pub open spec fn spec_int_fit(n: int, t: DataType) -> Option<DataValueV> {
    match t {
        DataType::U8 => if 0 <= n <= u8::MAX {
            Some(DataValueV::U8(n as u8))
        } else {
            None
        },
        DataType::U16 => if 0 <= n <= u16::MAX {
            Some(DataValueV::U16(n as u16))
        } else {
            None
        },
        DataType::U32 => if 0 <= n <= u32::MAX {
            Some(DataValueV::U32(n as u32))
        } else {
            None
        },
        DataType::U64 => if 0 <= n <= u64::MAX {
            Some(DataValueV::U64(n as u64))
        } else {
            None
        },
        DataType::I8 => if i8::MIN <= n <= i8::MAX {
            Some(DataValueV::I8(n as i8))
        } else {
            None
        },
        DataType::I16 => if i16::MIN <= n <= i16::MAX {
            Some(DataValueV::I16(n as i16))
        } else {
            None
        },
        DataType::I32 => if i32::MIN <= n <= i32::MAX {
            Some(DataValueV::I32(n as i32))
        } else {
            None
        },
        DataType::I64 => if i64::MIN <= n <= i64::MAX {
            Some(DataValueV::I64(n as i64))
        } else {
            None
        },
        DataType::S8 => if 0 <= n <= u8::MAX {
            Some(DataValueV::S8(n as u8))
        } else {
            None
        },
        DataType::S16 => if 0 <= n <= u16::MAX {
            Some(DataValueV::S16(n as u16))
        } else {
            None
        },
        DataType::S32 => if 0 <= n <= u32::MAX {
            Some(DataValueV::S32(n as u32))
        } else {
            None
        },
        DataType::S64 => if 0 <= n <= u64::MAX {
            Some(DataValueV::S64(n as u64))
        } else {
            None
        },
        _ => None,
    }
}

/// Coercion of a string by the target type.
pub open spec fn spec_cast_str(s: Seq<char>, t: DataType) -> Option<DataValueV> {
    match t {
        DataType::Text => Some(DataValueV::Text(s)),
        DataType::Bool => Some(
            DataValueV::Bool(s == "true"@ || s == "1"@),
        ),
        DataType::F32 => if s.len() == 0 {
            Some(DataValueV::Nil)
        } else if is_number_text(s) {
            Some(DataValueV::F32(s))
        } else {
            None
        },
        DataType::F64 => if s.len() == 0 {
            Some(DataValueV::Nil)
        } else if is_number_text(s) {
            Some(DataValueV::F64(s))
        } else {
            None
        },
        DataType::U8 | DataType::U16 | DataType::U32 | DataType::U64 | DataType::S8
            | DataType::S16 | DataType::S32 | DataType::S64 => if s.len() == 0 {
            Some(DataValueV::Nil)
        } else {
            match unsigned_dec(unplus(s)) {
                Some(n) => spec_int_fit(n as int, t),
                None => None,
            }
        },
        DataType::I8 | DataType::I16 | DataType::I32 | DataType::I64 => if s.len() == 0 {
            Some(DataValueV::Nil)
        } else {
            match signed_dec_plus(s) {
                Some(n) => spec_int_fit(n, t),
                None => None,
            }
        },
        DataType::Local => match ts_parse_millis(trimmed(s)) {
            Some(ms) => Some(DataValueV::Local(ms)),
            None => None,
        },
        DataType::Utc => match ts_parse_millis(trimmed(s)) {
            Some(ms) => Some(DataValueV::Utc(ms)),
            None => None,
        },
        DataType::Uuid | DataType::UuidRand => match uuid_canonical(s) {
            Some(c) => Some(DataValueV::Uuid(c)),
            None => None,
        },
        DataType::UuidSlug => Some(DataValueV::UuidSlug(s)),
        DataType::Ident => Some(DataValueV::Ident(s)),
        DataType::Json => Some(DataValueV::Text(s)),
        DataType::Bytes => if s.len() == 0 {
            Some(DataValueV::Nil)
        } else {
            match base64_decoded(s) {
                Some(b) => Some(DataValueV::Bytes(b)),
                None => None,
            }
        },
        _ => None,
    }
}

/// Reads a non-empty all-digit string, reporting values above the unsigned
/// 64-bit range as absent.
pub fn parse_unsigned_chars(cs: &Vec<char>) -> (r: Option<u64>)
    ensures
        match r {
            Some(v) => unsigned_dec(cs@) == Some(v as nat),
            None => unsigned_dec(cs@) is None || match unsigned_dec(cs@) {
                Some(n) => n > u64::MAX,
                None => false,
            },
        },
{
    if cs.len() == 0 {
        return None;
    }
    let mut acc: u64 = 0;
    let mut over = false;
    let mut p: usize = 0;
    while p < cs.len()
        invariant
            0 <= p <= cs@.len(),
            forall|k: int| 0 <= k < p ==> crate::ast::parser::utils::spec_digit(cs@[k]),
            !over ==> acc == crate::ast::parser::utils::dec_value(cs@, 0, p as int),
            over ==> (crate::ast::parser::utils::dec_value(cs@, 0, p as int) > u64::MAX),
        decreases cs@.len() - p,
    {
        if !crate::ast::parser::utils::is_digit(cs[p]) {
            return None;
        }
        let d: u64 = (cs[p] as u32 as u64) - ('0' as u32 as u64);
        if !over {
            if acc > (18446744073709551615u64 - d) / 10 {
                over = true;
            } else {
                acc = acc * 10 + d;
            }
        }
        p += 1;
    }
    if over {
        return None;
    }
    Some(acc)
}

/// Reads a decimal string with an optional minus sign into a signed 64-bit
/// value, reporting out-of-range values as absent.
pub fn parse_signed_chars(cs: &Vec<char>) -> (r: Option<i64>)
    ensures
        match r {
            Some(v) => signed_dec(cs@) == Some(v as int),
            None => signed_dec(cs@) is None || match signed_dec(cs@) {
                Some(n) => n < i64::MIN || n > i64::MAX,
                None => false,
            },
        },
{
    if cs.len() > 0 && cs[0] == '-' {
        let mut rest: Vec<char> = Vec::new();
        let mut p: usize = 1;
        while p < cs.len()
            invariant
                1 <= p <= cs@.len(),
                rest@ == cs@.subrange(1, p as int),
            decreases cs@.len() - p,
        {
            proof {
                assert(cs@.subrange(1, p + 1) =~= cs@.subrange(1, p as int).push(cs@[p as int]));
            }
            rest.push(cs[p]);
            p += 1;
        }
        match parse_unsigned_chars(&rest) {
            Some(v) => {
                if v <= 9223372036854775808u64 {
                    let out: i64 = if v == 9223372036854775808u64 {
                        i64::MIN
                    } else {
                        -(v as i64)
                    };
                    Some(out)
                } else {
                    None
                }
            },
            None => None,
        }
    } else {
        match parse_unsigned_chars(cs) {
            Some(v) => {
                if v <= 9223372036854775807u64 {
                    Some(v as i64)
                } else {
                    None
                }
            },
            None => None,
        }
    }
}



/// Tests that `cs[a..b]` is a non-empty run of digits: exactly when that
/// range has a decimal value.
pub fn all_digits_range(cs: &Vec<char>, a: usize, b: usize) -> (r: bool)
    requires
        a <= b <= cs@.len(),
    ensures
        r == (unsigned_dec(cs@.subrange(a as int, b as int)) is Some),
{
    if a == b {
        proof {
            assert(cs@.subrange(a as int, b as int).len() == 0);
        }
        return false;
    }
    let mut p = a;
    while p < b
        invariant
            a <= p <= b <= cs@.len(),
            forall|k: int| a <= k < p ==> crate::ast::parser::utils::spec_digit(cs@[k]),
        decreases b - p,
    {
        if !crate::ast::parser::utils::is_digit(cs[p]) {
            proof {
                assert(!crate::ast::parser::utils::spec_digit(
                    cs@.subrange(a as int, b as int)[p - a],
                ));
            }
            return false;
        }
        p += 1;
    }
    proof {
        assert(forall|k: int|
            0 <= k < b - a ==> crate::ast::parser::utils::spec_digit(
                #[trigger] cs@.subrange(a as int, b as int)[k],
            ));
    }
    true
}

/// Copies `cs[a..b]` into a fresh vector.
pub fn subvec_chars(cs: &Vec<char>, a: usize, b: usize) -> (r: Vec<char>)
    requires
        a <= b <= cs@.len(),
    ensures
        r@ == cs@.subrange(a as int, b as int),
{
    let mut out: Vec<char> = Vec::new();
    let mut p = a;
    while p < b
        invariant
            a <= p <= b <= cs@.len(),
            out@ == cs@.subrange(a as int, p as int),
        decreases b - p,
    {
        proof {
            assert(cs@.subrange(a as int, p + 1) =~= cs@.subrange(a as int, p as int).push(
                cs@[p as int],
            ));
        }
        out.push(cs[p]);
        p += 1;
    }
    out
}

/// Reads a numeric literal as a sign and a magnitude, truncating any
/// fraction; magnitudes beyond the unsigned 64-bit range are absent.
pub fn split_num_chars(cs: &Vec<char>) -> (r: Option<(bool, u64)>)
    ensures
        match r {
            Some(p) => int_of_num_text(cs@) == Some(
                if p.0 {
                    -(p.1 as int)
                } else {
                    p.1 as int
                },
            ),
            None => int_of_num_text(cs@) is None || match int_of_num_text(cs@) {
                Some(n) => n > u64::MAX || n < -(u64::MAX as int),
                None => false,
            },
        },
{
    let neg = cs.len() > 0 && cs[0] == '-';
    let start: usize = if neg {
        1
    } else {
        0
    };
    let body = subvec_chars(cs, start, cs.len());
    let mut dot: usize = 0;
    while dot < body.len() && body[dot] != '.'
        invariant
            0 <= dot <= body@.len(),
            first_dot(body@, 0) == first_dot(body@, dot as int),
        decreases body@.len() - dot,
    {
        dot += 1;
    }
    proof {
        if !neg {
            assert(body@ =~= cs@);
        }
        assert(first_dot(body@, 0) == dot as int);
        if dot as int == body@.len() {
            assert(body@.subrange(0, dot as int) =~= body@);
        }
    }
    if !all_digits_range(&body, 0, dot) {
        return None;
    }
    if dot < body.len() {
        if !all_digits_range(&body, dot + 1, body.len()) {
            return None;
        }
    }
    let intpart = subvec_chars(&body, 0, dot);
    proof {
        if dot < body@.len() {
            assert(body@.subrange(0, first_dot(body@, 0)) == intpart@);
        } else {
            assert(intpart@ =~= body@);
        }
    }
    match parse_unsigned_chars(&intpart) {
        Some(m) => Some((neg, m)),
        None => None,
    }
}

/// Tests whether the characters form exactly one numeric literal.
pub fn is_number_chars(cs: &Vec<char>) -> (r: bool)
    ensures
        r == is_number_text(cs@),
{
    match crate::ast::parser::number_at(cs, 0) {
        Ok((_, p)) => p == cs.len(),
        Err(_) => false,
    }
}

/// Fits a signed magnitude into the integer data type `t`.
fn fit_int(neg: bool, m: u64, t: &DataType) -> (r: Option<DataValue>)
    ensures
        match r {
            Some(d) => spec_int_fit(
                if neg {
                    -(m as int)
                } else {
                    m as int
                },
                *t,
            ) == Some(d.deep_view()),
            None => spec_int_fit(
                if neg {
                    -(m as int)
                } else {
                    m as int
                },
                *t,
            ) is None,
        },
{
    if neg && m > 0 {
        match t {
            DataType::I8 => if m <= 128 {
                Some(DataValue::I8((-(m as i64)) as i8))
            } else {
                None
            },
            DataType::I16 => if m <= 32768 {
                Some(DataValue::I16((-(m as i64)) as i16))
            } else {
                None
            },
            DataType::I32 => if m <= 2147483648 {
                Some(DataValue::I32((-(m as i64)) as i32))
            } else {
                None
            },
            DataType::I64 => if m <= 9223372036854775808u64 {
                let v: i64 = if m == 9223372036854775808u64 {
                    i64::MIN
                } else {
                    -(m as i64)
                };
                Some(DataValue::I64(v))
            } else {
                None
            },
            _ => None,
        }
    } else {
        match t {
            DataType::U8 => if m <= 255 {
                Some(DataValue::U8(m as u8))
            } else {
                None
            },
            DataType::U16 => if m <= 65535 {
                Some(DataValue::U16(m as u16))
            } else {
                None
            },
            DataType::U32 => if m <= 4294967295 {
                Some(DataValue::U32(m as u32))
            } else {
                None
            },
            DataType::U64 => Some(DataValue::U64(m)),
            DataType::S8 => if m <= 255 {
                Some(DataValue::S8(m as u8))
            } else {
                None
            },
            DataType::S16 => if m <= 65535 {
                Some(DataValue::S16(m as u16))
            } else {
                None
            },
            DataType::S32 => if m <= 4294967295 {
                Some(DataValue::S32(m as u32))
            } else {
                None
            },
            DataType::S64 => Some(DataValue::S64(m)),
            DataType::I8 => if m <= 127 {
                Some(DataValue::I8(m as i8))
            } else {
                None
            },
            DataType::I16 => if m <= 32767 {
                Some(DataValue::I16(m as i16))
            } else {
                None
            },
            DataType::I32 => if m <= 2147483647 {
                Some(DataValue::I32(m as i32))
            } else {
                None
            },
            DataType::I64 => if m <= 9223372036854775807u64 {
                Some(DataValue::I64(m as i64))
            } else {
                None
            },
            _ => None,
        }
    }
}

/// Coerces a coarse value to the given data type; values that cannot be
/// coerced raise `InvalidValue` with the value's rendering.
pub fn cast_data_value(value: &crate::ast::Value, required_type: &DataType) -> (r: Result<
    DataValue,
    crate::Error,
>)
    ensures
        match r {
            Ok(d) => spec_cast(value.deep_view(), *required_type) == Some(d.deep_view()),
            Err(e) => spec_cast(value.deep_view(), *required_type) is None && (
            e matches crate::Error::InvalidValue(_)),
        },
        match (value.deep_view(), r) {
            (crate::ast::expr::ValueV::Str(sv), Err(e)) => e
                matches crate::Error::InvalidValue(t) && t@ == sv,
            _ => true,
        },
{
    let fault = || -> crate::Error { crate::Error::InvalidValue(String::new()) };
    match value {
        crate::ast::Value::Null => Ok(DataValue::Nil),
        crate::ast::Value::Bool(b) => {
            let n: u8 = if *b {
                1
            } else {
                0
            };
            match required_type {
                DataType::Bool => Ok(DataValue::Bool(*b)),
                DataType::U8 => Ok(DataValue::U8(n)),
                DataType::U16 => Ok(DataValue::U16(n as u16)),
                DataType::U32 => Ok(DataValue::U32(n as u32)),
                DataType::U64 => Ok(DataValue::U64(n as u64)),
                DataType::I8 => Ok(DataValue::I8(n as i8)),
                DataType::I16 => Ok(DataValue::I16(n as i16)),
                DataType::I32 => Ok(DataValue::I32(n as i32)),
                DataType::I64 => Ok(DataValue::I64(n as i64)),
                DataType::S8 => Ok(DataValue::S8(n)),
                DataType::S16 => Ok(DataValue::S16(n as u16)),
                DataType::S32 => Ok(DataValue::S32(n as u32)),
                DataType::S64 => Ok(DataValue::S64(n as u64)),
                _ => Err(crate::Error::InvalidValue(value.to_text())),
            }
        },
        crate::ast::Value::Number(txt) => {
            let cs = crate::ast::parser::utils::to_chars(txt.as_str());
            match required_type {
                DataType::F32 => {
                    if is_number_chars(&cs) {
                        Ok(DataValue::F32(txt.clone()))
                    } else {
                        Err(crate::Error::InvalidValue(value.to_text()))
                    }
                },
                DataType::F64 => {
                    if is_number_chars(&cs) {
                        Ok(DataValue::F64(txt.clone()))
                    } else {
                        Err(crate::Error::InvalidValue(value.to_text()))
                    }
                },
                _ => {
                    match split_num_chars(&cs) {
                        Some((neg, m)) => {
                            match fit_int(neg, m, required_type) {
                                Some(d) => Ok(d),
                                None => Err(crate::Error::InvalidValue(value.to_text())),
                            }
                        },
                        None => {
                            proof {
                                spec_int_fit_wide(*required_type);
                            }
                            Err(crate::Error::InvalidValue(value.to_text()))
                        },
                    }
                },
            }
        },
        crate::ast::Value::String(txt) => cast_string_value(txt, required_type),
    }
}

/// Out-of-range integers fit no integer data type.
proof fn spec_int_fit_wide(t: DataType)
    ensures
        forall|n: int|
            (n > u64::MAX || n < -(u64::MAX as int)) ==> #[trigger] spec_int_fit(n, t) is None,
{
}

/// Coerces a string value to the given data type.
fn cast_string_value(txt: &String, required_type: &DataType) -> (r: Result<DataValue, crate::Error>)
    ensures
        match r {
            Ok(d) => spec_cast_str(txt@, *required_type) == Some(d.deep_view()),
            Err(e) => spec_cast_str(txt@, *required_type) is None && (
            e matches crate::Error::InvalidValue(t) && t@ == txt@),
        },
{
    let cs = crate::ast::parser::utils::to_chars(txt.as_str());
    match required_type {
        DataType::Text => Ok(DataValue::Text(txt.clone())),
        DataType::Json => Ok(DataValue::Text(txt.clone())),
        DataType::Ident => Ok(DataValue::Ident(txt.clone())),
        DataType::UuidSlug => Ok(DataValue::UuidSlug(txt.clone())),
        DataType::Bool => {
            let b = crate::ast::parser::utils::str_eq(txt.as_str(), "true")
                || crate::ast::parser::utils::str_eq(txt.as_str(), "1");
            Ok(DataValue::Bool(b))
        },
        DataType::F32 => {
            if cs.len() == 0 {
                Ok(DataValue::Nil)
            } else if is_number_chars(&cs) {
                Ok(DataValue::F32(txt.clone()))
            } else {
                Err(crate::Error::InvalidValue(txt.clone()))
            }
        },
        DataType::F64 => {
            if cs.len() == 0 {
                Ok(DataValue::Nil)
            } else if is_number_chars(&cs) {
                Ok(DataValue::F64(txt.clone()))
            } else {
                Err(crate::Error::InvalidValue(txt.clone()))
            }
        },
        DataType::U8 | DataType::U16 | DataType::U32 | DataType::U64 | DataType::S8
            | DataType::S16 | DataType::S32 | DataType::S64 => {
            if cs.len() == 0 {
                return Ok(DataValue::Nil);
            }
            let body = if cs[0] == '+' {
                subvec_chars(&cs, 1, cs.len())
            } else {
                subvec_chars(&cs, 0, cs.len())
            };
            proof {
                assert(cs@.subrange(0, cs@.len() as int) =~= cs@);
                assert(body@ == unplus(cs@));
            }
            match parse_unsigned_chars(&body) {
                Some(m) => {
                    match fit_int(false, m, required_type) {
                        Some(d) => Ok(d),
                        None => Err(crate::Error::InvalidValue(txt.clone())),
                    }
                },
                None => {
                    proof {
                        spec_int_fit_wide(*required_type);
                    }
                    Err(crate::Error::InvalidValue(txt.clone()))
                },
            }
        },
        DataType::I8 | DataType::I16 | DataType::I32 | DataType::I64 => {
            if cs.len() == 0 {
                return Ok(DataValue::Nil);
            }
            if cs[0] == '+' {
                let rest = subvec_chars(&cs, 1, cs.len());
                match parse_unsigned_chars(&rest) {
                    Some(m) => {
                        match fit_int(false, m, required_type) {
                            Some(d) => Ok(d),
                            None => Err(crate::Error::InvalidValue(txt.clone())),
                        }
                    },
                    None => {
                        proof {
                            spec_int_fit_wide(*required_type);
                        }
                        Err(crate::Error::InvalidValue(txt.clone()))
                    },
                }
            } else if cs[0] == '-' {
                let rest = subvec_chars(&cs, 1, cs.len());
                match parse_unsigned_chars(&rest) {
                    Some(m) => {
                        match fit_int(true, m, required_type) {
                            Some(d) => Ok(d),
                            None => Err(crate::Error::InvalidValue(txt.clone())),
                        }
                    },
                    None => {
                        proof {
                            spec_int_fit_wide(*required_type);
                        }
                        Err(crate::Error::InvalidValue(txt.clone()))
                    },
                }
            } else {
                match parse_unsigned_chars(&cs) {
                    Some(m) => {
                        match fit_int(false, m, required_type) {
                            Some(d) => Ok(d),
                            None => Err(crate::Error::InvalidValue(txt.clone())),
                        }
                    },
                    None => {
                        proof {
                            spec_int_fit_wide(*required_type);
                        }
                        Err(crate::Error::InvalidValue(txt.clone()))
                    },
                }
            }
        },
        DataType::Local => {
            let a = first_non_space_at(&cs);
            let b = last_non_space_at(&cs);
            let core = if a <= b {
                substring_chars(&cs, a, b)
            } else {
                String::new()
            };
            proof {
                assert(core@ == trimmed(cs@));
            }
            match parse_timestamp(core.as_str()) {
                Some(ms) => Ok(DataValue::Local(ms)),
                None => Err(crate::Error::InvalidValue(txt.clone())),
            }
        },
        DataType::Utc => {
            let a = first_non_space_at(&cs);
            let b = last_non_space_at(&cs);
            let core = if a <= b {
                substring_chars(&cs, a, b)
            } else {
                String::new()
            };
            proof {
                assert(core@ == trimmed(cs@));
            }
            match parse_timestamp(core.as_str()) {
                Some(ms) => Ok(DataValue::Utc(ms)),
                None => Err(crate::Error::InvalidValue(txt.clone())),
            }
        },
        DataType::Uuid | DataType::UuidRand => {
            match parse_uuid(txt.as_str()) {
                Some(c) => Ok(DataValue::Uuid(c)),
                None => Err(crate::Error::InvalidValue(txt.clone())),
            }
        },
        DataType::Bytes => {
            if cs.len() == 0 {
                return Ok(DataValue::Nil);
            }
            match base64_decode(txt.as_str()) {
                Some(b) => Ok(DataValue::Bytes(b)),
                None => Err(crate::Error::InvalidValue(txt.clone())),
            }
        },
        _ => Err(crate::Error::InvalidValue(txt.clone())),
    }
}

/// The first index of the characters that is not a space or tab.
fn first_non_space_at(cs: &Vec<char>) -> (r: usize)
    ensures
        r as int == first_non_space(cs@, 0),
        r <= cs@.len(),
{
    let mut p: usize = 0;
    while p < cs.len() && (cs[p] == ' ' || cs[p] == '\t')
        invariant
            0 <= p <= cs@.len(),
            first_non_space(cs@, 0) == first_non_space(cs@, p as int),
        decreases cs@.len() - p,
    {
        p += 1;
    }
    p
}

/// The index after the last character that is not a space or tab.
fn last_non_space_at(cs: &Vec<char>) -> (r: usize)
    ensures
        r as int == last_non_space(cs@, cs@.len() as int),
        r <= cs@.len(),
{
    let mut p: usize = cs.len();
    while p > 0 && (cs[p - 1] == ' ' || cs[p - 1] == '\t')
        invariant
            0 <= p <= cs@.len(),
            last_non_space(cs@, cs@.len() as int) == last_non_space(cs@, p as int),
        decreases p,
    {
        p -= 1;
    }
    p
}

/// Copies `cs[a..b]` into a fresh string.
fn substring_chars(cs: &Vec<char>, a: usize, b: usize) -> (r: String)
    requires
        a <= b <= cs@.len(),
    ensures
        r@ == cs@.subrange(a as int, b as int),
{
    let v = subvec_chars(cs, a, b);
    crate::ast::parser::utils::chars_to_string(&v)
}


} // verus!
