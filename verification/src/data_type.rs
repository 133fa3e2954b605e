//! The data-type tags a column declaration can carry.

use vstd::prelude::*;

use crate::ast::parser::utils::str_eq;

verus! {

/// A column data type.  The serial family `S8..S64` holds unsigned integers
/// that lower to the SQL SERIAL family when the column is also primary.
/// `Email`, `Domain`, `IpAddr`, `Url` and `Ident` are stored as text.
#[derive(Debug, PartialEq, Eq, Structural, Clone, Copy)]
pub enum DataType {
    Bool,
    S8,
    S16,
    S32,
    S64,
    F32,
    F64,
    U8,
    U16,
    U32,
    U64,
    I8,
    I16,
    I32,
    I64,
    Uuid,
    UuidRand,
    UuidSlug,
    Local,
    Utc,
    Text,
    Ident,
    Email,
    Domain,
    IpAddr,
    Url,
    Bytes,
    Json,
}

impl DeepView for DataType {
    type V = DataType;

    open spec fn deep_view(&self) -> DataType {
        *self
    }
}

impl DataType {
    /// The surface tag of this data type, as written in a column declaration.
    pub open spec fn tag(self) -> Seq<char> {
        match self {
            DataType::Bool => "bool"@,
            DataType::S8 => "s8"@,
            DataType::S16 => "s16"@,
            DataType::S32 => "s32"@,
            DataType::S64 => "s64"@,
            DataType::F32 => "f32"@,
            DataType::F64 => "f64"@,
            DataType::U8 => "u8"@,
            DataType::U16 => "u16"@,
            DataType::U32 => "u32"@,
            DataType::U64 => "u64"@,
            DataType::I8 => "i8"@,
            DataType::I16 => "i16"@,
            DataType::I32 => "i32"@,
            DataType::I64 => "i64"@,
            DataType::Uuid => "uuid"@,
            DataType::UuidRand => "uuid_rand"@,
            DataType::UuidSlug => "uuid_slug"@,
            DataType::Local => "local"@,
            DataType::Utc => "utc"@,
            DataType::Text => "text"@,
            DataType::Ident => "ident"@,
            DataType::Email => "email"@,
            DataType::Domain => "domain"@,
            DataType::IpAddr => "ip_addr"@,
            DataType::Url => "url"@,
            DataType::Bytes => "bytes"@,
            DataType::Json => "json"@,
        }
    }

    /// The data type whose tag is `s`, if any: the inverse of `tag`.
    pub open spec fn spec_of_tag(s: Seq<char>) -> Option<DataType> {
        if s == DataType::Bool.tag() {
            Some(DataType::Bool)
        } else if s == DataType::S8.tag() {
            Some(DataType::S8)
        } else if s == DataType::S16.tag() {
            Some(DataType::S16)
        } else if s == DataType::S32.tag() {
            Some(DataType::S32)
        } else if s == DataType::S64.tag() {
            Some(DataType::S64)
        } else if s == DataType::F32.tag() {
            Some(DataType::F32)
        } else if s == DataType::F64.tag() {
            Some(DataType::F64)
        } else if s == DataType::U8.tag() {
            Some(DataType::U8)
        } else if s == DataType::U16.tag() {
            Some(DataType::U16)
        } else if s == DataType::U32.tag() {
            Some(DataType::U32)
        } else if s == DataType::U64.tag() {
            Some(DataType::U64)
        } else if s == DataType::I8.tag() {
            Some(DataType::I8)
        } else if s == DataType::I16.tag() {
            Some(DataType::I16)
        } else if s == DataType::I32.tag() {
            Some(DataType::I32)
        } else if s == DataType::I64.tag() {
            Some(DataType::I64)
        } else if s == DataType::Uuid.tag() {
            Some(DataType::Uuid)
        } else if s == DataType::UuidRand.tag() {
            Some(DataType::UuidRand)
        } else if s == DataType::UuidSlug.tag() {
            Some(DataType::UuidSlug)
        } else if s == DataType::Local.tag() {
            Some(DataType::Local)
        } else if s == DataType::Utc.tag() {
            Some(DataType::Utc)
        } else if s == DataType::Text.tag() {
            Some(DataType::Text)
        } else if s == DataType::Ident.tag() {
            Some(DataType::Ident)
        } else if s == DataType::Email.tag() {
            Some(DataType::Email)
        } else if s == DataType::Domain.tag() {
            Some(DataType::Domain)
        } else if s == DataType::IpAddr.tag() {
            Some(DataType::IpAddr)
        } else if s == DataType::Url.tag() {
            Some(DataType::Url)
        } else if s == DataType::Bytes.tag() {
            Some(DataType::Bytes)
        } else if s == DataType::Json.tag() {
            Some(DataType::Json)
        } else {
            None
        }
    }

    /// All the data types a declaration can spell directly.
    pub fn all() -> (r: Vec<DataType>)
        ensures
            r@ == all_data_types(),
    {
        let mut v: Vec<DataType> = Vec::new();
        v.push(DataType::Bool);
        v.push(DataType::S8);
        v.push(DataType::S16);
        v.push(DataType::S32);
        v.push(DataType::S64);
        v.push(DataType::F32);
        v.push(DataType::F64);
        v.push(DataType::U8);
        v.push(DataType::U16);
        v.push(DataType::U32);
        v.push(DataType::U64);
        v.push(DataType::I8);
        v.push(DataType::I16);
        v.push(DataType::I32);
        v.push(DataType::I64);
        v.push(DataType::Uuid);
        v.push(DataType::UuidRand);
        v.push(DataType::UuidSlug);
        v.push(DataType::Local);
        v.push(DataType::Utc);
        v.push(DataType::Text);
        v.push(DataType::Ident);
        v.push(DataType::Email);
        v.push(DataType::Domain);
        v.push(DataType::IpAddr);
        v.push(DataType::Url);
        proof {
            assert(v@ =~= all_data_types());
        }
        v
    }

    /// Resolves a tag to its data type; unknown tags are reported verbatim.
    pub fn match_data_type(dt: &str) -> (r: Result<DataType, crate::Error>)
        ensures
            match r {
                Ok(t) => Self::spec_of_tag(dt@) == Some(t),
                Err(e) => Self::spec_of_tag(dt@) is None && (e matches crate::Error::InvalidDataType(t) && t@ == dt@),
            },
    {
        let r = if str_eq(dt, "bool") {
            Ok(DataType::Bool)
        } else if str_eq(dt, "s8") {
            Ok(DataType::S8)
        } else if str_eq(dt, "s16") {
            Ok(DataType::S16)
        } else if str_eq(dt, "s32") {
            Ok(DataType::S32)
        } else if str_eq(dt, "s64") {
            Ok(DataType::S64)
        } else if str_eq(dt, "f32") {
            Ok(DataType::F32)
        } else if str_eq(dt, "f64") {
            Ok(DataType::F64)
        } else if str_eq(dt, "u8") {
            Ok(DataType::U8)
        } else if str_eq(dt, "u16") {
            Ok(DataType::U16)
        } else if str_eq(dt, "u32") {
            Ok(DataType::U32)
        } else if str_eq(dt, "u64") {
            Ok(DataType::U64)
        } else if str_eq(dt, "i8") {
            Ok(DataType::I8)
        } else if str_eq(dt, "i16") {
            Ok(DataType::I16)
        } else if str_eq(dt, "i32") {
            Ok(DataType::I32)
        } else if str_eq(dt, "i64") {
            Ok(DataType::I64)
        } else if str_eq(dt, "uuid") {
            Ok(DataType::Uuid)
        } else if str_eq(dt, "uuid_rand") {
            Ok(DataType::UuidRand)
        } else if str_eq(dt, "uuid_slug") {
            Ok(DataType::UuidSlug)
        } else if str_eq(dt, "local") {
            Ok(DataType::Local)
        } else if str_eq(dt, "utc") {
            Ok(DataType::Utc)
        } else if str_eq(dt, "text") {
            Ok(DataType::Text)
        } else if str_eq(dt, "ident") {
            Ok(DataType::Ident)
        } else if str_eq(dt, "email") {
            Ok(DataType::Email)
        } else if str_eq(dt, "domain") {
            Ok(DataType::Domain)
        } else if str_eq(dt, "ip_addr") {
            Ok(DataType::IpAddr)
        } else if str_eq(dt, "url") {
            Ok(DataType::Url)
        } else if str_eq(dt, "bytes") {
            Ok(DataType::Bytes)
        } else if str_eq(dt, "json") {
            Ok(DataType::Json)
        } else {
            Err(crate::Error::InvalidDataType(dt.to_owned()))
        };
        r
    }

    /// Renders the surface tag of this data type.
    pub fn display(&self) -> (r: &'static str)
        ensures
            r@ == self.tag(),
    {
        match self {
            DataType::Bool => "bool",
            DataType::S8 => "s8",
            DataType::S16 => "s16",
            DataType::S32 => "s32",
            DataType::S64 => "s64",
            DataType::F32 => "f32",
            DataType::F64 => "f64",
            DataType::U8 => "u8",
            DataType::U16 => "u16",
            DataType::U32 => "u32",
            DataType::U64 => "u64",
            DataType::I8 => "i8",
            DataType::I16 => "i16",
            DataType::I32 => "i32",
            DataType::I64 => "i64",
            DataType::Uuid => "uuid",
            DataType::UuidRand => "uuid_rand",
            DataType::UuidSlug => "uuid_slug",
            DataType::Local => "local",
            DataType::Utc => "utc",
            DataType::Text => "text",
            DataType::Ident => "ident",
            DataType::Email => "email",
            DataType::Domain => "domain",
            DataType::IpAddr => "ip_addr",
            DataType::Url => "url",
            DataType::Bytes => "bytes",
            DataType::Json => "json",
        }
    }
}

/// The data types `DataType::all` hands out, in order.
pub open spec fn all_data_types() -> Seq<DataType> {
    seq![
        DataType::Bool,
        DataType::S8,
        DataType::S16,
        DataType::S32,
        DataType::S64,
        DataType::F32,
        DataType::F64,
        DataType::U8,
        DataType::U16,
        DataType::U32,
        DataType::U64,
        DataType::I8,
        DataType::I16,
        DataType::I32,
        DataType::I64,
        DataType::Uuid,
        DataType::UuidRand,
        DataType::UuidSlug,
        DataType::Local,
        DataType::Utc,
        DataType::Text,
        DataType::Ident,
        DataType::Email,
        DataType::Domain,
        DataType::IpAddr,
        DataType::Url,
    ]
}

/// Every data-type tag resolves back to the type it was rendered from:
/// `spec_of_tag` inverts `tag` on every `DataType`.
pub proof fn lemma_data_type_tag_round_trip(t: DataType)
    ensures
        DataType::spec_of_tag(t.tag()) == Some(t),
{
    broadcast use vstd::string::group_string_axioms;

    reveal_strlit("bool");
    reveal_strlit("s8");
    reveal_strlit("s16");
    reveal_strlit("s32");
    reveal_strlit("s64");
    reveal_strlit("f32");
    reveal_strlit("f64");
    reveal_strlit("u8");
    reveal_strlit("u16");
    reveal_strlit("u32");
    reveal_strlit("u64");
    reveal_strlit("i8");
    reveal_strlit("i16");
    reveal_strlit("i32");
    reveal_strlit("i64");
    reveal_strlit("uuid");
    reveal_strlit("uuid_rand");
    reveal_strlit("uuid_slug");
    reveal_strlit("local");
    reveal_strlit("utc");
    reveal_strlit("text");
    reveal_strlit("ident");
    reveal_strlit("email");
    reveal_strlit("domain");
    reveal_strlit("ip_addr");
    reveal_strlit("url");
    reveal_strlit("bytes");
    reveal_strlit("json");
    assert(("bool"@).len() == 4);
    assert(("s8"@).len() == 2);
    assert(("s16"@).len() == 3);
    assert(("s32"@).len() == 3);
    assert(("s64"@).len() == 3);
    assert(("f32"@).len() == 3);
    assert(("f64"@).len() == 3);
    assert(("u8"@).len() == 2);
    assert(("u16"@).len() == 3);
    assert(("u32"@).len() == 3);
    assert(("u64"@).len() == 3);
    assert(("i8"@).len() == 2);
    assert(("i16"@).len() == 3);
    assert(("i32"@).len() == 3);
    assert(("i64"@).len() == 3);
    assert(("uuid"@).len() == 4);
    assert(("uuid_rand"@).len() == 9);
    assert(("uuid_slug"@).len() == 9);
    assert(("local"@).len() == 5);
    assert(("utc"@).len() == 3);
    assert(("text"@).len() == 4);
    assert(("ident"@).len() == 5);
    assert(("email"@).len() == 5);
    assert(("domain"@).len() == 6);
    assert(("ip_addr"@).len() == 7);
    assert(("url"@).len() == 3);
    assert(("bytes"@).len() == 5);
    assert(("json"@).len() == 4);
    assert(("bool"@)[0] != ("uuid"@)[0]);
    assert(("bool"@)[0] != ("text"@)[0]);
    assert(("bool"@)[0] != ("json"@)[0]);
    assert(("s8"@)[0] != ("u8"@)[0]);
    assert(("s8"@)[0] != ("i8"@)[0]);
    assert(("s16"@)[1] != ("s32"@)[1]);
    assert(("s16"@)[1] != ("s64"@)[1]);
    assert(("s16"@)[0] != ("f32"@)[0]);
    assert(("s16"@)[0] != ("f64"@)[0]);
    assert(("s16"@)[0] != ("u16"@)[0]);
    assert(("s16"@)[0] != ("u32"@)[0]);
    assert(("s16"@)[0] != ("u64"@)[0]);
    assert(("s16"@)[0] != ("i16"@)[0]);
    assert(("s16"@)[0] != ("i32"@)[0]);
    assert(("s16"@)[0] != ("i64"@)[0]);
    assert(("s16"@)[0] != ("utc"@)[0]);
    assert(("s16"@)[0] != ("url"@)[0]);
    assert(("s32"@)[1] != ("s64"@)[1]);
    assert(("s32"@)[0] != ("f32"@)[0]);
    assert(("s32"@)[0] != ("f64"@)[0]);
    assert(("s32"@)[0] != ("u16"@)[0]);
    assert(("s32"@)[0] != ("u32"@)[0]);
    assert(("s32"@)[0] != ("u64"@)[0]);
    assert(("s32"@)[0] != ("i16"@)[0]);
    assert(("s32"@)[0] != ("i32"@)[0]);
    assert(("s32"@)[0] != ("i64"@)[0]);
    assert(("s32"@)[0] != ("utc"@)[0]);
    assert(("s32"@)[0] != ("url"@)[0]);
    assert(("s64"@)[0] != ("f32"@)[0]);
    assert(("s64"@)[0] != ("f64"@)[0]);
    assert(("s64"@)[0] != ("u16"@)[0]);
    assert(("s64"@)[0] != ("u32"@)[0]);
    assert(("s64"@)[0] != ("u64"@)[0]);
    assert(("s64"@)[0] != ("i16"@)[0]);
    assert(("s64"@)[0] != ("i32"@)[0]);
    assert(("s64"@)[0] != ("i64"@)[0]);
    assert(("s64"@)[0] != ("utc"@)[0]);
    assert(("s64"@)[0] != ("url"@)[0]);
    assert(("f32"@)[1] != ("f64"@)[1]);
    assert(("f32"@)[0] != ("u16"@)[0]);
    assert(("f32"@)[0] != ("u32"@)[0]);
    assert(("f32"@)[0] != ("u64"@)[0]);
    assert(("f32"@)[0] != ("i16"@)[0]);
    assert(("f32"@)[0] != ("i32"@)[0]);
    assert(("f32"@)[0] != ("i64"@)[0]);
    assert(("f32"@)[0] != ("utc"@)[0]);
    assert(("f32"@)[0] != ("url"@)[0]);
    assert(("f64"@)[0] != ("u16"@)[0]);
    assert(("f64"@)[0] != ("u32"@)[0]);
    assert(("f64"@)[0] != ("u64"@)[0]);
    assert(("f64"@)[0] != ("i16"@)[0]);
    assert(("f64"@)[0] != ("i32"@)[0]);
    assert(("f64"@)[0] != ("i64"@)[0]);
    assert(("f64"@)[0] != ("utc"@)[0]);
    assert(("f64"@)[0] != ("url"@)[0]);
    assert(("u8"@)[0] != ("i8"@)[0]);
    assert(("u16"@)[1] != ("u32"@)[1]);
    assert(("u16"@)[1] != ("u64"@)[1]);
    assert(("u16"@)[0] != ("i16"@)[0]);
    assert(("u16"@)[0] != ("i32"@)[0]);
    assert(("u16"@)[0] != ("i64"@)[0]);
    assert(("u16"@)[1] != ("utc"@)[1]);
    assert(("u16"@)[1] != ("url"@)[1]);
    assert(("u32"@)[1] != ("u64"@)[1]);
    assert(("u32"@)[0] != ("i16"@)[0]);
    assert(("u32"@)[0] != ("i32"@)[0]);
    assert(("u32"@)[0] != ("i64"@)[0]);
    assert(("u32"@)[1] != ("utc"@)[1]);
    assert(("u32"@)[1] != ("url"@)[1]);
    assert(("u64"@)[0] != ("i16"@)[0]);
    assert(("u64"@)[0] != ("i32"@)[0]);
    assert(("u64"@)[0] != ("i64"@)[0]);
    assert(("u64"@)[1] != ("utc"@)[1]);
    assert(("u64"@)[1] != ("url"@)[1]);
    assert(("i16"@)[1] != ("i32"@)[1]);
    assert(("i16"@)[1] != ("i64"@)[1]);
    assert(("i16"@)[0] != ("utc"@)[0]);
    assert(("i16"@)[0] != ("url"@)[0]);
    assert(("i32"@)[1] != ("i64"@)[1]);
    assert(("i32"@)[0] != ("utc"@)[0]);
    assert(("i32"@)[0] != ("url"@)[0]);
    assert(("i64"@)[0] != ("utc"@)[0]);
    assert(("i64"@)[0] != ("url"@)[0]);
    assert(("uuid"@)[0] != ("text"@)[0]);
    assert(("uuid"@)[0] != ("json"@)[0]);
    assert(("uuid_rand"@)[5] != ("uuid_slug"@)[5]);
    assert(("local"@)[0] != ("ident"@)[0]);
    assert(("local"@)[0] != ("email"@)[0]);
    assert(("local"@)[0] != ("bytes"@)[0]);
    assert(("utc"@)[1] != ("url"@)[1]);
    assert(("text"@)[0] != ("json"@)[0]);
    assert(("ident"@)[0] != ("email"@)[0]);
    assert(("ident"@)[0] != ("bytes"@)[0]);
    assert(("email"@)[0] != ("bytes"@)[0]);
    match t {
        DataType::Bool => {
            assert(DataType::spec_of_tag(t.tag()) == Some(DataType::Bool));
        }
        DataType::S8 => {
            assert(DataType::spec_of_tag(t.tag()) == Some(DataType::S8));
        }
        DataType::S16 => {
            assert(DataType::spec_of_tag(t.tag()) == Some(DataType::S16));
        }
        DataType::S32 => {
            assert(DataType::spec_of_tag(t.tag()) == Some(DataType::S32));
        }
        DataType::S64 => {
            assert(DataType::spec_of_tag(t.tag()) == Some(DataType::S64));
        }
        DataType::F32 => {
            assert(DataType::spec_of_tag(t.tag()) == Some(DataType::F32));
        }
        DataType::F64 => {
            assert(DataType::spec_of_tag(t.tag()) == Some(DataType::F64));
        }
        DataType::U8 => {
            assert(DataType::spec_of_tag(t.tag()) == Some(DataType::U8));
        }
        DataType::U16 => {
            assert(DataType::spec_of_tag(t.tag()) == Some(DataType::U16));
        }
        DataType::U32 => {
            assert(DataType::spec_of_tag(t.tag()) == Some(DataType::U32));
        }
        DataType::U64 => {
            assert(DataType::spec_of_tag(t.tag()) == Some(DataType::U64));
        }
        DataType::I8 => {
            assert(DataType::spec_of_tag(t.tag()) == Some(DataType::I8));
        }
        DataType::I16 => {
            assert(DataType::spec_of_tag(t.tag()) == Some(DataType::I16));
        }
        DataType::I32 => {
            assert(DataType::spec_of_tag(t.tag()) == Some(DataType::I32));
        }
        DataType::I64 => {
            assert(DataType::spec_of_tag(t.tag()) == Some(DataType::I64));
        }
        DataType::Uuid => {
            assert(DataType::spec_of_tag(t.tag()) == Some(DataType::Uuid));
        }
        DataType::UuidRand => {
            assert(DataType::spec_of_tag(t.tag()) == Some(DataType::UuidRand));
        }
        DataType::UuidSlug => {
            assert(DataType::spec_of_tag(t.tag()) == Some(DataType::UuidSlug));
        }
        DataType::Local => {
            assert(DataType::spec_of_tag(t.tag()) == Some(DataType::Local));
        }
        DataType::Utc => {
            assert(DataType::spec_of_tag(t.tag()) == Some(DataType::Utc));
        }
        DataType::Text => {
            assert(DataType::spec_of_tag(t.tag()) == Some(DataType::Text));
        }
        DataType::Ident => {
            assert(DataType::spec_of_tag(t.tag()) == Some(DataType::Ident));
        }
        DataType::Email => {
            assert(DataType::spec_of_tag(t.tag()) == Some(DataType::Email));
        }
        DataType::Domain => {
            assert(DataType::spec_of_tag(t.tag()) == Some(DataType::Domain));
        }
        DataType::IpAddr => {
            assert(DataType::spec_of_tag(t.tag()) == Some(DataType::IpAddr));
        }
        DataType::Url => {
            assert(DataType::spec_of_tag(t.tag()) == Some(DataType::Url));
        }
        DataType::Bytes => {
            assert(DataType::spec_of_tag(t.tag()) == Some(DataType::Bytes));
        }
        DataType::Json => {
            assert(DataType::spec_of_tag(t.tag()) == Some(DataType::Json));
        }
    }
}


/// Parses a data-type tag from the start of the input.
pub fn data_type(input: &Vec<char>) -> (r: Result<DataType, crate::Error>)
    ensures
        crate::ast::parser::wrap_agrees(r, crate::ast::parser::sp_data_type(input@, 0)),
{
    match crate::ast::parser::data_type_at(input, 0) {
        Ok((v, _)) => Ok(v),
        Err(e) => Err(crate::ast::parser::perr_to_error(e, "data type")),
    }
}


} // verus!
