//! Lowering of the data-definition statements to the abstract SQL tree.

use vstd::prelude::*;
use vstd::string::StringExecFns;

use crate::lower::le_list_text;
use crate::lower::lower_exprs;
use crate::lower::exprs_lowerable;
use crate::lower::cat_view;
use crate::lower::Lowered;
use crate::sql;
use crate::sql::quote_doubled;

verus! {


/// The SQL data type a column type lowers to; the serial family becomes
/// the SERIAL family when the column is primary.
pub open spec fn dt_lower(t: crate::data_type::DataType, primary: bool) -> sql::DataType {
    match t {
        crate::data_type::DataType::Bool => sql::DataType::Boolean,
        crate::data_type::DataType::S8 => if primary {
            sql::DataType::SmallSerial
        } else {
            sql::DataType::SmallInt
        },
        crate::data_type::DataType::S16 => if primary {
            sql::DataType::SmallSerial
        } else {
            sql::DataType::SmallInt
        },
        crate::data_type::DataType::S32 => if primary {
            sql::DataType::Serial
        } else {
            sql::DataType::Int
        },
        crate::data_type::DataType::S64 => if primary {
            sql::DataType::BigSerial
        } else {
            sql::DataType::BigInt
        },
        crate::data_type::DataType::F32 => sql::DataType::Float,
        crate::data_type::DataType::F64 => sql::DataType::Float,
        crate::data_type::DataType::U8 => sql::DataType::SmallInt,
        crate::data_type::DataType::U16 => sql::DataType::SmallInt,
        crate::data_type::DataType::U32 => sql::DataType::Int,
        crate::data_type::DataType::U64 => sql::DataType::BigInt,
        crate::data_type::DataType::I8 => sql::DataType::SmallInt,
        crate::data_type::DataType::I16 => sql::DataType::SmallInt,
        crate::data_type::DataType::I32 => sql::DataType::Int,
        crate::data_type::DataType::I64 => sql::DataType::BigInt,
        crate::data_type::DataType::Uuid => sql::DataType::Uuid,
        crate::data_type::DataType::UuidRand => sql::DataType::Uuid,
        crate::data_type::DataType::UuidSlug => sql::DataType::Text,
        crate::data_type::DataType::Local => sql::DataType::Timestamp,
        crate::data_type::DataType::Utc => sql::DataType::Timestamp,
        _ => sql::DataType::Text,
    }
}

/// Lowers a column data type.
fn dt_lower_exec(t: &crate::data_type::DataType, primary: bool) -> (r: sql::DataType)
    ensures
        r == dt_lower(*t, primary),
{
    match t {
        crate::data_type::DataType::Bool => sql::DataType::Boolean,
        crate::data_type::DataType::S8 | crate::data_type::DataType::S16 => if primary {
            sql::DataType::SmallSerial
        } else {
            sql::DataType::SmallInt
        },
        crate::data_type::DataType::S32 => if primary {
            sql::DataType::Serial
        } else {
            sql::DataType::Int
        },
        crate::data_type::DataType::S64 => if primary {
            sql::DataType::BigSerial
        } else {
            sql::DataType::BigInt
        },
        crate::data_type::DataType::F32 | crate::data_type::DataType::F64 => sql::DataType::Float,
        crate::data_type::DataType::U8 | crate::data_type::DataType::U16
            | crate::data_type::DataType::I8 | crate::data_type::DataType::I16
            => sql::DataType::SmallInt,
        crate::data_type::DataType::U32 | crate::data_type::DataType::I32 => sql::DataType::Int,
        crate::data_type::DataType::U64 | crate::data_type::DataType::I64 => sql::DataType::BigInt,
        crate::data_type::DataType::Uuid | crate::data_type::DataType::UuidRand
            => sql::DataType::Uuid,
        crate::data_type::DataType::Local | crate::data_type::DataType::Utc
            => sql::DataType::Timestamp,
        _ => sql::DataType::Text,
    }
}

/// The SQL text a typed default value renders to: texts are quoted,
/// timestamps render in RFC-3339 inside quotes, bytes in Base64.
#[verifier::opaque]
pub open spec fn dv_sql_text(d: crate::data_value::DataValueV) -> Seq<char> {
    match d {
        crate::data_value::DataValueV::Nil => "NULL"@,
        crate::data_value::DataValueV::Bool(b) => if b {
            "true"@
        } else {
            "false"@
        },
        crate::data_value::DataValueV::S8(n) => crate::ast::parser::utils::dec_digits(n as nat),
        crate::data_value::DataValueV::S16(n) => crate::ast::parser::utils::dec_digits(n as nat),
        crate::data_value::DataValueV::S32(n) => crate::ast::parser::utils::dec_digits(n as nat),
        crate::data_value::DataValueV::S64(n) => crate::ast::parser::utils::dec_digits(n as nat),
        crate::data_value::DataValueV::F32(t) => t,
        crate::data_value::DataValueV::F64(t) => t,
        crate::data_value::DataValueV::U8(n) => crate::ast::parser::utils::dec_digits(n as nat),
        crate::data_value::DataValueV::U16(n) => crate::ast::parser::utils::dec_digits(n as nat),
        crate::data_value::DataValueV::U32(n) => crate::ast::parser::utils::dec_digits(n as nat),
        crate::data_value::DataValueV::U64(n) => crate::ast::parser::utils::dec_digits(n as nat),
        crate::data_value::DataValueV::I8(n) => crate::ast::parser::utils::dec_int_digits(
            n as int,
        ),
        crate::data_value::DataValueV::I16(n) => crate::ast::parser::utils::dec_int_digits(
            n as int,
        ),
        crate::data_value::DataValueV::I32(n) => crate::ast::parser::utils::dec_int_digits(
            n as int,
        ),
        crate::data_value::DataValueV::I64(n) => crate::ast::parser::utils::dec_int_digits(
            n as int,
        ),
        crate::data_value::DataValueV::Uuid(t) => "'"@ + quote_doubled(t) + "'"@,
        crate::data_value::DataValueV::UuidRand(t) => "'"@ + quote_doubled(t) + "'"@,
        crate::data_value::DataValueV::UuidSlug(t) => "'"@ + quote_doubled(t) + "'"@,
        crate::data_value::DataValueV::Local(ms) => "'"@ + quote_doubled(
            crate::data_value::rfc3339_text(ms),
        ) + "'"@,
        crate::data_value::DataValueV::Utc(ms) => "'"@ + quote_doubled(
            crate::data_value::rfc3339_text(ms),
        ) + "'"@,
        crate::data_value::DataValueV::Text(t) => "'"@ + quote_doubled(t) + "'"@,
        crate::data_value::DataValueV::Ident(t) => "'"@ + quote_doubled(t) + "'"@,
        crate::data_value::DataValueV::Url(t) => "'"@ + quote_doubled(t) + "'"@,
        crate::data_value::DataValueV::Bytes(b) => "'"@ + quote_doubled(
            crate::data_value::base64_text(b),
        ) + "'"@,
    }
}

/// Lowers a typed default value to a SQL value.
fn dv_to_sql_value(d: &crate::data_value::DataValue) -> (r: sql::Value)
    ensures
        sql::value_sql(&r) == dv_sql_text(d.deep_view()),
{
    proof {
        reveal(dv_sql_text);
    }
    match d {
        crate::data_value::DataValue::Nil => sql::Value::Null,
        crate::data_value::DataValue::Bool(b) => sql::Value::Boolean(*b),
        crate::data_value::DataValue::S8(n) => sql::Value::Number(
            crate::ast::parser::utils::u64_to_string(*n as u64),
        ),
        crate::data_value::DataValue::S16(n) => sql::Value::Number(
            crate::ast::parser::utils::u64_to_string(*n as u64),
        ),
        crate::data_value::DataValue::S32(n) => sql::Value::Number(
            crate::ast::parser::utils::u64_to_string(*n as u64),
        ),
        crate::data_value::DataValue::S64(n) => sql::Value::Number(
            crate::ast::parser::utils::u64_to_string(*n),
        ),
        crate::data_value::DataValue::F32(t) => sql::Value::Number(t.clone()),
        crate::data_value::DataValue::F64(t) => sql::Value::Number(t.clone()),
        crate::data_value::DataValue::U8(n) => sql::Value::Number(
            crate::ast::parser::utils::u64_to_string(*n as u64),
        ),
        crate::data_value::DataValue::U16(n) => sql::Value::Number(
            crate::ast::parser::utils::u64_to_string(*n as u64),
        ),
        crate::data_value::DataValue::U32(n) => sql::Value::Number(
            crate::ast::parser::utils::u64_to_string(*n as u64),
        ),
        crate::data_value::DataValue::U64(n) => sql::Value::Number(
            crate::ast::parser::utils::u64_to_string(*n),
        ),
        crate::data_value::DataValue::I8(n) => sql::Value::Number(
            crate::ast::parser::utils::i64_to_string(*n as i64),
        ),
        crate::data_value::DataValue::I16(n) => sql::Value::Number(
            crate::ast::parser::utils::i64_to_string(*n as i64),
        ),
        crate::data_value::DataValue::I32(n) => sql::Value::Number(
            crate::ast::parser::utils::i64_to_string(*n as i64),
        ),
        crate::data_value::DataValue::I64(n) => sql::Value::Number(
            crate::ast::parser::utils::i64_to_string(*n),
        ),
        crate::data_value::DataValue::Uuid(t) => sql::Value::SingleQuotedString(t.clone()),
        crate::data_value::DataValue::UuidRand(t) => sql::Value::SingleQuotedString(t.clone()),
        crate::data_value::DataValue::UuidSlug(t) => sql::Value::SingleQuotedString(t.clone()),
        crate::data_value::DataValue::Local(ms) => sql::Value::SingleQuotedString(
            crate::data_value::format_timestamp(*ms),
        ),
        crate::data_value::DataValue::Utc(ms) => sql::Value::SingleQuotedString(
            crate::data_value::format_timestamp(*ms),
        ),
        crate::data_value::DataValue::Text(t) => sql::Value::SingleQuotedString(t.clone()),
        crate::data_value::DataValue::Ident(t) => sql::Value::SingleQuotedString(t.clone()),
        crate::data_value::DataValue::Url(t) => sql::Value::SingleQuotedString(t.clone()),
        crate::data_value::DataValue::Bytes(b) => sql::Value::SingleQuotedString(
            crate::data_value::base64_encode(b),
        ),
    }
}

/// The texts of the attribute-derived column options from `i` on: primary
/// and unique emit an option, an index emits none.
pub open spec fn attr_opts_text(attrs: Seq<crate::ast::ddl::ColumnAttribute>, i: int) -> Seq<char>
    decreases attrs.len() - i,
{
    if i < 0 || i >= attrs.len() {
        Seq::empty()
    } else {
        (match attrs[i] {
            crate::ast::ddl::ColumnAttribute::Primary => " "@ + "PRIMARY KEY"@,
            crate::ast::ddl::ColumnAttribute::Unique => " "@ + "UNIQUE"@,
            crate::ast::ddl::ColumnAttribute::Index => Seq::<char>::empty(),
        }) + attr_opts_text(attrs, i + 1)
    }
}

/// Whether the default of a column type is lowerable.
pub open spec fn default_lowerable(d: Option<crate::ast::ddl::DefaultValueV>) -> bool {
    match d {
        Some(crate::ast::ddl::DefaultValueV::Function(f)) => exprs_lowerable(f.params, 0),
        _ => true,
    }
}

/// The SQL text of a column default.
pub open spec fn default_text(d: crate::ast::ddl::DefaultValueV) -> Seq<char> {
    match d {
        crate::ast::ddl::DefaultValueV::DataValue(v) => dv_sql_text(v),
        crate::ast::ddl::DefaultValueV::Function(f) => f.name + "("@ + le_list_text(f.params, 0)
            + ")"@,
    }
}

/// Whether the foreign reference of this column, if it names no target
/// column and its target is in the catalog, points at a table with exactly
/// one primary key.
pub open spec fn col_fk_ok(
    c: crate::ast::ddl::ColumnDefV,
    cat: Option<Seq<crate::ast::ddl::TableDefV>>,
) -> bool {
    match c.foreign {
        Some(fv) => match fv.column {
            Some(_) => true,
            None => match cat {
                Some(cs) => match crate::ast::table::spec_find_table(cs, fv.table) {
                    Some(t) => crate::ast::ddl::spec_primary_columns(t.columns).len() == 1,
                    None => true,
                },
                None => true,
            },
        },
        None => true,
    }
}

/// Whether every foreign reference without an explicit target column whose
/// target is in the catalog points at a table with exactly one primary key.
pub open spec fn create_fk_ok(
    cols: Seq<crate::ast::ddl::ColumnDefV>,
    cat: Option<Seq<crate::ast::ddl::TableDefV>>,
) -> bool {
    forall|i: int| 0 <= i < cols.len() ==> col_fk_ok(#[trigger] cols[i], cat)
}

/// Why one column of a create cannot lower: an unlowerable default, a
/// foreign reference without a catalog, or a foreign table the catalog
/// does not hold.
pub enum LowerFail {
    Unconv,
    NoLookup,
    NotFound(Seq<char>),
}

/// The first failure of one column, checking the default before the
/// foreign reference, as the lowering does.
pub open spec fn col_fail(
    c: crate::ast::ddl::ColumnDefV,
    cat: Option<Seq<crate::ast::ddl::TableDefV>>,
) -> Option<LowerFail> {
    if !default_lowerable(c.data_type_def.default) {
        Some(LowerFail::Unconv)
    } else {
        match c.foreign {
            None => None,
            Some(fv) => match cat {
                None => Some(LowerFail::NoLookup),
                Some(cs) => match crate::ast::table::spec_find_table(cs, fv.table) {
                    None => Some(LowerFail::NotFound(fv.table)),
                    Some(_) => None,
                },
            },
        }
    }
}

/// The first failure among the columns from `i` on.
pub open spec fn cols_fail(
    cols: Seq<crate::ast::ddl::ColumnDefV>,
    cat: Option<Seq<crate::ast::ddl::TableDefV>>,
    i: int,
) -> Option<LowerFail>
    decreases cols.len() - i,
{
    if i < 0 || i >= cols.len() {
        None
    } else {
        match col_fail(cols[i], cat) {
            Some(f) => Some(f),
            None => cols_fail(cols, cat, i + 1),
        }
    }
}

/// The attribute-derived option text of a column.
pub open spec fn attrs_text(c: crate::ast::ddl::ColumnDefV) -> Seq<char> {
    match c.attributes {
        Some(a) => attr_opts_text(a, 0),
        None => Seq::empty(),
    }
}

/// The `NOT NULL` option text of a column: present unless optional.
pub open spec fn nn_text(c: crate::ast::ddl::ColumnDefV) -> Seq<char> {
    if c.data_type_def.is_optional {
        Seq::empty()
    } else {
        " "@ + ("NOT NULL"@)
    }
}

/// The `DEFAULT` option text of a column.
pub open spec fn defopt_text(c: crate::ast::ddl::ColumnDefV) -> Seq<char> {
    match c.data_type_def.default {
        Some(d) => " "@ + ("DEFAULT "@ + default_text(d)),
        None => Seq::empty(),
    }
}

/// The referred column of a foreign reference: the named column, or the
/// target's first primary key as the catalog resolves it.
pub open spec fn fk_refcol(
    fv: crate::ast::ddl::ForeignV,
    cat: Option<Seq<crate::ast::ddl::TableDefV>>,
) -> Seq<char> {
    match fv.column {
        Some(cn) => cn,
        None => match cat {
            Some(cs) => match crate::ast::table::spec_find_table(cs, fv.table) {
                Some(t) => crate::ast::ddl::spec_primary_columns(t.columns)[0].column,
                None => Seq::empty(),
            },
            None => Seq::empty(),
        },
    }
}

/// The `REFERENCES` option text of a column.
pub open spec fn fkopt_text(
    c: crate::ast::ddl::ColumnDefV,
    cat: Option<Seq<crate::ast::ddl::TableDefV>>,
) -> Seq<char> {
    match c.foreign {
        Some(fv) => " "@ + ("REFERENCES "@ + fv.table + " ("@ + fk_refcol(fv, cat) + ")"@),
        None => Seq::empty(),
    }
}

/// The full option text of a column, in emission order: attributes, then
/// `NOT NULL`, then the default, then the foreign reference.
pub open spec fn col_options_text(
    c: crate::ast::ddl::ColumnDefV,
    cat: Option<Seq<crate::ast::ddl::TableDefV>>,
) -> Seq<char> {
    attrs_text(c) + nn_text(c) + defopt_text(c) + fkopt_text(c, cat)
}

/// The SQL text of one lowered column definition.
pub open spec fn col_text(
    c: crate::ast::ddl::ColumnDefV,
    cat: Option<Seq<crate::ast::ddl::TableDefV>>,
) -> Seq<char> {
    c.column + " "@ + sql::data_type_sql(dt_lower(c.data_type_def.data_type, c.is_primary()))
        + col_options_text(c, cat)
}

/// The SQL texts of the lowered columns from `i` on.
pub open spec fn col_texts(
    cols: Seq<crate::ast::ddl::ColumnDefV>,
    cat: Option<Seq<crate::ast::ddl::TableDefV>>,
    i: int,
) -> Seq<char>
    decreases cols.len() - i,
{
    if i < 0 || i >= cols.len() {
        Seq::empty()
    } else if i == cols.len() - 1 {
        col_text(cols[i], cat)
    } else {
        col_text(cols[i], cat) + ", "@ + col_texts(cols, cat, i + 1)
    }
}

/// The SQL text of a lowered create statement.
pub open spec fn create_text(
    td: crate::ast::ddl::TableDefV,
    cat: Option<Seq<crate::ast::ddl::TableDefV>>,
) -> Seq<char> {
    "CREATE TABLE IF NOT EXISTS "@ + td.table + " ("@ + col_texts(td.columns, cat, 0) + ")"@
}

/// One option-list extension preserves its text.
proof fn lemma_options_snoc(os: Seq<sql::ColumnOption>, o: sql::ColumnOption, i: int)
    requires
        0 <= i <= os.len(),
    ensures
        sql::column_options_sql(os.push(o), i) == sql::column_options_sql(os, i) + " "@
            + sql::column_option_sql(&o),
    decreases os.len() - i,
{
    broadcast use crate::ast::parser::utils::lemma_seq_add_assoc;

    if i < os.len() {
        lemma_options_snoc(os, o, i + 1);
        assert(os.push(o)[i] == os[i]);
    } else {
        assert(os.push(o)[i] == o);
        assert(sql::column_options_sql(os.push(o), i + 1) =~= Seq::<char>::empty());
        assert(sql::column_options_sql(os, i) =~= Seq::<char>::empty());
    }
}



/// One attribute extension splits its option text.
proof fn lemma_attr_opts_snoc(attrs: Seq<crate::ast::ddl::ColumnAttribute>, i: int)
    requires
        0 <= i < attrs.len(),
    ensures
        attr_opts_text(attrs.take(i + 1), 0) == attr_opts_text(attrs.take(i), 0) + (
        match attrs[i] {
            crate::ast::ddl::ColumnAttribute::Primary => " "@ + "PRIMARY KEY"@,
            crate::ast::ddl::ColumnAttribute::Unique => " "@ + "UNIQUE"@,
            crate::ast::ddl::ColumnAttribute::Index => Seq::<char>::empty(),
        }),
{
    lemma_attr_opts_split(attrs.take(i + 1), attrs.take(i), i);
}

/// Attribute option text splits at the last element.
proof fn lemma_attr_opts_split(
    a: Seq<crate::ast::ddl::ColumnAttribute>,
    b: Seq<crate::ast::ddl::ColumnAttribute>,
    i: int,
)
    requires
        0 <= i,
        a.len() == i + 1,
        b.len() == i,
        forall|k: int| 0 <= k < i ==> a[k] == b[k],
    ensures
        attr_opts_text(a, 0) == attr_opts_text(b, 0) + (match a[i] {
            crate::ast::ddl::ColumnAttribute::Primary => " "@ + "PRIMARY KEY"@,
            crate::ast::ddl::ColumnAttribute::Unique => " "@ + "UNIQUE"@,
            crate::ast::ddl::ColumnAttribute::Index => Seq::<char>::empty(),
        }),
{
    lemma_attr_opts_split_from(a, b, i, 0);
}

/// Attribute option text splits at the last element, from `j` on.
proof fn lemma_attr_opts_split_from(
    a: Seq<crate::ast::ddl::ColumnAttribute>,
    b: Seq<crate::ast::ddl::ColumnAttribute>,
    i: int,
    j: int,
)
    requires
        0 <= j <= i,
        a.len() == i + 1,
        b.len() == i,
        forall|k: int| 0 <= k < i ==> a[k] == b[k],
    ensures
        attr_opts_text(a, j) == attr_opts_text(b, j) + (match a[i] {
            crate::ast::ddl::ColumnAttribute::Primary => " "@ + "PRIMARY KEY"@,
            crate::ast::ddl::ColumnAttribute::Unique => " "@ + "UNIQUE"@,
            crate::ast::ddl::ColumnAttribute::Index => Seq::<char>::empty(),
        }),
    decreases i - j,
{
    broadcast use crate::ast::parser::utils::lemma_seq_add_assoc;

    if j < i {
        lemma_attr_opts_split_from(a, b, i, j + 1);
    } else {
        assert(attr_opts_text(b, j) =~= Seq::<char>::empty());
        assert(attr_opts_text(a, j + 1) =~= Seq::<char>::empty());
    }
}




/// Lowers the attribute sigils to their column options.
fn lower_attr_options(attrs: &Vec<crate::ast::ddl::ColumnAttribute>) -> (r: Vec<sql::ColumnOption>)
    ensures
        sql::column_options_sql(r@, 0) == attr_opts_text(attrs@, 0),
{
    let mut options: Vec<sql::ColumnOption> = Vec::new();
    let mut i: usize = 0;
    while i < attrs.len()
        invariant
            i <= attrs@.len(),
            sql::column_options_sql(options@, 0) == attr_opts_text(attrs@.take(i as int), 0),
        decreases attrs@.len() - i,
    {
        proof {
            lemma_attr_opts_snoc(attrs@, i as int);
        }
        match attrs[i] {
            crate::ast::ddl::ColumnAttribute::Primary => {
                proof {
                    lemma_options_snoc(options@, sql::ColumnOption::Unique { is_primary: true }, 0);
                }
                options.push(sql::ColumnOption::Unique { is_primary: true });
            },
            crate::ast::ddl::ColumnAttribute::Unique => {
                proof {
                    lemma_options_snoc(
                        options@,
                        sql::ColumnOption::Unique { is_primary: false },
                        0,
                    );
                }
                options.push(sql::ColumnOption::Unique { is_primary: false });
            },
            crate::ast::ddl::ColumnAttribute::Index => {},
        }
        i += 1;
    }
    proof {
        assert(attrs@.take(attrs@.len() as int) =~= attrs@);
    }
    options
}



/// Lowers the default of a column type to its option, when one stands.
fn lower_default_option(d: &crate::ast::ddl::DefaultValue) -> (r: Result<
    sql::ColumnOption,
    crate::Error,
>)
    ensures
        match r {
            Ok(o) => default_lowerable(Some(d.deep_view())) && sql::column_option_sql(&o)
                == "DEFAULT "@ + default_text(d.deep_view()),
            Err(e) => !default_lowerable(Some(d.deep_view())) && (
            e matches crate::Error::GenericError(_)),
        },
{
    broadcast use crate::ast::parser::utils::lemma_seq_add_assoc;

    match d {
        crate::ast::ddl::DefaultValue::DataValue(v) => Ok(
            sql::ColumnOption::Default(sql::Expr::Value(dv_to_sql_value(v))),
        ),
        crate::ast::ddl::DefaultValue::Function(f) => {
            proof {
                crate::ast::expr::lemma_exprs_deep_vec(&f.params);
            }
            match lower_exprs(&f.params, 0) {
                Ok(args) => {
                    let o = sql::ColumnOption::Default(
                        sql::Expr::Function(sql::Function { name: f.name.clone(), args }),
                    );
                    proof {
                        assert(sql::column_option_sql(&o) =~= "DEFAULT "@ + default_text(
                            d.deep_view(),
                        ));
                    }
                    Ok(o)
                },
                Err(x) => Err(x),
            }
        },
    }
}



/// Lowers the foreign reference of a column to its option.
fn lower_foreign_option(
    fv: &crate::ast::ddl::Foreign,
    lookup: Option<&crate::ast::TableLookup>,
) -> (r: Result<sql::ColumnOption, crate::Error>)
    requires
        match fv.column {
            Some(_) => true,
            None => match cat_view(lookup) {
                Some(c) => match crate::ast::table::spec_find_table(c, fv.table.name@) {
                    Some(t) => crate::ast::ddl::spec_primary_columns(t.columns).len() == 1,
                    None => true,
                },
                None => true,
            },
        },
    ensures
        match r {
            Ok(o) => cat_view(lookup) is Some && crate::ast::table::spec_find_table(
                cat_view(lookup).unwrap(),
                fv.table.name@,
            ) is Some && sql::column_option_sql(&o) == "REFERENCES "@ + fv.table.name@ + " ("@
                + fk_refcol(fv.deep_view(), cat_view(lookup)) + ")"@,
            Err(e) => match cat_view(lookup) {
                None => e matches crate::Error::TableError(
                    crate::ast::TableError::NoSuppliedTableLookup,
                ),
                Some(c) => crate::ast::table::spec_find_table(c, fv.table.name@) is None && (
                e matches crate::Error::TableError(crate::ast::TableError::TableNotFound(m))
                    && m@ == fv.table.name@),
            },
        },
{
    broadcast use crate::ast::parser::utils::lemma_seq_add_assoc;

    let lk = match lookup {
        Some(l) => l,
        None => {
            return Err(
                crate::Error::TableError(crate::ast::TableError::NoSuppliedTableLookup),
            );
        },
    };
    let target = match lk.get_table_def(fv.table.name.as_str()) {
        Some(t) => t,
        None => {
            return Err(
                crate::Error::TableError(
                    crate::ast::TableError::TableNotFound(fv.table.name.clone()),
                ),
            );
        },
    };
    let refcol: String = match &fv.column {
        Some(cn) => cn.name.clone(),
        None => {
            let pks = target.get_primary_columns();
            pks[0].column.name.clone()
        },
    };
    let mut rc: Vec<String> = Vec::new();
    rc.push(refcol);
    let o = sql::ColumnOption::ForeignKey {
        foreign_table: fv.table.name.clone(),
        referred_columns: rc,
    };
    proof {
        assert(sql::names_sql(
            (match o {
                sql::ColumnOption::ForeignKey { referred_columns, .. } => referred_columns@,
                _ => Seq::<String>::empty(),
            }),
            0,
        ) =~= (match o {
            sql::ColumnOption::ForeignKey { referred_columns, .. } => referred_columns@[0]@,
            _ => Seq::<char>::empty(),
        }));
    }
    Ok(o)
}

/// Lowers one column definition of a create: the emitted column keeps the
/// name, lowers the data type with its primary pairing, and carries the
/// options in emission order; catalog and default failures surface exactly.
fn lower_column_def(
    c: &crate::ast::ddl::ColumnDef,
    lookup: Option<&crate::ast::TableLookup>,
) -> (r: Result<sql::ColumnDef, crate::Error>)
    requires
        col_fk_ok(c.deep_view(), cat_view(lookup)),
    ensures
        match r {
            Ok(x) => col_fail(c.deep_view(), cat_view(lookup)) is None && x.name@
                == c.deep_view().column && x.data_type == dt_lower(
                c.deep_view().data_type_def.data_type,
                c.deep_view().is_primary(),
            ) && sql::column_options_sql(x.options@, 0) == col_options_text(
                c.deep_view(),
                cat_view(lookup),
            ),
            Err(e) => match col_fail(c.deep_view(), cat_view(lookup)) {
                Some(LowerFail::Unconv) => e matches crate::Error::GenericError(_),
                Some(LowerFail::NoLookup) => e matches crate::Error::TableError(
                    crate::ast::TableError::NoSuppliedTableLookup,
                ),
                Some(LowerFail::NotFound(n)) => (e matches crate::Error::TableError(
                    crate::ast::TableError::TableNotFound(m),
                ) && m@ == n),
                None => false,
            },
        },
{
    let ghost cv = c.deep_view();
    let ghost cat = cat_view(lookup);
    let primary = c.is_primary();
    let data_type = dt_lower_exec(&c.data_type_def.data_type, primary);
    let mut options: Vec<sql::ColumnOption> = match &c.attributes {
        Some(attrs) => {
            let o = lower_attr_options(attrs);
            proof {
                assert(attrs.deep_view() =~= attrs@);
            }
            o
        },
        None => Vec::new(),
    };
    proof {
        if c.attributes is None {
            assert(sql::column_options_sql(options@, 0) =~= Seq::<char>::empty());
        }
        assert(sql::column_options_sql(options@, 0) == attrs_text(cv));
    }
    if !c.data_type_def.is_optional {
        proof {
            lemma_options_snoc(options@, sql::ColumnOption::NotNull, 0);
            crate::ast::parser::utils::lemma_seq_add_assoc(
                attrs_text(cv),
                " "@,
                "NOT NULL"@,
            );
        }
        options.push(sql::ColumnOption::NotNull);
    }
    proof {
        if cv.data_type_def.is_optional {
            assert(attrs_text(cv) + nn_text(cv) =~= attrs_text(cv));
        }
        assert(sql::column_options_sql(options@, 0) == attrs_text(cv) + nn_text(cv));
    }
    let ghost stage2 = attrs_text(cv) + nn_text(cv);
    match &c.data_type_def.default {
        Some(d) => {
            match lower_default_option(d) {
                Ok(o) => {
                    proof {
                        lemma_options_snoc(options@, o, 0);
                        crate::ast::parser::utils::lemma_seq_add_assoc(
                            stage2,
                            " "@,
                            sql::column_option_sql(&o),
                        );
                    }
                    options.push(o);
                },
                Err(x) => {
                    return Err(x);
                },
            }
        },
        None => {},
    }
    proof {
        if cv.data_type_def.default is None {
            assert(stage2 + defopt_text(cv) =~= stage2);
        }
        assert(sql::column_options_sql(options@, 0) == stage2 + defopt_text(cv));
    }
    let ghost stage3 = stage2 + defopt_text(cv);
    match &c.foreign {
        Some(fv) => {
            match lower_foreign_option(fv, lookup) {
                Ok(o) => {
                    proof {
                        lemma_options_snoc(options@, o, 0);
                        crate::ast::parser::utils::lemma_seq_add_assoc(
                            stage3,
                            " "@,
                            sql::column_option_sql(&o),
                        );
                    }
                    options.push(o);
                },
                Err(x) => {
                    return Err(x);
                },
            }
        },
        None => {},
    }
    proof {
        if cv.foreign is None {
            assert(stage3 + fkopt_text(cv, cat) =~= stage3);
        }
        assert(sql::column_options_sql(options@, 0) == col_options_text(cv, cat));
    }
    Ok(sql::ColumnDef { name: c.column.name.clone(), data_type, options })
}

/// Lowers the column definitions of a table definition, in order; the
/// first failing column's error surfaces.
fn lower_column_defs(
    cols: &Vec<crate::ast::ddl::ColumnDef>,
    lookup: Option<&crate::ast::TableLookup>,
) -> (r: Result<Vec<sql::ColumnDef>, crate::Error>)
    requires
        create_fk_ok(cols.deep_view(), cat_view(lookup)),
    ensures
        match cols_fail(cols.deep_view(), cat_view(lookup), 0) {
            None => r matches Ok(x) && x@.len() == cols@.len() && forall|i: int|
                0 <= i < x@.len() ==> sql::column_def_sql(&(#[trigger] x@[i])) == col_text(
                    cols.deep_view()[i],
                    cat_view(lookup),
                ),
            Some(LowerFail::Unconv) => r matches Err(crate::Error::GenericError(_)),
            Some(LowerFail::NoLookup) => r matches Err(
                crate::Error::TableError(crate::ast::TableError::NoSuppliedTableLookup),
            ),
            Some(LowerFail::NotFound(n)) => (r matches Err(
                crate::Error::TableError(crate::ast::TableError::TableNotFound(m)),
            ) && m@ == n),
        },
{
    let ghost cat = cat_view(lookup);
    let ghost colsv = cols.deep_view();
    let mut out: Vec<sql::ColumnDef> = Vec::new();
    let mut i: usize = 0;
    while i < cols.len()
        invariant
            create_fk_ok(colsv, cat),
            cat == cat_view(lookup),
            colsv == cols.deep_view(),
            i <= cols@.len(),
            colsv.len() == cols@.len(),
            out@.len() == i,
            cols_fail(colsv, cat, 0) == cols_fail(colsv, cat, i as int),
            forall|j: int|
                0 <= j < i ==> sql::column_def_sql(&(#[trigger] out@[j])) == col_text(
                    colsv[j],
                    cat,
                ),
        decreases cols@.len() - i,
    {
        proof {
            assert(col_fk_ok(colsv[i as int], cat));
        }
        match lower_column_def(&cols[i], lookup) {
            Ok(x) => {
                proof {
                    assert(sql::column_def_sql(&x) =~= col_text(colsv[i as int], cat));
                }
                out.push(x);
            },
            Err(x) => {
                return Err(x);
            },
        }
        i += 1;
    }
    Ok(out)
}

/// Element-wise equal column texts give an equal joined text.
proof fn lemma_col_defs_join(
    items: Seq<sql::ColumnDef>,
    cols: Seq<crate::ast::ddl::ColumnDefV>,
    cat: Option<Seq<crate::ast::ddl::TableDefV>>,
    i: int,
)
    requires
        items.len() == cols.len(),
        forall|j: int|
            0 <= j < items.len() ==> sql::column_def_sql(&(#[trigger] items[j])) == col_text(
                cols[j],
                cat,
            ),
    ensures
        sql::column_defs_sql(items, i) == col_texts(cols, cat, i),
    decreases items.len() - i,
{
    if 0 <= i < items.len() {
        lemma_col_defs_join(items, cols, cat, i + 1);
    }
}

impl crate::ast::TableDef {
    /// Lowers this table definition to a SQL CREATE TABLE statement whose
    /// text is the create text of the definition against the catalog:
    /// `CREATE TABLE IF NOT EXISTS t (...)` with one column per declared
    /// column, each carrying its lowered data type and its options in
    /// emission order.  It succeeds exactly when every default is lowerable
    /// and every foreign table resolves; the first failure's error kind
    /// surfaces.
    pub fn into_sql_statement(&self, table_lookup: Option<&crate::ast::TableLookup>) -> (r: Result<
        sql::Statement,
        crate::Error,
    >)
        requires
            create_fk_ok(self.deep_view().columns, cat_view(table_lookup)),
        ensures
            match cols_fail(self.deep_view().columns, cat_view(table_lookup), 0) {
                None => r matches Ok(x) && sql::statement_sql(&x) == create_text(
                    self.deep_view(),
                    cat_view(table_lookup),
                ),
                Some(LowerFail::Unconv) => r matches Err(crate::Error::GenericError(_)),
                Some(LowerFail::NoLookup) => r matches Err(
                    crate::Error::TableError(crate::ast::TableError::NoSuppliedTableLookup),
                ),
                Some(LowerFail::NotFound(n)) => (r matches Err(
                    crate::Error::TableError(crate::ast::TableError::TableNotFound(m)),
                ) && m@ == n),
            },
    {
        broadcast use crate::ast::parser::utils::lemma_seq_add_assoc;

        match lower_column_defs(&self.columns, table_lookup) {
            Ok(columns) => {
                proof {
                    lemma_col_defs_join(
                        columns@,
                        self.deep_view().columns,
                        cat_view(table_lookup),
                        0,
                    );
                }
                let out = sql::Statement::CreateTable { name: self.table.name.clone(), columns };
                Ok(out)
            },
            Err(x) => Err(x),
        }
    }
}

/// Why one alter operation cannot lower: a column failure of an added
/// column, or an in-place column alteration, which has no lowering.
pub enum AlterFail {
    Unconv,
    NoLookup,
    NotFound(Seq<char>),
    NotImpl,
}

/// The first failure of one alter operation.
pub open spec fn alter_op_fail(
    op: crate::ast::ddl::AlterOperationV,
    cat: Option<Seq<crate::ast::ddl::TableDefV>>,
) -> Option<AlterFail> {
    match op {
        crate::ast::ddl::AlterOperationV::DropColumn(_) => None,
        crate::ast::ddl::AlterOperationV::AddColumn(c) => match col_fail(c, cat) {
            Some(LowerFail::Unconv) => Some(AlterFail::Unconv),
            Some(LowerFail::NoLookup) => Some(AlterFail::NoLookup),
            Some(LowerFail::NotFound(n)) => Some(AlterFail::NotFound(n)),
            None => None,
        },
        crate::ast::ddl::AlterOperationV::AlterColumn(_, _) => Some(AlterFail::NotImpl),
    }
}

/// The first failure among the alter operations from `i` on.
pub open spec fn alter_fail(
    ops: Seq<crate::ast::ddl::AlterOperationV>,
    cat: Option<Seq<crate::ast::ddl::TableDefV>>,
    i: int,
) -> Option<AlterFail>
    decreases ops.len() - i,
{
    if i < 0 || i >= ops.len() {
        None
    } else {
        match alter_op_fail(ops[i], cat) {
            Some(f) => Some(f),
            None => alter_fail(ops, cat, i + 1),
        }
    }
}

/// The SQL text of one lowered alter operation against its table.
pub open spec fn alter_stmt_text(
    table: Seq<char>,
    op: crate::ast::ddl::AlterOperationV,
    cat: Option<Seq<crate::ast::ddl::TableDefV>>,
) -> Seq<char> {
    "ALTER TABLE "@ + table + " "@ + (match op {
        crate::ast::ddl::AlterOperationV::DropColumn(c) => "DROP COLUMN IF EXISTS "@ + c
            + " CASCADE"@,
        crate::ast::ddl::AlterOperationV::AddColumn(c) => "ADD COLUMN "@ + col_text(c, cat),
        crate::ast::ddl::AlterOperationV::AlterColumn(_, _) => Seq::<char>::empty(),
    })
}

/// Whether one alter operation's foreign reference meets the catalog.
pub open spec fn alter_op_fk_ok(
    op: crate::ast::ddl::AlterOperationV,
    cat: Option<Seq<crate::ast::ddl::TableDefV>>,
) -> bool {
    match op {
        crate::ast::ddl::AlterOperationV::AddColumn(c) => col_fk_ok(c, cat),
        _ => true,
    }
}

/// Whether every alter operation's foreign reference meets the catalog.
pub open spec fn alter_fk_ok(
    ops: Seq<crate::ast::ddl::AlterOperationV>,
    cat: Option<Seq<crate::ast::ddl::TableDefV>>,
) -> bool {
    forall|i: int| 0 <= i < ops.len() ==> alter_op_fk_ok(#[trigger] ops[i], cat)
}

impl crate::ast::AlterTable {
    /// Lowers this alteration to one SQL statement per operation, in order:
    /// a drop column emits `ALTER TABLE t DROP COLUMN IF EXISTS c CASCADE`,
    /// an added column `ALTER TABLE t ADD COLUMN ...` with its full column
    /// text.  It succeeds exactly when no operation fails; an in-place
    /// column alteration reports `NotImplemented`, and the first failing
    /// operation's error kind surfaces.
    pub fn into_sql_statements(&self, table_lookup: Option<&crate::ast::TableLookup>) -> (r:
        Result<Vec<sql::Statement>, crate::Error>)
        requires
            alter_fk_ok(self.deep_view().alter_operations, cat_view(table_lookup)),
        ensures
            match alter_fail(self.deep_view().alter_operations, cat_view(table_lookup), 0) {
                None => r matches Ok(x) && x@.len() == self.deep_view().alter_operations.len()
                    && forall|i: int|
                    0 <= i < x@.len() ==> sql::statement_sql(&(#[trigger] x@[i]))
                        == alter_stmt_text(
                        self.deep_view().table,
                        self.deep_view().alter_operations[i],
                        cat_view(table_lookup),
                    ),
                Some(AlterFail::Unconv) => r matches Err(crate::Error::GenericError(_)),
                Some(AlterFail::NoLookup) => r matches Err(
                    crate::Error::TableError(crate::ast::TableError::NoSuppliedTableLookup),
                ),
                Some(AlterFail::NotFound(n)) => (r matches Err(
                    crate::Error::TableError(crate::ast::TableError::TableNotFound(m)),
                ) && m@ == n),
                Some(AlterFail::NotImpl) => r matches Err(crate::Error::NotImplemented(_)),
            },
    {
        let ghost opsv = self.deep_view().alter_operations;
        let ghost cat = cat_view(table_lookup);
        let mut out: Vec<sql::Statement> = Vec::new();
        let mut i: usize = 0;
        while i < self.alter_operations.len()
            invariant
                alter_fk_ok(opsv, cat),
                opsv == self.deep_view().alter_operations,
                cat == cat_view(table_lookup),
                i <= self.alter_operations@.len(),
                opsv.len() == self.alter_operations@.len(),
                out@.len() == i,
                alter_fail(opsv, cat, 0) == alter_fail(opsv, cat, i as int),
                forall|j: int|
                    0 <= j < i ==> sql::statement_sql(&(#[trigger] out@[j])) == alter_stmt_text(
                        self.deep_view().table,
                        opsv[j],
                        cat,
                    ),
            decreases self.alter_operations@.len() - i,
        {
            proof {
                assert(alter_op_fk_ok(opsv[i as int], cat));
            }
            match &self.alter_operations[i] {
                crate::ast::ddl::AlterOperation::DropColumn(cname) => {
                    let st = sql::Statement::AlterTable {
                        name: self.table.name.clone(),
                        operation: sql::AlterTableOperation::DropColumn {
                            column: cname.name.clone(),
                        },
                    };
                    proof {
                        crate::ast::parser::utils::lemma_seq_add_assoc(
                            "ALTER TABLE "@ + self.deep_view().table,
                            "DROP COLUMN IF EXISTS "@ + cname.name@,
                            " CASCADE"@,
                        );
                        assert(sql::statement_sql(&st) =~= alter_stmt_text(
                            self.deep_view().table,
                            opsv[i as int],
                            cat,
                        ));
                    }
                    out.push(st);
                },
                crate::ast::ddl::AlterOperation::AddColumn(cd) => {
                    match lower_column_def(cd, table_lookup) {
                        Ok(x) => {
                            let st = sql::Statement::AlterTable {
                                name: self.table.name.clone(),
                                operation: sql::AlterTableOperation::AddColumn(x),
                            };
                            proof {
                                assert(sql::statement_sql(&st) =~= alter_stmt_text(
                                    self.deep_view().table,
                                    opsv[i as int],
                                    cat,
                                ));
                            }
                            out.push(st);
                        },
                        Err(x) => {
                            return Err(x);
                        },
                    }
                },
                crate::ast::ddl::AlterOperation::AlterColumn(_, _) => {
                    return Err(crate::Error::NotImplemented("alter column".to_owned()));
                },
            }
            i += 1;
        }
        Ok(out)
    }
}

} // verus!
