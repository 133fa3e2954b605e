//! The abstract SQL statement tree the lowering emits, and its rendering
//! to SQL text.

use vstd::prelude::*;
use vstd::string::StringExecFns;

use crate::ast::parser::utils::dec_int_digits;
use crate::ast::parser::utils::i64_to_string;
use crate::ast::parser::utils::u64_to_string;
use crate::ast::parser::utils::dec_digits;
use crate::ast::parser::utils::lemma_seq_add_assoc;

verus! {

/// A SQL scalar value.
#[derive(Debug, PartialEq)]
pub enum Value {
    Null,
    Number(String),
    SingleQuotedString(String),
    Boolean(bool),
    Default,
}

/// A SQL binary operator.
#[derive(Debug, PartialEq, Eq, Structural, Clone, Copy)]
pub enum BinaryOperator {
    Eq,
    NotEq,
    Lt,
    LtEq,
    Gt,
    GtEq,
    And,
    Or,
    Like,
    Ilike,
    Plus,
    Minus,
    Multiply,
    Divide,
    Modulus,
    In,
}

/// A SQL expression.
#[derive(Debug, PartialEq)]
pub enum Expr {
    Identifier(String),
    Value(Value),
    Function(Function),
    BinaryOp { left: Box<Expr>, op: BinaryOperator, right: Box<Expr> },
    Nested(Box<Expr>),
    ValueList(Vec<Expr>),
}

/// A SQL function call.
#[derive(Debug, PartialEq)]
pub struct Function {
    pub name: String,
    pub args: Vec<Expr>,
}

/// One projection item of a SQL select.
#[derive(Debug, PartialEq)]
pub enum SelectItem {
    UnnamedExpr(Expr),
    ExprWithAlias { expr: Expr, alias: String },
    Wildcard,
}

/// The operator of a SQL join.
#[derive(Debug, PartialEq, Eq, Structural, Clone, Copy)]
pub enum JoinOperator {
    Inner,
    LeftOuter,
    RightOuter,
    FullOuter,
}

/// A SQL join: the joined table, the operator, and the ON constraint.
#[derive(Debug, PartialEq)]
pub struct Join {
    pub relation: String,
    pub join_operator: JoinOperator,
    pub constraint: Expr,
}

/// A SQL select.
#[derive(Debug, PartialEq)]
pub struct Select {
    pub projection: Vec<SelectItem>,
    pub from: String,
    pub joins: Vec<Join>,
    pub selection: Option<Expr>,
    pub group_by: Vec<Expr>,
    pub having: Option<Expr>,
}

/// The body of a SQL query.
#[derive(Debug, PartialEq)]
pub enum SetExpr {
    Select(Box<Select>),
    Values(Vec<Vec<Value>>),
    ParameterizedValue(Vec<usize>),
}

/// One ORDER BY entry.
#[derive(Debug, PartialEq)]
pub struct OrderByExpr {
    pub expr: Expr,
    pub asc: Option<bool>,
}

/// A SQL query: a body with ordering, limit, and offset.
#[derive(Debug, PartialEq)]
pub struct Query {
    pub body: SetExpr,
    pub order_by: Vec<OrderByExpr>,
    pub limit: Option<i64>,
    pub offset: Option<i64>,
}

/// A SQL column data type.
#[derive(Debug, PartialEq, Eq, Structural, Clone, Copy)]
pub enum DataType {
    Boolean,
    SmallInt,
    Int,
    BigInt,
    Float,
    Uuid,
    Text,
    Timestamp,
    SmallSerial,
    Serial,
    BigSerial,
}

/// One option of a SQL column definition, in emission order.
#[derive(Debug, PartialEq)]
pub enum ColumnOption {
    Unique { is_primary: bool },
    NotNull,
    Default(Expr),
    ForeignKey { foreign_table: String, referred_columns: Vec<String> },
}

/// A SQL column definition.
#[derive(Debug, PartialEq)]
pub struct ColumnDef {
    pub name: String,
    pub data_type: DataType,
    pub options: Vec<ColumnOption>,
}

/// One SQL ALTER TABLE operation.
#[derive(Debug, PartialEq)]
pub enum AlterTableOperation {
    AddColumn(ColumnDef),
    DropColumn { column: String },
}

/// One SQL UPDATE assignment.
#[derive(Debug, PartialEq)]
pub struct Assignment {
    pub id: String,
    pub value: Expr,
}

/// A SQL statement.
#[derive(Debug, PartialEq)]
pub enum Statement {
    Query(Box<Query>),
    Insert { table_name: String, columns: Vec<String>, source: Box<Query> },
    Update { table_name: String, assignments: Vec<Assignment>, selection: Option<Expr> },
    Delete { table_name: String, selection: Option<Expr> },
    CreateTable { name: String, columns: Vec<ColumnDef> },
    AlterTable { name: String, operation: AlterTableOperation },
    Drop { names: Vec<String> },
}

/// The text of a string with every single quote doubled.
pub open spec fn quote_doubled(s: Seq<char>) -> Seq<char>
    decreases s.len(),
{
    if s.len() == 0 {
        Seq::empty()
    } else if s[0] == '\'' {
        seq!['\'', '\''] + quote_doubled(s.drop_first())
    } else {
        seq![s[0]] + quote_doubled(s.drop_first())
    }
}

/// The text of a SQL value.
pub open spec fn value_sql(v: &Value) -> Seq<char> {
    match v {
        Value::Null => "NULL"@,
        Value::Number(s) => s@,
        Value::SingleQuotedString(s) => "'"@ + quote_doubled(s@) + "'"@,
        Value::Boolean(b) => if *b {
            "true"@
        } else {
            "false"@
        },
        Value::Default => "DEFAULT"@,
    }
}

/// The token of a SQL binary operator.
pub open spec fn op_sql(op: BinaryOperator) -> Seq<char> {
    match op {
        BinaryOperator::Eq => "="@,
        BinaryOperator::NotEq => "<>"@,
        BinaryOperator::Lt => "<"@,
        BinaryOperator::LtEq => "<="@,
        BinaryOperator::Gt => ">"@,
        BinaryOperator::GtEq => ">="@,
        BinaryOperator::And => "AND"@,
        BinaryOperator::Or => "OR"@,
        BinaryOperator::Like => "LIKE"@,
        BinaryOperator::Ilike => "ILIKE"@,
        BinaryOperator::Plus => "+"@,
        BinaryOperator::Minus => "-"@,
        BinaryOperator::Multiply => "*"@,
        BinaryOperator::Divide => "/"@,
        BinaryOperator::Modulus => "%"@,
        BinaryOperator::In => "IN"@,
    }
}

/// The text of a SQL expression.
pub open spec fn expr_sql(e: &Expr) -> Seq<char>
    decreases e, 0int,
{
    match e {
        Expr::Identifier(s) => s@,
        Expr::Value(v) => value_sql(v),
        Expr::Function(f) => f.name@ + "("@ + exprs_sql(f.args@, 0) + ")"@,
        Expr::BinaryOp { left, op, right } => expr_sql(left) + " "@ + op_sql(*op) + " "@
            + expr_sql(right),
        Expr::Nested(inner) => "("@ + expr_sql(inner) + ")"@,
        Expr::ValueList(es) => "("@ + exprs_sql(es@, 0) + ")"@,
    }
}

/// The texts of the expressions from `i` on, comma-and-space separated.
pub open spec fn exprs_sql(es: Seq<Expr>, i: int) -> Seq<char>
    decreases es, es.len() - i,
{
    if i < 0 || i >= es.len() {
        Seq::empty()
    } else if i == es.len() - 1 {
        expr_sql(&es[i])
    } else {
        expr_sql(&es[i]) + ", "@ + exprs_sql(es, i + 1)
    }
}

/// The text of a projection item.
pub open spec fn select_item_sql(it: &SelectItem) -> Seq<char> {
    match it {
        SelectItem::UnnamedExpr(e) => expr_sql(e),
        SelectItem::ExprWithAlias { expr, alias } => expr_sql(expr) + " AS "@ + alias@,
        SelectItem::Wildcard => "*"@,
    }
}

/// The texts of the projection items from `i` on.
pub open spec fn select_items_sql(its: Seq<SelectItem>, i: int) -> Seq<char>
    decreases its.len() - i,
{
    if i < 0 || i >= its.len() {
        Seq::empty()
    } else if i == its.len() - 1 {
        select_item_sql(&its[i])
    } else {
        select_item_sql(&its[i]) + ", "@ + select_items_sql(its, i + 1)
    }
}

/// The keyword of a join operator.
pub open spec fn join_op_sql(op: JoinOperator) -> Seq<char> {
    match op {
        JoinOperator::Inner => "JOIN "@,
        JoinOperator::LeftOuter => "LEFT JOIN "@,
        JoinOperator::RightOuter => "RIGHT JOIN "@,
        JoinOperator::FullOuter => "FULL JOIN "@,
    }
}

/// The text of one join: the keyword, the table, and the ON constraint.
pub open spec fn join_sql(j: &Join) -> Seq<char> {
    " "@ + join_op_sql(j.join_operator) + j.relation@ + " ON "@ + expr_sql(&j.constraint)
}

/// The texts of the joins from `i` on.
pub open spec fn joins_sql(js: Seq<Join>, i: int) -> Seq<char>
    decreases js.len() - i,
{
    if i < 0 || i >= js.len() {
        Seq::empty()
    } else {
        join_sql(&js[i]) + joins_sql(js, i + 1)
    }
}

/// The text of a select: projection, FROM, joins, WHERE, GROUP BY, HAVING.
pub open spec fn select_sql(s: &Select) -> Seq<char> {
    "SELECT "@ + select_items_sql(s.projection@, 0) + " FROM "@ + s.from@ + joins_sql(
        s.joins@,
        0,
    ) + (match &s.selection {
        Some(e) => " WHERE "@ + expr_sql(e),
        None => Seq::<char>::empty(),
    }) + (if s.group_by@.len() > 0 {
        " GROUP BY "@ + exprs_sql(s.group_by@, 0)
    } else {
        Seq::<char>::empty()
    }) + (match &s.having {
        Some(e) => " HAVING "@ + expr_sql(e),
        None => Seq::<char>::empty(),
    })
}

/// The text of a row of values.
pub open spec fn values_row_sql(vs: Seq<Value>, i: int) -> Seq<char>
    decreases vs.len() - i,
{
    if i < 0 || i >= vs.len() {
        Seq::empty()
    } else if i == vs.len() - 1 {
        value_sql(&vs[i])
    } else {
        value_sql(&vs[i]) + ", "@ + values_row_sql(vs, i + 1)
    }
}

/// The texts of the value rows from `i` on, each in parentheses.
pub open spec fn values_rows_sql(rows: Seq<Vec<Value>>, i: int) -> Seq<char>
    decreases rows.len() - i,
{
    if i < 0 || i >= rows.len() {
        Seq::empty()
    } else if i == rows.len() - 1 {
        "("@ + values_row_sql(rows[i]@, 0) + ")"@
    } else {
        "("@ + values_row_sql(rows[i]@, 0) + ")"@ + ", "@ + values_rows_sql(rows, i + 1)
    }
}

/// The texts of the positional parameters from `i` on.
pub open spec fn params_sql(ps: Seq<usize>, i: int) -> Seq<char>
    decreases ps.len() - i,
{
    if i < 0 || i >= ps.len() {
        Seq::empty()
    } else if i == ps.len() - 1 {
        "$"@ + dec_digits(ps[i] as nat)
    } else {
        "$"@ + dec_digits(ps[i] as nat) + ", "@ + params_sql(ps, i + 1)
    }
}

/// The text of a query body.
pub open spec fn set_expr_sql(b: &SetExpr) -> Seq<char> {
    match b {
        SetExpr::Select(s) => select_sql(s),
        SetExpr::Values(rows) => "VALUES "@ + values_rows_sql(rows@, 0),
        SetExpr::ParameterizedValue(ps) => params_sql(ps@, 0),
    }
}

/// The text of one ORDER BY entry.
pub open spec fn order_by_sql(o: &OrderByExpr) -> Seq<char> {
    expr_sql(&o.expr) + (match o.asc {
        Some(true) => " ASC"@,
        Some(false) => " DESC"@,
        None => Seq::<char>::empty(),
    })
}

/// The texts of the ORDER BY entries from `i` on.
pub open spec fn order_bys_sql(os: Seq<OrderByExpr>, i: int) -> Seq<char>
    decreases os.len() - i,
{
    if i < 0 || i >= os.len() {
        Seq::empty()
    } else if i == os.len() - 1 {
        order_by_sql(&os[i])
    } else {
        order_by_sql(&os[i]) + ", "@ + order_bys_sql(os, i + 1)
    }
}

/// The text of a query.
pub open spec fn query_sql(q: &Query) -> Seq<char> {
    set_expr_sql(&q.body) + (if q.order_by@.len() > 0 {
        " ORDER BY "@ + order_bys_sql(q.order_by@, 0)
    } else {
        Seq::<char>::empty()
    }) + (match q.limit {
        Some(n) => " LIMIT "@ + dec_int_digits(n as int),
        None => Seq::<char>::empty(),
    }) + (match q.offset {
        Some(n) => " OFFSET "@ + dec_int_digits(n as int),
        None => Seq::<char>::empty(),
    })
}

/// The keyword of a SQL column data type.
pub open spec fn data_type_sql(t: DataType) -> Seq<char> {
    match t {
        DataType::Boolean => "boolean"@,
        DataType::SmallInt => "smallint"@,
        DataType::Int => "int"@,
        DataType::BigInt => "bigint"@,
        DataType::Float => "float"@,
        DataType::Uuid => "uuid"@,
        DataType::Text => "text"@,
        DataType::Timestamp => "timestamp"@,
        DataType::SmallSerial => "SMALLSERIAL"@,
        DataType::Serial => "SERIAL"@,
        DataType::BigSerial => "BIGSERIAL"@,
    }
}

/// The names from `i` on, comma-and-space separated.
pub open spec fn names_sql(ns: Seq<String>, i: int) -> Seq<char>
    decreases ns.len() - i,
{
    if i < 0 || i >= ns.len() {
        Seq::empty()
    } else if i == ns.len() - 1 {
        ns[i]@
    } else {
        ns[i]@ + ", "@ + names_sql(ns, i + 1)
    }
}

/// The text of one column option.
pub open spec fn column_option_sql(o: &ColumnOption) -> Seq<char> {
    match o {
        ColumnOption::Unique { is_primary } => if *is_primary {
            "PRIMARY KEY"@
        } else {
            "UNIQUE"@
        },
        ColumnOption::NotNull => "NOT NULL"@,
        ColumnOption::Default(e) => "DEFAULT "@ + expr_sql(e),
        ColumnOption::ForeignKey { foreign_table, referred_columns } => "REFERENCES "@
            + foreign_table@ + " ("@ + names_sql(referred_columns@, 0) + ")"@,
    }
}

/// The texts of the column options from `i` on, each preceded by a space.
pub open spec fn column_options_sql(os: Seq<ColumnOption>, i: int) -> Seq<char>
    decreases os.len() - i,
{
    if i < 0 || i >= os.len() {
        Seq::empty()
    } else {
        " "@ + column_option_sql(&os[i]) + column_options_sql(os, i + 1)
    }
}

/// The text of a SQL column definition.
pub open spec fn column_def_sql(c: &ColumnDef) -> Seq<char> {
    c.name@ + " "@ + data_type_sql(c.data_type) + column_options_sql(c.options@, 0)
}

/// The texts of the column definitions from `i` on.
pub open spec fn column_defs_sql(cs: Seq<ColumnDef>, i: int) -> Seq<char>
    decreases cs.len() - i,
{
    if i < 0 || i >= cs.len() {
        Seq::empty()
    } else if i == cs.len() - 1 {
        column_def_sql(&cs[i])
    } else {
        column_def_sql(&cs[i]) + ", "@ + column_defs_sql(cs, i + 1)
    }
}

/// The text of one UPDATE assignment.
pub open spec fn assignment_sql(a: &Assignment) -> Seq<char> {
    a.id@ + " = "@ + expr_sql(&a.value)
}

/// The texts of the UPDATE assignments from `i` on.
pub open spec fn assignments_sql(asg: Seq<Assignment>, i: int) -> Seq<char>
    decreases asg.len() - i,
{
    if i < 0 || i >= asg.len() {
        Seq::empty()
    } else if i == asg.len() - 1 {
        assignment_sql(&asg[i])
    } else {
        assignment_sql(&asg[i]) + ", "@ + assignments_sql(asg, i + 1)
    }
}

/// The text of a SQL statement.
pub open spec fn statement_sql(s: &Statement) -> Seq<char> {
    match s {
        Statement::Query(q) => query_sql(q),
        Statement::Insert { table_name, columns, source } => "INSERT INTO "@ + table_name@
            + " ("@ + names_sql(columns@, 0) + ") "@ + query_sql(source),
        Statement::Update { table_name, assignments, selection } => "UPDATE "@ + table_name@
            + " SET "@ + assignments_sql(assignments@, 0) + (match selection {
            Some(e) => " WHERE "@ + expr_sql(e),
            None => Seq::<char>::empty(),
        }),
        Statement::Delete { table_name, selection } => "DELETE FROM "@ + table_name@ + (
        match selection {
            Some(e) => " WHERE "@ + expr_sql(e),
            None => Seq::<char>::empty(),
        }),
        Statement::CreateTable { name, columns } => "CREATE TABLE IF NOT EXISTS "@ + name@
            + " ("@ + column_defs_sql(columns@, 0) + ")"@,
        Statement::AlterTable { name, operation } => "ALTER TABLE "@ + name@ + " "@ + (
        match operation {
            AlterTableOperation::AddColumn(c) => "ADD COLUMN "@ + column_def_sql(c),
            AlterTableOperation::DropColumn { column } => "DROP COLUMN IF EXISTS "@ + column@
                + " CASCADE"@,
        }),
        Statement::Drop { names } => "DROP TABLE IF EXISTS "@ + names_sql(names@, 0)
            + " CASCADE"@,
    }
}


/// The doubled text of the characters from `i` on.
pub open spec fn quote_doubled_from(s: Seq<char>, i: int) -> Seq<char>
    decreases s.len() - i,
{
    if i < 0 || i >= s.len() {
        Seq::empty()
    } else if s[i] == '\'' {
        seq!['\'', '\''] + quote_doubled_from(s, i + 1)
    } else {
        seq![s[i]] + quote_doubled_from(s, i + 1)
    }
}

/// Doubling from the front is doubling of the tail.
proof fn lemma_quote_doubled_from(s: Seq<char>, i: int)
    requires
        0 <= i <= s.len(),
    ensures
        quote_doubled_from(s, i) == quote_doubled(s.subrange(i, s.len() as int)),
    decreases s.len() - i,
{
    if i < s.len() {
        lemma_quote_doubled_from(s, i + 1);
        assert(s.subrange(i, s.len() as int).drop_first() =~= s.subrange(i + 1, s.len() as int));
        assert(s.subrange(i, s.len() as int)[0] == s[i]);
    } else {
        assert(s.subrange(i, s.len() as int) =~= Seq::<char>::empty());
    }
}

/// A vector holding one character.
fn vec_of_one(c: char) -> (r: Vec<char>)
    ensures
        r@ =~= seq![c],
{
    let mut v: Vec<char> = Vec::new();
    v.push(c);
    v
}

/// Appends the characters from `i` on with every single quote doubled.
fn append_quote_doubled_from(cs: &Vec<char>, i: usize, out: &mut String)
    requires
        i <= cs@.len(),
    ensures
        final(out)@ == old(out)@ + quote_doubled_from(cs@, i as int),
    decreases cs@.len() - i,
{
    broadcast use lemma_seq_add_assoc;

    if i < cs.len() {
        if cs[i] == '\'' {
            out.append("''");
            proof {
                reveal_strlit("''");
                assert("''"@ =~= seq!['\'', '\'']);
            }
        } else {
            let one = crate::ast::parser::utils::chars_to_string(&vec_of_one(cs[i]));
            out.append(one.as_str());
        }
        append_quote_doubled_from(cs, i + 1, out);
    }
    proof {
        assert(out@ =~= old(out)@ + quote_doubled_from(cs@, i as int));
    }
}

/// Appends the string with every single quote doubled.
fn append_quote_doubled(src: &String, out: &mut String)
    ensures
        final(out)@ == old(out)@ + quote_doubled(src@),
{
    let cs = crate::ast::parser::utils::to_chars(src.as_str());
    append_quote_doubled_from(&cs, 0, out);
    proof {
        lemma_quote_doubled_from(cs@, 0);
        assert(cs@.subrange(0, cs@.len() as int) =~= cs@);
    }
}

/// Appends the text of a SQL value to `out`.
pub fn write_value_sql(v: &Value, out: &mut String)
    ensures
        final(out)@ == old(out)@ + value_sql(v),
{
    broadcast use lemma_seq_add_assoc;

    match v {
        Value::Null => out.append("NULL"),
        Value::Number(s) => out.append(s.as_str()),
        Value::SingleQuotedString(s) => {
            out.append("'");
            append_quote_doubled(s, out);
            out.append("'");
        },
        Value::Boolean(b) => {
            if *b {
                out.append("true")
            } else {
                out.append("false")
            }
        },
        Value::Default => out.append("DEFAULT"),
    }
    proof {
        assert(out@ =~= old(out)@ + value_sql(v));
    }
}

/// Renders the token of a SQL operator.
pub fn op_display(op: &BinaryOperator) -> (r: &'static str)
    ensures
        r@ == op_sql(*op),
{
    match op {
        BinaryOperator::Eq => "=",
        BinaryOperator::NotEq => "<>",
        BinaryOperator::Lt => "<",
        BinaryOperator::LtEq => "<=",
        BinaryOperator::Gt => ">",
        BinaryOperator::GtEq => ">=",
        BinaryOperator::And => "AND",
        BinaryOperator::Or => "OR",
        BinaryOperator::Like => "LIKE",
        BinaryOperator::Ilike => "ILIKE",
        BinaryOperator::Plus => "+",
        BinaryOperator::Minus => "-",
        BinaryOperator::Multiply => "*",
        BinaryOperator::Divide => "/",
        BinaryOperator::Modulus => "%",
        BinaryOperator::In => "IN",
    }
}

/// Appends the text of a SQL expression to `out`.
pub fn write_expr_sql(e: &Expr, out: &mut String)
    ensures
        final(out)@ == old(out)@ + expr_sql(e),
    decreases e, 0int,
{
    broadcast use lemma_seq_add_assoc;
    broadcast use vstd::std_specs::vec::group_vec_axioms;

    match e {
        Expr::Identifier(s) => out.append(s.as_str()),
        Expr::Value(v) => write_value_sql(v, out),
        Expr::Function(f) => {
            out.append(f.name.as_str());
            out.append("(");
            write_exprs_sql(&f.args, 0, out);
            out.append(")");
        },
        Expr::BinaryOp { left, op, right } => {
            write_expr_sql(left, out);
            out.append(" ");
            out.append(op_display(op));
            out.append(" ");
            write_expr_sql(right, out);
        },
        Expr::Nested(inner) => {
            out.append("(");
            write_expr_sql(inner, out);
            out.append(")");
        },
        Expr::ValueList(es) => {
            out.append("(");
            write_exprs_sql(es, 0, out);
            out.append(")");
        },
    }
    proof {
        assert(out@ =~= old(out)@ + expr_sql(e));
    }
}

/// Appends the texts of the expressions from `i` on to `out`.
pub fn write_exprs_sql(es: &Vec<Expr>, i: usize, out: &mut String)
    requires
        i <= es@.len(),
    ensures
        final(out)@ == old(out)@ + exprs_sql(es@, i as int),
    decreases es, es@.len() - i,
{
    broadcast use lemma_seq_add_assoc;
    broadcast use vstd::std_specs::vec::group_vec_axioms;

    if i < es.len() {
        write_expr_sql(&es[i], out);
        if i + 1 < es.len() {
            out.append(", ");
            write_exprs_sql(es, i + 1, out);
        }
    }
    proof {
        assert(out@ =~= old(out)@ + exprs_sql(es@, i as int));
    }
}



/// Appends the text of a projection item to `out`.
pub fn write_select_item_sql(it: &SelectItem, out: &mut String)
    ensures
        final(out)@ == old(out)@ + select_item_sql(it),
{
    broadcast use lemma_seq_add_assoc;

    match it {
        SelectItem::UnnamedExpr(e) => write_expr_sql(e, out),
        SelectItem::ExprWithAlias { expr, alias } => {
            write_expr_sql(expr, out);
            out.append(" AS ");
            out.append(alias.as_str());
        },
        SelectItem::Wildcard => out.append("*"),
    }
    proof {
        assert(out@ =~= old(out)@ + select_item_sql(it));
    }
}

/// Appends the texts of the projection items from `i` on to `out`.
pub fn write_select_items_sql(its: &Vec<SelectItem>, i: usize, out: &mut String)
    requires
        i <= its@.len(),
    ensures
        final(out)@ == old(out)@ + select_items_sql(its@, i as int),
    decreases its@.len() - i,
{
    broadcast use lemma_seq_add_assoc;

    if i < its.len() {
        write_select_item_sql(&its[i], out);
        if i + 1 < its.len() {
            out.append(", ");
            write_select_items_sql(its, i + 1, out);
        }
    }
    proof {
        assert(out@ =~= old(out)@ + select_items_sql(its@, i as int));
    }
}

/// Renders the keyword of a join operator.
pub fn join_op_display(op: &JoinOperator) -> (r: &'static str)
    ensures
        r@ == join_op_sql(*op),
{
    match op {
        JoinOperator::Inner => "JOIN ",
        JoinOperator::LeftOuter => "LEFT JOIN ",
        JoinOperator::RightOuter => "RIGHT JOIN ",
        JoinOperator::FullOuter => "FULL JOIN ",
    }
}

/// Appends the texts of the joins from `i` on to `out`.
pub fn write_joins_sql(js: &Vec<Join>, i: usize, out: &mut String)
    requires
        i <= js@.len(),
    ensures
        final(out)@ == old(out)@ + joins_sql(js@, i as int),
    decreases js@.len() - i,
{
    broadcast use lemma_seq_add_assoc;

    if i < js.len() {
        out.append(" ");
        out.append(join_op_display(&js[i].join_operator));
        out.append(js[i].relation.as_str());
        out.append(" ON ");
        write_expr_sql(&js[i].constraint, out);
        write_joins_sql(js, i + 1, out);
    }
    proof {
        assert(out@ =~= old(out)@ + joins_sql(js@, i as int));
    }
}

/// Appends the text of a select to `out`.
pub fn write_select_sql(sel: &Select, out: &mut String)
    ensures
        final(out)@ == old(out)@ + select_sql(sel),
{
    broadcast use lemma_seq_add_assoc;

    out.append("SELECT ");
    write_select_items_sql(&sel.projection, 0, out);
    out.append(" FROM ");
    out.append(sel.from.as_str());
    write_joins_sql(&sel.joins, 0, out);
    match &sel.selection {
        Some(e) => {
            out.append(" WHERE ");
            write_expr_sql(e, out);
        },
        None => {},
    }
    if sel.group_by.len() > 0 {
        out.append(" GROUP BY ");
        write_exprs_sql(&sel.group_by, 0, out);
    }
    match &sel.having {
        Some(e) => {
            out.append(" HAVING ");
            write_expr_sql(e, out);
        },
        None => {},
    }
    proof {
        assert(out@ =~= old(out)@ + select_sql(sel));
    }
}

/// Appends the text of a row of values to `out`.
pub fn write_values_row_sql(vs: &Vec<Value>, i: usize, out: &mut String)
    requires
        i <= vs@.len(),
    ensures
        final(out)@ == old(out)@ + values_row_sql(vs@, i as int),
    decreases vs@.len() - i,
{
    broadcast use lemma_seq_add_assoc;

    if i < vs.len() {
        write_value_sql(&vs[i], out);
        if i + 1 < vs.len() {
            out.append(", ");
            write_values_row_sql(vs, i + 1, out);
        }
    }
    proof {
        assert(out@ =~= old(out)@ + values_row_sql(vs@, i as int));
    }
}

/// Appends the texts of the value rows from `i` on to `out`.
pub fn write_values_rows_sql(rows: &Vec<Vec<Value>>, i: usize, out: &mut String)
    requires
        i <= rows@.len(),
    ensures
        final(out)@ == old(out)@ + values_rows_sql(rows@, i as int),
    decreases rows@.len() - i,
{
    broadcast use lemma_seq_add_assoc;

    if i < rows.len() {
        out.append("(");
        write_values_row_sql(&rows[i], 0, out);
        out.append(")");
        if i + 1 < rows.len() {
            out.append(", ");
            write_values_rows_sql(rows, i + 1, out);
        }
    }
    proof {
        assert(out@ =~= old(out)@ + values_rows_sql(rows@, i as int));
    }
}

/// Appends the texts of the positional parameters from `i` on to `out`.
pub fn write_params_sql(ps: &Vec<usize>, i: usize, out: &mut String)
    requires
        i <= ps@.len(),
    ensures
        final(out)@ == old(out)@ + params_sql(ps@, i as int),
    decreases ps@.len() - i,
{
    broadcast use lemma_seq_add_assoc;

    if i < ps.len() {
        out.append("$");
        let t = u64_to_string(ps[i] as u64);
        out.append(t.as_str());
        if i + 1 < ps.len() {
            out.append(", ");
            write_params_sql(ps, i + 1, out);
        }
    }
    proof {
        assert(out@ =~= old(out)@ + params_sql(ps@, i as int));
    }
}

/// Appends the text of a query body to `out`.
pub fn write_set_expr_sql(b: &SetExpr, out: &mut String)
    ensures
        final(out)@ == old(out)@ + set_expr_sql(b),
{
    broadcast use lemma_seq_add_assoc;

    match b {
        SetExpr::Select(sel) => write_select_sql(sel, out),
        SetExpr::Values(rows) => {
            out.append("VALUES ");
            write_values_rows_sql(rows, 0, out);
        },
        SetExpr::ParameterizedValue(ps) => write_params_sql(ps, 0, out),
    }
    proof {
        assert(out@ =~= old(out)@ + set_expr_sql(b));
    }
}

/// Appends the texts of the ORDER BY entries from `i` on to `out`.
pub fn write_order_bys_sql(os: &Vec<OrderByExpr>, i: usize, out: &mut String)
    requires
        i <= os@.len(),
    ensures
        final(out)@ == old(out)@ + order_bys_sql(os@, i as int),
    decreases os@.len() - i,
{
    broadcast use lemma_seq_add_assoc;

    if i < os.len() {
        write_expr_sql(&os[i].expr, out);
        match os[i].asc {
            Some(true) => out.append(" ASC"),
            Some(false) => out.append(" DESC"),
            None => {},
        }
        if i + 1 < os.len() {
            out.append(", ");
            write_order_bys_sql(os, i + 1, out);
        }
    }
    proof {
        assert(out@ =~= old(out)@ + order_bys_sql(os@, i as int));
    }
}

/// Appends the text of a query to `out`.
pub fn write_query_sql(q: &Query, out: &mut String)
    ensures
        final(out)@ == old(out)@ + query_sql(q),
{
    broadcast use lemma_seq_add_assoc;

    write_set_expr_sql(&q.body, out);
    if q.order_by.len() > 0 {
        out.append(" ORDER BY ");
        write_order_bys_sql(&q.order_by, 0, out);
    }
    match q.limit {
        Some(n) => {
            out.append(" LIMIT ");
            let t = i64_to_string(n);
            out.append(t.as_str());
        },
        None => {},
    }
    match q.offset {
        Some(n) => {
            out.append(" OFFSET ");
            let t = i64_to_string(n);
            out.append(t.as_str());
        },
        None => {},
    }
    proof {
        assert(out@ =~= old(out)@ + query_sql(q));
    }
}

/// Renders the keyword of a SQL data type.
pub fn data_type_display(t: &DataType) -> (r: &'static str)
    ensures
        r@ == data_type_sql(*t),
{
    match t {
        DataType::Boolean => "boolean",
        DataType::SmallInt => "smallint",
        DataType::Int => "int",
        DataType::BigInt => "bigint",
        DataType::Float => "float",
        DataType::Uuid => "uuid",
        DataType::Text => "text",
        DataType::Timestamp => "timestamp",
        DataType::SmallSerial => "SMALLSERIAL",
        DataType::Serial => "SERIAL",
        DataType::BigSerial => "BIGSERIAL",
    }
}

/// Appends the names from `i` on to `out`.
pub fn write_names_sql(ns: &Vec<String>, i: usize, out: &mut String)
    requires
        i <= ns@.len(),
    ensures
        final(out)@ == old(out)@ + names_sql(ns@, i as int),
    decreases ns@.len() - i,
{
    broadcast use lemma_seq_add_assoc;

    if i < ns.len() {
        out.append(ns[i].as_str());
        if i + 1 < ns.len() {
            out.append(", ");
            write_names_sql(ns, i + 1, out);
        }
    }
    proof {
        assert(out@ =~= old(out)@ + names_sql(ns@, i as int));
    }
}

/// Appends the texts of the column options from `i` on to `out`.
pub fn write_column_options_sql(os: &Vec<ColumnOption>, i: usize, out: &mut String)
    requires
        i <= os@.len(),
    ensures
        final(out)@ == old(out)@ + column_options_sql(os@, i as int),
    decreases os@.len() - i,
{
    broadcast use lemma_seq_add_assoc;

    if i < os.len() {
        out.append(" ");
        match &os[i] {
            ColumnOption::Unique { is_primary } => {
                if *is_primary {
                    out.append("PRIMARY KEY");
                } else {
                    out.append("UNIQUE");
                }
            },
            ColumnOption::NotNull => out.append("NOT NULL"),
            ColumnOption::Default(e) => {
                out.append("DEFAULT ");
                write_expr_sql(e, out);
            },
            ColumnOption::ForeignKey { foreign_table, referred_columns } => {
                out.append("REFERENCES ");
                out.append(foreign_table.as_str());
                out.append(" (");
                write_names_sql(referred_columns, 0, out);
                out.append(")");
            },
        }
        write_column_options_sql(os, i + 1, out);
    }
    proof {
        assert(out@ =~= old(out)@ + column_options_sql(os@, i as int));
    }
}

/// Appends the text of a SQL column definition to `out`.
pub fn write_column_def_sql(c: &ColumnDef, out: &mut String)
    ensures
        final(out)@ == old(out)@ + column_def_sql(c),
{
    broadcast use lemma_seq_add_assoc;

    out.append(c.name.as_str());
    out.append(" ");
    out.append(data_type_display(&c.data_type));
    write_column_options_sql(&c.options, 0, out);
    proof {
        assert(out@ =~= old(out)@ + column_def_sql(c));
    }
}

/// Appends the texts of the column definitions from `i` on to `out`.
pub fn write_column_defs_sql(cs: &Vec<ColumnDef>, i: usize, out: &mut String)
    requires
        i <= cs@.len(),
    ensures
        final(out)@ == old(out)@ + column_defs_sql(cs@, i as int),
    decreases cs@.len() - i,
{
    broadcast use lemma_seq_add_assoc;

    if i < cs.len() {
        write_column_def_sql(&cs[i], out);
        if i + 1 < cs.len() {
            out.append(", ");
            write_column_defs_sql(cs, i + 1, out);
        }
    }
    proof {
        assert(out@ =~= old(out)@ + column_defs_sql(cs@, i as int));
    }
}

/// Appends the texts of the UPDATE assignments from `i` on to `out`.
pub fn write_assignments_sql(asg: &Vec<Assignment>, i: usize, out: &mut String)
    requires
        i <= asg@.len(),
    ensures
        final(out)@ == old(out)@ + assignments_sql(asg@, i as int),
    decreases asg@.len() - i,
{
    broadcast use lemma_seq_add_assoc;

    if i < asg.len() {
        out.append(asg[i].id.as_str());
        out.append(" = ");
        write_expr_sql(&asg[i].value, out);
        if i + 1 < asg.len() {
            out.append(", ");
            write_assignments_sql(asg, i + 1, out);
        }
    }
    proof {
        assert(out@ =~= old(out)@ + assignments_sql(asg@, i as int));
    }
}

impl Statement {
    /// Renders this statement as SQL text.
    pub fn to_sql_string(&self) -> (r: String)
        ensures
            r@ == statement_sql(self),
    {
        broadcast use lemma_seq_add_assoc;

        let mut out = String::new();
        match self {
            Statement::Query(q) => write_query_sql(q, &mut out),
            Statement::Insert { table_name, columns, source } => {
                out.append("INSERT INTO ");
                out.append(table_name.as_str());
                out.append(" (");
                write_names_sql(columns, 0, &mut out);
                out.append(") ");
                write_query_sql(source, &mut out);
            },
            Statement::Update { table_name, assignments, selection } => {
                out.append("UPDATE ");
                out.append(table_name.as_str());
                out.append(" SET ");
                write_assignments_sql(assignments, 0, &mut out);
                match selection {
                    Some(e) => {
                        out.append(" WHERE ");
                        write_expr_sql(e, &mut out);
                    },
                    None => {},
                }
            },
            Statement::Delete { table_name, selection } => {
                out.append("DELETE FROM ");
                out.append(table_name.as_str());
                match selection {
                    Some(e) => {
                        out.append(" WHERE ");
                        write_expr_sql(e, &mut out);
                    },
                    None => {},
                }
            },
            Statement::CreateTable { name, columns } => {
                out.append("CREATE TABLE IF NOT EXISTS ");
                out.append(name.as_str());
                out.append(" (");
                write_column_defs_sql(columns, 0, &mut out);
                out.append(")");
            },
            Statement::AlterTable { name, operation } => {
                out.append("ALTER TABLE ");
                out.append(name.as_str());
                out.append(" ");
                match operation {
                    AlterTableOperation::AddColumn(c) => {
                        out.append("ADD COLUMN ");
                        write_column_def_sql(c, &mut out);
                    },
                    AlterTableOperation::DropColumn { column } => {
                        out.append("DROP COLUMN IF EXISTS ");
                        out.append(column.as_str());
                        out.append(" CASCADE");
                    },
                }
            },
            Statement::Drop { names } => {
                out.append("DROP TABLE IF EXISTS ");
                write_names_sql(names, 0, &mut out);
                out.append(" CASCADE");
            },
        }
        proof {
            assert(out@ =~= statement_sql(self));
        }
        out
    }
}


impl Select {
    /// Renders this select as SQL text.
    pub fn to_sql_string(&self) -> (r: String)
        ensures
            r@ == select_sql(self),
    {
        let mut out = String::new();
        write_select_sql(self, &mut out);
        out
    }
}

impl Query {
    /// Renders this query as SQL text.
    pub fn to_sql_string(&self) -> (r: String)
        ensures
            r@ == query_sql(self),
    {
        let mut out = String::new();
        write_query_sql(self, &mut out);
        out
    }
}

} // verus!
