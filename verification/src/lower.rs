//! Lowering from the RestQ statement tree to the abstract SQL tree.
//!
//! Each lowering function is specified by a text function: the SQL text of
//! the result equals a mathematical function of the statement's view and
//! the catalog's view.

use vstd::prelude::*;
use vstd::string::StringExecFns;

use crate::ast::expr::ExprV;
use crate::ast::expr::ValueV;
use crate::ast::Operator;
use crate::sql;
use crate::sql::expr_sql;
use crate::sql::op_sql;
use crate::sql::quote_doubled;

verus! {

/// The SQL operator a RestQ operator lowers to, where one exists.
pub open spec fn spec_op_lower(op: Operator) -> Option<sql::BinaryOperator> {
    match op {
        Operator::Eq => Some(sql::BinaryOperator::Eq),
        Operator::Neq => Some(sql::BinaryOperator::NotEq),
        Operator::Lt => Some(sql::BinaryOperator::Lt),
        Operator::Lte => Some(sql::BinaryOperator::LtEq),
        Operator::Gt => Some(sql::BinaryOperator::Gt),
        Operator::Gte => Some(sql::BinaryOperator::GtEq),
        Operator::And => Some(sql::BinaryOperator::And),
        Operator::Or => Some(sql::BinaryOperator::Or),
        Operator::Like => Some(sql::BinaryOperator::Like),
        Operator::Ilike => Some(sql::BinaryOperator::Ilike),
        Operator::Plus => Some(sql::BinaryOperator::Plus),
        Operator::Minus => Some(sql::BinaryOperator::Minus),
        Operator::Multiply => Some(sql::BinaryOperator::Multiply),
        Operator::Divide => Some(sql::BinaryOperator::Divide),
        Operator::Modulus => Some(sql::BinaryOperator::Modulus),
        Operator::In => Some(sql::BinaryOperator::In),
        Operator::NotIn => None,
        Operator::Is => None,
        Operator::IsNot => None,
        Operator::Starts => None,
    }
}

/// Whether every operator of the expression has a SQL counterpart.
pub open spec fn expr_lowerable(e: ExprV) -> bool
    decreases e, 0int,
{
    match e {
        ExprV::Column(_) => true,
        ExprV::Function(f) => exprs_lowerable(f.params, 0),
        ExprV::Value(_) => true,
        ExprV::MultiValue(_) => true,
        ExprV::BinaryOperation(b) => spec_op_lower(b.operator) is Some && expr_lowerable(b.left)
            && expr_lowerable(b.right),
        ExprV::Nested(inner) => expr_lowerable(*inner),
    }
}

/// Whether all the expressions from `i` on are lowerable.
pub open spec fn exprs_lowerable(es: Seq<ExprV>, i: int) -> bool
    decreases es, es.len() - i,
{
    if i < 0 || i >= es.len() {
        true
    } else {
        expr_lowerable(es[i]) && exprs_lowerable(es, i + 1)
    }
}

/// The SQL text of a lowered coarse value: strings are single-quoted.
pub open spec fn lv_text(v: ValueV) -> Seq<char> {
    match v {
        ValueV::Null => "NULL"@,
        ValueV::Str(s) => "'"@ + quote_doubled(s) + "'"@,
        ValueV::Num(s) => s,
        ValueV::Bool(b) => if b {
            "true"@
        } else {
            "false"@
        },
    }
}

/// The SQL text of a lowered expression.
pub open spec fn le_text(e: ExprV) -> Seq<char>
    decreases e, 1int,
{
    match e {
        ExprV::Column(c) => c,
        ExprV::Function(f) => f.name + "("@ + le_list_text(f.params, 0) + ")"@,
        ExprV::Value(v) => lv_text(v),
        ExprV::MultiValue(vs) => "("@ + lv_list_text(vs, 0) + ")"@,
        ExprV::BinaryOperation(b) => le_text(b.left) + " "@ + (match spec_op_lower(b.operator) {
            Some(o) => op_sql(o),
            None => Seq::<char>::empty(),
        }) + " "@ + le_text(b.right),
        ExprV::Nested(inner) => "("@ + le_text(*inner) + ")"@,
    }
}

/// The SQL texts of the expressions from `i` on.
pub open spec fn le_list_text(es: Seq<ExprV>, i: int) -> Seq<char>
    decreases es, es.len() - i, 2int,
{
    if i < 0 || i >= es.len() {
        Seq::empty()
    } else if i == es.len() - 1 {
        le_text(es[i])
    } else {
        le_text(es[i]) + ", "@ + le_list_text(es, i + 1)
    }
}

/// The SQL texts of the values from `i` on.
pub open spec fn lv_list_text(vs: Seq<ValueV>, i: int) -> Seq<char>
    decreases vs.len() - i,
{
    if i < 0 || i >= vs.len() {
        Seq::empty()
    } else if i == vs.len() - 1 {
        lv_text(vs[i])
    } else {
        lv_text(vs[i]) + ", "@ + lv_list_text(vs, i + 1)
    }
}

/// Lowers a coarse value to a SQL value.
pub fn lower_value(v: &crate::ast::Value) -> (r: sql::Value)
    ensures
        sql::value_sql(&r) == lv_text(v.deep_view()),
{
    match v {
        crate::ast::Value::Null => sql::Value::Null,
        crate::ast::Value::String(s) => sql::Value::SingleQuotedString(s.clone()),
        crate::ast::Value::Number(s) => sql::Value::Number(s.clone()),
        crate::ast::Value::Bool(b) => sql::Value::Boolean(*b),
    }
}

/// Lowers a RestQ operator; operators with no SQL counterpart are refused.
pub fn lower_operator(op: &Operator) -> (r: Result<sql::BinaryOperator, crate::Error>)
    ensures
        match r {
            Ok(o) => spec_op_lower(*op) == Some(o),
            Err(e) => spec_op_lower(*op) is None && (e matches crate::Error::GenericError(_)),
        },
{
    match spec_op_lower_exec(op) {
        Some(o) => Ok(o),
        None => Err(crate::Error::GenericError(
            "unsupported operator conversion".to_owned(),
        )),
    }
}

/// Maps a RestQ operator to its SQL counterpart.
fn spec_op_lower_exec(op: &Operator) -> (r: Option<sql::BinaryOperator>)
    ensures
        r == spec_op_lower(*op),
{
    match op {
        Operator::Eq => Some(sql::BinaryOperator::Eq),
        Operator::Neq => Some(sql::BinaryOperator::NotEq),
        Operator::Lt => Some(sql::BinaryOperator::Lt),
        Operator::Lte => Some(sql::BinaryOperator::LtEq),
        Operator::Gt => Some(sql::BinaryOperator::Gt),
        Operator::Gte => Some(sql::BinaryOperator::GtEq),
        Operator::And => Some(sql::BinaryOperator::And),
        Operator::Or => Some(sql::BinaryOperator::Or),
        Operator::Like => Some(sql::BinaryOperator::Like),
        Operator::Ilike => Some(sql::BinaryOperator::Ilike),
        Operator::Plus => Some(sql::BinaryOperator::Plus),
        Operator::Minus => Some(sql::BinaryOperator::Minus),
        Operator::Multiply => Some(sql::BinaryOperator::Multiply),
        Operator::Divide => Some(sql::BinaryOperator::Divide),
        Operator::Modulus => Some(sql::BinaryOperator::Modulus),
        Operator::In => Some(sql::BinaryOperator::In),
        Operator::NotIn => None,
        Operator::Is => None,
        Operator::IsNot => None,
        Operator::Starts => None,
    }
}

/// Lowers an expression to a SQL expression; succeeds exactly when every
/// operator in it has a SQL counterpart, and then the SQL text is the
/// lowered text of the expression.
pub fn lower_expr(e: &crate::ast::Expr) -> (r: Result<sql::Expr, crate::Error>)
    ensures
        match r {
            Ok(x) => expr_lowerable(e.deep_view()) && expr_sql(&x) == le_text(e.deep_view()),
            Err(er) => !expr_lowerable(e.deep_view()) && (
            er matches crate::Error::GenericError(_)),
        },
    decreases e, 1int,
{
    broadcast use crate::ast::parser::utils::lemma_seq_add_assoc;
    broadcast use vstd::std_specs::vec::group_vec_axioms;

    match e {
        crate::ast::Expr::Column(c) => Ok(sql::Expr::Identifier(c.name.clone())),
        crate::ast::Expr::Function(f) => {
            proof {
                crate::ast::expr::lemma_exprs_deep_vec(&f.params);
            }
            match lower_exprs(&f.params, 0) {
                Ok(args) => Ok(
                    sql::Expr::Function(sql::Function { name: f.name.clone(), args }),
                ),
                Err(x) => Err(x),
            }
        },
        crate::ast::Expr::Value(v) => Ok(sql::Expr::Value(lower_value(v))),
        crate::ast::Expr::MultiValue(vs) => {
            let mut items: Vec<sql::Expr> = Vec::new();
            let mut i: usize = 0;
            while i < vs.len()
                invariant
                    i <= vs@.len(),
                    items@.len() == i,
                    forall|j: int|
                        0 <= j < i ==> sql::expr_sql(&items@[j]) == lv_text(
                            vs.deep_view()[j],
                        ),
                decreases vs@.len() - i,
            {
                items.push(sql::Expr::Value(lower_value(&vs[i])));
                i += 1;
            }
            proof {
                assert(items@.len() == vs.deep_view().len());
                lemma_exprs_sql_values(items@, vs.deep_view(), 0);
            }
            Ok(sql::Expr::ValueList(items))
        },
        crate::ast::Expr::BinaryOperation(b) => {
            let op = match lower_operator(&b.operator) {
                Ok(o) => o,
                Err(x) => {
                    return Err(x);
                },
            };
            let left = match lower_expr(&b.left) {
                Ok(l) => l,
                Err(x) => {
                    return Err(x);
                },
            };
            let right = match lower_expr(&b.right) {
                Ok(rr) => rr,
                Err(x) => {
                    return Err(x);
                },
            };
            Ok(sql::Expr::BinaryOp { left: Box::new(left), op, right: Box::new(right) })
        },
        crate::ast::Expr::Nested(inner) => {
            match lower_expr(inner) {
                Ok(x) => Ok(sql::Expr::Nested(Box::new(x))),
                Err(x) => Err(x),
            }
        },
    }
}

/// Element-wise equal texts give equal list texts.
proof fn lemma_exprs_sql_values(items: Seq<sql::Expr>, vs: Seq<ValueV>, i: int)
    requires
        items.len() == vs.len(),
        forall|j: int| 0 <= j < items.len() ==> sql::expr_sql(&items[j]) == lv_text(vs[j]),
    ensures
        sql::exprs_sql(items, i) == lv_list_text(vs, i),
    decreases items.len() - i,
{
    if 0 <= i < items.len() {
        lemma_exprs_sql_values(items, vs, i + 1);
    }
}

/// Lowers the expressions from `i` on.
pub fn lower_exprs(es: &Vec<crate::ast::Expr>, i: usize) -> (r: Result<
    Vec<sql::Expr>,
    crate::Error,
>)
    requires
        i <= es@.len(),
    ensures
        match r {
            Ok(x) => exprs_lowerable(es.deep_view(), i as int) && sql::exprs_sql(x@, 0)
                == le_list_text(es.deep_view(), i as int) && x@.len() == es@.len() - i,
            Err(e) => !exprs_lowerable(es.deep_view(), i as int) && (
            e matches crate::Error::GenericError(_)),
        },
    decreases es, es@.len() - i, 2int,
{
    broadcast use vstd::std_specs::vec::group_vec_axioms;

    if i < es.len() {
        let first = match lower_expr(&es[i]) {
            Ok(x) => x,
            Err(x) => {
                return Err(x);
            },
        };
        match lower_exprs(es, i + 1) {
            Ok(rest) => {
                let mut out = rest;
                let ghost r0 = out@;
                out.insert(0, first);
                proof {
                    assert(out@.drop_first() =~= r0);
                    lemma_exprs_sql_cons(out@, es.deep_view(), i as int);
                }
                Ok(out)
            },
            Err(x) => Err(x),
        }
    } else {
        let out: Vec<sql::Expr> = Vec::new();
        Ok(out)
    }
}

/// A cons whose head text matches extends list-text equality.
proof fn lemma_exprs_sql_cons(items: Seq<sql::Expr>, es: Seq<ExprV>, i: int)
    requires
        0 <= i < es.len(),
        items.len() == es.len() - i,
        sql::expr_sql(&items[0]) == le_text(es[i]),
        sql::exprs_sql(items.drop_first(), 0) == le_list_text(es, i + 1),
    ensures
        sql::exprs_sql(items, 0) == le_list_text(es, i),
{
    lemma_exprs_sql_shift(items, 0);
}

/// List text from position one equals list text of the tail.
proof fn lemma_exprs_sql_shift(items: Seq<sql::Expr>, i: int)
    requires
        0 <= i < items.len(),
    ensures
        sql::exprs_sql(items, i + 1) == sql::exprs_sql(items.drop_first(), i),
    decreases items.len() - i,
{
    if i + 1 < items.len() {
        lemma_exprs_sql_shift(items, i + 1);
        assert(items.drop_first()[i] == items[i + 1]);
    }
}


/// The outcome of a lowering that consults the catalog.
pub enum Lowered {
    /// The SQL text of the lowering.
    Good(Seq<char>),
    /// A join or foreign reference was written but no catalog was supplied.
    NoLookup,
    /// The named table is not in the catalog.
    NotFound(Seq<char>),
    /// An operator with no SQL counterpart stands in an expression.
    Unconv,
}

/// The view of an optional catalog.
pub open spec fn cat_view(l: Option<&crate::ast::TableLookup>) -> Option<
    Seq<crate::ast::ddl::TableDefV>,
> {
    match l {
        Some(t) => Some(t.deep_view()),
        None => None,
    }
}

/// The equality texts `local.col = target.fcol` of the columns of `cols`
/// that carry a foreign reference to `target`; a reference without a column
/// falls back on the target's first primary key, and is skipped when the
/// target has none.
pub open spec fn fpair_texts(
    cols: Seq<crate::ast::ddl::ColumnDefV>,
    local_table: Seq<char>,
    target: crate::ast::ddl::TableDefV,
) -> Seq<Seq<char>>
    decreases cols.len(),
{
    if cols.len() == 0 {
        Seq::empty()
    } else {
        fpair_texts(cols.drop_last(), local_table, target) + (match cols.last().foreign {
            Some(fv) => if fv.table == target.table {
                match fv.column {
                    Some(c) => seq![
                        local_table + "."@ + cols.last().column + " = "@ + target.table + "."@
                            + c,
                    ],
                    None => if crate::ast::ddl::spec_primary_columns(target.columns).len() > 0 {
                        seq![
                            local_table + "."@ + cols.last().column + " = "@ + target.table
                                + "."@ + crate::ast::ddl::spec_primary_columns(
                                target.columns,
                            )[0].column,
                        ]
                    } else {
                        Seq::<Seq<char>>::empty()
                    },
                }
            } else {
                Seq::<Seq<char>>::empty()
            },
            None => Seq::<Seq<char>>::empty(),
        })
    }
}

/// The texts from `i` on, joined by ` AND `.
pub open spec fn anded_texts(ts: Seq<Seq<char>>, i: int) -> Seq<char>
    decreases ts.len() - i,
{
    if i < 0 || i >= ts.len() {
        Seq::empty()
    } else if i == ts.len() - 1 {
        ts[i]
    } else {
        ts[i] + " AND "@ + anded_texts(ts, i + 1)
    }
}

/// One conjunct extension splits the AND-joined text.
proof fn lemma_anded_snoc(ts: Seq<Seq<char>>, k: int)
    requires
        1 <= k < ts.len(),
    ensures
        anded_texts(ts.take(k + 1), 0) == anded_texts(ts.take(k), 0) + " AND "@ + ts[k],
{
    lemma_anded_split_from(ts.take(k + 1), ts.take(k), k, 0);
}

/// AND-joined text splits at the last conjunct, from `j` on.
proof fn lemma_anded_split_from(a: Seq<Seq<char>>, b: Seq<Seq<char>>, k: int, j: int)
    requires
        0 <= j < k,
        a.len() == k + 1,
        b.len() == k,
        forall|m: int| 0 <= m < k ==> a[m] == b[m],
    ensures
        anded_texts(a, j) == anded_texts(b, j) + " AND "@ + a[k],
    decreases k - j,
{
    broadcast use crate::ast::parser::utils::lemma_seq_add_assoc;

    if j < k - 1 {
        lemma_anded_split_from(a, b, k, j + 1);
    } else {
        assert(anded_texts(a, k) == a[k]);
    }
}

/// The join clauses of a from-chain against the catalog: each link joins
/// the next table on the AND-conjunction of every foreign-key equality
/// collected in both directions; a link with no such equality ends the
/// chain silently.
pub open spec fn joins_result(
    f: crate::ast::table::FromTableV,
    cat: Option<Seq<crate::ast::ddl::TableDefV>>,
) -> Lowered
    decreases f,
{
    match f {
        crate::ast::table::FromTableV::Leaf(_) => Lowered::Good(Seq::empty()),
        crate::ast::table::FromTableV::Join(n, jt, rest) => match cat {
            None => Lowered::NoLookup,
            Some(c) => match crate::ast::table::spec_find_table(c, n) {
                None => Lowered::NotFound(n),
                Some(this_def) => match crate::ast::table::spec_find_table(c, rest.head()) {
                    None => Lowered::NotFound(rest.head()),
                    Some(joined_def) => {
                        let all = fpair_texts(this_def.columns, this_def.table, joined_def)
                            + fpair_texts(joined_def.columns, joined_def.table, this_def);
                        if all.len() == 0 {
                            Lowered::Good(Seq::empty())
                        } else {
                            let constraint = anded_texts(all, 0);
                            match joins_result(*rest, cat) {
                                Lowered::Good(t) => Lowered::Good(
                                    " "@ + sql::join_op_sql(lower_join_type(jt)) + rest.head()
                                        + " ON "@ + constraint + t,
                                ),
                                Lowered::NoLookup => Lowered::NoLookup,
                                Lowered::NotFound(m) => Lowered::NotFound(m),
                                Lowered::Unconv => Lowered::Unconv,
                            }
                        }
                    },
                },
            },
        },
    }
}

/// The SQL join operator of a join arrow.
pub open spec fn lower_join_type(jt: crate::ast::JoinType) -> sql::JoinOperator {
    match jt {
        crate::ast::JoinType::InnerJoin => sql::JoinOperator::Inner,
        crate::ast::JoinType::LeftJoin => sql::JoinOperator::LeftOuter,
        crate::ast::JoinType::RightJoin => sql::JoinOperator::RightOuter,
        crate::ast::JoinType::FullJoin => sql::JoinOperator::FullOuter,
    }
}

/// Collects the foreign-key equality expressions of `local` against
/// `target`, whose SQL texts are the pair texts.
fn fpair_exprs(
    local: &crate::ast::TableDef,
    target: &crate::ast::TableDef,
) -> (r: Vec<sql::Expr>)
    ensures
        r@.len() == fpair_texts(
            local.deep_view().columns,
            local.deep_view().table,
            target.deep_view(),
        ).len(),
        forall|j: int|
            0 <= j < r@.len() ==> sql::expr_sql(&r@[j]) == fpair_texts(
                local.deep_view().columns,
                local.deep_view().table,
                target.deep_view(),
            )[j],
{
    broadcast use crate::ast::parser::utils::lemma_seq_add_assoc;

    let ghost cols = local.deep_view().columns;
    let ghost lt = local.deep_view().table;
    let ghost tv = target.deep_view();
    let mut out: Vec<sql::Expr> = Vec::new();
    let mut i: usize = 0;
    while i < local.columns.len()
        invariant
            cols == local.deep_view().columns,
            lt == local.deep_view().table,
            tv == target.deep_view(),
            i <= local.columns@.len(),
            cols.len() == local.columns@.len(),
            out@.len() == fpair_texts(cols.take(i as int), lt, tv).len(),
            forall|j: int|
                0 <= j < out@.len() ==> sql::expr_sql(&out@[j]) == fpair_texts(
                    cols.take(i as int),
                    lt,
                    tv,
                )[j],
        decreases local.columns@.len() - i,
    {
        proof {
            assert(cols.take(i + 1).drop_last() =~= cols.take(i as int));
            assert(cols.take(i + 1).last() == cols[i as int]);
        }
        match &local.columns[i].foreign {
            Some(fv) => {
                if crate::ast::parser::utils::str_eq(
                    fv.table.name.as_str(),
                    target.table.name.as_str(),
                ) {
                    let fcol: Option<String> = match &fv.column {
                        Some(c) => Some(c.name.clone()),
                        None => {
                            let pks = target.get_primary_columns();
                            if pks.len() > 0 {
                                proof {
                                    assert(pks.deep_view()[0] == crate::ast::ddl::spec_primary_columns(
                                        tv.columns,
                                    )[0]);
                                }
                                Some(pks[0].column.name.clone())
                            } else {
                                None
                            }
                        },
                    };
                    match fcol {
                        Some(fc) => {
                            let mut ltext = local.table.name.clone();
                            ltext.append(".");
                            ltext.append(local.columns[i].column.name.as_str());
                            let mut rtext = target.table.name.clone();
                            rtext.append(".");
                            rtext.append(fc.as_str());
                            let eq = sql::Expr::BinaryOp {
                                left: Box::new(sql::Expr::Identifier(ltext)),
                                op: sql::BinaryOperator::Eq,
                                right: Box::new(sql::Expr::Identifier(rtext)),
                            };
                            proof {
                                reveal_with_fuel(sql::expr_sql, 3);
                                reveal_strlit(" = ");
                                reveal_strlit("=");
                                reveal_strlit(" ");
                                assert(sql::expr_sql(&eq) =~= lt + "."@ + cols[i as int].column
                                    + " = "@ + tv.table + "."@ + fc@);
                            }
                            out.push(eq);
                        },
                        None => {},
                    }
                }
            },
            None => {},
        }
        i += 1;
        proof {
            assert(out@.len() == fpair_texts(cols.take(i as int), lt, tv).len());
        }
    }
    proof {
        assert(cols.take(local.columns@.len() as int) =~= cols);
    }
    out
}

/// Builds the ON constraint of one join link: the AND-conjunction, left
/// associated, of every foreign-key equality of the two tables; nothing
/// when there is none.
#[verifier::rlimit(100)]
fn link_constraint(
    this_def: &crate::ast::TableDef,
    joined_def: &crate::ast::TableDef,
) -> (r: Option<sql::Expr>)
    ensures
        ({
            let all = fpair_texts(
                this_def.deep_view().columns,
                this_def.deep_view().table,
                joined_def.deep_view(),
            ) + fpair_texts(
                joined_def.deep_view().columns,
                joined_def.deep_view().table,
                this_def.deep_view(),
            );
            match r {
                Some(c) => all.len() > 0 && sql::expr_sql(&c) == anded_texts(all, 0),
                None => all.len() == 0,
            }
        }),
{
    broadcast use crate::ast::parser::utils::lemma_seq_add_assoc;

    let ghost t1 = fpair_texts(
        this_def.deep_view().columns,
        this_def.deep_view().table,
        joined_def.deep_view(),
    );
    let ghost t2 = fpair_texts(
        joined_def.deep_view().columns,
        joined_def.deep_view().table,
        this_def.deep_view(),
    );
    let mut pairs = fpair_exprs(this_def, joined_def);
    let mut pairs2 = fpair_exprs(joined_def, this_def);
    let ghost p1 = pairs@;
    pairs.append(&mut pairs2);
    let ghost all = t1 + t2;
    proof {
        assert(pairs@.len() == all.len());
        assert forall|j: int| 0 <= j < pairs@.len() implies sql::expr_sql(&pairs@[j])
            == all[j] by {
            if j < t1.len() {
                assert(pairs@[j] == p1[j]);
            }
        }
    }
    if pairs.len() == 0 {
        return None;
    }
    let mut acc = pairs.remove(0);
    let ghost mut k: int = 1;
    let ghost orig = all;
    proof {
        assert(orig.take(1)[0] == orig[0]);
        assert(anded_texts(orig.take(1), 0) == orig[0]);
    }
    while pairs.len() > 0
        invariant
            1 <= k <= orig.len(),
            pairs@.len() + k == orig.len(),
            forall|j: int| 0 <= j < pairs@.len() ==> sql::expr_sql(&pairs@[j]) == orig[k + j],
            sql::expr_sql(&acc) == anded_texts(orig.take(k), 0),
        decreases pairs@.len(),
    {
        let ghost before = pairs@;
        let next = pairs.remove(0);
        proof {
            assert(pairs@ =~= before.drop_first());
            lemma_anded_snoc(orig, k);
            reveal_strlit(" AND ");
            reveal_strlit("AND");
            reveal_strlit(" ");
        }
        acc = sql::Expr::BinaryOp {
            left: Box::new(acc),
            op: sql::BinaryOperator::And,
            right: Box::new(next),
        };
        proof {
            k = k + 1;
            assert(sql::expr_sql(&acc) =~= anded_texts(orig.take(k), 0));
        }
    }
    proof {
        assert(orig.take(orig.len() as int) =~= orig);
    }
    Some(acc)
}

/// Expands one join link and the links after it.
fn extract_joins_step(
    from_name: &crate::ast::TableName,
    jt: &crate::ast::JoinType,
    rest: &crate::ast::FromTable,
    lookup: Option<&crate::ast::TableLookup>,
) -> (r: Result<Vec<sql::Join>, crate::Error>)
    ensures
        match joins_result(
            crate::ast::table::FromTableV::Join(
                from_name.name@,
                *jt,
                Box::new(rest.deep_view()),
            ),
            cat_view(lookup),
        ) {
            Lowered::Good(t) => r matches Ok(js) && sql::joins_sql(js@, 0) == t,
            Lowered::NoLookup => r matches Err(
                crate::Error::TableError(crate::ast::TableError::NoSuppliedTableLookup),
            ),
            Lowered::NotFound(n) => r matches Err(
                crate::Error::TableError(crate::ast::TableError::TableNotFound(m)),
            ) && m@ == n,
            Lowered::Unconv => r matches Err(crate::Error::GenericError(_)),
        },
    decreases rest, 1int,
{
    broadcast use crate::ast::parser::utils::lemma_seq_add_assoc;

    proof {
        assert(rest.deep_view().head() == rest.from.name@);
    }
    let lk = match lookup {
        Some(l) => l,
        None => {
            return Err(
                crate::Error::TableError(crate::ast::TableError::NoSuppliedTableLookup),
            );
        },
    };
    let this_def = match lk.get_table_def(from_name.name.as_str()) {
        Some(d) => d,
        None => {
            return Err(
                crate::Error::TableError(
                    crate::ast::TableError::TableNotFound(from_name.name.clone()),
                ),
            );
        },
    };
    let joined_def = match lk.get_table_def(rest.from.name.as_str()) {
        Some(d) => d,
        None => {
            return Err(
                crate::Error::TableError(
                    crate::ast::TableError::TableNotFound(rest.from.name.clone()),
                ),
            );
        },
    };
    let constraint = match link_constraint(this_def, joined_def) {
        Some(c) => c,
        None => {
            let out: Vec<sql::Join> = Vec::new();
            proof {
                assert(sql::joins_sql(out@, 0) =~= Seq::<char>::empty());
            }
            return Ok(out);
        },
    };
    let more = match extract_joins(rest, lookup) {
        Ok(m) => m,
        Err(x) => {
            return Err(x);
        },
    };
    let op = match jt {
        crate::ast::JoinType::InnerJoin => sql::JoinOperator::Inner,
        crate::ast::JoinType::LeftJoin => sql::JoinOperator::LeftOuter,
        crate::ast::JoinType::RightJoin => sql::JoinOperator::RightOuter,
        crate::ast::JoinType::FullJoin => sql::JoinOperator::FullOuter,
    };
    let j = sql::Join { relation: rest.from.name.clone(), join_operator: op, constraint };
    let mut out: Vec<sql::Join> = Vec::new();
    out.push(j);
    let mut more2 = more;
    let ghost head = out@[0];
    let ghost mored = more2@;
    out.append(&mut more2);
    proof {
        assert(out@ =~= seq![head] + mored);
        lemma_joins_sql_cons(out@, mored);
        assert(sql::joins_sql(out@, 0) =~= sql::join_sql(&head) + sql::joins_sql(mored, 0));
    }
    Ok(out)
}

/// Expands the joins of a from-chain against the catalog.
pub fn extract_joins(
    ft: &crate::ast::FromTable,
    lookup: Option<&crate::ast::TableLookup>,
) -> (r: Result<Vec<sql::Join>, crate::Error>)
    ensures
        match joins_result(ft.deep_view(), cat_view(lookup)) {
            Lowered::Good(t) => r matches Ok(js) && sql::joins_sql(js@, 0) == t,
            Lowered::NoLookup => r matches Err(
                crate::Error::TableError(crate::ast::TableError::NoSuppliedTableLookup),
            ),
            Lowered::NotFound(n) => r matches Err(
                crate::Error::TableError(crate::ast::TableError::TableNotFound(m)),
            ) && m@ == n,
            Lowered::Unconv => r matches Err(crate::Error::GenericError(_)),
        },
    decreases ft, 0int,
{
    match &ft.join {
        None => {
            let out: Vec<sql::Join> = Vec::new();
            proof {
                assert(sql::joins_sql(out@, 0) =~= Seq::<char>::empty());
            }
            Ok(out)
        },
        Some((jt, rest)) => {
            proof {
                assert(ft.deep_view() == crate::ast::table::FromTableV::Join(
                    ft.from.name@,
                    *jt,
                    Box::new(rest.deep_view()),
                ));
            }
            extract_joins_step(&ft.from, jt, rest, lookup)
        },
    }
}

/// Join-clause text of a cons splits into head and tail.
proof fn lemma_joins_sql_cons(js: Seq<sql::Join>, tail: Seq<sql::Join>)
    requires
        js.len() == tail.len() + 1,
        forall|j: int| 0 <= j < tail.len() ==> js[j + 1] == tail[j],
    ensures
        sql::joins_sql(js, 0) == sql::join_sql(&js[0]) + sql::joins_sql(tail, 0),
{
    lemma_joins_sql_shift(js, 0, tail);
}

/// Join-clause text from position one equals the tail's text.
proof fn lemma_joins_sql_shift(js: Seq<sql::Join>, i: int, tail: Seq<sql::Join>)
    requires
        0 <= i,
        js.len() == tail.len() + 1,
        forall|j: int| 0 <= j < tail.len() ==> js[j + 1] == tail[j],
    ensures
        sql::joins_sql(js, i + 1) == sql::joins_sql(tail, i),
    decreases js.len() - i,
{
    if i < tail.len() {
        lemma_joins_sql_shift(js, i + 1, tail);
    }
}



/// The SQL text of one projection entry.
pub open spec fn sel_item_text(er: crate::ast::expr::ExprRenameV) -> Seq<char> {
    match er.rename {
        Some(a) => le_text(er.expr) + " AS "@ + a,
        None => le_text(er.expr),
    }
}

/// The SQL texts of the projection entries from `i` on.
pub open spec fn sel_items_text(p: Seq<crate::ast::expr::ExprRenameV>, i: int) -> Seq<char>
    decreases p.len() - i,
{
    if i < 0 || i >= p.len() {
        Seq::empty()
    } else if i == p.len() - 1 {
        sel_item_text(p[i])
    } else {
        sel_item_text(p[i]) + ", "@ + sel_items_text(p, i + 1)
    }
}

/// Whether the projection entries from `i` on are lowerable.
pub open spec fn renames_lowerable(p: Seq<crate::ast::expr::ExprRenameV>, i: int) -> bool
    decreases p.len() - i,
{
    if i < 0 || i >= p.len() {
        true
    } else {
        expr_lowerable(p[i].expr) && renames_lowerable(p, i + 1)
    }
}

/// The SQL text of the projection: a wildcard when absent.
pub open spec fn projection_text(p: Option<Seq<crate::ast::expr::ExprRenameV>>) -> Seq<char> {
    match p {
        Some(es) => sel_items_text(es, 0),
        None => "*"@,
    }
}

/// Whether an optional expression is lowerable.
pub open spec fn opt_lowerable(e: Option<ExprV>) -> bool {
    match e {
        Some(x) => expr_lowerable(x),
        None => true,
    }
}

/// Whether the order-by entries from `i` on are lowerable.
pub open spec fn orders_lowerable(os: Seq<crate::ast::OrderV>, i: int) -> bool
    decreases os.len() - i,
{
    if i < 0 || i >= os.len() {
        true
    } else {
        expr_lowerable(os[i].expr) && orders_lowerable(os, i + 1)
    }
}

/// Whether every expression of the select is lowerable.
pub open spec fn select_lowerable(sv: crate::ast::SelectV) -> bool {
    (match sv.projection {
        Some(p) => renames_lowerable(p, 0),
        None => true,
    }) && opt_lowerable(sv.filter) && (match sv.group_by {
        Some(g) => exprs_lowerable(g, 0),
        None => true,
    }) && opt_lowerable(sv.having) && (match sv.order_by {
        Some(os) => orders_lowerable(os, 0),
        None => true,
    })
}

/// The SQL text of a lowered select, without ordering and range.
pub open spec fn select_lower(
    sv: crate::ast::SelectV,
    cat: Option<Seq<crate::ast::ddl::TableDefV>>,
) -> Lowered {
    if !select_lowerable(sv) {
        Lowered::Unconv
    } else {
        match joins_result(sv.from_table, cat) {
            Lowered::Good(jt) => Lowered::Good(
                "SELECT "@ + projection_text(sv.projection) + " FROM "@ + sv.from_table.head()
                    + jt + (match sv.filter {
                    Some(f) => " WHERE "@ + le_text(f),
                    None => Seq::<char>::empty(),
                }) + (match sv.group_by {
                    Some(g) => if g.len() > 0 {
                        " GROUP BY "@ + le_list_text(g, 0)
                    } else {
                        Seq::<char>::empty()
                    },
                    None => Seq::<char>::empty(),
                }) + (match sv.having {
                    Some(h) => " HAVING "@ + le_text(h),
                    None => Seq::<char>::empty(),
                }),
            ),
            Lowered::NoLookup => Lowered::NoLookup,
            Lowered::NotFound(n) => Lowered::NotFound(n),
            Lowered::Unconv => Lowered::Unconv,
        }
    }
}

/// The SQL text of the order-by entries from `i` on.
pub open spec fn orders_lower_text(os: Seq<crate::ast::OrderV>, i: int) -> Seq<char>
    decreases os.len() - i,
{
    if i < 0 || i >= os.len() {
        Seq::empty()
    } else {
        let one = le_text(os[i].expr) + (match os[i].direction {
            Some(crate::ast::Direction::Asc) => " ASC"@,
            Some(crate::ast::Direction::Desc) => " DESC"@,
            None => Seq::<char>::empty(),
        });
        if i == os.len() - 1 {
            one
        } else {
            one + ", "@ + orders_lower_text(os, i + 1)
        }
    }
}

/// The SQL text of a lowered query: the select, then ORDER BY, LIMIT, and
/// OFFSET as the range demands.
pub open spec fn query_lower(
    sv: crate::ast::SelectV,
    cat: Option<Seq<crate::ast::ddl::TableDefV>>,
) -> Lowered {
    match select_lower(sv, cat) {
        Lowered::Good(t) => Lowered::Good(
            t + (match sv.order_by {
                Some(os) => if os.len() > 0 {
                    " ORDER BY "@ + orders_lower_text(os, 0)
                } else {
                    Seq::<char>::empty()
                },
                None => Seq::<char>::empty(),
            }) + (match sv.range {
                Some(rg) => " LIMIT "@ + crate::ast::parser::utils::dec_int_digits(
                    rg.spec_limit(),
                ) + (match rg.spec_offset() {
                    Some(o) => " OFFSET "@ + crate::ast::parser::utils::dec_int_digits(o),
                    None => Seq::<char>::empty(),
                }),
                None => Seq::<char>::empty(),
            }),
        ),
        Lowered::NoLookup => Lowered::NoLookup,
        Lowered::NotFound(n) => Lowered::NotFound(n),
        Lowered::Unconv => Lowered::Unconv,
    }
}

/// Lowers the projection entries from `i` on.
fn lower_sel_items(p: &Vec<crate::ast::ExprRename>, i: usize) -> (r: Result<
    Vec<sql::SelectItem>,
    crate::Error,
>)
    requires
        i <= p@.len(),
    ensures
        match r {
            Ok(x) => renames_lowerable(p.deep_view(), i as int) && sql::select_items_sql(x@, 0)
                == sel_items_text(p.deep_view(), i as int) && x@.len() == p@.len() - i,
            Err(e) => !renames_lowerable(p.deep_view(), i as int) && (
            e matches crate::Error::GenericError(_)),
        },
    decreases p@.len() - i,
{
    broadcast use crate::ast::parser::utils::lemma_seq_add_assoc;

    if i < p.len() {
        let e = match lower_expr(&p[i].expr) {
            Ok(x) => x,
            Err(x) => {
                return Err(x);
            },
        };
        let item = match &p[i].rename {
            Some(a) => sql::SelectItem::ExprWithAlias { expr: e, alias: a.clone() },
            None => sql::SelectItem::UnnamedExpr(e),
        };
        match lower_sel_items(p, i + 1) {
            Ok(rest) => {
                let mut out = rest;
                let ghost r0 = out@;
                let ghost it0 = sql::select_item_sql(&item);
                out.insert(0, item);
                proof {
                    assert(out@.drop_first() =~= r0);
                    lemma_sel_items_cons(out@, p.deep_view(), i as int);
                }
                Ok(out)
            },
            Err(x) => Err(x),
        }
    } else {
        let out: Vec<sql::SelectItem> = Vec::new();
        Ok(out)
    }
}

/// A cons whose head text matches extends projection-text equality.
proof fn lemma_sel_items_cons(
    items: Seq<sql::SelectItem>,
    p: Seq<crate::ast::expr::ExprRenameV>,
    i: int,
)
    requires
        0 <= i < p.len(),
        items.len() == p.len() - i,
        sql::select_item_sql(&items[0]) == sel_item_text(p[i]),
        sql::select_items_sql(items.drop_first(), 0) == sel_items_text(p, i + 1),
    ensures
        sql::select_items_sql(items, 0) == sel_items_text(p, i),
{
    lemma_sel_items_shift(items, 0);
}

/// Projection text from position one equals the tail's text.
proof fn lemma_sel_items_shift(items: Seq<sql::SelectItem>, i: int)
    requires
        0 <= i < items.len(),
    ensures
        sql::select_items_sql(items, i + 1) == sql::select_items_sql(items.drop_first(), i),
    decreases items.len() - i,
{
    if i + 1 < items.len() {
        lemma_sel_items_shift(items, i + 1);
        assert(items.drop_first()[i] == items[i + 1]);
    }
}

/// Lowers the order-by entries from `i` on.
fn lower_orders(os: &Vec<crate::ast::Order>, i: usize) -> (r: Result<
    Vec<sql::OrderByExpr>,
    crate::Error,
>)
    requires
        i <= os@.len(),
    ensures
        match r {
            Ok(x) => orders_lowerable(os.deep_view(), i as int) && sql::order_bys_sql(x@, 0)
                == orders_lower_text(os.deep_view(), i as int) && x@.len() == os@.len() - i,
            Err(e) => !orders_lowerable(os.deep_view(), i as int) && (
            e matches crate::Error::GenericError(_)),
        },
    decreases os@.len() - i,
{
    broadcast use crate::ast::parser::utils::lemma_seq_add_assoc;

    if i < os.len() {
        let e = match lower_expr(&os[i].expr) {
            Ok(x) => x,
            Err(x) => {
                return Err(x);
            },
        };
        let asc = match os[i].direction {
            Some(crate::ast::Direction::Asc) => Some(true),
            Some(crate::ast::Direction::Desc) => Some(false),
            None => None,
        };
        let entry = sql::OrderByExpr { expr: e, asc };
        match lower_orders(os, i + 1) {
            Ok(rest) => {
                let mut out = rest;
                let ghost r0 = out@;
                out.insert(0, entry);
                proof {
                    assert(out@.drop_first() =~= r0);
                    lemma_orders_cons(out@, os.deep_view(), i as int);
                }
                Ok(out)
            },
            Err(x) => Err(x),
        }
    } else {
        let out: Vec<sql::OrderByExpr> = Vec::new();
        Ok(out)
    }
}

/// A cons whose head text matches extends order-text equality.
proof fn lemma_orders_cons(items: Seq<sql::OrderByExpr>, os: Seq<crate::ast::OrderV>, i: int)
    requires
        0 <= i < os.len(),
        items.len() == os.len() - i,
        sql::order_by_sql(&items[0]) == le_text(os[i].expr) + (match os[i].direction {
            Some(crate::ast::Direction::Asc) => " ASC"@,
            Some(crate::ast::Direction::Desc) => " DESC"@,
            None => Seq::<char>::empty(),
        }),
        sql::order_bys_sql(items.drop_first(), 0) == orders_lower_text(os, i + 1),
    ensures
        sql::order_bys_sql(items, 0) == orders_lower_text(os, i),
{
    lemma_orders_shift(items, 0);
}

/// Order text from position one equals the tail's text.
proof fn lemma_orders_shift(items: Seq<sql::OrderByExpr>, i: int)
    requires
        0 <= i < items.len(),
    ensures
        sql::order_bys_sql(items, i + 1) == sql::order_bys_sql(items.drop_first(), i),
    decreases items.len() - i,
{
    if i + 1 < items.len() {
        lemma_orders_shift(items, i + 1);
        assert(items.drop_first()[i] == items[i + 1]);
    }
}

impl crate::ast::Select {
    /// Lowers this select to a SQL select, expanding joins with the catalog.
    #[verifier::rlimit(100)]
    pub fn into_sql_select(&self, table_lookup: Option<&crate::ast::TableLookup>) -> (r: Result<
        sql::Select,
        crate::Error,
    >)
        ensures
            match select_lower(self.deep_view(), cat_view(table_lookup)) {
                Lowered::Good(t) => r matches Ok(x) && sql::select_sql(&x) == t,
                Lowered::NoLookup => r matches Err(
                    crate::Error::TableError(crate::ast::TableError::NoSuppliedTableLookup),
                ),
                Lowered::NotFound(n) => r matches Err(
                    crate::Error::TableError(crate::ast::TableError::TableNotFound(m)),
                ) && m@ == n,
                Lowered::Unconv => r matches Err(crate::Error::GenericError(_)),
            },
    {
        broadcast use crate::ast::parser::utils::lemma_seq_add_assoc;

        let projection: Vec<sql::SelectItem> = match &self.projection {
            Some(p) => {
                match lower_sel_items(p, 0) {
                    Ok(x) => x,
                    Err(x) => {
                        return Err(x);
                    },
                }
            },
            None => {
                let mut w: Vec<sql::SelectItem> = Vec::new();
                w.push(sql::SelectItem::Wildcard);
                proof {
                    reveal_strlit("*");
                    assert(sql::select_items_sql(w@, 0) =~= "*"@);
                }
                w
            },
        };
        let selection: Option<sql::Expr> = match &self.filter {
            Some(f) => {
                match lower_expr(f) {
                    Ok(x) => Some(x),
                    Err(x) => {
                        return Err(x);
                    },
                }
            },
            None => None,
        };
        let group_by: Vec<sql::Expr> = match &self.group_by {
            Some(g) => {
                match lower_exprs(g, 0) {
                    Ok(x) => {
                        proof {
                            assert(g.deep_view().len() > 0 || g.deep_view().len() == 0);
                        }
                        x
                    },
                    Err(x) => {
                        return Err(x);
                    },
                }
            },
            None => Vec::new(),
        };
        let having: Option<sql::Expr> = match &self.having {
            Some(h) => {
                match lower_expr(h) {
                    Ok(x) => Some(x),
                    Err(x) => {
                        return Err(x);
                    },
                }
            },
            None => None,
        };
        match &self.order_by {
            Some(os) => {
                match lower_orders(os, 0) {
                    Ok(_) => {},
                    Err(x) => {
                        return Err(x);
                    },
                }
            },
            None => {},
        }
        let joins = match extract_joins(&self.from_table, table_lookup) {
            Ok(js) => js,
            Err(x) => {
                return Err(x);
            },
        };
        let out = sql::Select {
            projection,
            from: self.from_table.from.name.clone(),
            joins,
            selection,
            group_by,
            having,
        };
        proof {
            assert(self.from_table.deep_view().head() == self.from_table.from.name@);
        }
        Ok(out)
    }

    /// Lowers this select to a SQL query, carrying the ordering and range.
    #[verifier::rlimit(100)]
    pub fn into_sql_query(&self, table_lookup: Option<&crate::ast::TableLookup>) -> (r: Result<
        sql::Query,
        crate::Error,
    >)
        requires
            match self.range {
                Some(rg) => rg.offset_in_range(),
                None => true,
            },
        ensures
            match query_lower(self.deep_view(), cat_view(table_lookup)) {
                Lowered::Good(t) => r matches Ok(x) && sql::query_sql(&x) == t && (match self.range {
                    Some(rg) => x.limit == Some(rg.spec_limit() as i64) && (match rg.spec_offset() {
                        Some(o) => x.offset == Some(o as i64),
                        None => x.offset is None,
                    }),
                    None => x.limit is None && x.offset is None,
                }),
                Lowered::NoLookup => r matches Err(
                    crate::Error::TableError(crate::ast::TableError::NoSuppliedTableLookup),
                ),
                Lowered::NotFound(n) => r matches Err(
                    crate::Error::TableError(crate::ast::TableError::TableNotFound(m)),
                ) && m@ == n,
                Lowered::Unconv => r matches Err(crate::Error::GenericError(_)),
            },
    {
        broadcast use crate::ast::parser::utils::lemma_seq_add_assoc;

        let order_by: Vec<sql::OrderByExpr> = match &self.order_by {
            Some(os) => {
                match lower_orders(os, 0) {
                    Ok(x) => x,
                    Err(x) => {
                        return Err(x);
                    },
                }
            },
            None => Vec::new(),
        };
        let sel = match self.into_sql_select(table_lookup) {
            Ok(x) => x,
            Err(x) => {
                return Err(x);
            },
        };
        let (limit, offset): (Option<i64>, Option<i64>) = match &self.range {
            Some(rg) => (Some(rg.limit()), rg.offset()),
            None => (None, None),
        };
        let out = sql::Query { body: sql::SetExpr::Select(Box::new(sel)), order_by, limit, offset };
        Ok(out)
    }

    /// Lowers this select to a SQL statement.
    pub fn into_sql_statement(&self, table_lookup: Option<&crate::ast::TableLookup>) -> (r: Result<
        sql::Statement,
        crate::Error,
    >)
        requires
            match self.range {
                Some(rg) => rg.offset_in_range(),
                None => true,
            },
        ensures
            match query_lower(self.deep_view(), cat_view(table_lookup)) {
                Lowered::Good(t) => r matches Ok(x) && sql::statement_sql(&x) == t,
                Lowered::NoLookup => r matches Err(
                    crate::Error::TableError(crate::ast::TableError::NoSuppliedTableLookup),
                ),
                Lowered::NotFound(n) => r matches Err(
                    crate::Error::TableError(crate::ast::TableError::TableNotFound(m)),
                ) && m@ == n,
                Lowered::Unconv => r matches Err(crate::Error::GenericError(_)),
            },
    {
        match self.into_sql_query(table_lookup) {
            Ok(q) => Ok(sql::Statement::Query(Box::new(q))),
            Err(x) => Err(x),
        }
    }
}



/// The SQL text of one UPDATE assignment.
pub open spec fn asg_text(col: Seq<char>, v: ValueV) -> Seq<char> {
    col + " = "@ + lv_text(v)
}

/// The SQL texts of the assignments from `i` on, over the shorter of the
/// column and value lists.
pub open spec fn asgs_text(cols: Seq<Seq<char>>, vals: Seq<ValueV>, i: int) -> Seq<char>
    decreases cols.len() - i,
{
    let n = if cols.len() <= vals.len() {
        cols.len() as int
    } else {
        vals.len() as int
    };
    if i < 0 || i >= n {
        Seq::empty()
    } else if i == n - 1 {
        asg_text(cols[i], vals[i])
    } else {
        asg_text(cols[i], vals[i]) + ", "@ + asgs_text(cols, vals, i + 1)
    }
}

/// The SQL text of a lowered update.
pub open spec fn update_lower(uv: crate::ast::dml::UpdateV) -> Lowered {
    if !opt_lowerable(uv.condition) {
        Lowered::Unconv
    } else {
        Lowered::Good(
            "UPDATE "@ + uv.table + " SET "@ + asgs_text(uv.columns, uv.values, 0) + (
            match uv.condition {
                Some(c) => " WHERE "@ + le_text(c),
                None => Seq::<char>::empty(),
            }),
        )
    }
}

/// Builds the UPDATE assignments of the paired columns and values.
fn lower_assignments(
    cols: &Vec<crate::ast::ColumnName>,
    vals: &Vec<crate::ast::Value>,
    i: usize,
) -> (r: Vec<sql::Assignment>)
    requires
        i <= cols@.len(),
        i <= vals@.len(),
    ensures
        sql::assignments_sql(r@, 0) == asgs_text(cols.deep_view(), vals.deep_view(), i as int),
        r@.len() == (if cols@.len() <= vals@.len() {
            cols@.len() as int
        } else {
            vals@.len() as int
        }) - i,
    decreases cols@.len() - i,
{
    broadcast use crate::ast::parser::utils::lemma_seq_add_assoc;

    if i < cols.len() && i < vals.len() {
        let a = sql::Assignment {
            id: cols[i].name.clone(),
            value: sql::Expr::Value(lower_value(&vals[i])),
        };
        let rest = lower_assignments(cols, vals, i + 1);
        let mut out = rest;
        let ghost r0 = out@;
        out.insert(0, a);
        proof {
            reveal_strlit(" = ");
            reveal_strlit("=");
            reveal_strlit(" ");
            assert(out@.drop_first() =~= r0);
            lemma_asgs_cons(out@, cols.deep_view(), vals.deep_view(), i as int);
        }
        out
    } else {
        let out: Vec<sql::Assignment> = Vec::new();
        out
    }
}

/// A cons whose head text matches extends assignment-text equality.
proof fn lemma_asgs_cons(
    items: Seq<sql::Assignment>,
    cols: Seq<Seq<char>>,
    vals: Seq<ValueV>,
    i: int,
)
    requires
        0 <= i,
        i < cols.len(),
        i < vals.len(),
        items.len() == (if cols.len() <= vals.len() {
            cols.len() as int
        } else {
            vals.len() as int
        }) - i,
        sql::assignment_sql(&items[0]) == asg_text(cols[i], vals[i]),
        sql::assignments_sql(items.drop_first(), 0) == asgs_text(cols, vals, i + 1),
    ensures
        sql::assignments_sql(items, 0) == asgs_text(cols, vals, i),
{
    lemma_asgs_shift(items, 0);
}

/// Assignment text from position one equals the tail's text.
proof fn lemma_asgs_shift(items: Seq<sql::Assignment>, i: int)
    requires
        0 <= i < items.len(),
    ensures
        sql::assignments_sql(items, i + 1) == sql::assignments_sql(items.drop_first(), i),
    decreases items.len() - i,
{
    if i + 1 < items.len() {
        lemma_asgs_shift(items, i + 1);
        assert(items.drop_first()[i] == items[i + 1]);
    }
}

impl crate::ast::Update {
    /// Lowers this update to a SQL statement.
    pub fn into_sql_statement(&self) -> (r: Result<sql::Statement, crate::Error>)
        ensures
            match update_lower(self.deep_view()) {
                Lowered::Good(t) => r matches Ok(x) && sql::statement_sql(&x) == t,
                Lowered::Unconv => r matches Err(crate::Error::GenericError(_)),
                _ => true,
            },
    {
        broadcast use crate::ast::parser::utils::lemma_seq_add_assoc;

        let n = if self.columns.len() <= self.values.len() {
            self.columns.len()
        } else {
            self.values.len()
        };
        let assignments = lower_assignments(&self.columns, &self.values, 0);
        let selection: Option<sql::Expr> = match &self.condition {
            Some(c) => {
                match lower_expr(c) {
                    Ok(x) => Some(x),
                    Err(x) => {
                        return Err(x);
                    },
                }
            },
            None => None,
        };
        Ok(
            sql::Statement::Update {
                table_name: self.table.name.clone(),
                assignments,
                selection,
            },
        )
    }
}

/// The SQL text of a lowered delete.
pub open spec fn delete_lower(dv: crate::ast::dml::DeleteV) -> Lowered {
    if !opt_lowerable(dv.condition) {
        Lowered::Unconv
    } else {
        Lowered::Good(
            "DELETE FROM "@ + dv.from + (match dv.condition {
                Some(c) => " WHERE "@ + le_text(c),
                None => Seq::<char>::empty(),
            }),
        )
    }
}

impl crate::ast::Delete {
    /// Lowers this delete to a SQL statement.
    pub fn into_sql_statement(&self) -> (r: Result<sql::Statement, crate::Error>)
        ensures
            match delete_lower(self.deep_view()) {
                Lowered::Good(t) => r matches Ok(x) && sql::statement_sql(&x) == t,
                Lowered::Unconv => r matches Err(crate::Error::GenericError(_)),
                _ => true,
            },
    {
        let selection: Option<sql::Expr> = match &self.condition {
            Some(c) => {
                match lower_expr(c) {
                    Ok(x) => Some(x),
                    Err(x) => {
                        return Err(x);
                    },
                }
            },
            None => None,
        };
        Ok(sql::Statement::Delete { table_name: self.from.name.clone(), selection })
    }
}

/// The SQL text of a lowered table drop.
pub open spec fn drop_table_lower(name: Seq<char>) -> Seq<char> {
    "DROP TABLE IF EXISTS "@ + name + " CASCADE"@
}

impl crate::ast::DropTable {
    /// Lowers this drop to a SQL statement.
    pub fn into_sql_statement(&self) -> (r: Result<sql::Statement, crate::Error>)
        ensures
            r matches Ok(x) && sql::statement_sql(&x) == drop_table_lower(self.table.name@),
    {
        broadcast use crate::ast::parser::utils::lemma_seq_add_assoc;

        let mut names: Vec<String> = Vec::new();
        names.push(self.table.name.clone());
        let out = sql::Statement::Drop { names };
        proof {
            assert(sql::statement_sql(&out) =~= drop_table_lower(self.table.name@));
        }
        Ok(out)
    }
}




/// The changed column-value pairs of one bulk-update row: the columns whose
/// new value differs from the old, each with its new value, in column
/// order, over the shortest of the three lists.
pub open spec fn changed_count(
    cols: Seq<Seq<char>>,
    olds: Seq<ValueV>,
    news: Seq<ValueV>,
    i: int,
) -> int
    decreases cols.len() - i,
{
    let m = min3(cols.len() as int, olds.len() as int, news.len() as int);
    if i < 0 || i >= m {
        0
    } else if olds[i] == news[i] {
        changed_count(cols, olds, news, i + 1)
    } else {
        1 + changed_count(cols, olds, news, i + 1)
    }
}

/// The least of three lengths.
pub open spec fn min3(a: int, b: int, c: int) -> int {
    if a <= b && a <= c {
        a
    } else if b <= a && b <= c {
        b
    } else {
        c
    }
}

/// The changed columns of one bulk-update row, in order.
pub open spec fn changed_cols(
    cols: Seq<Seq<char>>,
    olds: Seq<ValueV>,
    news: Seq<ValueV>,
    i: int,
) -> Seq<Seq<char>>
    decreases cols.len() - i,
{
    let m = min3(cols.len() as int, olds.len() as int, news.len() as int);
    if i < 0 || i >= m {
        Seq::empty()
    } else if olds[i] == news[i] {
        changed_cols(cols, olds, news, i + 1)
    } else {
        seq![cols[i]] + changed_cols(cols, olds, news, i + 1)
    }
}

/// The new values of the changed columns of one bulk-update row, in order.
pub open spec fn changed_vals(
    cols: Seq<Seq<char>>,
    olds: Seq<ValueV>,
    news: Seq<ValueV>,
    i: int,
) -> Seq<ValueV>
    decreases cols.len() - i,
{
    let m = min3(cols.len() as int, olds.len() as int, news.len() as int);
    if i < 0 || i >= m {
        Seq::empty()
    } else if olds[i] == news[i] {
        changed_vals(cols, olds, news, i + 1)
    } else {
        seq![news[i]] + changed_vals(cols, olds, news, i + 1)
    }
}

/// Compares two coarse values by their mathematical shape.
pub fn value_eq(a: &crate::ast::Value, b: &crate::ast::Value) -> (r: bool)
    ensures
        r == (a.deep_view() == b.deep_view()),
{
    match a {
        crate::ast::Value::Null => match b {
            crate::ast::Value::Null => true,
            _ => false,
        },
        crate::ast::Value::String(x) => match b {
            crate::ast::Value::String(y) => crate::ast::parser::utils::str_eq(
                x.as_str(),
                y.as_str(),
            ),
            _ => false,
        },
        crate::ast::Value::Number(x) => match b {
            crate::ast::Value::Number(y) => crate::ast::parser::utils::str_eq(
                x.as_str(),
                y.as_str(),
            ),
            _ => false,
        },
        crate::ast::Value::Bool(x) => match b {
            crate::ast::Value::Bool(y) => x == y,
            _ => false,
        },
    }
}

/// The first old value paired with the named column, where one stands.
pub open spec fn find_old_value(
    cols: Seq<Seq<char>>,
    olds: Seq<ValueV>,
    name: Seq<char>,
    i: int,
) -> Option<ValueV>
    decreases cols.len() - i,
{
    let m = if cols.len() <= olds.len() {
        cols.len() as int
    } else {
        olds.len() as int
    };
    if i < 0 || i >= m {
        None
    } else if cols[i] == name {
        Some(olds[i])
    } else {
        find_old_value(cols, olds, name, i + 1)
    }
}

/// Finds the first old value paired with the named column.
fn find_old_value_at(
    cols: &Vec<crate::ast::ColumnName>,
    olds: &Vec<crate::ast::Value>,
    name: &crate::ast::ColumnName,
    i: usize,
) -> (r: Option<crate::ast::Value>)
    requires
        i <= cols@.len(),
    ensures
        match r {
            Some(v) => find_old_value(cols.deep_view(), olds.deep_view(), name.name@, i as int)
                == Some(v.deep_view()),
            None => find_old_value(
                cols.deep_view(),
                olds.deep_view(),
                name.name@,
                i as int,
            ) is None,
        },
    decreases cols@.len() - i,
{
    if i < cols.len() && i < olds.len() {
        if crate::ast::parser::utils::str_eq(cols[i].name.as_str(), name.name.as_str()) {
            Some(olds[i].clone())
        } else {
            find_old_value_at(cols, olds, name, i + 1)
        }
    } else {
        None
    }
}

/// The primary-key filter of a bulk row: the conjunction, in primary-key
/// order, of `pk = old` for each primary column paired with an old value;
/// nothing when no primary column pairs.
pub open spec fn pk_filter(
    pks: Seq<crate::ast::ddl::ColumnDefV>,
    cols: Seq<Seq<char>>,
    olds: Seq<ValueV>,
) -> Option<ExprV>
    decreases pks.len(),
{
    if pks.len() == 0 {
        None
    } else {
        let rest = pk_filter(pks.drop_last(), cols, olds);
        match find_old_value(cols, olds, pks.last().column, 0) {
            Some(v) => {
                let eq = ExprV::BinaryOperation(
                    Box::new(
                        crate::ast::expr::BinaryOperationV {
                            left: ExprV::Column(pks.last().column),
                            operator: Operator::Eq,
                            right: ExprV::Value(v),
                        },
                    ),
                );
                match rest {
                    Some(prev) => Some(
                        ExprV::BinaryOperation(
                            Box::new(
                                crate::ast::expr::BinaryOperationV {
                                    left: prev,
                                    operator: Operator::And,
                                    right: eq,
                                },
                            ),
                        ),
                    ),
                    None => Some(eq),
                }
            },
            None => rest,
        }
    }
}

/// Builds the primary-key filter of a bulk row.
pub fn build_filter_from_columns(
    columns: &Vec<crate::ast::ColumnName>,
    old_values: &Vec<crate::ast::Value>,
    primary_columns: &Vec<&crate::ast::ddl::ColumnDef>,
) -> (r: Option<crate::ast::Expr>)
    ensures
        match r {
            Some(e) => pk_filter(
                primary_columns.deep_view(),
                columns.deep_view(),
                old_values.deep_view(),
            ) == Some(e.deep_view()),
            None => pk_filter(
                primary_columns.deep_view(),
                columns.deep_view(),
                old_values.deep_view(),
            ) is None,
        },
{
    let mut acc: Option<crate::ast::Expr> = None;
    let mut i: usize = 0;
    while i < primary_columns.len()
        invariant
            i <= primary_columns@.len(),
            primary_columns.deep_view().len() == primary_columns@.len(),
            match acc {
                Some(e) => pk_filter(
                    primary_columns.deep_view().take(i as int),
                    columns.deep_view(),
                    old_values.deep_view(),
                ) == Some(e.deep_view()),
                None => pk_filter(
                    primary_columns.deep_view().take(i as int),
                    columns.deep_view(),
                    old_values.deep_view(),
                ) is None,
            },
        decreases primary_columns@.len() - i,
    {
        proof {
            reveal_with_fuel(crate::ast::expr::expr_deep, 3);
            assert(primary_columns.deep_view().take(i + 1).drop_last()
                =~= primary_columns.deep_view().take(i as int));
            assert(primary_columns.deep_view().take(i + 1).last()
                == primary_columns.deep_view()[i as int]);
        }
        match find_old_value_at(columns, old_values, &primary_columns[i].column, 0) {
            Some(v) => {
                let eq = crate::ast::Expr::BinaryOperation(
                    Box::new(
                        crate::ast::BinaryOperation {
                            left: crate::ast::Expr::Column(primary_columns[i].column.clone()),
                            operator: Operator::Eq,
                            right: crate::ast::Expr::Value(v),
                        },
                    ),
                );
                acc = match acc {
                    Some(prev) => Some(
                        crate::ast::Expr::BinaryOperation(
                            Box::new(
                                crate::ast::BinaryOperation {
                                    left: prev,
                                    operator: Operator::And,
                                    right: eq,
                                },
                            ),
                        ),
                    ),
                    None => Some(eq),
                };
            },
            None => {},
        }
        i += 1;
    }
    proof {
        assert(primary_columns.deep_view().take(primary_columns@.len() as int)
            =~= primary_columns.deep_view());
    }
    acc
}

/// The old half of a bulk row: its first `n` values.
pub open spec fn row_olds(row: Seq<ValueV>, n: int) -> Seq<ValueV> {
    if n <= row.len() {
        row.take(n)
    } else {
        row
    }
}

/// The new half of a bulk row: its values after the first `n`.
pub open spec fn row_news(row: Seq<ValueV>, n: int) -> Seq<ValueV> {
    if n <= row.len() {
        row.skip(n)
    } else {
        Seq::empty()
    }
}

/// Splits a bulk row into its old and new halves.
fn split_row(row: &Vec<crate::ast::Value>, n: usize) -> (r: (
    Vec<crate::ast::Value>,
    Vec<crate::ast::Value>,
))
    ensures
        r.0.deep_view() == row_olds(row.deep_view(), n as int),
        r.1.deep_view() == row_news(row.deep_view(), n as int),
{
    let ghost rv = row.deep_view();
    let mut olds: Vec<crate::ast::Value> = Vec::new();
    let mut news: Vec<crate::ast::Value> = Vec::new();
    let mut i: usize = 0;
    while i < row.len()
        invariant
            rv == row.deep_view(),
            rv.len() == row@.len(),
            i <= row@.len(),
            olds.deep_view() =~= rv.take(if i <= n {
                i as int
            } else {
                n as int
            }),
            news.deep_view() =~= (if i <= n {
                Seq::<ValueV>::empty()
            } else {
                rv.subrange(n as int, i as int)
            }),
        decreases row@.len() - i,
    {
        let ghost o0 = olds.deep_view();
        let ghost n0 = news.deep_view();
        if i < n {
            olds.push(row[i].clone());
            proof {
                assert(olds.deep_view() =~= o0.push(rv[i as int]));
                assert(rv.take(if i + 1 <= n {
                    i + 1
                } else {
                    n as int
                }) =~= rv.take(i as int).push(rv[i as int]));
            }
        } else {
            news.push(row[i].clone());
            proof {
                assert(news.deep_view() =~= n0.push(rv[i as int]));
                assert(rv.subrange(n as int, i + 1) =~= (if i <= n {
                    Seq::<ValueV>::empty()
                } else {
                    rv.subrange(n as int, i as int)
                }).push(rv[i as int]));
            }
        }
        i += 1;
    }
    proof {
        if n <= rv.len() {
            assert(olds.deep_view() =~= rv.take(n as int));
            assert(news.deep_view() =~= rv.skip(n as int));
        } else {
            assert(olds.deep_view() =~= rv);
            assert(news.deep_view() =~= Seq::<ValueV>::empty());
        }
    }
    (olds, news)
}

/// Collects the changed columns and their new values of one bulk row.
fn collect_changed(
    cols: &Vec<crate::ast::ColumnName>,
    olds: &Vec<crate::ast::Value>,
    news: &Vec<crate::ast::Value>,
) -> (r: (Vec<crate::ast::ColumnName>, Vec<crate::ast::Value>))
    ensures
        r.0.deep_view() == changed_cols(cols.deep_view(), olds.deep_view(), news.deep_view(), 0),
        r.1.deep_view() == changed_vals(cols.deep_view(), olds.deep_view(), news.deep_view(), 0),
        r.0.deep_view().len() == changed_count(
            cols.deep_view(),
            olds.deep_view(),
            news.deep_view(),
            0,
        ),
{
    let ghost cv = cols.deep_view();
    let ghost ov = olds.deep_view();
    let ghost nv = news.deep_view();
    let mut out_c: Vec<crate::ast::ColumnName> = Vec::new();
    let mut out_v: Vec<crate::ast::Value> = Vec::new();
    let mut i: usize = 0;
    let m = if cols.len() <= olds.len() && cols.len() <= news.len() {
        cols.len()
    } else if olds.len() <= cols.len() && olds.len() <= news.len() {
        olds.len()
    } else {
        news.len()
    };
    proof {
        assert(m as int == min3(cv.len() as int, ov.len() as int, nv.len() as int));
    }
    while i < m
        invariant
            cv == cols.deep_view(),
            ov == olds.deep_view(),
            nv == news.deep_view(),
            m as int == min3(cv.len() as int, ov.len() as int, nv.len() as int),
            m <= cols@.len() && m <= olds@.len() && m <= news@.len(),
            i <= m,
            out_c.deep_view() + changed_cols(cv, ov, nv, i as int) =~= changed_cols(cv, ov, nv, 0),
            out_v.deep_view() + changed_vals(cv, ov, nv, i as int) =~= changed_vals(cv, ov, nv, 0),
            out_c.deep_view().len() + changed_count(cv, ov, nv, i as int) == changed_count(
                cv,
                ov,
                nv,
                0,
            ),
        decreases m - i,
    {
        let ghost oc0 = out_c.deep_view();
        let ghost ov0 = out_v.deep_view();
        if !value_eq(&olds[i], &news[i]) {
            out_c.push(cols[i].clone());
            out_v.push(news[i].clone());
            proof {
                assert(out_c.deep_view() =~= oc0.push(cv[i as int]));
                assert(out_v.deep_view() =~= ov0.push(nv[i as int]));
                assert(out_c.deep_view() + changed_cols(cv, ov, nv, i + 1) =~= oc0 + (seq![
                    cv[i as int],
                ] + changed_cols(cv, ov, nv, i + 1)));
                assert(out_v.deep_view() + changed_vals(cv, ov, nv, i + 1) =~= ov0 + (seq![
                    nv[i as int],
                ] + changed_vals(cv, ov, nv, i + 1)));
            }
        }
        i += 1;
    }
    proof {
        assert(changed_cols(cv, ov, nv, m as int) =~= Seq::<Seq<char>>::empty());
        assert(changed_vals(cv, ov, nv, m as int) =~= Seq::<ValueV>::empty());
        assert(out_c.deep_view() =~= out_c.deep_view() + Seq::<Seq<char>>::empty());
        assert(out_v.deep_view() =~= out_v.deep_view() + Seq::<ValueV>::empty());
    }
    (out_c, out_v)
}

/// Whether one lowered update matches one bulk-update row: it keeps the
/// table, SET-s exactly the changed columns with their new values, and
/// filters by the primary keys over the old values.
pub open spec fn bulk_row_update_matches(
    u: crate::ast::dml::UpdateV,
    table: Seq<char>,
    cols: Seq<Seq<char>>,
    pks: Seq<crate::ast::ddl::ColumnDefV>,
    row: Seq<ValueV>,
    n: int,
) -> bool {
    let olds = row_olds(row, n);
    let news = row_news(row, n);
    u.table == table && u.columns == changed_cols(cols, olds, news, 0) && u.values
        == changed_vals(cols, olds, news, 0) && u.condition == pk_filter(pks, cols, olds)
}

/// The primary-key filter is built of equality and conjunction alone, so
/// it always lowers.
pub proof fn lemma_pk_filter_lowerable(
    pks: Seq<crate::ast::ddl::ColumnDefV>,
    cols: Seq<Seq<char>>,
    olds: Seq<ValueV>,
)
    ensures
        match pk_filter(pks, cols, olds) {
            Some(c) => expr_lowerable(c),
            None => true,
        },
    decreases pks.len(),
{
    reveal_with_fuel(expr_lowerable, 4);
    if pks.len() > 0 {
        lemma_pk_filter_lowerable(pks.drop_last(), cols, olds);
    }
}

/// The SQL text of one bulk-update row's UPDATE statement.
pub open spec fn bulk_update_stmt_text(
    bv: crate::ast::dml::BulkUpdateV,
    pks: Seq<crate::ast::ddl::ColumnDefV>,
    row: Seq<ValueV>,
) -> Seq<char> {
    let olds = row_olds(row, bv.columns.len() as int);
    let news = row_news(row, bv.columns.len() as int);
    "UPDATE "@ + bv.table + " SET "@ + asgs_text(
        changed_cols(bv.columns, olds, news, 0),
        changed_vals(bv.columns, olds, news, 0),
        0,
    ) + (match pk_filter(pks, bv.columns, olds) {
        Some(c) => " WHERE "@ + le_text(c),
        None => Seq::<char>::empty(),
    })
}

/// The SQL text of one bulk-delete row's DELETE statement.
pub open spec fn bulk_delete_stmt_text(
    bv: crate::ast::dml::BulkDeleteV,
    pks: Seq<crate::ast::ddl::ColumnDefV>,
    row: Seq<ValueV>,
) -> Seq<char> {
    "DELETE FROM "@ + bv.from + (match pk_filter(pks, bv.columns, row) {
        Some(c) => " WHERE "@ + le_text(c),
        None => Seq::<char>::empty(),
    })
}

impl crate::ast::BulkUpdate {
    /// Turns this bulk update into one update per row: the row count is
    /// kept, and each update SET-s exactly the columns whose new value
    /// differs from the old, filtered by the table's primary keys over the
    /// old values.
    pub fn into_updates(&self, table_def: &crate::ast::TableDef) -> (r: Result<
        Vec<crate::ast::Update>,
        crate::Error,
    >)
        ensures
            r matches Ok(us) && us@.len() == self.values@.len(),
            r matches Ok(us) ==> forall|i: int|
                0 <= i < us@.len() ==> bulk_row_update_matches(
                    (#[trigger] us@[i]).deep_view(),
                    self.table.name@,
                    self.columns.deep_view(),
                    crate::ast::ddl::spec_primary_columns(table_def.deep_view().columns),
                    self.values.deep_view()[i],
                    self.columns@.len() as int,
                ),
    {
        let n = self.columns.len();
        let pks = table_def.get_primary_columns();
        let mut out: Vec<crate::ast::Update> = Vec::new();
        let mut i: usize = 0;
        while i < self.values.len()
            invariant
                n == self.columns@.len(),
                pks.deep_view() == crate::ast::ddl::spec_primary_columns(
                    table_def.deep_view().columns,
                ),
                i <= self.values@.len(),
                self.values.deep_view().len() == self.values@.len(),
                out@.len() == i,
                forall|j: int|
                    0 <= j < i ==> bulk_row_update_matches(
                        (#[trigger] out@[j]).deep_view(),
                        self.table.name@,
                        self.columns.deep_view(),
                        crate::ast::ddl::spec_primary_columns(table_def.deep_view().columns),
                        self.values.deep_view()[j],
                        n as int,
                    ),
            decreases self.values@.len() - i,
        {
            let (olds, news) = split_row(&self.values[i], n);
            let (ccols, cvals) = collect_changed(&self.columns, &olds, &news);
            let condition = build_filter_from_columns(&self.columns, &olds, &pks);
            let u = crate::ast::Update {
                table: self.table.clone(),
                columns: ccols,
                values: cvals,
                condition,
            };
            proof {
                assert(self.values.deep_view()[i as int] == self.values@[i as int].deep_view());
            }
            out.push(u);
            i += 1;
        }
        Ok(out)
    }

    /// Lowers this bulk update to one SQL UPDATE per row, in row order:
    /// each statement SET-s exactly the row's changed columns and filters
    /// by the primary keys over the old values.  It succeeds exactly when
    /// the catalog is supplied and holds the table.
    pub fn into_sql_statements(&self, table_lookup: Option<&crate::ast::TableLookup>) -> (r:
        Result<Vec<sql::Statement>, crate::Error>)
        ensures
            match cat_view(table_lookup) {
                None => r matches Err(
                    crate::Error::TableError(crate::ast::TableError::NoSuppliedTableLookup),
                ),
                Some(c) => match crate::ast::table::spec_find_table(c, self.table.name@) {
                    None => (r matches Err(
                        crate::Error::TableError(crate::ast::TableError::TableNotFound(m)),
                    ) && m@ == self.table.name@),
                    Some(td) => r matches Ok(x) && x@.len() == self.values@.len() && forall|
                        i: int,
                    |
                        0 <= i < x@.len() ==> sql::statement_sql(&(#[trigger] x@[i]))
                            == bulk_update_stmt_text(
                            self.deep_view(),
                            crate::ast::ddl::spec_primary_columns(td.columns),
                            self.values.deep_view()[i],
                        ),
                },
            },
    {
        let lk = match table_lookup {
            Some(l) => l,
            None => {
                return Err(
                    crate::Error::TableError(crate::ast::TableError::NoSuppliedTableLookup),
                );
            },
        };
        let table_def = match lk.get_table_def(self.table.name.as_str()) {
            Some(d) => d,
            None => {
                return Err(
                    crate::Error::TableError(
                        crate::ast::TableError::TableNotFound(self.table.name.clone()),
                    ),
                );
            },
        };
        let ghost pksv = crate::ast::ddl::spec_primary_columns(table_def.deep_view().columns);
        let updates = match self.into_updates(table_def) {
            Ok(us) => us,
            Err(x) => {
                return Err(x);
            },
        };
        let mut out: Vec<sql::Statement> = Vec::new();
        let mut i: usize = 0;
        while i < updates.len()
            invariant
                i <= updates@.len(),
                updates@.len() == self.values@.len(),
                self.values.deep_view().len() == self.values@.len(),
                out@.len() == i,
                forall|j: int|
                    0 <= j < updates@.len() ==> bulk_row_update_matches(
                        (#[trigger] updates@[j]).deep_view(),
                        self.table.name@,
                        self.columns.deep_view(),
                        pksv,
                        self.values.deep_view()[j],
                        self.columns@.len() as int,
                    ),
                forall|j: int|
                    0 <= j < i ==> sql::statement_sql(&(#[trigger] out@[j]))
                        == bulk_update_stmt_text(
                        self.deep_view(),
                        pksv,
                        self.values.deep_view()[j],
                    ),
            decreases updates@.len() - i,
        {
            proof {
                lemma_pk_filter_lowerable(
                    pksv,
                    self.columns.deep_view(),
                    row_olds(self.values.deep_view()[i as int], self.columns@.len() as int),
                );
            }
            match updates[i].into_sql_statement() {
                Ok(x) => {
                    proof {
                        assert(sql::statement_sql(&x) =~= bulk_update_stmt_text(
                            self.deep_view(),
                            pksv,
                            self.values.deep_view()[i as int],
                        ));
                    }
                    out.push(x);
                },
                Err(x) => {
                    proof {
                        assert(false);
                    }
                    return Err(x);
                },
            }
            i += 1;
        }
        Ok(out)
    }
}

impl crate::ast::BulkDelete {
    /// Turns this bulk delete into one delete per row, each filtered by the
    /// table's primary keys over the row's values.
    pub fn into_multiple_deletes(&self, table_def: &crate::ast::TableDef) -> (r: Result<
        Vec<crate::ast::Delete>,
        crate::Error,
    >)
        ensures
            r matches Ok(ds) && ds@.len() == self.values@.len(),
            r matches Ok(ds) ==> forall|i: int|
                0 <= i < ds@.len() ==> (#[trigger] ds@[i]).deep_view().from == self.from.name@
                    && ds@[i].deep_view().condition == pk_filter(
                    crate::ast::ddl::spec_primary_columns(table_def.deep_view().columns),
                    self.columns.deep_view(),
                    self.values.deep_view()[i],
                ),
    {
        let pks = table_def.get_primary_columns();
        let mut out: Vec<crate::ast::Delete> = Vec::new();
        let mut i: usize = 0;
        while i < self.values.len()
            invariant
                pks.deep_view() == crate::ast::ddl::spec_primary_columns(
                    table_def.deep_view().columns,
                ),
                i <= self.values@.len(),
                self.values.deep_view().len() == self.values@.len(),
                out@.len() == i,
                forall|j: int|
                    0 <= j < i ==> (#[trigger] out@[j]).deep_view().from == self.from.name@
                        && out@[j].deep_view().condition == pk_filter(
                        crate::ast::ddl::spec_primary_columns(table_def.deep_view().columns),
                        self.columns.deep_view(),
                        self.values.deep_view()[j],
                    ),
            decreases self.values@.len() - i,
        {
            let condition = build_filter_from_columns(&self.columns, &self.values[i], &pks);
            let d = crate::ast::Delete { from: self.from.clone(), condition };
            proof {
                assert(self.values.deep_view()[i as int] == self.values@[i as int].deep_view());
            }
            out.push(d);
            i += 1;
        }
        Ok(out)
    }

    /// Lowers this bulk delete to one SQL DELETE per row, in row order:
    /// each statement filters by the primary keys over the row's values.
    /// It succeeds exactly when the catalog is supplied and holds the
    /// table.
    pub fn into_multiple_sql_statements(
        &self,
        table_lookup: Option<&crate::ast::TableLookup>,
    ) -> (r: Result<Vec<sql::Statement>, crate::Error>)
        ensures
            match cat_view(table_lookup) {
                None => r matches Err(
                    crate::Error::TableError(crate::ast::TableError::NoSuppliedTableLookup),
                ),
                Some(c) => match crate::ast::table::spec_find_table(c, self.from.name@) {
                    None => (r matches Err(
                        crate::Error::TableError(crate::ast::TableError::TableNotFound(m)),
                    ) && m@ == self.from.name@),
                    Some(td) => r matches Ok(x) && x@.len() == self.values@.len() && forall|
                        i: int,
                    |
                        0 <= i < x@.len() ==> sql::statement_sql(&(#[trigger] x@[i]))
                            == bulk_delete_stmt_text(
                            self.deep_view(),
                            crate::ast::ddl::spec_primary_columns(td.columns),
                            self.values.deep_view()[i],
                        ),
                },
            },
    {
        let lk = match table_lookup {
            Some(l) => l,
            None => {
                return Err(
                    crate::Error::TableError(crate::ast::TableError::NoSuppliedTableLookup),
                );
            },
        };
        let table_def = match lk.get_table_def(self.from.name.as_str()) {
            Some(d) => d,
            None => {
                return Err(
                    crate::Error::TableError(
                        crate::ast::TableError::TableNotFound(self.from.name.clone()),
                    ),
                );
            },
        };
        let ghost pksv = crate::ast::ddl::spec_primary_columns(table_def.deep_view().columns);
        let deletes = match self.into_multiple_deletes(table_def) {
            Ok(ds) => ds,
            Err(x) => {
                return Err(x);
            },
        };
        let mut out: Vec<sql::Statement> = Vec::new();
        let mut i: usize = 0;
        while i < deletes.len()
            invariant
                i <= deletes@.len(),
                deletes@.len() == self.values@.len(),
                self.values.deep_view().len() == self.values@.len(),
                out@.len() == i,
                forall|j: int|
                    0 <= j < deletes@.len() ==> (#[trigger] deletes@[j]).deep_view().from
                        == self.from.name@ && deletes@[j].deep_view().condition == pk_filter(
                        pksv,
                        self.columns.deep_view(),
                        self.values.deep_view()[j],
                    ),
                forall|j: int|
                    0 <= j < i ==> sql::statement_sql(&(#[trigger] out@[j]))
                        == bulk_delete_stmt_text(
                        self.deep_view(),
                        pksv,
                        self.values.deep_view()[j],
                    ),
            decreases deletes@.len() - i,
        {
            proof {
                lemma_pk_filter_lowerable(
                    pksv,
                    self.columns.deep_view(),
                    self.values.deep_view()[i as int],
                );
            }
            match deletes[i].into_sql_statement() {
                Ok(x) => {
                    proof {
                        assert(sql::statement_sql(&x) =~= bulk_delete_stmt_text(
                            self.deep_view(),
                            pksv,
                            self.values.deep_view()[i as int],
                        ));
                    }
                    out.push(x);
                },
                Err(x) => {
                    proof {
                        assert(false);
                    }
                    return Err(x);
                },
            }
            i += 1;
        }
        Ok(out)
    }

    /// Lowers this bulk delete to one DELETE whose filter is `pk IN (...)`
    /// over the sole primary key, taking the pk-column values of the rows
    /// in order.  It succeeds exactly when the catalog is supplied, holds
    /// the table, and the table carries exactly one primary column; else
    /// the exact error.
    pub fn into_single_sql_statement(
        &self,
        table_lookup: Option<&crate::ast::TableLookup>,
    ) -> (r: Result<sql::Statement, crate::Error>)
        ensures
            match cat_view(table_lookup) {
                None => r matches Err(
                    crate::Error::TableError(crate::ast::TableError::NoSuppliedTableLookup),
                ),
                Some(c) => match crate::ast::table::spec_find_table(c, self.from.name@) {
                    None => (r matches Err(
                        crate::Error::TableError(crate::ast::TableError::TableNotFound(m)),
                    ) && m@ == self.from.name@),
                    Some(td) => if crate::ast::ddl::spec_primary_columns(td.columns).len()
                        != 1 {
                        r matches Err(crate::Error::GenericError(_))
                    } else {
                        r matches Ok(x) && sql::statement_sql(&x) == "DELETE FROM "@
                            + self.from.name@ + " WHERE "@ + (crate::ast::ddl::spec_primary_columns(
                            td.columns,
                        )[0].column + " "@ + "IN"@ + " "@ + ("("@ + lv_list_text(
                            pk_in_values(
                                self.columns.deep_view(),
                                self.values.deep_view(),
                                crate::ast::ddl::spec_primary_columns(td.columns)[0].column,
                                0,
                            ),
                            0,
                        ) + ")"@))
                    },
                },
            },
    {
        broadcast use crate::ast::parser::utils::lemma_seq_add_assoc;

        let lk = match table_lookup {
            Some(l) => l,
            None => {
                return Err(
                    crate::Error::TableError(crate::ast::TableError::NoSuppliedTableLookup),
                );
            },
        };
        let table_def = match lk.get_table_def(self.from.name.as_str()) {
            Some(d) => d,
            None => {
                return Err(
                    crate::Error::TableError(
                        crate::ast::TableError::TableNotFound(self.from.name.clone()),
                    ),
                );
            },
        };
        let pks = table_def.get_primary_columns();
        if pks.len() != 1 {
            return Err(
                crate::Error::GenericError(
                    "a single-statement bulk delete takes exactly one primary column".to_owned(),
                ),
            );
        }
        let pk_name = pks[0].column.name.clone();
        let ghost pkv = pk_name@;
        let ghost colsv = self.columns.deep_view();
        let ghost rowsv = self.values.deep_view();
        let ghost target = pk_in_values(colsv, rowsv, pkv, 0);
        let mut pk_values: Vec<crate::ast::Value> = Vec::new();
        let mut i: usize = 0;
        while i < self.values.len()
            invariant
                colsv == self.columns.deep_view(),
                rowsv == self.values.deep_view(),
                rowsv.len() == self.values@.len(),
                pkv == pk_name@,
                target == pk_in_values(colsv, rowsv, pkv, 0),
                i <= self.values@.len(),
                pk_values.deep_view() + pk_in_values(colsv, rowsv, pkv, i as int) == target,
            decreases self.values@.len() - i,
        {
            let row = &self.values[i];
            proof {
                assert(rowsv[i as int] == self.values@[i as int].deep_view());
            }
            let mut j: usize = 0;
            while j < self.columns.len() && j < row.len()
                invariant
                    colsv == self.columns.deep_view(),
                    rowsv == self.values.deep_view(),
                    rowsv.len() == self.values@.len(),
                    pkv == pk_name@,
                    target == pk_in_values(colsv, rowsv, pkv, 0),
                    i < self.values@.len(),
                    row == &self.values[i as int],
                    rowsv[i as int] == row.deep_view(),
                    j <= self.columns@.len(),
                    j <= row@.len(),
                    colsv.len() == self.columns@.len(),
                    row.deep_view().len() == row@.len(),
                    pk_values.deep_view() + row_pk_values(colsv, rowsv[i as int], pkv, j as int)
                        + pk_in_values(colsv, rowsv, pkv, i + 1) == target,
                decreases self.columns@.len() - j,
            {
                let ghost acc0 = pk_values.deep_view();
                proof {
                    assert(colsv[j as int] == self.columns@[j as int].deep_view());
                    assert(rowsv[i as int][j as int] == row@[j as int].deep_view());
                }
                if crate::ast::parser::utils::str_eq(
                    self.columns[j].name.as_str(),
                    pk_name.as_str(),
                ) {
                    pk_values.push(row[j].clone());
                    proof {
                        let v = rowsv[i as int][j as int];
                        assert((j as int) < colsv.len());
                        assert((j as int) < rowsv[i as int].len());
                        assert(colsv[j as int] == pkv);
                        assert(pk_values.deep_view() =~= acc0 + seq![v]);
                        assert(row_pk_values(colsv, rowsv[i as int], pkv, j as int) == seq![v]
                            + row_pk_values(colsv, rowsv[i as int], pkv, j + 1));
                        assert((acc0 + seq![v]) + row_pk_values(colsv, rowsv[i as int], pkv, j + 1)
                            =~= acc0 + (seq![v] + row_pk_values(colsv, rowsv[i as int], pkv, j + 1)));
                    }
                } else {
                    proof {
                        assert(row_pk_values(colsv, rowsv[i as int], pkv, j as int)
                            =~= row_pk_values(colsv, rowsv[i as int], pkv, j + 1));
                    }
                }
                j += 1;
            }
            proof {
                assert(row_pk_values(colsv, rowsv[i as int], pkv, j as int) =~= Seq::<
                    ValueV,
                >::empty());
            }
            i += 1;
        }
        proof {
            assert(pk_in_values(colsv, rowsv, pkv, self.values@.len() as int) =~= Seq::<
                ValueV,
            >::empty());
            assert(pk_values.deep_view() =~= target);
        }
        let delete = crate::ast::Delete {
            from: self.from.clone(),
            condition: Some(
                crate::ast::Expr::BinaryOperation(
                    Box::new(
                        crate::ast::BinaryOperation {
                            left: crate::ast::Expr::Column(
                                crate::ast::ColumnName { name: pk_name },
                            ),
                            operator: Operator::In,
                            right: crate::ast::Expr::MultiValue(pk_values),
                        },
                    ),
                ),
            ),
        };
        proof {
            reveal_with_fuel(expr_lowerable, 3);
            reveal_with_fuel(le_text, 3);
            reveal_with_fuel(crate::ast::expr::expr_deep, 3);
        }
        delete.into_sql_statement()
    }
}

/// The pk-column values of one row, from column index `j` on: the value at
/// each position whose column name is `pk`, within both lists' lengths.
pub open spec fn row_pk_values(
    cols: Seq<Seq<char>>,
    row: Seq<ValueV>,
    pk: Seq<char>,
    j: int,
) -> Seq<ValueV>
    decreases cols.len() - j,
{
    if j < 0 || j >= cols.len() || j >= row.len() {
        Seq::empty()
    } else {
        (if cols[j] == pk {
            seq![row[j]]
        } else {
            Seq::<ValueV>::empty()
        }) + row_pk_values(cols, row, pk, j + 1)
    }
}

/// The pk-column values of the rows from `i` on, in row order.
pub open spec fn pk_in_values(
    cols: Seq<Seq<char>>,
    rows: Seq<Seq<ValueV>>,
    pk: Seq<char>,
    i: int,
) -> Seq<ValueV>
    decreases rows.len() - i,
{
    if i < 0 || i >= rows.len() {
        Seq::empty()
    } else {
        row_pk_values(cols, rows[i], pk, 0) + pk_in_values(cols, rows, pk, i + 1)
    }
}

/// The SQL value an insert-row value lowers to: the empty string stands
/// for the store's default.
pub open spec fn lvv_text(v: ValueV) -> Seq<char> {
    match v {
        ValueV::Str(s) => if s.len() == 0 {
            "DEFAULT"@
        } else {
            "'"@ + quote_doubled(s) + "'"@
        },
        _ => lv_text(v),
    }
}

/// Lowers an insert-row value.
fn lower_row_value(v: &crate::ast::Value) -> (r: sql::Value)
    ensures
        sql::value_sql(&r) == lvv_text(v.deep_view()),
{
    match v {
        crate::ast::Value::Null => sql::Value::Null,
        crate::ast::Value::String(t) => {
            if t.as_str().unicode_len() == 0 {
                proof {
                    assert(t@.len() == 0);
                }
                sql::Value::Default
            } else {
                sql::Value::SingleQuotedString(t.clone())
            }
        },
        crate::ast::Value::Number(t) => sql::Value::Number(t.clone()),
        crate::ast::Value::Bool(b) => sql::Value::Boolean(*b),
    }
}

/// Why an insert cannot lower: only a select source can fail.
pub open spec fn insert_fail(
    iv: crate::ast::dml::InsertV,
    cat: Option<Seq<crate::ast::ddl::TableDefV>>,
) -> Option<crate::lower_ddl::LowerFail> {
    match iv.source {
        crate::ast::dml::SourceV::Select(sv) => match select_lower(sv, cat) {
            Lowered::Good(_) => None,
            Lowered::Unconv => Some(crate::lower_ddl::LowerFail::Unconv),
            Lowered::NoLookup => Some(crate::lower_ddl::LowerFail::NoLookup),
            Lowered::NotFound(n) => Some(crate::lower_ddl::LowerFail::NotFound(n)),
        },
        _ => None,
    }
}

/// Whether a lowered insert matches its statement: the table and column
/// names are kept; a values source carries one lowered row per input row,
/// empty strings standing for the store's defaults; a select source
/// carries the lowered select; a parameterized source keeps its indices;
/// and the wrapping query adds no ordering, limit or offset.
pub open spec fn insert_stmt_matches(
    x: sql::Statement,
    iv: crate::ast::dml::InsertV,
    cat: Option<Seq<crate::ast::ddl::TableDefV>>,
) -> bool {
    match x {
        sql::Statement::Insert { table_name, columns, source } => table_name@ == iv.into
            && columns.deep_view() == iv.columns && source.order_by@.len() == 0
            && source.limit is None && source.offset is None && (match iv.source {
            crate::ast::dml::SourceV::Values(vr) => match source.body {
                sql::SetExpr::Values(rows) => rows@.len() == vr.len() && (forall|i: int|
                    0 <= i < vr.len() ==> (#[trigger] rows@[i])@.len() == vr[i].len()) && (
                forall|i: int, j: int|
                    0 <= i < vr.len() && 0 <= j < vr[i].len() ==> sql::value_sql(
                        &(#[trigger] rows@[i]@[j]),
                    ) == lvv_text(vr[i][j])),
                _ => false,
            },
            crate::ast::dml::SourceV::Select(sv) => match source.body {
                sql::SetExpr::Select(sel) => select_lower(sv, cat) matches Lowered::Good(t)
                    && sql::select_sql(&sel) == t,
                _ => false,
            },
            crate::ast::dml::SourceV::Parameterized(qs) => match source.body {
                sql::SetExpr::ParameterizedValue(ps) => ps@ == qs,
                _ => false,
            },
        }),
        _ => false,
    }
}

impl crate::ast::Insert {
    /// Lowers this insert to a SQL INSERT: the emitted statement keeps the
    /// table and the column names, its source carries the lowered rows,
    /// select, or parameter indices, and its wrapping query adds no
    /// ordering, limit or offset.  It succeeds exactly when a select
    /// source, if any, lowers; that lowering's error kind surfaces.
    pub fn into_sql_statement(&self, table_lookup: Option<&crate::ast::TableLookup>) -> (r:
        Result<sql::Statement, crate::Error>)
        ensures
            match insert_fail(self.deep_view(), cat_view(table_lookup)) {
                None => r matches Ok(x) && insert_stmt_matches(
                    x,
                    self.deep_view(),
                    cat_view(table_lookup),
                ),
                Some(crate::lower_ddl::LowerFail::Unconv) => r matches Err(
                    crate::Error::GenericError(_),
                ),
                Some(crate::lower_ddl::LowerFail::NoLookup) => r matches Err(
                    crate::Error::TableError(crate::ast::TableError::NoSuppliedTableLookup),
                ),
                Some(crate::lower_ddl::LowerFail::NotFound(n)) => (r matches Err(
                    crate::Error::TableError(crate::ast::TableError::TableNotFound(m)),
                ) && m@ == n),
            },
    {
        let body: sql::SetExpr = match &self.source {
            crate::ast::dml::Source::Values(rows) => {
                let mut out_rows: Vec<Vec<sql::Value>> = Vec::new();
                let mut i: usize = 0;
                while i < rows.len()
                    invariant
                        i <= rows@.len(),
                        rows.deep_view().len() == rows@.len(),
                        out_rows@.len() == i,
                        forall|a: int|
                            0 <= a < i ==> (#[trigger] out_rows@[a])@.len()
                                == rows.deep_view()[a].len(),
                        forall|a: int, b: int|
                            0 <= a < i && 0 <= b < rows.deep_view()[a].len() ==> sql::value_sql(
                                &(#[trigger] out_rows@[a]@[b]),
                            ) == lvv_text(rows.deep_view()[a][b]),
                    decreases rows@.len() - i,
                {
                    let row = &rows[i];
                    let mut out_row: Vec<sql::Value> = Vec::new();
                    let mut j: usize = 0;
                    while j < row.len()
                        invariant
                            j <= row@.len(),
                            row.deep_view().len() == row@.len(),
                            out_row@.len() == j,
                            forall|b: int|
                                0 <= b < j ==> sql::value_sql(&(#[trigger] out_row@[b]))
                                    == lvv_text(row.deep_view()[b]),
                        decreases row@.len() - j,
                    {
                        out_row.push(lower_row_value(&row[j]));
                        j += 1;
                    }
                    let ghost or0 = out_row@;
                    proof {
                        assert(rows.deep_view()[i as int] == rows@[i as int].deep_view());
                        assert(or0.len() == rows.deep_view()[i as int].len());
                    }
                    out_rows.push(out_row);
                    proof {
                        assert(out_rows@[i as int]@ == or0);
                    }
                    i += 1;
                }
                sql::SetExpr::Values(out_rows)
            },
            crate::ast::dml::Source::Select(sel) => {
                match sel.into_sql_select(table_lookup) {
                    Ok(x) => sql::SetExpr::Select(Box::new(x)),
                    Err(x) => {
                        return Err(x);
                    },
                }
            },
            crate::ast::dml::Source::Parameterized(ps) => {
                let qs = ps.clone();
                proof {
                    assert(qs@ =~= ps.deep_view());
                }
                sql::SetExpr::ParameterizedValue(qs)
            },
        };
        let source = Box::new(
            sql::Query { body, order_by: Vec::new(), limit: None, offset: None },
        );
        let mut columns: Vec<String> = Vec::new();
        let mut i: usize = 0;
        while i < self.columns.len()
            invariant
                i <= self.columns@.len(),
                self.columns.deep_view().len() == self.columns@.len(),
                columns@.len() == i,
                forall|j: int|
                    0 <= j < i ==> (#[trigger] columns@[j])@ == self.columns.deep_view()[j],
            decreases self.columns@.len() - i,
        {
            columns.push(self.columns[i].name.clone());
            i += 1;
        }
        proof {
            assert(columns.deep_view() =~= self.columns.deep_view());
        }
        Ok(sql::Statement::Insert { table_name: self.into.name.clone(), columns, source })
    }
}

/// The inputs on which a whole statement can lower: a select's range stays
/// in machine bounds, a create's foreign references meet the catalog, and
/// the bulk forms take their own lowering paths.
pub open spec fn statement_lower_ok(
    sv: crate::ast::StatementV,
    cat: Option<Seq<crate::ast::ddl::TableDefV>>,
) -> bool {
    match sv {
        crate::ast::StatementV::Select(s) => match s.range {
            Some(rg) => rg.offset_in_range(),
            None => true,
        },
        crate::ast::StatementV::Create(td) => crate::lower_ddl::create_fk_ok(td.columns, cat),
        crate::ast::StatementV::AlterTable(av) => crate::lower_ddl::alter_fk_ok(
            av.alter_operations,
            cat,
        ),
        crate::ast::StatementV::BulkUpdate(_) => false,
        crate::ast::StatementV::BulkDelete(_) => false,
        _ => true,
    }
}

impl crate::ast::Statement {
    /// Lowers this statement to a single SQL statement, dispatching on its
    /// kind with each kind's own contract.  An alteration lowers only when
    /// it holds exactly one operation; several report
    /// `MoreThanOneStatement`, and no other kind ever does.
    pub fn into_sql_statement(&self, table_lookup: Option<&crate::ast::TableLookup>) -> (r:
        Result<sql::Statement, crate::Error>)
        requires
            statement_lower_ok(self.deep_view(), cat_view(table_lookup)),
        ensures
            match self.deep_view() {
                crate::ast::StatementV::Select(sv) => match query_lower(
                    sv,
                    cat_view(table_lookup),
                ) {
                    Lowered::Good(t) => r matches Ok(x) && sql::statement_sql(&x) == t,
                    Lowered::NoLookup => r matches Err(
                        crate::Error::TableError(crate::ast::TableError::NoSuppliedTableLookup),
                    ),
                    Lowered::NotFound(n) => r matches Err(
                        crate::Error::TableError(crate::ast::TableError::TableNotFound(m)),
                    ) && m@ == n,
                    Lowered::Unconv => r matches Err(crate::Error::GenericError(_)),
                },
                crate::ast::StatementV::Update(uv) => match update_lower(uv) {
                    Lowered::Good(t) => r matches Ok(x) && sql::statement_sql(&x) == t,
                    Lowered::Unconv => r matches Err(crate::Error::GenericError(_)),
                    _ => true,
                },
                crate::ast::StatementV::Delete(dv) => match delete_lower(dv) {
                    Lowered::Good(t) => r matches Ok(x) && sql::statement_sql(&x) == t,
                    Lowered::Unconv => r matches Err(crate::Error::GenericError(_)),
                    _ => true,
                },
                crate::ast::StatementV::DropTable(n) => r matches Ok(x) && sql::statement_sql(
                    &x,
                ) == drop_table_lower(n),
                crate::ast::StatementV::Insert(iv) => match insert_fail(
                    iv,
                    cat_view(table_lookup),
                ) {
                    None => r matches Ok(x) && insert_stmt_matches(
                        x,
                        iv,
                        cat_view(table_lookup),
                    ),
                    Some(_) => r is Err,
                },
                crate::ast::StatementV::Create(td) => match crate::lower_ddl::cols_fail(
                    td.columns,
                    cat_view(table_lookup),
                    0,
                ) {
                    None => r matches Ok(x) && sql::statement_sql(&x)
                        == crate::lower_ddl::create_text(td, cat_view(table_lookup)),
                    Some(crate::lower_ddl::LowerFail::Unconv) => r matches Err(
                        crate::Error::GenericError(_),
                    ),
                    Some(crate::lower_ddl::LowerFail::NoLookup) => r matches Err(
                        crate::Error::TableError(crate::ast::TableError::NoSuppliedTableLookup),
                    ),
                    Some(crate::lower_ddl::LowerFail::NotFound(n)) => (r matches Err(
                        crate::Error::TableError(crate::ast::TableError::TableNotFound(m)),
                    ) && m@ == n),
                },
                crate::ast::StatementV::AlterTable(av) => match crate::lower_ddl::alter_fail(
                    av.alter_operations,
                    cat_view(table_lookup),
                    0,
                ) {
                    None => if av.alter_operations.len() == 1 {
                        r matches Ok(x) && sql::statement_sql(&x)
                            == crate::lower_ddl::alter_stmt_text(
                            av.table,
                            av.alter_operations[0],
                            cat_view(table_lookup),
                        )
                    } else {
                        r matches Err(crate::Error::MoreThanOneStatement)
                    },
                    Some(crate::lower_ddl::AlterFail::NotImpl) => r matches Err(
                        crate::Error::NotImplemented(_),
                    ),
                    Some(_) => r is Err,
                },
                _ => true,
            },
            !(self.deep_view() is AlterTable) ==> !(r matches Err(
                crate::Error::MoreThanOneStatement,
            )),
    {
        match self {
            crate::ast::Statement::Select(s) => s.into_sql_statement(table_lookup),
            crate::ast::Statement::Insert(s) => s.into_sql_statement(table_lookup),
            crate::ast::Statement::Update(s) => s.into_sql_statement(),
            crate::ast::Statement::Delete(s) => s.into_sql_statement(),
            crate::ast::Statement::Create(s) => s.into_sql_statement(table_lookup),
            crate::ast::Statement::DropTable(s) => s.into_sql_statement(),
            crate::ast::Statement::AlterTable(s) => {
                match s.into_sql_statements(table_lookup) {
                    Ok(mut statements) => {
                        if statements.len() == 1 {
                            Ok(statements.remove(0))
                        } else {
                            Err(crate::Error::MoreThanOneStatement)
                        }
                    },
                    Err(x) => Err(x),
                }
            },
            crate::ast::Statement::BulkUpdate(_) => Err(
                crate::Error::GenericError("a bulk update lowers to several statements".to_owned()),
            ),
            crate::ast::Statement::BulkDelete(_) => Err(
                crate::Error::GenericError("a bulk delete lowers to several statements".to_owned()),
            ),
        }
    }
}


} // verus!
