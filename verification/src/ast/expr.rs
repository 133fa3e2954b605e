//! Expressions of the filter grammar: column references, function calls,
//! scalar and multi values, binary operations, and preserved groupings.

use vstd::prelude::*;
use vstd::string::StringExecFns;

use crate::ast::operator::Operator;

verus! {

/// A column reference, optionally qualified as `schema.table.column`.
#[derive(Debug)]
pub struct ColumnName {
    pub name: String,
}

impl DeepView for ColumnName {
    type V = Seq<char>;

    open spec fn deep_view(&self) -> Seq<char> {
        self.name@
    }
}

impl PartialEq for ColumnName {
    fn eq(&self, other: &ColumnName) -> (r: bool) {
        self.name == other.name
    }
}

impl vstd::std_specs::cmp::PartialEqSpecImpl for ColumnName {
    open spec fn obeys_eq_spec() -> bool {
        true
    }

    open spec fn eq_spec(&self, other: &ColumnName) -> bool {
        self.name@ == other.name@
    }
}

/// A coarse scalar value as written in the surface syntax.  A number keeps
/// the text of its decimal literal.
#[derive(Debug, PartialEq)]
pub enum Value {
    Null,
    String(String),
    Number(String),
    Bool(bool),
}

/// The mathematical shape of a `Value`.
pub enum ValueV {
    Null,
    Str(Seq<char>),
    Num(Seq<char>),
    Bool(bool),
}

impl DeepView for Value {
    type V = ValueV;

    open spec fn deep_view(&self) -> ValueV {
        match self {
            Value::Null => ValueV::Null,
            Value::String(s) => ValueV::Str(s@),
            Value::Number(s) => ValueV::Num(s@),
            Value::Bool(b) => ValueV::Bool(*b),
        }
    }
}

/// A function call in a projection, group-by, or default value.
#[derive(Debug, PartialEq)]
pub struct Function {
    pub name: String,
    pub params: Vec<Expr>,
}

/// The mathematical shape of a `Function`.
pub struct FunctionV {
    pub name: Seq<char>,
    pub params: Seq<ExprV>,
}

impl DeepView for Function {
    type V = FunctionV;

    open spec fn deep_view(&self) -> FunctionV {
        FunctionV { name: self.name@, params: exprs_deep(self.params@) }
    }
}

/// The deep views of a sequence of expressions, element by element.
pub open spec fn exprs_deep(s: Seq<Expr>) -> Seq<ExprV>
    decreases s, 1int,
{
    if s.len() == 0 {
        Seq::empty()
    } else {
        exprs_deep(s.drop_last()).push(expr_deep(s.last()))
    }
}

/// The deep view of a vector of expressions is `exprs_deep` of its view.
pub proof fn lemma_exprs_deep_vec(v: &Vec<Expr>)
    ensures
        v.deep_view() == exprs_deep(v@),
{
    lemma_exprs_deep(v@);
    assert(v.deep_view() =~= exprs_deep(v@));
}

/// `exprs_deep` maps each element to its deep view and keeps the length.
pub proof fn lemma_exprs_deep(s: Seq<Expr>)
    ensures
        exprs_deep(s).len() == s.len(),
        forall|i: int| 0 <= i < s.len() ==> exprs_deep(s)[i] == expr_deep(s[i]),
    decreases s.len(),
{
    if s.len() > 0 {
        lemma_exprs_deep(s.drop_last());
    }
}

/// An expression of the filter grammar.  `Nested` preserves the writer's
/// parenthesization and carries no further meaning.
#[derive(Debug, PartialEq)]
pub enum Expr {
    Column(ColumnName),
    Function(Function),
    Value(Value),
    MultiValue(Vec<Value>),
    BinaryOperation(Box<BinaryOperation>),
    Nested(Box<Expr>),
}

/// The mathematical shape of an `Expr`.
pub enum ExprV {
    Column(Seq<char>),
    Function(FunctionV),
    Value(ValueV),
    MultiValue(Seq<ValueV>),
    BinaryOperation(Box<BinaryOperationV>),
    Nested(Box<ExprV>),
}

/// A binary operation `left operator right`.
#[derive(Debug, PartialEq)]
pub struct BinaryOperation {
    pub left: Expr,
    pub operator: Operator,
    pub right: Expr,
}

/// The mathematical shape of a `BinaryOperation`.
pub struct BinaryOperationV {
    pub left: ExprV,
    pub operator: Operator,
    pub right: ExprV,
}

impl DeepView for Expr {
    type V = ExprV;

    open spec fn deep_view(&self) -> ExprV {
        expr_deep(*self)
    }
}

/// The deep view of an expression, defined structurally.
pub open spec fn expr_deep(e: Expr) -> ExprV
    decreases e, 0int,
{
    match e {
        Expr::Column(c) => ExprV::Column(c.name@),
        Expr::Function(f) => ExprV::Function(FunctionV { name: f.name@, params: exprs_deep(f.params@) }),
        Expr::Value(v) => ExprV::Value(v.deep_view()),
        Expr::MultiValue(vs) => ExprV::MultiValue(vs.deep_view()),
        Expr::BinaryOperation(b) => ExprV::BinaryOperation(
            Box::new(
                BinaryOperationV {
                    left: expr_deep(b.left),
                    operator: b.operator,
                    right: expr_deep(b.right),
                },
            ),
        ),
        Expr::Nested(inner) => ExprV::Nested(Box::new(expr_deep(*inner))),
    }
}

impl DeepView for BinaryOperation {
    type V = BinaryOperationV;

    open spec fn deep_view(&self) -> BinaryOperationV {
        BinaryOperationV {
            left: expr_deep(self.left),
            operator: self.operator,
            right: expr_deep(self.right),
        }
    }
}

/// A projection entry: an expression with an optional rename.
#[derive(Debug, PartialEq)]
pub struct ExprRename {
    pub expr: Expr,
    pub rename: Option<String>,
}

/// The mathematical shape of an `ExprRename`.
pub struct ExprRenameV {
    pub expr: ExprV,
    pub rename: Option<Seq<char>>,
}

impl DeepView for ExprRename {
    type V = ExprRenameV;

    open spec fn deep_view(&self) -> ExprRenameV {
        ExprRenameV { expr: self.expr.deep_view(), rename: self.rename.deep_view() }
    }
}


impl Clone for ColumnName {
    fn clone(&self) -> (res: Self)
        ensures
            res == *self,
    {
        ColumnName { name: self.name.clone() }
    }
}

impl Clone for Value {
    fn clone(&self) -> (res: Self)
        ensures
            res == *self,
    {
        match self {
            Value::Null => Value::Null,
            Value::String(s) => Value::String(s.clone()),
            Value::Number(s) => Value::Number(s.clone()),
            Value::Bool(b) => Value::Bool(*b),
        }
    }
}

/// Copies a vector of values, element by element.
pub fn clone_values(vs: &Vec<Value>) -> (res: Vec<Value>)
    ensures
        res@ == vs@,
{
    let mut out: Vec<Value> = Vec::new();
    let mut i: usize = 0;
    while i < vs.len()
        invariant
            i <= vs@.len(),
            out@.len() == i,
            forall|j: int| 0 <= j < i ==> out@[j] == vs@[j],
        decreases vs@.len() - i,
    {
        out.push(vs[i].clone());
        i += 1;
    }
    proof {
        assert(out@ =~= vs@);
    }
    out
}

impl Clone for Function {
    fn clone(&self) -> (res: Self)
        ensures
            res.deep_view() == self.deep_view(),
        decreases self,
    {
        broadcast use vstd::std_specs::vec::group_vec_axioms;
    broadcast use crate::ast::parser::utils::lemma_seq_add_assoc;

        let mut ps: Vec<Expr> = Vec::new();
        let mut i: usize = 0;
        while i < self.params.len()
            invariant
                i <= self.params@.len(),
                ps@.len() == i,
                forall|j: int|
                    0 <= j < i ==> expr_deep(ps@[j]) == expr_deep(self.params@[j]),
            decreases self.params@.len() - i,
        {
            ps.push(self.params[i].clone());
            i += 1;
        }
        proof {
            lemma_exprs_deep(ps@);
            lemma_exprs_deep(self.params@);
            assert(exprs_deep(ps@) =~= exprs_deep(self.params@));
        }
        Function { name: self.name.clone(), params: ps }
    }
}

impl Clone for Expr {
    fn clone(&self) -> (res: Self)
        ensures
            res.deep_view() == self.deep_view(),
        decreases self,
    {
        match self {
            Expr::Column(c) => Expr::Column(c.clone()),
            Expr::Function(f) => Expr::Function(f.clone()),
            Expr::Value(v) => Expr::Value(v.clone()),
            Expr::MultiValue(vs) => Expr::MultiValue(clone_values(vs)),
            Expr::BinaryOperation(b) => Expr::BinaryOperation(
                Box::new(
                    BinaryOperation {
                        left: b.left.clone(),
                        operator: b.operator,
                        right: b.right.clone(),
                    },
                ),
            ),
            Expr::Nested(inner) => Expr::Nested(Box::new((**inner).clone())),
        }
    }
}

impl Clone for BinaryOperation {
    fn clone(&self) -> (res: Self)
        ensures
            res.deep_view() == self.deep_view(),
    {
        BinaryOperation {
            left: self.left.clone(),
            operator: self.operator,
            right: self.right.clone(),
        }
    }
}

impl Clone for ExprRename {
    fn clone(&self) -> (res: Self)
        ensures
            res.deep_view() == self.deep_view(),
    {
        let rename = match &self.rename {
            Some(r) => Some(r.clone()),
            None => None,
        };
        ExprRename { expr: self.expr.clone(), rename }
    }
}

/// The canonical rendering of a coarse value: strings take single quotes.
pub open spec fn value_text(v: ValueV) -> Seq<char> {
    match v {
        ValueV::Null => "null"@,
        ValueV::Str(s) => "'"@ + s + "'"@,
        ValueV::Num(s) => s,
        ValueV::Bool(b) => if b {
            "true"@
        } else {
            "false"@
        },
    }
}

/// The canonical rendering of a list of values, comma separated, from `i` on.
pub open spec fn values_text(vs: Seq<ValueV>, i: int) -> Seq<char>
    decreases vs.len() - i,
{
    if i < 0 || i >= vs.len() {
        Seq::empty()
    } else if i == vs.len() - 1 {
        value_text(vs[i])
    } else {
        value_text(vs[i]) + ","@ + values_text(vs, i + 1)
    }
}

/// The canonical rendering of an expression.  A binary operation whose
/// operator takes the separator renders as `left=op.right`; connectors and
/// arithmetic render bare, `left op right` without spaces.
pub open spec fn expr_text(e: ExprV) -> Seq<char>
    decreases e, 0int,
{
    match e {
        ExprV::Column(name) => name,
        ExprV::Function(f) => f.name + "("@ + exprs_text(f.params, 0, ","@) + ")"@,
        ExprV::Value(v) => value_text(v),
        ExprV::MultiValue(vs) => "["@ + values_text(vs, 0) + "]"@,
        ExprV::BinaryOperation(b) => if b.operator.spec_needs_separator() {
            expr_text(b.left) + "="@ + b.operator.token() + "."@ + expr_text(b.right)
        } else {
            expr_text(b.left) + b.operator.token() + expr_text(b.right)
        },
        ExprV::Nested(inner) => "("@ + expr_text(*inner) + ")"@,
    }
}

/// The canonical rendering of a list of expressions from `i` on, separated
/// by `sep`.
pub open spec fn exprs_text(es: Seq<ExprV>, i: int, sep: Seq<char>) -> Seq<char>
    decreases es, es.len() - i,
{
    if i < 0 || i >= es.len() {
        Seq::empty()
    } else if i == es.len() - 1 {
        expr_text(es[i])
    } else {
        expr_text(es[i]) + sep + exprs_text(es, i + 1, sep)
    }
}

/// The canonical rendering of a function call: `name(arg,...)`.
pub open spec fn function_text(f: FunctionV) -> Seq<char> {
    f.name + "("@ + exprs_text(f.params, 0, ","@) + ")"@
}

/// The canonical rendering of a projection entry: `expr` or `expr=>rename`.
pub open spec fn expr_rename_text(er: ExprRenameV) -> Seq<char> {
    match er.rename {
        Some(r) => expr_text(er.expr) + "=>"@ + r,
        None => expr_text(er.expr),
    }
}

/// The renderings of projection entries from `i` on, comma separated.
pub open spec fn expr_renames_text(ers: Seq<ExprRenameV>, i: int) -> Seq<char>
    decreases ers.len() - i,
{
    if i < 0 || i >= ers.len() {
        Seq::empty()
    } else if i == ers.len() - 1 {
        expr_rename_text(ers[i])
    } else {
        expr_rename_text(ers[i]) + ","@ + expr_renames_text(ers, i + 1)
    }
}

/// Appends the canonical rendering of a value to `out`.
pub fn write_value(v: &Value, out: &mut String)
    ensures
        final(out)@ == old(out)@ + value_text(v.deep_view()),
{
    broadcast use crate::ast::parser::utils::lemma_seq_add_assoc;

    match v {
        Value::Null => out.append("null"),
        Value::String(s) => {
            out.append("'");
            out.append(s.as_str());
            out.append("'");
        },
        Value::Number(s) => out.append(s.as_str()),
        Value::Bool(b) => {
            if *b {
                out.append("true")
            } else {
                out.append("false")
            }
        },
    }
    proof {
        assert(out@ =~= old(out)@ + value_text(v.deep_view()));
    }
}

/// Appends the canonical renderings of the values from `i` on, comma
/// separated, to `out`.
pub fn write_values(vs: &Vec<Value>, i: usize, out: &mut String)
    requires
        i <= vs@.len(),
    ensures
        final(out)@ == old(out)@ + values_text(vs.deep_view(), i as int),
    decreases vs@.len() - i,
{
    broadcast use crate::ast::parser::utils::lemma_seq_add_assoc;

    if i < vs.len() {
        write_value(&vs[i], out);
        if i + 1 < vs.len() {
            out.append(",");
            write_values(vs, i + 1, out);
        }
    }
    proof {
        assert(out@ =~= old(out)@ + values_text(vs.deep_view(), i as int));
    }
}

/// Appends the canonical rendering of an expression to `out`.
pub fn write_expr(e: &Expr, out: &mut String)
    ensures
        final(out)@ == old(out)@ + expr_text(e.deep_view()),
    decreases e, 0int,
{
    broadcast use vstd::std_specs::vec::group_vec_axioms;
    broadcast use crate::ast::parser::utils::lemma_seq_add_assoc;

    match e {
        Expr::Column(c) => {
            out.append(c.name.as_str());
            proof {
                assert(out@ =~= old(out)@ + expr_text(e.deep_view()));
            }
        },
        Expr::Function(f) => {
            let ghost g0 = out@;
            out.append(f.name.as_str());
            proof {
                assert(out@ == g0 + f.name@);
            }
            out.append("(");
            proof {
                assert(out@ == g0 + f.name@ + "("@);
            }
            write_exprs(&f.params, 0, ",", out);
            proof {
                lemma_exprs_deep_vec(&f.params);
            }
            out.append(")");
            proof {
                assert(out@ =~= old(out)@ + expr_text(e.deep_view()));
            }
        },
        Expr::Value(v) => {
            write_value(v, out);
            proof {
                assert(out@ =~= old(out)@ + expr_text(e.deep_view()));
            }
        },
        Expr::MultiValue(vs) => {
            out.append("[");
            write_values(vs, 0, out);
            out.append("]");
            proof {
                assert(out@ =~= old(out)@ + expr_text(e.deep_view()));
            }
        },
        Expr::BinaryOperation(b) => {
            write_expr(&b.left, out);
            if b.operator.needs_separator() {
                out.append("=");
                out.append(b.operator.display());
                out.append(".");
            } else {
                out.append(b.operator.display());
            }
            write_expr(&b.right, out);
        },
        Expr::Nested(inner) => {
            out.append("(");
            write_expr(inner, out);
            out.append(")");
        },
    }
    proof {
        assert(out@ =~= old(out)@ + expr_text(e.deep_view()));
    }
}

/// Appends the canonical renderings of the expressions from `i` on,
/// separated by `sep`, to `out`.
pub fn write_exprs(es: &Vec<Expr>, i: usize, sep: &str, out: &mut String)
    requires
        i <= es@.len(),
    ensures
        final(out)@ == old(out)@ + exprs_text(es.deep_view(), i as int, sep@),
    decreases es, es@.len() - i,
{
    broadcast use vstd::std_specs::vec::group_vec_axioms;
    broadcast use crate::ast::parser::utils::lemma_seq_add_assoc;

    proof {
        lemma_exprs_deep(es@);
        lemma_exprs_deep_vec(es);
    }
    if i < es.len() {
        write_expr(&es[i], out);
        if i + 1 < es.len() {
            out.append(sep);
            write_exprs(es, i + 1, sep, out);
        }
    }
    proof {
        assert(out@ =~= old(out)@ + exprs_text(es.deep_view(), i as int, sep@));
    }
}

/// Appends the canonical rendering of a projection entry to `out`.
pub fn write_expr_rename(er: &ExprRename, out: &mut String)
    ensures
        final(out)@ == old(out)@ + expr_rename_text(er.deep_view()),
{
    broadcast use crate::ast::parser::utils::lemma_seq_add_assoc;

    write_expr(&er.expr, out);
    match &er.rename {
        Some(r) => {
            out.append("=>");
            out.append(r.as_str());
        },
        None => {},
    }
    proof {
        assert(out@ =~= old(out)@ + expr_rename_text(er.deep_view()));
    }
}

/// Appends the renderings of the projection entries from `i` on to `out`.
pub fn write_expr_renames(ers: &Vec<ExprRename>, i: usize, out: &mut String)
    requires
        i <= ers@.len(),
    ensures
        final(out)@ == old(out)@ + expr_renames_text(ers.deep_view(), i as int),
    decreases ers@.len() - i,
{
    broadcast use crate::ast::parser::utils::lemma_seq_add_assoc;

    if i < ers.len() {
        write_expr_rename(&ers[i], out);
        if i + 1 < ers.len() {
            out.append(",");
            write_expr_renames(ers, i + 1, out);
        }
    }
    proof {
        assert(out@ =~= old(out)@ + expr_renames_text(ers.deep_view(), i as int));
    }
}

/// Appends the canonical rendering of a function call to `out`.
pub fn write_function(f: &Function, out: &mut String)
    ensures
        final(out)@ == old(out)@ + function_text(f.deep_view()),
{
    broadcast use crate::ast::parser::utils::lemma_seq_add_assoc;

    out.append(f.name.as_str());
    out.append("(");
    write_exprs(&f.params, 0, ",", out);
    out.append(")");
    proof {
        lemma_exprs_deep_vec(&f.params);
        assert(out@ =~= old(out)@ + function_text(f.deep_view()));
    }
}

impl Value {
    /// Renders this value in the canonical surface syntax.
    pub fn to_text(&self) -> (r: String)
        ensures
            r@ == value_text(self.deep_view()),
    {
        let mut out = String::new();
        write_value(self, &mut out);
        out
    }
}

impl Expr {
    /// Renders this expression in the canonical surface syntax.
    pub fn to_text(&self) -> (r: String)
        ensures
            r@ == expr_text(self.deep_view()),
    {
        let mut out = String::new();
        write_expr(self, &mut out);
        out
    }
}

/// An operator that takes the separator never renders without it: the
/// canonical rendering of a binary operation whose operator demands the
/// dot is `left=op.right`, with the dot standing between the operator and
/// the right-hand side.
pub proof fn lemma_separator_operators_render_with_dot(b: BinaryOperationV)
    requires
        b.operator.spec_needs_separator(),
    ensures
        expr_text(ExprV::BinaryOperation(Box::new(b))) == expr_text(b.left) + "="@
            + b.operator.token() + "."@ + expr_text(b.right),
{
}

} // verus!
