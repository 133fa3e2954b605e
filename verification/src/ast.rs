//! The statement tree produced by the parser, and its rendering back to the
//! canonical RestQ surface syntax.

use vstd::prelude::*;
use vstd::string::StringExecFns;

pub mod ddl;
pub mod dml;
pub mod expr;
pub mod operator;
pub mod parser;
pub mod table;

pub use ddl::AlterTable;
pub use ddl::DropTable;
pub use ddl::TableDef;
pub use dml::BulkDelete;
pub use dml::BulkUpdate;
pub use dml::Delete;
pub use dml::Insert;
pub use dml::Update;
pub use expr::BinaryOperation;
pub use expr::ColumnName;
pub use expr::Expr;
pub use expr::ExprRename;
pub use expr::Function;
pub use expr::Value;
pub use operator::Operator;
pub use table::FromTable;
pub use table::JoinType;
pub use table::TableError;
pub use table::TableLookup;
pub use table::TableName;

use crate::ast::expr::expr_text;
use crate::ast::expr::expr_renames_text;
use crate::ast::expr::exprs_text;
use crate::ast::expr::exprs_deep;
use crate::ast::expr::lemma_exprs_deep_vec;
use crate::ast::expr::write_expr;
use crate::ast::expr::write_expr_renames;
use crate::ast::expr::write_exprs;
use crate::ast::expr::ExprV;
use crate::ast::expr::ExprRenameV;
use crate::ast::parser::utils::dec_int_digits;
use crate::ast::parser::utils::i64_to_string;
use crate::ast::parser::utils::lemma_seq_add_assoc;
use crate::ast::table::from_table_text;
use crate::ast::table::write_from_table;
use crate::ast::table::FromTableV;

verus! {

/// A bare column, a name only.
#[derive(Debug, PartialEq)]
pub struct Column {
    pub name: String,
}

impl Clone for Column {
    fn clone(&self) -> (res: Self)
        ensures
            res == *self,
    {
        Column { name: self.name.clone() }
    }
}

impl DeepView for Column {
    type V = Seq<char>;

    open spec fn deep_view(&self) -> Seq<char> {
        self.name@
    }
}

/// The sort direction of an order-by entry.
#[derive(Debug, PartialEq, Eq, Structural, Clone, Copy)]
pub enum Direction {
    Asc,
    Desc,
}

impl DeepView for Direction {
    type V = Direction;

    open spec fn deep_view(&self) -> Direction {
        *self
    }
}

/// An order-by entry: an expression with an optional direction.
#[derive(Debug, PartialEq)]
pub struct Order {
    pub expr: Expr,
    pub direction: Option<Direction>,
}

/// The mathematical shape of an `Order`.
pub struct OrderV {
    pub expr: ExprV,
    pub direction: Option<Direction>,
}

impl DeepView for Order {
    type V = OrderV;

    open spec fn deep_view(&self) -> OrderV {
        OrderV { expr: self.expr.deep_view(), direction: self.direction }
    }
}

impl Clone for Order {
    fn clone(&self) -> (res: Self)
        ensures
            res.deep_view() == self.deep_view(),
    {
        Order { expr: self.expr.clone(), direction: self.direction }
    }
}

/// A page of results: 1-indexed page number and page size.
#[derive(Debug, PartialEq, Eq, Structural, Clone, Copy)]
pub struct Page {
    pub page: i64,
    pub page_size: i64,
}

impl DeepView for Page {
    type V = Page;

    open spec fn deep_view(&self) -> Page {
        *self
    }
}

/// A limit with an optional offset.
#[derive(Debug, PartialEq, Clone, Copy)]
pub struct Limit {
    pub limit: i64,
    pub offset: Option<i64>,
}

impl DeepView for Limit {
    type V = Limit;

    open spec fn deep_view(&self) -> Limit {
        *self
    }
}

/// The range clause of a select: either a page or a limit.
#[derive(Debug, PartialEq, Clone, Copy)]
pub enum Range {
    Page(Page),
    Limit(Limit),
}

impl DeepView for Range {
    type V = Range;

    open spec fn deep_view(&self) -> Range {
        *self
    }
}

impl Range {
    /// The LIMIT the range lowers to: the page size for a page, the limit
    /// itself otherwise.
    pub open spec fn spec_limit(self) -> int {
        match self {
            Range::Page(page) => page.page_size as int,
            Range::Limit(limit) => limit.limit as int,
        }
    }

    /// The OFFSET the range lowers to: `(page - 1) * page_size` for a page
    /// (pages are 1-indexed), the stated offset otherwise.
    pub open spec fn spec_offset(self) -> Option<int> {
        match self {
            Range::Page(page) => Some((page.page - 1) * page.page_size),
            Range::Limit(limit) => match limit.offset {
                Some(o) => Some(o as int),
                None => None,
            },
        }
    }

    /// Whether the offset arithmetic stays within the machine range.
    pub open spec fn offset_in_range(self) -> bool {
        match self {
            Range::Page(page) => i64::MIN <= (page.page - 1) * page.page_size <= i64::MAX,
            Range::Limit(_) => true,
        }
    }

    /// The LIMIT value of this range.
    pub fn limit(&self) -> (r: i64)
        ensures
            r as int == self.spec_limit(),
    {
        match self {
            Range::Page(page) => page.page_size,
            Range::Limit(limit) => limit.limit,
        }
    }

    /// The OFFSET value of this range, when one is emitted.
    pub fn offset(&self) -> (r: Option<i64>)
        requires
            self.offset_in_range(),
        ensures
            match r {
                Some(o) => self.spec_offset() == Some(o as int),
                None => self.spec_offset() is None,
            },
    {
        match self {
            Range::Page(page) => {
                let wide: i128 = (page.page as i128 - 1) * (page.page_size as i128);
                Some(wide as i64)
            },
            Range::Limit(limit) => limit.offset,
        }
    }
}

/// The canonical rendering of a range clause.
pub open spec fn range_text(r: Range) -> Seq<char> {
    match r {
        Range::Page(p) => "page="@ + dec_int_digits(p.page as int) + "&page_size="@
            + dec_int_digits(p.page_size as int),
        Range::Limit(l) => match l.offset {
            Some(o) => "limit="@ + dec_int_digits(l.limit as int) + "&offset="@ + dec_int_digits(
                o as int,
            ),
            None => "limit="@ + dec_int_digits(l.limit as int),
        },
    }
}

/// Appends the canonical rendering of a range clause to `out`.
pub fn write_range(r: &Range, out: &mut String)
    ensures
        final(out)@ == old(out)@ + range_text(*r),
{
    broadcast use crate::ast::parser::utils::lemma_seq_add_assoc;

    match r {
        Range::Page(p) => {
            out.append("page=");
            let t = i64_to_string(p.page);
            out.append(t.as_str());
            out.append("&page_size=");
            let t2 = i64_to_string(p.page_size);
            out.append(t2.as_str());
        },
        Range::Limit(l) => {
            out.append("limit=");
            let t = i64_to_string(l.limit);
            out.append(t.as_str());
            match l.offset {
                Some(o) => {
                    out.append("&offset=");
                    let t2 = i64_to_string(o);
                    out.append(t2.as_str());
                },
                None => {},
            }
        },
    }
    proof {
        assert(out@ =~= old(out)@ + range_text(*r));
    }
}

/// The canonical rendering of an order-by entry: `expr`, `expr.asc`, or
/// `expr.desc`.
pub open spec fn order_text(o: OrderV) -> Seq<char> {
    match o.direction {
        Some(Direction::Asc) => expr_text(o.expr) + ".asc"@,
        Some(Direction::Desc) => expr_text(o.expr) + ".desc"@,
        None => expr_text(o.expr),
    }
}

/// The canonical renderings of order-by entries from `i` on, comma separated.
pub open spec fn orders_text(os: Seq<OrderV>, i: int) -> Seq<char>
    decreases os.len() - i,
{
    if i < 0 || i >= os.len() {
        Seq::empty()
    } else if i == os.len() - 1 {
        order_text(os[i])
    } else {
        order_text(os[i]) + ","@ + orders_text(os, i + 1)
    }
}

/// Appends the canonical rendering of an order-by entry to `out`.
pub fn write_order(o: &Order, out: &mut String)
    ensures
        final(out)@ == old(out)@ + order_text(o.deep_view()),
{
    broadcast use crate::ast::parser::utils::lemma_seq_add_assoc;

    write_expr(&o.expr, out);
    match o.direction {
        Some(Direction::Asc) => out.append(".asc"),
        Some(Direction::Desc) => out.append(".desc"),
        None => {},
    }
    proof {
        assert(out@ =~= old(out)@ + order_text(o.deep_view()));
    }
}

/// Appends the renderings of the order-by entries from `i` on to `out`.
pub fn write_orders(os: &Vec<Order>, i: usize, out: &mut String)
    requires
        i <= os@.len(),
    ensures
        final(out)@ == old(out)@ + orders_text(os.deep_view(), i as int),
    decreases os@.len() - i,
{
    broadcast use crate::ast::parser::utils::lemma_seq_add_assoc;

    if i < os.len() {
        write_order(&os[i], out);
        if i + 1 < os.len() {
            out.append(",");
            write_orders(os, i + 1, out);
        }
    }
    proof {
        assert(out@ =~= old(out)@ + orders_text(os.deep_view(), i as int));
    }
}

/// A select statement of the surface syntax.
#[derive(Debug, PartialEq)]
pub struct Select {
    pub from_table: FromTable,
    pub filter: Option<Expr>,
    pub group_by: Option<Vec<Expr>>,
    pub having: Option<Expr>,
    pub projection: Option<Vec<ExprRename>>,
    pub order_by: Option<Vec<Order>>,
    pub range: Option<Range>,
}

/// The mathematical shape of a `Select`.
pub struct SelectV {
    pub from_table: FromTableV,
    pub filter: Option<ExprV>,
    pub group_by: Option<Seq<ExprV>>,
    pub having: Option<ExprV>,
    pub projection: Option<Seq<ExprRenameV>>,
    pub order_by: Option<Seq<OrderV>>,
    pub range: Option<Range>,
}

impl DeepView for Select {
    type V = SelectV;

    open spec fn deep_view(&self) -> SelectV {
        SelectV {
            from_table: self.from_table.deep_view(),
            filter: self.filter.deep_view(),
            group_by: self.group_by.deep_view(),
            having: self.having.deep_view(),
            projection: self.projection.deep_view(),
            order_by: self.order_by.deep_view(),
            range: self.range,
        }
    }
}

impl Default for Select {
    /// An empty select: no table name, no clauses.
    fn default() -> (res: Self)
        ensures
            res.from_table.from.name@ == Seq::<char>::empty(),
            res.from_table.join is None,
            res.filter is None,
            res.group_by is None,
            res.having is None,
            res.projection is None,
            res.order_by is None,
            res.range is None,
    {
        Select {
            from_table: FromTable { from: TableName { name: String::new() }, join: None },
            filter: None,
            group_by: None,
            having: None,
            projection: None,
            order_by: None,
            range: None,
        }
    }
}

/// The canonical rendering of a select statement: the join chain, then the
/// projection in braces, the filter after `?`, and the `group_by`, `having`,
/// `order_by` and range query parameters, each rendered only when present.
pub open spec fn select_text(s: SelectV) -> Seq<char> {
    from_table_text(s.from_table) + (match s.projection {
        Some(p) => "{"@ + expr_renames_text(p, 0) + "}"@,
        None => Seq::<char>::empty(),
    }) + (match s.filter {
        Some(f) => "?"@ + expr_text(f),
        None => Seq::<char>::empty(),
    }) + (match s.group_by {
        Some(g) => "&group_by="@ + exprs_text(g, 0, ","@),
        None => Seq::<char>::empty(),
    }) + (match s.having {
        Some(h) => "&having="@ + expr_text(h),
        None => Seq::<char>::empty(),
    }) + (match s.order_by {
        Some(o) => "&order_by="@ + orders_text(o, 0),
        None => Seq::<char>::empty(),
    }) + (match s.range {
        Some(r) => "&"@ + range_text(r),
        None => Seq::<char>::empty(),
    })
}

impl Select {
    /// Renders this select in the canonical surface syntax.
    pub fn to_text(&self) -> (r: String)
        ensures
            r@ == select_text(self.deep_view()),
    {
        broadcast use crate::ast::parser::utils::lemma_seq_add_assoc;

        let mut out = String::new();
        write_from_table(&self.from_table, &mut out);
        match &self.projection {
            Some(p) => {
                out.append("{");
                write_expr_renames(p, 0, &mut out);
                out.append("}");
            },
            None => {},
        }
        match &self.filter {
            Some(f) => {
                out.append("?");
                write_expr(f, &mut out);
            },
            None => {},
        }
        match &self.group_by {
            Some(g) => {
                out.append("&group_by=");
                write_exprs(g, 0, ",", &mut out);
            },
            None => {},
        }
        match &self.having {
            Some(h) => {
                out.append("&having=");
                write_expr(h, &mut out);
            },
            None => {},
        }
        match &self.order_by {
            Some(o) => {
                out.append("&order_by=");
                write_orders(o, 0, &mut out);
            },
            None => {},
        }
        match &self.range {
            Some(r) => {
                out.append("&");
                write_range(r, &mut out);
            },
            None => {},
        }
        proof {
            assert(out@ =~= select_text(self.deep_view()));
        }
        out
    }

    /// Replaces the range with the given page.
    pub fn set_page(&mut self, page: i64, page_size: i64)
        ensures
            final(self).range == Some(Range::Page(Page { page, page_size })),
            final(self).from_table == old(self).from_table,
            final(self).filter == old(self).filter,
            final(self).group_by == old(self).group_by,
            final(self).having == old(self).having,
            final(self).projection == old(self).projection,
            final(self).order_by == old(self).order_by,
    {
        self.range = Some(Range::Page(Page { page, page_size }));
    }

    /// The page number, when the range is a page.
    pub fn get_page(&self) -> (r: Option<i64>)
        ensures
            match self.range {
                Some(Range::Page(p)) => r == Some(p.page),
                _ => r is None,
            },
    {
        if let Some(Range::Page(page)) = &self.range {
            Some(page.page)
        } else {
            None
        }
    }

    /// The page size, when the range is a page.
    pub fn get_page_size(&self) -> (r: Option<i64>)
        ensures
            match self.range {
                Some(Range::Page(p)) => r == Some(p.page_size),
                _ => r is None,
            },
    {
        if let Some(Range::Page(page)) = &self.range {
            Some(page.page_size)
        } else {
            None
        }
    }

    /// Replaces the filter with `column operator 'search_key'`.
    pub fn add_simple_filter(&mut self, column: ColumnName, operator: Operator, search_key: &str)
        ensures
            match final(self).filter {
                Some(f) => f.deep_view() == ExprV::BinaryOperation(
                    Box::new(
                        expr::BinaryOperationV {
                            left: ExprV::Column(column.name@),
                            operator,
                            right: ExprV::Value(expr::ValueV::Str(search_key@)),
                        },
                    ),
                ),
                None => false,
            },
            final(self).from_table == old(self).from_table,
            final(self).range == old(self).range,
    {
        let simple_filter = Expr::BinaryOperation(
            Box::new(
                BinaryOperation {
                    left: Expr::Column(column),
                    operator,
                    right: Expr::Value(Value::String(search_key.to_owned())),
                },
            ),
        );
        proof {
            reveal_with_fuel(crate::ast::expr::expr_deep, 3);
        }
        self.filter = Some(simple_filter);
    }
}

impl Clone for Select {
    fn clone(&self) -> (res: Self)
        ensures
            res.deep_view() == self.deep_view(),
    {
        let filter = match &self.filter {
            Some(f) => Some(f.clone()),
            None => None,
        };
        let group_by = match &self.group_by {
            Some(g) => Some(clone_exprs_vec(g)),
            None => None,
        };
        let having = match &self.having {
            Some(h) => Some(h.clone()),
            None => None,
        };
        let projection = match &self.projection {
            Some(p) => Some(clone_expr_renames_vec(p)),
            None => None,
        };
        let order_by = match &self.order_by {
            Some(o) => Some(clone_orders_vec(o)),
            None => None,
        };
        let res = Select {
            from_table: self.from_table.clone(),
            filter,
            group_by,
            having,
            projection,
            order_by,
            range: self.range,
        };
        proof {
            assert(res.deep_view().filter == self.deep_view().filter);
            assert(res.deep_view().group_by == self.deep_view().group_by);
            assert(res.deep_view().projection == self.deep_view().projection);
            assert(res.deep_view().order_by == self.deep_view().order_by);
        }
        res
    }
}

/// Copies a vector of expressions, preserving the deep view.
pub fn clone_exprs_vec(es: &Vec<Expr>) -> (res: Vec<Expr>)
    ensures
        res.deep_view() == es.deep_view(),
{
    let mut out: Vec<Expr> = Vec::new();
    let mut i: usize = 0;
    while i < es.len()
        invariant
            i <= es@.len(),
            out@.len() == i,
            forall|j: int| 0 <= j < i ==> out@[j].deep_view() == es@[j].deep_view(),
        decreases es@.len() - i,
    {
        out.push(es[i].clone());
        i += 1;
    }
    proof {
        assert(out.deep_view() =~= es.deep_view());
    }
    out
}

/// Copies a vector of projection entries, preserving the deep view.
pub fn clone_expr_renames_vec(es: &Vec<ExprRename>) -> (res: Vec<ExprRename>)
    ensures
        res.deep_view() == es.deep_view(),
{
    let mut out: Vec<ExprRename> = Vec::new();
    let mut i: usize = 0;
    while i < es.len()
        invariant
            i <= es@.len(),
            out@.len() == i,
            forall|j: int| 0 <= j < i ==> out@[j].deep_view() == es@[j].deep_view(),
        decreases es@.len() - i,
    {
        out.push(es[i].clone());
        i += 1;
    }
    proof {
        assert(out.deep_view() =~= es.deep_view());
    }
    out
}

/// Copies a vector of order-by entries, preserving the deep view.
pub fn clone_orders_vec(os: &Vec<Order>) -> (res: Vec<Order>)
    ensures
        res.deep_view() == os.deep_view(),
{
    let mut out: Vec<Order> = Vec::new();
    let mut i: usize = 0;
    while i < os.len()
        invariant
            i <= os@.len(),
            out@.len() == i,
            forall|j: int| 0 <= j < i ==> out@[j].deep_view() == os@[j].deep_view(),
        decreases os@.len() - i,
    {
        out.push(os[i].clone());
        i += 1;
    }
    proof {
        assert(out.deep_view() =~= os.deep_view());
    }
    out
}

/// A parsed RestQ statement of any kind.
#[derive(Debug, PartialEq)]
pub enum Statement {
    Select(Select),
    Insert(Insert),
    Update(Update),
    BulkUpdate(BulkUpdate),
    Delete(Delete),
    BulkDelete(BulkDelete),
    Create(TableDef),
    DropTable(DropTable),
    AlterTable(AlterTable),
}

/// The mathematical shape of a `Statement`.
pub enum StatementV {
    Select(SelectV),
    Insert(dml::InsertV),
    Update(dml::UpdateV),
    BulkUpdate(dml::BulkUpdateV),
    Delete(dml::DeleteV),
    BulkDelete(dml::BulkDeleteV),
    Create(ddl::TableDefV),
    DropTable(Seq<char>),
    AlterTable(ddl::AlterTableV),
}

impl DeepView for Statement {
    type V = StatementV;

    open spec fn deep_view(&self) -> StatementV {
        match self {
            Statement::Select(s) => StatementV::Select(s.deep_view()),
            Statement::Insert(s) => StatementV::Insert(s.deep_view()),
            Statement::Update(s) => StatementV::Update(s.deep_view()),
            Statement::BulkUpdate(s) => StatementV::BulkUpdate(s.deep_view()),
            Statement::Delete(s) => StatementV::Delete(s.deep_view()),
            Statement::BulkDelete(s) => StatementV::BulkDelete(s.deep_view()),
            Statement::Create(s) => StatementV::Create(s.deep_view()),
            Statement::DropTable(s) => StatementV::DropTable(s.table.name@),
            Statement::AlterTable(s) => StatementV::AlterTable(s.deep_view()),
        }
    }
}

impl Clone for Statement {
    fn clone(&self) -> (res: Self)
        ensures
            res.deep_view() == self.deep_view(),
    {
        match self {
            Statement::Select(s) => Statement::Select(s.clone()),
            Statement::Insert(s) => Statement::Insert(s.clone()),
            Statement::Update(s) => Statement::Update(s.clone()),
            Statement::BulkUpdate(s) => Statement::BulkUpdate(s.clone()),
            Statement::Delete(s) => Statement::Delete(s.clone()),
            Statement::BulkDelete(s) => Statement::BulkDelete(s.clone()),
            Statement::Create(s) => Statement::Create(s.clone()),
            Statement::DropTable(s) => Statement::DropTable(s.clone()),
            Statement::AlterTable(s) => Statement::AlterTable(s.clone()),
        }
    }
}

/// A page range lowers to its page size as the LIMIT and to
/// `(page - 1) * page_size` as the OFFSET; pages are 1-indexed.  Together
/// with the contract of `Select::into_sql_query`, a lowered select carrying
/// `Range::Page` emits exactly these bounds.
pub proof fn lemma_page_range_lowering(p: Page)
    ensures
        Range::Page(p).spec_limit() == p.page_size as int,
        Range::Page(p).spec_offset() == Some((p.page - 1) * p.page_size),
{
}

} // verus!
