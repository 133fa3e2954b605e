//! Data-manipulation statements: insert, update, delete, and their bulk
//! variants driven by CSV rows.

use vstd::prelude::*;

use crate::ast::expr::ColumnName;
use crate::ast::expr::Expr;
use crate::ast::expr::ExprV;
use crate::ast::expr::Value;
use crate::ast::expr::ValueV;
use crate::ast::expr::clone_values;
use crate::ast::table::TableName;
use crate::ast::Select;
use crate::ast::SelectV;

verus! {

/// Where an insert takes its rows from: a nested select, literal rows, or
/// positional parameters.
#[derive(Debug, PartialEq)]
pub enum Source {
    Select(Select),
    Values(Vec<Vec<Value>>),
    Parameterized(Vec<usize>),
}

/// The mathematical shape of a `Source`.
pub enum SourceV {
    Select(SelectV),
    Values(Seq<Seq<ValueV>>),
    Parameterized(Seq<usize>),
}

impl DeepView for Source {
    type V = SourceV;

    open spec fn deep_view(&self) -> SourceV {
        match self {
            Source::Select(s) => SourceV::Select(s.deep_view()),
            Source::Values(rows) => SourceV::Values(rows.deep_view()),
            Source::Parameterized(ps) => SourceV::Parameterized(ps.deep_view()),
        }
    }
}

/// Copies rows of values, preserving the deep view.
pub fn clone_rows(rows: &Vec<Vec<Value>>) -> (res: Vec<Vec<Value>>)
    ensures
        res.deep_view() == rows.deep_view(),
{
    let mut out: Vec<Vec<Value>> = Vec::new();
    let mut i: usize = 0;
    while i < rows.len()
        invariant
            i <= rows@.len(),
            out@.len() == i,
            forall|j: int| 0 <= j < i ==> out@[j]@ == rows@[j]@,
        decreases rows@.len() - i,
    {
        out.push(clone_values(&rows[i]));
        i += 1;
    }
    proof {
        assert(out.deep_view() =~~= rows.deep_view());
    }
    out
}

/// Copies a vector of column names, preserving the deep view.
pub fn clone_columns(cols: &Vec<ColumnName>) -> (res: Vec<ColumnName>)
    ensures
        res.deep_view() == cols.deep_view(),
        res@ == cols@,
{
    let mut out: Vec<ColumnName> = Vec::new();
    let mut i: usize = 0;
    while i < cols.len()
        invariant
            i <= cols@.len(),
            out@.len() == i,
            forall|j: int| 0 <= j < i ==> out@[j] == cols@[j],
        decreases cols@.len() - i,
    {
        out.push(cols[i].clone());
        i += 1;
    }
    proof {
        assert(out@ =~= cols@);
        assert(out.deep_view() =~= cols.deep_view());
    }
    out
}

impl Clone for Source {
    fn clone(&self) -> (res: Self)
        ensures
            res.deep_view() == self.deep_view(),
    {
        match self {
            Source::Select(s) => Source::Select(s.clone()),
            Source::Values(rows) => Source::Values(clone_rows(rows)),
            Source::Parameterized(ps) => {
                let res = Source::Parameterized(ps.clone());
                proof {
                    assert(res.deep_view() =~~= self.deep_view());
                }
                res
            },
        }
    }
}

/// An insert: target table, columns, row source, and optional returning.
#[derive(Debug, PartialEq)]
pub struct Insert {
    pub into: TableName,
    pub columns: Vec<ColumnName>,
    pub source: Source,
    pub returning: Option<Vec<ColumnName>>,
}

/// The mathematical shape of an `Insert`.
pub struct InsertV {
    pub into: Seq<char>,
    pub columns: Seq<Seq<char>>,
    pub source: SourceV,
    pub returning: Option<Seq<Seq<char>>>,
}

impl DeepView for Insert {
    type V = InsertV;

    open spec fn deep_view(&self) -> InsertV {
        InsertV {
            into: self.into.name@,
            columns: self.columns.deep_view(),
            source: self.source.deep_view(),
            returning: self.returning.deep_view(),
        }
    }
}

impl Clone for Insert {
    fn clone(&self) -> (res: Self)
        ensures
            res.deep_view() == self.deep_view(),
    {
        let returning = match &self.returning {
            Some(r) => Some(clone_columns(r)),
            None => None,
        };
        let res = Insert {
            into: self.into.clone(),
            columns: clone_columns(&self.columns),
            source: self.source.clone(),
            returning,
        };
        proof {
            assert(res.deep_view().returning == self.deep_view().returning);
        }
        res
    }
}

/// A delete with an optional filter.
#[derive(Debug, PartialEq)]
pub struct Delete {
    pub from: TableName,
    pub condition: Option<Expr>,
}

/// The mathematical shape of a `Delete`.
pub struct DeleteV {
    pub from: Seq<char>,
    pub condition: Option<ExprV>,
}

impl DeepView for Delete {
    type V = DeleteV;

    open spec fn deep_view(&self) -> DeleteV {
        DeleteV { from: self.from.name@, condition: self.condition.deep_view() }
    }
}

impl Clone for Delete {
    fn clone(&self) -> (res: Self)
        ensures
            res.deep_view() == self.deep_view(),
    {
        let condition = match &self.condition {
            Some(c) => Some(c.clone()),
            None => None,
        };
        Delete { from: self.from.clone(), condition }
    }
}

/// A bulk delete: rows of key values against the named columns.
#[derive(Debug, PartialEq)]
pub struct BulkDelete {
    pub from: TableName,
    pub columns: Vec<ColumnName>,
    pub values: Vec<Vec<Value>>,
}

/// The mathematical shape of a `BulkDelete`.
pub struct BulkDeleteV {
    pub from: Seq<char>,
    pub columns: Seq<Seq<char>>,
    pub values: Seq<Seq<ValueV>>,
}

impl DeepView for BulkDelete {
    type V = BulkDeleteV;

    open spec fn deep_view(&self) -> BulkDeleteV {
        BulkDeleteV {
            from: self.from.name@,
            columns: self.columns.deep_view(),
            values: self.values.deep_view(),
        }
    }
}

impl Clone for BulkDelete {
    fn clone(&self) -> (res: Self)
        ensures
            res.deep_view() == self.deep_view(),
    {
        BulkDelete {
            from: self.from.clone(),
            columns: clone_columns(&self.columns),
            values: clone_rows(&self.values),
        }
    }
}

/// An update: columns with their new values and an optional filter.
#[derive(Debug, PartialEq)]
pub struct Update {
    pub table: TableName,
    pub columns: Vec<ColumnName>,
    pub values: Vec<Value>,
    pub condition: Option<Expr>,
}

/// The mathematical shape of an `Update`.
pub struct UpdateV {
    pub table: Seq<char>,
    pub columns: Seq<Seq<char>>,
    pub values: Seq<ValueV>,
    pub condition: Option<ExprV>,
}

impl DeepView for Update {
    type V = UpdateV;

    open spec fn deep_view(&self) -> UpdateV {
        UpdateV {
            table: self.table.name@,
            columns: self.columns.deep_view(),
            values: self.values.deep_view(),
            condition: self.condition.deep_view(),
        }
    }
}

impl Clone for Update {
    fn clone(&self) -> (res: Self)
        ensures
            res.deep_view() == self.deep_view(),
    {
        let condition = match &self.condition {
            Some(c) => Some(c.clone()),
            None => None,
        };
        let res = Update {
            table: self.table.clone(),
            columns: clone_columns(&self.columns),
            values: clone_values(&self.values),
            condition,
        };
        proof {
            assert(res.deep_view().values =~= self.deep_view().values);
        }
        res
    }
}

/// A bulk update: each row carries the old values then the new values.
#[derive(Debug, PartialEq)]
pub struct BulkUpdate {
    pub table: TableName,
    pub columns: Vec<ColumnName>,
    pub values: Vec<Vec<Value>>,
}

/// The mathematical shape of a `BulkUpdate`.
pub struct BulkUpdateV {
    pub table: Seq<char>,
    pub columns: Seq<Seq<char>>,
    pub values: Seq<Seq<ValueV>>,
}

impl DeepView for BulkUpdate {
    type V = BulkUpdateV;

    open spec fn deep_view(&self) -> BulkUpdateV {
        BulkUpdateV {
            table: self.table.name@,
            columns: self.columns.deep_view(),
            values: self.values.deep_view(),
        }
    }
}

impl Clone for BulkUpdate {
    fn clone(&self) -> (res: Self)
        ensures
            res.deep_view() == self.deep_view(),
    {
        BulkUpdate {
            table: self.table.clone(),
            columns: clone_columns(&self.columns),
            values: clone_rows(&self.values),
        }
    }
}


/// Parses an insert from the start of the input; what follows the parsed
/// prefix (the CSV body) is left unread.
pub fn insert(input: &Vec<char>) -> (r: Result<Insert, crate::Error>)
    ensures
        crate::ast::parser::wrap_agrees(r, crate::ast::parser::sp_insert(input@, 0)),
{
    match crate::ast::parser::insert_at(input, 0) {
        Ok((v, _)) => Ok(v),
        Err(e) => Err(crate::ast::parser::perr_to_error(e, "insert")),
    }
}

/// Parses an update from the start of the input.
pub fn update(input: &Vec<char>) -> (r: Result<Update, crate::Error>)
    ensures
        crate::ast::parser::wrap_agrees(r, crate::ast::parser::sp_update(input@, 0)),
{
    match crate::ast::parser::update_at(input, 0) {
        Ok((v, _)) => Ok(v),
        Err(e) => Err(crate::ast::parser::perr_to_error(e, "update")),
    }
}

/// Parses a delete from the start of the input.
pub fn delete(input: &Vec<char>) -> (r: Result<Delete, crate::Error>)
    ensures
        crate::ast::parser::wrap_agrees(r, crate::ast::parser::sp_delete(input@, 0)),
{
    match crate::ast::parser::delete_at(input, 0) {
        Ok((v, _)) => Ok(v),
        Err(e) => Err(crate::ast::parser::perr_to_error(e, "delete")),
    }
}

/// Parses a bulk update head from the start of the input; the rows come
/// from the CSV body.
pub fn bulk_update(input: &Vec<char>) -> (r: Result<BulkUpdate, crate::Error>)
    ensures
        match crate::ast::parser::sp_bulk_head(input@, 0) {
            crate::ast::parser::Parsed::Found(m, _) => r matches Ok(b) && b.table.name@ == m.0
                && b.columns.deep_view() == m.1 && b.values.deep_view() == Seq::<
                Seq<ValueV>,
            >::empty(),
            _ => r is Err,
        },
{
    match crate::ast::parser::bulk_head_at(input, 0) {
        Ok((table, columns, _)) => {
            let values: Vec<Vec<Value>> = Vec::new();
            proof {
                assert(values.deep_view() =~= Seq::<Seq<ValueV>>::empty());
            }
            Ok(BulkUpdate { table, columns, values })
        },
        Err(e) => Err(crate::ast::parser::perr_to_error(e, "bulk update")),
    }
}

/// Parses a bulk delete head from the start of the input; the rows come
/// from the CSV body.
pub fn bulk_delete(input: &Vec<char>) -> (r: Result<BulkDelete, crate::Error>)
    ensures
        match crate::ast::parser::sp_bulk_head(input@, 0) {
            crate::ast::parser::Parsed::Found(m, _) => r matches Ok(b) && b.from.name@ == m.0
                && b.columns.deep_view() == m.1 && b.values.deep_view() == Seq::<
                Seq<ValueV>,
            >::empty(),
            _ => r is Err,
        },
{
    match crate::ast::parser::bulk_head_at(input, 0) {
        Ok((from, columns, _)) => {
            let values: Vec<Vec<Value>> = Vec::new();
            proof {
                assert(values.deep_view() =~= Seq::<Seq<ValueV>>::empty());
            }
            Ok(BulkDelete { from, columns, values })
        },
        Err(e) => Err(crate::ast::parser::perr_to_error(e, "bulk delete")),
    }
}


} // verus!
