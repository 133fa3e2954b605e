//! A statement frame whose CSV body is read as typed rows.

use vstd::prelude::*;

use crate::ast::ddl::spec_matching_defs;
use crate::ast::ddl::ColumnDef;
use crate::ast::parser::utils::all_ascii;
use crate::ast::parser::utils::ascii_chars;
use crate::ast::table::spec_find_table;
use crate::stmt_data::first_line_end;
use crate::ast::Statement;
use crate::ast::TableLookup;
use crate::csv_rows::CsvRows;
use crate::stmt_data::StmtData;

verus! {

/// Whether the rows-and-definitions pair matches a catalog-typed
/// statement: present exactly when the catalog holds the table, and then
/// the definitions are the named columns' definitions in order.
pub open spec fn rows_defs_match(
    r: Option<(CsvRows, Vec<ColumnDef>)>,
    table: Seq<char>,
    names: Seq<Seq<char>>,
    table_lookup: Option<&TableLookup>,
) -> bool {
    match table_lookup {
        None => r is None,
        Some(lk) => match spec_find_table(lk.deep_view(), table) {
            None => r is None,
            Some(td) => r matches Some(pair) && pair.1.deep_view() == spec_matching_defs(
                td.columns,
                names,
                0,
            ),
        },
    }
}

/// A statement frame read for typed consumption.
pub struct CsvData {
    pub header: Statement,
    pub body: Vec<u8>,
}

impl CsvData {
    /// Reads a frame from bytes, like a statement frame: on an ASCII first
    /// line it succeeds exactly when the dispatcher reads a statement from
    /// that line, which becomes the header; the rest is the body.
    pub fn from_bytes(input: &Vec<u8>) -> (r: Result<CsvData, crate::Error>)
        ensures
            ({
                let line = input@.take(first_line_end(input@, 0));
                match r {
                    Ok(cd) => cd.body@ == input@.skip(first_line_end(input@, 0)) && (all_ascii(
                        line,
                    ) ==> (crate::ast::parser::sp_statement(ascii_chars(line), 0)
                        matches crate::ast::parser::Parsed::Found(v, _) && cd.header.deep_view()
                        == v)),
                    Err(_) => all_ascii(line) ==> !(crate::ast::parser::sp_statement(
                        ascii_chars(line),
                        0,
                    ) is Found),
                }
            }),
    {
        match StmtData::from_bytes(input) {
            Ok(sd) => Ok(CsvData { header: sd.header, body: sd.body }),
            Err(e) => Err(e),
        }
    }

    /// A copy of the parsed statement.
    pub fn statement(&self) -> (r: Statement)
        ensures
            r.deep_view() == self.header.deep_view(),
    {
        self.header.clone()
    }

    /// The CSV rows of the body paired with the column definitions they
    /// are typed against: a create brings its own columns; an insert and
    /// the bulk forms take the named columns' definitions from the
    /// catalog, and yield nothing when the catalog is absent or the table
    /// unknown; the other statement kinds carry no rows.
    pub fn rows_iter(self, table_lookup: Option<&TableLookup>) -> (r: Option<
        (CsvRows, Vec<ColumnDef>),
    >)
        ensures
            match r {
                Some(pair) => pair.0.records_view() == crate::csv_rows::csv_records_of(
                    self.body@,
                ) && pair.0.position() == 0,
                None => true,
            },
            match self.header.deep_view() {
                crate::ast::StatementV::Create(td) => r matches Some(pair)
                    && pair.1.deep_view() == td.columns,
                crate::ast::StatementV::Insert(iv) => rows_defs_match(
                    r,
                    iv.into,
                    iv.columns,
                    table_lookup,
                ),
                crate::ast::StatementV::BulkDelete(bv) => rows_defs_match(
                    r,
                    bv.from,
                    bv.columns,
                    table_lookup,
                ),
                crate::ast::StatementV::BulkUpdate(bv) => rows_defs_match(
                    r,
                    bv.table,
                    bv.columns,
                    table_lookup,
                ),
                _ => r is None,
            },
    {
        match &self.header {
            Statement::Create(table_def) => {
                let defs = table_def.matching_column_def_all();
                Some((CsvRows::new(self.body), defs))
            },
            Statement::Insert(insert) => {
                let lk = match table_lookup {
                    Some(l) => l,
                    None => {
                        return None;
                    },
                };
                let td = match lk.get_table_def(insert.into.name.as_str()) {
                    Some(t) => t,
                    None => {
                        return None;
                    },
                };
                let defs = td.matching_column_def(&insert.columns);
                Some((CsvRows::new(self.body), defs))
            },
            Statement::BulkDelete(delete) => {
                let lk = match table_lookup {
                    Some(l) => l,
                    None => {
                        return None;
                    },
                };
                let td = match lk.get_table_def(delete.from.name.as_str()) {
                    Some(t) => t,
                    None => {
                        return None;
                    },
                };
                let defs = td.matching_column_def(&delete.columns);
                Some((CsvRows::new(self.body), defs))
            },
            Statement::BulkUpdate(update) => {
                let lk = match table_lookup {
                    Some(l) => l,
                    None => {
                        return None;
                    },
                };
                let td = match lk.get_table_def(update.table.name.as_str()) {
                    Some(t) => t,
                    None => {
                        return None;
                    },
                };
                let defs = td.matching_column_def(&update.columns);
                Some((CsvRows::new(self.body), defs))
            },
            _ => None,
        }
    }
}

} // verus!
