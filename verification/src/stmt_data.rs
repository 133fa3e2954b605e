//! A statement frame: the parsed header line and the CSV body after it.

use vstd::prelude::*;

use crate::ast::parser::utils::all_ascii;
use crate::ast::parser::utils::ascii_chars;
use crate::ast::parser::utils::bytes_to_chars;
use crate::ast::Statement;
use crate::csv_rows::CsvRows;

pub mod parser;

pub use parser::parse_header;
pub use parser::parse_select_chars;
pub use parser::parse_statement;
pub use parser::Prefix;

verus! {

/// The index after the first newline byte, or the input's length.
pub open spec fn first_line_end(b: Seq<u8>, i: int) -> int
    decreases b.len() - i,
{
    if 0 <= i < b.len() {
        if b[i] == 10 {
            i + 1
        } else {
            first_line_end(b, i + 1)
        }
    } else {
        b.len() as int
    }
}

/// A statement frame: the statement of the header line, and the raw bytes
/// of the body after it.
pub struct StmtData {
    pub header: Statement,
    pub body: Vec<u8>,
}

impl StmtData {
    /// Reads a frame from bytes: the first line up to and including its
    /// newline is parsed as the statement, the rest is kept as the body.
    /// On an ASCII first line it succeeds exactly when the dispatcher
    /// reads a statement from that line's characters, and the header is
    /// that statement.
    pub fn from_bytes(input: &Vec<u8>) -> (r: Result<StmtData, crate::Error>)
        ensures
            ({
                let line = input@.take(first_line_end(input@, 0));
                match r {
                    Ok(sd) => sd.body@ == input@.skip(first_line_end(input@, 0)) && (all_ascii(
                        line,
                    ) ==> (crate::ast::parser::sp_statement(ascii_chars(line), 0)
                        matches crate::ast::parser::Parsed::Found(v, _) && sd.header.deep_view()
                        == v)),
                    Err(_) => all_ascii(line) ==> !(crate::ast::parser::sp_statement(
                        ascii_chars(line),
                        0,
                    ) is Found),
                }
            }),
    {
        let n = input.len();
        let mut end: usize = 0;
        while end < n && input[end] != 10u8
            invariant
                n == input@.len(),
                0 <= end <= n,
                first_line_end(input@, 0) == first_line_end(input@, end as int),
            decreases n - end,
        {
            end += 1;
        }
        let line_end = if end < n {
            end + 1
        } else {
            end
        };
        let first_line = crate::ast::parser::utils::subvec_bytes(input, 0, line_end);
        proof {
            assert(first_line@ =~= input@.take(first_line_end(input@, 0)));
        }
        let header_input = bytes_to_chars(first_line.as_slice());
        let statement = match crate::ast::parser::statement_at(&header_input, 0) {
            Ok((st, _)) => st,
            Err(e) => {
                return Err(crate::ast::parser::perr_to_error(e, "statement"));
            },
        };
        let body = crate::ast::parser::utils::subvec_bytes(input, line_end, n);
        Ok(StmtData { header: statement, body })
    }

    /// A copy of the parsed statement.
    pub fn statement(&self) -> (r: Statement)
        ensures
            r.deep_view() == self.header.deep_view(),
    {
        self.header.clone()
    }

    /// The CSV rows of the body, for the statement kinds that carry one.
    pub fn rows_iter(self) -> (r: Option<CsvRows>)
        ensures
            match self.header {
                Statement::Create(_) => r is Some,
                Statement::Insert(_) => r is Some,
                Statement::BulkDelete(_) => r is Some,
                Statement::BulkUpdate(_) => r is Some,
                _ => r is None,
            },
            match r {
                Some(rows) => rows.records_view() == crate::csv_rows::csv_records_of(self.body@)
                    && rows.position() == 0,
                None => true,
            },
    {
        match self.header {
            Statement::Select(_) => None,
            Statement::Delete(_) => None,
            Statement::AlterTable(_) => None,
            Statement::DropTable(_) => None,
            Statement::Update(_) => None,
            Statement::Create(_) => Some(CsvRows::new(self.body)),
            Statement::Insert(_) => Some(CsvRows::new(self.body)),
            Statement::BulkDelete(_) => Some(CsvRows::new(self.body)),
            Statement::BulkUpdate(_) => Some(CsvRows::new(self.body)),
        }
    }
}

} // verus!
