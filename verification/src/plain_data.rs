//! A plain frame: a table definition header line with a CSV body.

use vstd::prelude::*;

use crate::ast::parser::utils::all_ascii;
use crate::ast::parser::utils::ascii_chars;
use crate::ast::parser::utils::bytes_to_chars;
use crate::ast::TableDef;
use crate::csv_rows::CsvRows;
use crate::stmt_data::first_line_end;

verus! {

/// A table definition with the raw bytes of its CSV body.
pub struct PlainData {
    pub header: TableDef,
    pub body: Vec<u8>,
}

impl PlainData {
    /// Reads a frame from bytes: the first line is parsed as a table
    /// definition, the rest is kept as the body.  On an ASCII first line it
    /// succeeds exactly when that line parses as a table definition, and
    /// the header is that definition.
    pub fn from_bytes(input: &Vec<u8>) -> (r: Result<PlainData, crate::Error>)
        ensures
            ({
                let line = input@.take(first_line_end(input@, 0));
                match r {
                    Ok(pd) => pd.body@ == input@.skip(first_line_end(input@, 0)) && (all_ascii(
                        line,
                    ) ==> (crate::ast::parser::sp_table_def(ascii_chars(line), 0)
                        matches crate::ast::parser::Parsed::Found(v, _) && pd.header.deep_view()
                        == v)),
                    Err(_) => all_ascii(line) ==> !(crate::ast::parser::sp_table_def(
                        ascii_chars(line),
                        0,
                    ) is Found),
                }
            }),
    {
        let n = input.len();
        let mut end: usize = 0;
        while end < n && input[end] != 10u8
            invariant
                n == input@.len(),
                0 <= end <= n,
                first_line_end(input@, 0) == first_line_end(input@, end as int),
            decreases n - end,
        {
            end += 1;
        }
        let line_end = if end < n {
            end + 1
        } else {
            end
        };
        let first_line = crate::ast::parser::utils::subvec_bytes(input, 0, line_end);
        proof {
            assert(first_line@ =~= input@.take(first_line_end(input@, 0)));
        }
        let header_input = bytes_to_chars(first_line.as_slice());
        let header = match crate::ast::ddl::table_def(&header_input) {
            Ok(td) => td,
            Err(e) => {
                return Err(e);
            },
        };
        let body = crate::ast::parser::utils::subvec_bytes(input, line_end, n);
        Ok(PlainData { header, body })
    }

    /// The parsed table definition.
    pub fn table_def(&self) -> (r: &TableDef)
        ensures
            r == &self.header,
    {
        &self.header
    }

    /// The CSV rows of the body.
    pub fn rows_iter(self) -> (r: CsvRows)
        ensures
            r.records_view() == crate::csv_rows::csv_records_of(self.body@),
            r.position() == 0,
    {
        CsvRows::new(self.body)
    }
}

} // verus!
