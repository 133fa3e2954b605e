//! RestQ: a URL-and-CSV oriented surface syntax that lowers to SQL.
//!
//! The crate parses an HTTP-style request line (method plus path/query) into a
//! statement tree, consults a catalog of table definitions to expand joins and
//! foreign keys, and emits an abstract SQL statement tree together with its
//! textual rendering.  CSV bodies are interpreted as typed rows aligned to the
//! declared columns.

use vstd::prelude::*;
use vstd::string::StringExecFns;

pub mod ast;
pub mod data_type;
pub mod data_value;
pub mod csv_data;
pub mod csv_rows;
pub mod lower;
pub mod multi_stmt;
pub mod plain_data;
pub mod lower_ddl;
pub mod sql;
pub mod stmt_data;

pub use ast::parser::utils::bytes_to_chars;
pub use ast::parser::utils::to_chars;
pub use csv_rows::CsvRows;
pub use data_type::DataType;
pub use data_value::DataValue;
pub use multi_stmt::MultiStatement;
pub use multi_stmt::StatementIter;
pub use plain_data::PlainData;
pub use stmt_data::parse_select_chars;
pub use stmt_data::parse_statement;
pub use stmt_data::StmtData;

verus! {

/// The errors a RestQ call can surface.
#[derive(Debug, Clone, PartialEq)]
pub enum Error {
    /// The input does not match the grammar; carries the failing position
    /// and what was expected there.
    ParseError(usize, String),
    /// An unknown data-type tag was used in a column definition.
    InvalidDataType(String),
    /// A textual value could not be coerced to the requested data type.
    InvalidValue(String),
    /// A lowering error involving the table catalog.
    TableError(crate::ast::TableError),
    /// A catch-all with a message.
    GenericError(String),
    /// Exactly one statement was expected but several were produced.
    MoreThanOneStatement,
    /// The feature is recognized by the grammar but has no lowering.
    NotImplemented(String),
}

/// The rendering of an error, naming its kind and payload.
pub open spec fn error_text(e: Error) -> Seq<char> {
    match e {
        Error::ParseError(_, _) => "ParseError"@,
        Error::InvalidDataType(t) => "InvalidDataType(\""@ + t@ + "\")"@,
        Error::InvalidValue(t) => "InvalidValue(\""@ + t@ + "\")"@,
        Error::TableError(te) => match te {
            crate::ast::TableError::NoSuppliedTableLookup => "NoSuppliedTableLookup"@,
            crate::ast::TableError::TableNotFound(t) => "TableNotFound(\""@ + t@ + "\")"@,
        },
        Error::GenericError(t) => "GenericError(\""@ + t@ + "\")"@,
        Error::MoreThanOneStatement => "MoreThanOneStatement"@,
        Error::NotImplemented(t) => "NotImplemented(\""@ + t@ + "\")"@,
    }
}

impl Error {
    /// Renders this error, naming its kind and payload.
    pub fn to_text(&self) -> (r: String)
        ensures
            r@ == error_text(*self),
    {
        broadcast use crate::ast::parser::utils::lemma_seq_add_assoc;

        let mut out = String::new();
        match self {
            Error::ParseError(_, _) => out.append("ParseError"),
            Error::InvalidDataType(t) => {
                out.append("InvalidDataType(\"");
                out.append(t.as_str());
                out.append("\")");
            },
            Error::InvalidValue(t) => {
                out.append("InvalidValue(\"");
                out.append(t.as_str());
                out.append("\")");
            },
            Error::TableError(te) => match te {
                crate::ast::TableError::NoSuppliedTableLookup => out.append(
                    "NoSuppliedTableLookup",
                ),
                crate::ast::TableError::TableNotFound(t) => {
                    out.append("TableNotFound(\"");
                    out.append(t.as_str());
                    out.append("\")");
                },
            },
            Error::GenericError(t) => {
                out.append("GenericError(\"");
                out.append(t.as_str());
                out.append("\")");
            },
            Error::MoreThanOneStatement => out.append("MoreThanOneStatement"),
            Error::NotImplemented(t) => {
                out.append("NotImplemented(\"");
                out.append(t.as_str());
                out.append("\")");
            },
        }
        proof {
            assert(out@ =~= error_text(*self));
        }
        out
    }
}

} // verus!
