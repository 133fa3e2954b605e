//! The CSV rows of a statement body, as coarse or typed values.

use vstd::prelude::*;

use crate::ast::ddl::ColumnDefV;
use crate::ast::ddl::ColumnDef;
use crate::ast::expr::ValueV;
use crate::ast::Value;
use crate::data_value::spec_cast;
use crate::data_value::DataValue;
use crate::data_value::DataValueV;

verus! {

/// What the CSV reader yields for a byte stream: its records' fields, in
/// order, with no header row.
pub uninterp spec fn csv_records_of(b: Seq<u8>) -> Seq<Seq<Seq<char>>>;

/// Relies on the csv crate's reader with `has_headers(false)`: the records
/// of the byte stream, each a vector of its fields.
#[verifier::external_body]
fn parse_csv_records(body: &Vec<u8>) -> (r: Vec<Vec<String>>)
    ensures
        r.deep_view() == csv_records_of(body@),
{
    let mut out = Vec::new();
    let reader = csv::ReaderBuilder::new()
        .has_headers(false)
        .from_reader(body.as_slice());
    for record in reader.into_records() {
        match record {
            Ok(rec) => out.push(rec.iter().map(|f| f.to_string()).collect()),
            Err(_) => break,
        }
    }
    out
}

/// A record's fields as coarse string values.
pub open spec fn strs_row(rec: Seq<Seq<char>>) -> Seq<ValueV> {
    Seq::new(rec.len(), |j: int| ValueV::Str(rec[j]))
}

/// The remaining records from `i` on, as coarse string rows.
pub open spec fn rows_as_strs(recs: Seq<Seq<Seq<char>>>, i: int) -> Seq<Seq<ValueV>>
    decreases recs.len() - i,
{
    if i < 0 || i >= recs.len() {
        Seq::empty()
    } else {
        seq![strs_row(recs[i])] + rows_as_strs(recs, i + 1)
    }
}

/// The index of the column definition that types field `j` of a row of
/// `row_len` fields: the definitions double when the row carries old and
/// new values.
pub open spec fn def_index(n_defs: int, row_len: int, j: int) -> int {
    if row_len == 2 * n_defs && j >= n_defs {
        j - n_defs
    } else {
        j
    }
}

/// How many fields of a record are typed: all of them when they fit the
/// definitions singly or doubled, the definitions' count otherwise.
pub open spec fn typed_len(n_defs: int, rec_len: int) -> int {
    if rec_len <= n_defs || rec_len == 2 * n_defs {
        rec_len
    } else {
        n_defs
    }
}

/// What field `j` of a record coerces to under the definitions.
pub open spec fn field_cast(
    rec: Seq<Seq<char>>,
    defs: Seq<ColumnDefV>,
    j: int,
) -> Option<DataValueV> {
    spec_cast(
        ValueV::Str(rec[j]),
        defs[def_index(defs.len() as int, rec.len() as int, j)].data_type_def.data_type,
    )
}

/// The first typed field of the record that fails to coerce, from `j` on.
pub open spec fn first_cast_fail(rec: Seq<Seq<char>>, defs: Seq<ColumnDefV>, j: int) -> Option<
    int,
>
    decreases typed_len(defs.len() as int, rec.len() as int) - j,
{
    if j < 0 || j >= typed_len(defs.len() as int, rec.len() as int) {
        None
    } else if field_cast(rec, defs, j) is None {
        Some(j)
    } else {
        first_cast_fail(rec, defs, j + 1)
    }
}

/// Whether a typed row is the record coerced field by field.
pub open spec fn typed_row_rel(
    row: Seq<DataValueV>,
    rec: Seq<Seq<char>>,
    defs: Seq<ColumnDefV>,
) -> bool {
    row.len() == typed_len(defs.len() as int, rec.len() as int) && forall|j: int|
        0 <= j < row.len() ==> field_cast(rec, defs, j) == Some(#[trigger] row[j])
}

/// The parsed CSV records of one statement body.
pub struct CsvRows {
    records: Vec<Vec<String>>,
    pos: usize,
}

impl CsvRows {
    /// The records this reader holds.
    pub closed spec fn records_view(&self) -> Seq<Seq<Seq<char>>> {
        self.records.deep_view()
    }

    /// How many records were already handed out.
    pub closed spec fn position(&self) -> int {
        self.pos as int
    }

    /// Reads the records of a statement body.
    pub fn new(body: Vec<u8>) -> (r: CsvRows)
        ensures
            r.records_view() == csv_records_of(body@),
            r.position() == 0,
    {
        CsvRows { records: parse_csv_records(&body), pos: 0 }
    }

    /// Hands out the next record as coarse string values; nothing exactly
    /// when every record was handed out.
    pub fn next_row(&mut self) -> (r: Option<Vec<Value>>)
        ensures
            final(self).records_view() == old(self).records_view(),
            match r {
                Some(row) => old(self).position() < old(self).records_view().len() && final(self).position() == old(self).position() + 1 && row.deep_view() == strs_row(
                    old(self).records_view()[old(self).position()],
                ),
                None => old(self).position() >= old(self).records_view().len() && final(self).position() == old(self).position(),
            },
    {
        if self.pos < self.records.len() {
            let rec = &self.records[self.pos];
            let mut row: Vec<Value> = Vec::new();
            let mut j: usize = 0;
            while j < rec.len()
                invariant
                    j <= rec@.len(),
                    rec.deep_view().len() == rec@.len(),
                    row.deep_view().len() == j,
                    forall|k: int|
                        0 <= k < j ==> row.deep_view()[k] == ValueV::Str(rec.deep_view()[k]),
                decreases rec@.len() - j,
            {
                let ghost r0 = row.deep_view();
                row.push(Value::String(rec[j].clone()));
                proof {
                    assert(row.deep_view() =~= r0.push(ValueV::Str(rec.deep_view()[j as int])));
                }
                j += 1;
            }
            proof {
                assert(self.records.deep_view()[self.pos as int] == self.records@[
                    self.pos as int].deep_view());
                assert(row.deep_view() =~= strs_row(
                    self.records.deep_view()[self.pos as int],
                ));
            }
            self.pos += 1;
            Some(row)
        } else {
            None
        }
    }

    /// Collects every remaining record as coarse string values, in order,
    /// leaving the cursor at the end.
    pub fn collect_rows(&mut self) -> (r: Vec<Vec<Value>>)
        requires
            old(self).position() <= old(self).records_view().len(),
        ensures
            final(self).records_view() == old(self).records_view(),
            final(self).position() == final(self).records_view().len(),
            r.deep_view() == rows_as_strs(old(self).records_view(), old(self).position()),
    {
        broadcast use crate::ast::parser::utils::lemma_seq_add_assoc;

        let ghost recs = self.records_view();
        let ghost start = self.position();
        let ghost target = rows_as_strs(recs, start);
        let mut out: Vec<Vec<Value>> = Vec::new();
        loop
            invariant
                self.records_view() == recs,
                recs == old(self).records_view(),
                start == old(self).position(),
                target == rows_as_strs(recs, start),
                start <= self.position() <= self.records_view().len(),
                out.deep_view() + rows_as_strs(recs, self.position()) == target,
            decreases self.records_view().len() - self.position(),
        {
            let ghost before = self.position();
            let ghost o0 = out.deep_view();
            match self.next_row() {
                Some(row) => {
                    let ghost rv = row.deep_view();
                    out.push(row);
                    proof {
                        assert(out.deep_view() =~= o0 + seq![rv]);
                        assert((o0 + seq![rv]) + rows_as_strs(recs, before + 1) =~= o0 + (seq![
                            rv,
                        ] + rows_as_strs(recs, before + 1)));
                    }
                },
                None => {
                    proof {
                        assert(rows_as_strs(recs, self.position()) =~= Seq::<
                            Seq<ValueV>,
                        >::empty());
                        assert(out.deep_view() =~= target);
                    }
                    return out;
                },
            }
        }
    }

    /// Hands out the next record coerced to the column types; a bulk row of
    /// twice the column count is typed against the definitions doubled.
    /// The first field that fails to coerce is the error, carrying that
    /// field's text.
    pub fn next_typed_row(&mut self, column_defs: &Vec<ColumnDef>) -> (r: Option<
        Result<Vec<DataValue>, crate::Error>,
    >)
        ensures
            final(self).records_view() == old(self).records_view(),
            match r {
                Some(_) => old(self).position() < old(self).records_view().len() && final(self).position() == old(self).position() + 1,
                None => old(self).position() >= old(self).records_view().len() && final(self).position() == old(self).position(),
            },
            match r {
                Some(Ok(row)) => typed_row_rel(
                    row.deep_view(),
                    old(self).records_view()[old(self).position()],
                    column_defs.deep_view(),
                ),
                Some(Err(e)) => ({
                    let rec = old(self).records_view()[old(self).position()];
                    first_cast_fail(rec, column_defs.deep_view(), 0) matches Some(j) && (
                    e matches crate::Error::InvalidValue(t) && t@ == rec[j])
                }),
                None => true,
            },
    {
        let ghost recv = self.records_view()[self.position()];
        let ghost defsv = column_defs.deep_view();
        let rec = match self.next_row() {
            Some(x) => x,
            None => {
                return None;
            },
        };
        let n = column_defs.len();
        let m = if rec.len() <= n {
            rec.len()
        } else if n != 0 && rec.len() % 2 == 0 && rec.len() / 2 == n {
            rec.len()
        } else {
            n
        };
        proof {
            assert(rec.deep_view() == strs_row(recv));
            assert(rec.deep_view().len() == recv.len());
            assert(m as int == typed_len(n as int, recv.len() as int));
        }
        let mut out: Vec<DataValue> = Vec::new();
        let mut j: usize = 0;
        while j < m
            invariant
                self.records_view() == old(self).records_view(),
                old(self).position() < old(self).records_view().len(),
                self.position() == old(self).position() + 1,
                recv == old(self).records_view()[old(self).position()],
                defsv == column_defs.deep_view(),
                rec.deep_view() == strs_row(recv),
                m <= rec@.len(),
                n == column_defs@.len(),
                defsv.len() == n,
                rec.deep_view().len() == rec@.len(),
                rec.deep_view().len() == recv.len(),
                m as int == typed_len(n as int, recv.len() as int),
                j <= m,
                out.deep_view().len() == j,
                first_cast_fail(recv, defsv, 0) == first_cast_fail(recv, defsv, j as int),
                forall|k: int|
                    0 <= k < j ==> field_cast(recv, defsv, k) == Some(
                        #[trigger] out.deep_view()[k],
                    ),
            decreases m - j,
        {
            let def_i = if j >= n {
                j - n
            } else {
                j
            };
            proof {
                assert(def_index(n as int, recv.len() as int, j as int) == def_i as int);
                assert(defsv[def_i as int] == column_defs@[def_i as int].deep_view());
                assert(rec.deep_view()[j as int] == ValueV::Str(recv[j as int]));
            }
            match crate::data_value::cast_data_value(
                &rec[j],
                &column_defs[def_i].data_type_def.data_type,
            ) {
                Ok(d) => {
                    let ghost o0 = out.deep_view();
                    let ghost dv = d.deep_view();
                    out.push(d);
                    proof {
                        assert(out.deep_view() =~= o0.push(dv));
                        assert(field_cast(recv, defsv, j as int) == Some(dv));
                    }
                },
                Err(e) => {
                    proof {
                        assert(field_cast(recv, defsv, j as int) is None);
                        assert(first_cast_fail(recv, defsv, j as int) == Some(j as int));
                    }
                    return Some(Err(e));
                },
            }
            j += 1;
        }
        proof {
            assert(first_cast_fail(recv, defsv, m as int) is None);
        }
        Some(Ok(out))
    }

    /// Collects every remaining record coerced to the column types, in
    /// order; the first record with a field that fails to coerce fails the
    /// collection with that field's error.
    pub fn collect_typed_rows(&mut self, column_defs: &Vec<ColumnDef>) -> (r: Result<
        Vec<Vec<DataValue>>,
        crate::Error,
    >)
        requires
            old(self).position() <= old(self).records_view().len(),
        ensures
            final(self).records_view() == old(self).records_view(),
            match r {
                Ok(rows) => final(self).position() == final(self).records_view().len()
                    && rows.deep_view().len() == old(self).records_view().len() - old(self).position() && forall|k: int|
                    0 <= k < rows.deep_view().len() ==> typed_row_rel(
                        #[trigger] rows.deep_view()[k],
                        old(self).records_view()[old(self).position() + k],
                        column_defs.deep_view(),
                    ),
                Err(e) => (e matches crate::Error::InvalidValue(_)) && exists|k: int|
                    old(self).position() <= k < old(self).records_view().len()
                        && first_cast_fail(
                        #[trigger] old(self).records_view()[k],
                        column_defs.deep_view(),
                        0,
                    ) is Some,
            },
    {
        let ghost recs = self.records_view();
        let ghost start = self.position();
        let ghost defsv = column_defs.deep_view();
        let mut out: Vec<Vec<DataValue>> = Vec::new();
        loop
            invariant
                self.records_view() == recs,
                recs == old(self).records_view(),
                start == old(self).position(),
                defsv == column_defs.deep_view(),
                start <= self.position() <= self.records_view().len(),
                out.deep_view().len() == self.position() - start,
                forall|k: int|
                    0 <= k < out.deep_view().len() ==> typed_row_rel(
                        #[trigger] out.deep_view()[k],
                        recs[start + k],
                        defsv,
                    ),
            decreases self.records_view().len() - self.position(),
        {
            let ghost before = self.position();
            let ghost o0 = out.deep_view();
            match self.next_typed_row(column_defs) {
                Some(Ok(row)) => {
                    let ghost rv = row.deep_view();
                    out.push(row);
                    proof {
                        assert(out.deep_view() =~= o0.push(rv));
                    }
                },
                Some(Err(e)) => {
                    proof {
                        assert(first_cast_fail(recs[before], defsv, 0) is Some);
                    }
                    return Err(e);
                },
                None => {
                    return Ok(out);
                },
            }
        }
    }
}

} // verus!
