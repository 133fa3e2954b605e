//! Table names, join chains, and the catalog of table definitions.

use vstd::prelude::*;
use vstd::string::StringExecFns;

use crate::ast::ddl::TableDef;
use crate::ast::ddl::TableDefV;

verus! {

/// Errors raised while consulting the catalog during lowering.
#[derive(Debug, PartialEq)]
pub enum TableError {
    /// A join was written but no catalog was supplied to the lowering.
    NoSuppliedTableLookup,
    /// The named table is not in the supplied catalog.
    TableNotFound(String),
}

impl Clone for TableError {
    fn clone(&self) -> (res: Self)
        ensures
            res == *self,
    {
        match self {
            TableError::NoSuppliedTableLookup => TableError::NoSuppliedTableLookup,
            TableError::TableNotFound(s) => TableError::TableNotFound(s.clone()),
        }
    }
}

/// A table name, possibly schema-qualified (`schema.table`).
#[derive(Debug)]
pub struct TableName {
    pub name: String,
}

impl DeepView for TableName {
    type V = Seq<char>;

    open spec fn deep_view(&self) -> Seq<char> {
        self.name@
    }
}

impl Clone for TableName {
    fn clone(&self) -> (res: Self)
        ensures
            res == *self,
    {
        TableName { name: self.name.clone() }
    }
}

impl PartialEq for TableName {
    fn eq(&self, other: &TableName) -> (r: bool) {
        self.name == other.name
    }
}

impl vstd::std_specs::cmp::PartialEqSpecImpl for TableName {
    open spec fn obeys_eq_spec() -> bool {
        true
    }

    open spec fn eq_spec(&self, other: &TableName) -> bool {
        self.name@ == other.name@
    }
}

/// The kind of a join between two tables of a from-chain.
#[derive(Debug, PartialEq, Eq, Structural, Clone, Copy)]
pub enum JoinType {
    InnerJoin,
    LeftJoin,
    RightJoin,
    FullJoin,
}

impl DeepView for JoinType {
    type V = JoinType;

    open spec fn deep_view(&self) -> JoinType {
        *self
    }
}

impl JoinType {
    /// The join arrow of the surface syntax.
    pub open spec fn token(self) -> Seq<char> {
        match self {
            JoinType::InnerJoin => "-><-"@,
            JoinType::LeftJoin => "<-"@,
            JoinType::RightJoin => "->"@,
            JoinType::FullJoin => "<-->"@,
        }
    }

    /// Renders the join arrow.
    pub fn display(&self) -> (r: &'static str)
        ensures
            r@ == self.token(),
    {
        match self {
            JoinType::InnerJoin => "-><-",
            JoinType::LeftJoin => "<-",
            JoinType::RightJoin => "->",
            JoinType::FullJoin => "<-->",
        }
    }
}

/// A head table with an optional join continuation, forming a chain.
#[derive(Debug, PartialEq)]
pub struct FromTable {
    pub from: TableName,
    pub join: Option<(JoinType, Box<FromTable>)>,
}

/// The mathematical shape of a `FromTable`.
pub enum FromTableV {
    Leaf(Seq<char>),
    Join(Seq<char>, JoinType, Box<FromTableV>),
}

impl FromTableV {
    /// The head table name of the chain.
    pub open spec fn head(self) -> Seq<char> {
        match self {
            FromTableV::Leaf(n) => n,
            FromTableV::Join(n, _, _) => n,
        }
    }
}

impl DeepView for FromTable {
    type V = FromTableV;

    open spec fn deep_view(&self) -> FromTableV {
        from_table_deep(*self)
    }
}

/// The deep view of a join chain, defined structurally.
pub open spec fn from_table_deep(f: FromTable) -> FromTableV
    decreases f,
{
    match f.join {
        None => FromTableV::Leaf(f.from.name@),
        Some((jt, rest)) => FromTableV::Join(f.from.name@, jt, Box::new(from_table_deep(*rest))),
    }
}

impl Clone for FromTable {
    fn clone(&self) -> (res: Self)
        ensures
            res.deep_view() == self.deep_view(),
        decreases self,
    {
        let join = match &self.join {
            None => None,
            Some((jt, rest)) => Some((*jt, Box::new((**rest).clone()))),
        };
        FromTable { from: self.from.clone(), join }
    }
}

/// The canonical rendering of a join chain: names joined by join arrows.
pub open spec fn from_table_text(f: FromTableV) -> Seq<char>
    decreases f,
{
    match f {
        FromTableV::Leaf(n) => n,
        FromTableV::Join(n, jt, rest) => n + jt.token() + from_table_text(*rest),
    }
}

/// Appends the canonical rendering of a join chain to `out`.
pub fn write_from_table(f: &FromTable, out: &mut String)
    ensures
        final(out)@ == old(out)@ + from_table_text(f.deep_view()),
    decreases f,
{
    broadcast use crate::ast::parser::utils::lemma_seq_add_assoc;

    out.append(f.from.name.as_str());
    match &f.join {
        None => {},
        Some((jt, rest)) => {
            out.append(jt.display());
            write_from_table(rest, out);
        },
    }
    proof {
        assert(out@ =~= old(out)@ + from_table_text(f.deep_view()));
    }
}

/// The first table definition in `s` whose name is `name`.
pub open spec fn spec_find_table(s: Seq<TableDefV>, name: Seq<char>) -> Option<TableDefV>
    decreases s.len(),
{
    if s.len() == 0 {
        None
    } else if s[0].table == name {
        Some(s[0])
    } else {
        spec_find_table(s.drop_first(), name)
    }
}

/// The catalog: a collection of table definitions, one per table name,
/// consulted during lowering for foreign-key expansion.
#[derive(Debug)]
pub struct TableLookup {
    tables: Vec<TableDef>,
}

impl DeepView for TableLookup {
    type V = Seq<TableDefV>;

    closed spec fn deep_view(&self) -> Seq<TableDefV> {
        self.tables.deep_view()
    }
}

impl TableLookup {
    /// Table names in the catalog are pairwise distinct.
    pub open spec fn wf(&self) -> bool {
        forall|i: int, j: int|
            0 <= i < j < self.deep_view().len() ==> self.deep_view()[i].table
                != self.deep_view()[j].table
    }

    /// Makes an empty catalog.
    pub fn new() -> (r: Self)
        ensures
            r.deep_view().len() == 0,
            r.wf(),
    {
        TableLookup { tables: Vec::new() }
    }

    /// Adds a table definition, replacing and returning any definition that
    /// carried the same table name.
    pub fn add_table(&mut self, table_def: TableDef) -> (r: Option<TableDef>)
        requires
            old(self).wf(),
        ensures
            final(self).wf(),
            spec_find_table(final(self).deep_view(), table_def.table.name@) == Some(
                table_def.deep_view(),
            ),
            forall|n: Seq<char>|
                n != table_def.table.name@ ==> spec_find_table(final(self).deep_view(), n)
                    == spec_find_table(old(self).deep_view(), n),
            match r {
                Some(old_def) => spec_find_table(old(self).deep_view(), table_def.table.name@)
                    == Some(old_def.deep_view()),
                None => spec_find_table(old(self).deep_view(), table_def.table.name@) is None,
            },
    {
        let ghost olds = self.deep_view();
        let ghost name = table_def.table.name@;
        let ghost newv = table_def.deep_view();
        let mut i: usize = 0;
        while i < self.tables.len()
            invariant
                olds == old(self).deep_view(),
                olds == self.deep_view(),
                name == table_def.table.name@,
                newv == table_def.deep_view(),
                newv.table == name,
                i <= self.tables@.len(),
                forall|j: int| 0 <= j < i ==> olds[j].table != name,
                forall|a: int, b: int| 0 <= a < b < olds.len() ==> olds[a].table != olds[b].table,
            decreases self.tables@.len() - i,
        {
            if self.tables[i].table.name == table_def.table.name {
                let old_def = self.tables[i].clone();
                proof {
                    lemma_find_table_prefix(olds, name, i as int);
                }
                self.tables.set(i, table_def);
                proof {
                    let news = self.deep_view();
                    assert(news =~= olds.update(i as int, newv));
                    lemma_find_table_prefix(news, name, i as int);
                    assert forall|n: Seq<char>| n != name implies spec_find_table(news, n)
                        == spec_find_table(olds, n) by {
                        lemma_find_table_update(olds, i as int, newv, n);
                    }
                    assert forall|a: int, b: int| 0 <= a < b < news.len() implies news[a].table
                        != news[b].table by {
                        assert(olds[a].table != olds[b].table);
                    }
                }
                return Some(old_def);
            }
            i += 1;
        }
        proof {
            lemma_find_table_none(olds, name);
        }
        self.tables.push(table_def);
        proof {
            let news = self.deep_view();
            assert(news =~= olds.push(newv));
            lemma_find_table_push_self(olds, newv);
            assert forall|n: Seq<char>| n != name implies spec_find_table(news, n)
                == spec_find_table(olds, n) by {
                lemma_find_table_push_other(olds, newv, n);
            }
            assert forall|a: int, b: int| 0 <= a < b < news.len() implies news[a].table
                != news[b].table by {
                if b < olds.len() {
                    assert(olds[a].table != olds[b].table);
                } else {
                    assert(olds[a].table != name);
                }
            }
        }
        None
    }

    /// Looks up the table definition carrying the given name.
    pub fn get_table_def(&self, name: &str) -> (r: Option<&TableDef>)
        ensures
            match r {
                Some(def) => spec_find_table(self.deep_view(), name@) == Some(def.deep_view()),
                None => spec_find_table(self.deep_view(), name@) is None,
            },
    {
        let mut i: usize = 0;
        while i < self.tables.len()
            invariant
                i <= self.tables@.len(),
                forall|j: int| 0 <= j < i ==> self.deep_view()[j].table != name@,
            decreases self.tables@.len() - i,
        {
            if crate::ast::parser::utils::str_eq(self.tables[i].table.name.as_str(), name) {
                proof {
                    lemma_find_table_prefix(self.deep_view(), name@, i as int);
                }
                return Some(&self.tables[i]);
            }
            i += 1;
        }
        proof {
            lemma_find_table_none(self.deep_view(), name@);
        }
        None
    }

    /// Looks up a table by its name value.
    pub fn find_table(&self, table: &TableName) -> (r: Option<&TableDef>)
        ensures
            match r {
                Some(def) => spec_find_table(self.deep_view(), table.name@) == Some(
                    def.deep_view(),
                ),
                None => spec_find_table(self.deep_view(), table.name@) is None,
            },
    {
        self.get_table_def(table.name.as_str())
    }
}

/// Finding a name that the first `k` entries do not carry, where entry `k`
/// carries it, yields entry `k`.
proof fn lemma_find_table_prefix(s: Seq<TableDefV>, name: Seq<char>, k: int)
    requires
        0 <= k < s.len(),
        forall|j: int| 0 <= j < k ==> s[j].table != name,
        s[k].table == name,
    ensures
        spec_find_table(s, name) == Some(s[k]),
    decreases k,
{
    if k == 0 {
    } else {
        lemma_find_table_prefix(s.drop_first(), name, k - 1);
    }
}

/// A name that no entry carries is not found.
proof fn lemma_find_table_none(s: Seq<TableDefV>, name: Seq<char>)
    requires
        forall|j: int| 0 <= j < s.len() ==> s[j].table != name,
    ensures
        spec_find_table(s, name) is None,
    decreases s.len(),
{
    if s.len() > 0 {
        lemma_find_table_none(s.drop_first(), name);
    }
}

/// Replacing entry `k` does not change the lookup of a name that neither
/// the old nor the new entry carries.
proof fn lemma_find_table_update(s: Seq<TableDefV>, k: int, v: TableDefV, n: Seq<char>)
    requires
        0 <= k < s.len(),
        n != s[k].table,
        n != v.table,
    ensures
        spec_find_table(s.update(k, v), n) == spec_find_table(s, n),
    decreases k,
{
    let t = s.update(k, v);
    if k == 0 {
        assert(t[0] == v);
        assert(t.drop_first() =~= s.drop_first());
    } else {
        assert(t[0] == s[0]);
        if s[0].table == n {
        } else {
            assert(t.drop_first() =~= s.drop_first().update(k - 1, v));
            lemma_find_table_update(s.drop_first(), k - 1, v, n);
        }
    }
}

/// Appending an entry does not change the lookup of another name.
proof fn lemma_find_table_push_other(s: Seq<TableDefV>, v: TableDefV, n: Seq<char>)
    requires
        n != v.table,
    ensures
        spec_find_table(s.push(v), n) == spec_find_table(s, n),
    decreases s.len(),
{
    if s.len() == 0 {
        assert(s.push(v)[0] == v);
        assert(s.push(v).drop_first() =~= Seq::<TableDefV>::empty());
    } else {
        assert(s.push(v)[0] == s[0]);
        assert(s.push(v).drop_first() =~= s.drop_first().push(v));
        lemma_find_table_push_other(s.drop_first(), v, n);
    }
}

/// Appending an entry whose name was absent makes that entry findable.
proof fn lemma_find_table_push_self(s: Seq<TableDefV>, v: TableDefV)
    requires
        forall|j: int| 0 <= j < s.len() ==> s[j].table != v.table,
    ensures
        spec_find_table(s.push(v), v.table) == Some(v),
    decreases s.len(),
{
    if s.len() == 0 {
        assert(s.push(v)[0] == v);
    } else {
        assert(s.push(v)[0] == s[0]);
        assert(s.push(v).drop_first() =~= s.drop_first().push(v));
        lemma_find_table_push_self(s.drop_first(), v);
    }
}

} // verus!
