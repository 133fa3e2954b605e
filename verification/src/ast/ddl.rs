//! Data-definition statements: table definitions with attributes, foreign
//! references and typed columns, table drops, and table alterations.

use vstd::prelude::*;
use vstd::string::StringExecFns;

use crate::ast::expr::function_text;
use crate::ast::expr::write_function;
use crate::ast::expr::ColumnName;
use crate::ast::expr::Function;
use crate::ast::expr::FunctionV;
use crate::ast::table::TableName;
use crate::data_type::DataType;
use crate::data_value::data_value_text;
use crate::data_value::DataValue;
use crate::data_value::DataValueV;

verus! {

/// A column attribute sigil: `*` primary, `&` unique, `@` index.
#[derive(Debug, PartialEq, Eq, Structural, Clone, Copy)]
pub enum ColumnAttribute {
    Primary,
    Unique,
    Index,
}

impl DeepView for ColumnAttribute {
    type V = ColumnAttribute;

    open spec fn deep_view(&self) -> ColumnAttribute {
        *self
    }
}

impl ColumnAttribute {
    /// The sigil character of this attribute.
    pub open spec fn token(self) -> Seq<char> {
        match self {
            ColumnAttribute::Primary => "*"@,
            ColumnAttribute::Unique => "&"@,
            ColumnAttribute::Index => "@"@,
        }
    }

    /// Renders the sigil of this attribute.
    pub fn display(&self) -> (r: &'static str)
        ensures
            r@ == self.token(),
    {
        match self {
            ColumnAttribute::Primary => "*",
            ColumnAttribute::Unique => "&",
            ColumnAttribute::Index => "@",
        }
    }
}

/// A foreign reference: a target table and optionally a specific column.
/// With no column, the target's sole primary key applies at lowering time.
#[derive(Debug, PartialEq)]
pub struct Foreign {
    pub table: TableName,
    pub column: Option<ColumnName>,
}

/// The mathematical shape of a `Foreign`.
pub struct ForeignV {
    pub table: Seq<char>,
    pub column: Option<Seq<char>>,
}

impl DeepView for Foreign {
    type V = ForeignV;

    open spec fn deep_view(&self) -> ForeignV {
        ForeignV { table: self.table.name@, column: self.column.deep_view() }
    }
}

impl Clone for Foreign {
    fn clone(&self) -> (res: Self)
        ensures
            res.deep_view() == self.deep_view(),
    {
        let column = match &self.column {
            Some(c) => Some(c.clone()),
            None => None,
        };
        Foreign { table: self.table.clone(), column }
    }
}

/// A default value of a column: a typed value or a recognized function call.
#[derive(Debug, PartialEq)]
pub enum DefaultValue {
    DataValue(DataValue),
    Function(Function),
}

/// The mathematical shape of a `DefaultValue`.
pub enum DefaultValueV {
    DataValue(DataValueV),
    Function(FunctionV),
}

impl DeepView for DefaultValue {
    type V = DefaultValueV;

    open spec fn deep_view(&self) -> DefaultValueV {
        match self {
            DefaultValue::DataValue(v) => DefaultValueV::DataValue(v.deep_view()),
            DefaultValue::Function(f) => DefaultValueV::Function(f.deep_view()),
        }
    }
}

impl Clone for DefaultValue {
    fn clone(&self) -> (res: Self)
        ensures
            res.deep_view() == self.deep_view(),
    {
        match self {
            DefaultValue::DataValue(v) => DefaultValue::DataValue(v.clone()),
            DefaultValue::Function(f) => DefaultValue::Function(f.clone()),
        }
    }
}

/// A column's type: the data type, nullability, and optional default.
#[derive(Debug, PartialEq)]
pub struct DataTypeDef {
    pub data_type: DataType,
    pub is_optional: bool,
    pub default: Option<DefaultValue>,
}

/// The mathematical shape of a `DataTypeDef`.
pub struct DataTypeDefV {
    pub data_type: DataType,
    pub is_optional: bool,
    pub default: Option<DefaultValueV>,
}

impl DeepView for DataTypeDef {
    type V = DataTypeDefV;

    open spec fn deep_view(&self) -> DataTypeDefV {
        DataTypeDefV {
            data_type: self.data_type,
            is_optional: self.is_optional,
            default: self.default.deep_view(),
        }
    }
}

impl Clone for DataTypeDef {
    fn clone(&self) -> (res: Self)
        ensures
            res.deep_view() == self.deep_view(),
    {
        let default = match &self.default {
            Some(d) => Some(d.clone()),
            None => None,
        };
        DataTypeDef { data_type: self.data_type, is_optional: self.is_optional, default }
    }
}

/// A column definition: attributes, name, foreign reference, and type.
#[derive(Debug, PartialEq)]
pub struct ColumnDef {
    pub column: ColumnName,
    pub attributes: Option<Vec<ColumnAttribute>>,
    pub data_type_def: DataTypeDef,
    pub foreign: Option<Foreign>,
}

/// The mathematical shape of a `ColumnDef`.
pub struct ColumnDefV {
    pub column: Seq<char>,
    pub attributes: Option<Seq<ColumnAttribute>>,
    pub data_type_def: DataTypeDefV,
    pub foreign: Option<ForeignV>,
}

impl DeepView for ColumnDef {
    type V = ColumnDefV;

    open spec fn deep_view(&self) -> ColumnDefV {
        ColumnDefV {
            column: self.column.name@,
            attributes: self.attributes.deep_view(),
            data_type_def: self.data_type_def.deep_view(),
            foreign: self.foreign.deep_view(),
        }
    }
}

impl Clone for ColumnDef {
    fn clone(&self) -> (res: Self)
        ensures
            res.deep_view() == self.deep_view(),
    {
        let attributes = match &self.attributes {
            Some(a) => Some(a.clone()),
            None => None,
        };
        let foreign = match &self.foreign {
            Some(f) => Some(f.clone()),
            None => None,
        };
        let res = ColumnDef {
            column: self.column.clone(),
            attributes,
            data_type_def: self.data_type_def.clone(),
            foreign,
        };
        proof {
            assert(res.deep_view().attributes =~~= self.deep_view().attributes);
            assert(res.deep_view().foreign == self.deep_view().foreign);
        }
        res
    }
}

impl ColumnDefV {
    /// Whether the attribute list carries `Primary`.
    pub open spec fn is_primary(self) -> bool {
        match self.attributes {
            Some(attrs) => attrs.contains(ColumnAttribute::Primary),
            None => false,
        }
    }
}

impl ColumnDef {
    /// Says whether this column carries the `Primary` attribute.
    pub fn is_primary(&self) -> (r: bool)
        ensures
            r == self.deep_view().is_primary(),
    {
        match &self.attributes {
            Some(attributes) => {
                let mut i: usize = 0;
                while i < attributes.len()
                    invariant
                        self.deep_view().attributes == Some(attributes.deep_view()),
                        i <= attributes@.len(),
                        forall|j: int|
                            0 <= j < i ==> attributes@[j] != ColumnAttribute::Primary,
                    decreases attributes@.len() - i,
                {
                    if attributes[i] == ColumnAttribute::Primary {
                        proof {
                            assert(attributes.deep_view() =~= attributes@);
                            assert(attributes@.contains(ColumnAttribute::Primary)) by {
                                assert(attributes@[i as int] == ColumnAttribute::Primary);
                            }
                        }
                        return true;
                    }
                    i += 1;
                }
                proof {
                    assert(attributes.deep_view() =~= attributes@);
                    assert(!attributes@.contains(ColumnAttribute::Primary));
                }
                false
            },
            None => false,
        }
    }

    /// The data type of this column.
    pub fn data_type(&self) -> (r: DataType)
        ensures
            r == self.deep_view().data_type_def.data_type,
    {
        self.data_type_def.data_type
    }

    /// Whether the data type is generated by the store when primary.
    pub open spec fn spec_is_autogenerate(t: DataType) -> bool {
        t == DataType::S8 || t == DataType::S16 || t == DataType::S32 || t == DataType::S64 || t
            == DataType::UuidRand || t == DataType::UuidSlug
    }

    /// Says whether this column is a primary key whose value the store
    /// generates itself.
    pub fn is_autoincrement_and_primary(&self) -> (r: bool)
        ensures
            r == (self.deep_view().is_primary() && Self::spec_is_autogenerate(
                self.deep_view().data_type_def.data_type,
            )),
    {
        let auto = match self.data_type_def.data_type {
            DataType::S8 | DataType::S16 | DataType::S32 | DataType::S64 | DataType::UuidRand
            | DataType::UuidSlug => true,
            _ => false,
        };
        self.is_primary() && auto
    }

    /// Says whether this column's value is generated or defaulted.
    pub fn has_generated_default(&self) -> (r: bool)
        ensures
            r == (Self::spec_is_autogenerate(self.deep_view().data_type_def.data_type)
                || self.deep_view().data_type_def.default is Some),
    {
        let auto = match self.data_type_def.data_type {
            DataType::S8 | DataType::S16 | DataType::S32 | DataType::S64 | DataType::UuidRand
            | DataType::UuidSlug => true,
            _ => false,
        };
        auto || self.data_type_def.default.is_some()
    }
}

/// A table definition: a name and its columns.
#[derive(Debug, PartialEq)]
pub struct TableDef {
    pub table: TableName,
    pub columns: Vec<ColumnDef>,
}

/// The mathematical shape of a `TableDef`.
pub struct TableDefV {
    pub table: Seq<char>,
    pub columns: Seq<ColumnDefV>,
}

impl DeepView for TableDef {
    type V = TableDefV;

    open spec fn deep_view(&self) -> TableDefV {
        TableDefV { table: self.table.name@, columns: self.columns.deep_view() }
    }
}

impl Clone for TableDef {
    fn clone(&self) -> (res: Self)
        ensures
            res.deep_view() == self.deep_view(),
    {
        let mut cols: Vec<ColumnDef> = Vec::new();
        let mut i: usize = 0;
        while i < self.columns.len()
            invariant
                i <= self.columns@.len(),
                cols@.len() == i,
                forall|j: int|
                    0 <= j < i ==> cols@[j].deep_view() == self.columns@[j].deep_view(),
            decreases self.columns@.len() - i,
        {
            cols.push(self.columns[i].clone());
            i += 1;
        }
        let res = TableDef { table: self.table.clone(), columns: cols };
        proof {
            assert(res.deep_view().columns =~= self.deep_view().columns);
        }
        res
    }
}

impl TableDefV {
    /// No two columns of the table carry the same name.
    pub open spec fn no_duplicate_columns(self) -> bool {
        forall|i: int, j: int|
            0 <= i < j < self.columns.len() ==> self.columns[i].column != self.columns[j].column
    }
}

/// The first column in `s` whose name is `name`.
pub open spec fn spec_find_column(s: Seq<ColumnDefV>, name: Seq<char>) -> Option<ColumnDefV>
    decreases s.len(),
{
    if s.len() == 0 {
        None
    } else if s[0].column == name {
        Some(s[0])
    } else {
        spec_find_column(s.drop_first(), name)
    }
}

/// The column definitions carrying the given names from `i` on, in name
/// order, skipping names the columns do not carry.
pub open spec fn spec_matching_defs(
    cols: Seq<ColumnDefV>,
    names: Seq<Seq<char>>,
    i: int,
) -> Seq<ColumnDefV>
    decreases names.len() - i,
{
    if i < 0 || i >= names.len() {
        Seq::empty()
    } else {
        (match spec_find_column(cols, names[i]) {
            Some(d) => seq![d],
            None => Seq::<ColumnDefV>::empty(),
        }) + spec_matching_defs(cols, names, i + 1)
    }
}

/// The columns of `s` that carry the `Primary` attribute, in order.
pub open spec fn spec_primary_columns(s: Seq<ColumnDefV>) -> Seq<ColumnDefV>
    decreases s.len(),
{
    if s.len() == 0 {
        Seq::empty()
    } else {
        let rest = spec_primary_columns(s.drop_last());
        if s.last().is_primary() {
            rest.push(s.last())
        } else {
            rest
        }
    }
}

impl TableDef {
    /// Finds the column definition with the given name.
    pub fn find_column(&self, column: &ColumnName) -> (r: Option<&ColumnDef>)
        ensures
            match r {
                Some(def) => spec_find_column(self.deep_view().columns, column.name@) == Some(
                    def.deep_view(),
                ),
                None => spec_find_column(self.deep_view().columns, column.name@) is None,
            },
    {
        let mut i: usize = 0;
        while i < self.columns.len()
            invariant
                i <= self.columns@.len(),
                forall|j: int| 0 <= j < i ==> self.deep_view().columns[j].column != column.name@,
            decreases self.columns@.len() - i,
        {
            if self.columns[i].column.name == column.name {
                proof {
                    lemma_find_column_prefix(self.deep_view().columns, column.name@, i as int);
                }
                return Some(&self.columns[i]);
            }
            i += 1;
        }
        proof {
            lemma_find_column_none(self.deep_view().columns, column.name@);
        }
        None
    }

    /// The primary-key columns of this table, in definition order.
    pub fn get_primary_columns(&self) -> (r: Vec<&ColumnDef>)
        ensures
            r.deep_view() == spec_primary_columns(self.deep_view().columns),
    {
        let ghost cols = self.deep_view().columns;
        let mut out: Vec<&ColumnDef> = Vec::new();
        let mut i: usize = 0;
        while i < self.columns.len()
            invariant
                cols == self.deep_view().columns,
                i <= self.columns@.len(),
                out.deep_view() =~= spec_primary_columns(cols.take(i as int)),
            decreases self.columns@.len() - i,
        {
            let ghost prev = out.deep_view();
            proof {
                assert(cols.take(i + 1).drop_last() =~= cols.take(i as int));
                assert(cols.take(i + 1).last() == cols[i as int]);
            }
            if self.columns[i].is_primary() {
                out.push(&self.columns[i]);
                proof {
                    assert(out.deep_view() =~= prev.push(cols[i as int]));
                }
            }
            i += 1;
            proof {
                assert(out.deep_view() =~= spec_primary_columns(cols.take(i as int)));
            }
        }
        proof {
            assert(cols.take(self.columns@.len() as int) =~= cols);
        }
        out
    }
}

/// Finding a name absent from the first `k` entries and carried by entry `k`
/// yields entry `k`.
proof fn lemma_find_column_prefix(s: Seq<ColumnDefV>, name: Seq<char>, k: int)
    requires
        0 <= k < s.len(),
        forall|j: int| 0 <= j < k ==> s[j].column != name,
        s[k].column == name,
    ensures
        spec_find_column(s, name) == Some(s[k]),
    decreases k,
{
    if k > 0 {
        lemma_find_column_prefix(s.drop_first(), name, k - 1);
    }
}

/// A name that no column carries is not found.
proof fn lemma_find_column_none(s: Seq<ColumnDefV>, name: Seq<char>)
    requires
        forall|j: int| 0 <= j < s.len() ==> s[j].column != name,
    ensures
        spec_find_column(s, name) is None,
    decreases s.len(),
{
    if s.len() > 0 {
        lemma_find_column_none(s.drop_first(), name);
    }
}

/// A table drop.
#[derive(Debug, PartialEq)]
pub struct DropTable {
    pub table: TableName,
}

impl Clone for DropTable {
    fn clone(&self) -> (res: Self)
        ensures
            res.deep_view() == self.deep_view(),
    {
        DropTable { table: self.table.clone() }
    }
}

impl DeepView for DropTable {
    type V = Seq<char>;

    open spec fn deep_view(&self) -> Seq<char> {
        self.table.name@
    }
}

/// One alteration of a table.
#[derive(Debug, PartialEq)]
pub enum AlterOperation {
    DropColumn(ColumnName),
    AddColumn(ColumnDef),
    AlterColumn(ColumnName, ColumnDef),
}

/// The mathematical shape of an `AlterOperation`.
pub enum AlterOperationV {
    DropColumn(Seq<char>),
    AddColumn(ColumnDefV),
    AlterColumn(Seq<char>, ColumnDefV),
}

impl DeepView for AlterOperation {
    type V = AlterOperationV;

    open spec fn deep_view(&self) -> AlterOperationV {
        match self {
            AlterOperation::DropColumn(c) => AlterOperationV::DropColumn(c.name@),
            AlterOperation::AddColumn(d) => AlterOperationV::AddColumn(d.deep_view()),
            AlterOperation::AlterColumn(c, d) => AlterOperationV::AlterColumn(
                c.name@,
                d.deep_view(),
            ),
        }
    }
}

impl Clone for AlterOperation {
    fn clone(&self) -> (res: Self)
        ensures
            res.deep_view() == self.deep_view(),
    {
        match self {
            AlterOperation::DropColumn(c) => AlterOperation::DropColumn(c.clone()),
            AlterOperation::AddColumn(d) => AlterOperation::AddColumn(d.clone()),
            AlterOperation::AlterColumn(c, d) => AlterOperation::AlterColumn(c.clone(), d.clone()),
        }
    }
}

/// A table alteration: the table and its ordered alter operations.
#[derive(Debug, PartialEq)]
pub struct AlterTable {
    pub table: TableName,
    pub alter_operations: Vec<AlterOperation>,
}

/// The mathematical shape of an `AlterTable`.
pub struct AlterTableV {
    pub table: Seq<char>,
    pub alter_operations: Seq<AlterOperationV>,
}

impl DeepView for AlterTable {
    type V = AlterTableV;

    open spec fn deep_view(&self) -> AlterTableV {
        AlterTableV {
            table: self.table.name@,
            alter_operations: self.alter_operations.deep_view(),
        }
    }
}

impl Clone for AlterTable {
    fn clone(&self) -> (res: Self)
        ensures
            res.deep_view() == self.deep_view(),
    {
        let mut ops: Vec<AlterOperation> = Vec::new();
        let mut i: usize = 0;
        while i < self.alter_operations.len()
            invariant
                i <= self.alter_operations@.len(),
                ops@.len() == i,
                forall|j: int|
                    0 <= j < i ==> ops@[j].deep_view() == self.alter_operations@[j].deep_view(),
            decreases self.alter_operations@.len() - i,
        {
            ops.push(self.alter_operations[i].clone());
            i += 1;
        }
        let res = AlterTable { table: self.table.clone(), alter_operations: ops };
        proof {
            assert(res.deep_view().alter_operations =~= self.deep_view().alter_operations);
        }
        res
    }
}

/// The canonical rendering of a default value.
pub open spec fn default_value_text(d: DefaultValueV) -> Seq<char> {
    match d {
        DefaultValueV::DataValue(v) => data_value_text(v),
        DefaultValueV::Function(f) => function_text(f),
    }
}

/// The canonical rendering of a column type: tag, `?` when optional, and the
/// default in parentheses.
pub open spec fn data_type_def_text(d: DataTypeDefV) -> Seq<char> {
    d.data_type.tag() + (if d.is_optional {
        "?"@
    } else {
        Seq::<char>::empty()
    }) + (match d.default {
        Some(v) => "("@ + default_value_text(v) + ")"@,
        None => Seq::<char>::empty(),
    })
}

/// The canonical rendering of the attribute sigils.
pub open spec fn attributes_text(attrs: Seq<ColumnAttribute>, i: int) -> Seq<char>
    decreases attrs.len() - i,
{
    if i < 0 || i >= attrs.len() {
        Seq::empty()
    } else {
        attrs[i].token() + attributes_text(attrs, i + 1)
    }
}

/// The canonical rendering of a foreign reference.
pub open spec fn foreign_text(f: ForeignV) -> Seq<char> {
    match f.column {
        Some(c) => "("@ + f.table + "::"@ + c + ")"@,
        None => "("@ + f.table + ")"@,
    }
}

/// The canonical rendering of a column definition:
/// `[sigils]name[(target[::col])]:type`.
pub open spec fn column_def_text(c: ColumnDefV) -> Seq<char> {
    (match c.attributes {
        Some(attrs) => attributes_text(attrs, 0),
        None => Seq::<char>::empty(),
    }) + c.column + (match c.foreign {
        Some(f) => foreign_text(f),
        None => Seq::<char>::empty(),
    }) + ":"@ + data_type_def_text(c.data_type_def)
}

/// The canonical renderings of column definitions from `i` on, comma
/// separated.
pub open spec fn column_defs_text(cs: Seq<ColumnDefV>, i: int) -> Seq<char>
    decreases cs.len() - i,
{
    if i < 0 || i >= cs.len() {
        Seq::empty()
    } else if i == cs.len() - 1 {
        column_def_text(cs[i])
    } else {
        column_def_text(cs[i]) + ","@ + column_defs_text(cs, i + 1)
    }
}

/// The canonical rendering of a table definition: `table{columns}`.
pub open spec fn table_def_text(t: TableDefV) -> Seq<char> {
    t.table + "{"@ + column_defs_text(t.columns, 0) + "}"@
}

/// Appends the canonical rendering of a default value to `out`.
pub fn write_default_value(d: &DefaultValue, out: &mut String)
    ensures
        final(out)@ == old(out)@ + default_value_text(d.deep_view()),
{
    match d {
        DefaultValue::DataValue(v) => {
            let t = v.to_text();
            out.append(t.as_str());
        },
        DefaultValue::Function(f) => write_function(f, out),
    }
}

/// Appends the canonical rendering of a column type to `out`.
pub fn write_data_type_def(d: &DataTypeDef, out: &mut String)
    ensures
        final(out)@ == old(out)@ + data_type_def_text(d.deep_view()),
{
    broadcast use crate::ast::parser::utils::lemma_seq_add_assoc;

    out.append(d.data_type.display());
    if d.is_optional {
        out.append("?");
    }
    match &d.default {
        Some(v) => {
            out.append("(");
            write_default_value(v, out);
            out.append(")");
        },
        None => {},
    }
    proof {
        assert(out@ =~= old(out)@ + data_type_def_text(d.deep_view()));
    }
}

/// Appends the attribute sigils from `i` on to `out`.
pub fn write_attributes(attrs: &Vec<ColumnAttribute>, i: usize, out: &mut String)
    requires
        i <= attrs@.len(),
    ensures
        final(out)@ == old(out)@ + attributes_text(attrs@, i as int),
    decreases attrs@.len() - i,
{
    broadcast use crate::ast::parser::utils::lemma_seq_add_assoc;

    if i < attrs.len() {
        out.append(attrs[i].display());
        write_attributes(attrs, i + 1, out);
    }
    proof {
        assert(out@ =~= old(out)@ + attributes_text(attrs@, i as int));
    }
}

/// Appends the canonical rendering of a column definition to `out`.
pub fn write_column_def(c: &ColumnDef, out: &mut String)
    ensures
        final(out)@ == old(out)@ + column_def_text(c.deep_view()),
{
    broadcast use crate::ast::parser::utils::lemma_seq_add_assoc;

    match &c.attributes {
        Some(attrs) => {
            write_attributes(attrs, 0, out);
            proof {
                assert(attrs.deep_view() =~= attrs@);
            }
        },
        None => {},
    }
    out.append(c.column.name.as_str());
    match &c.foreign {
        Some(f) => {
            out.append("(");
            out.append(f.table.name.as_str());
            match &f.column {
                Some(col) => {
                    out.append("::");
                    out.append(col.name.as_str());
                },
                None => {},
            }
            out.append(")");
        },
        None => {},
    }
    out.append(":");
    write_data_type_def(&c.data_type_def, out);
    proof {
        assert(out@ =~= old(out)@ + column_def_text(c.deep_view()));
    }
}

/// Appends the renderings of the column definitions from `i` on to `out`.
pub fn write_column_defs(cs: &Vec<ColumnDef>, i: usize, out: &mut String)
    requires
        i <= cs@.len(),
    ensures
        final(out)@ == old(out)@ + column_defs_text(cs.deep_view(), i as int),
    decreases cs@.len() - i,
{
    broadcast use crate::ast::parser::utils::lemma_seq_add_assoc;

    if i < cs.len() {
        write_column_def(&cs[i], out);
        if i + 1 < cs.len() {
            out.append(",");
            write_column_defs(cs, i + 1, out);
        }
    }
    proof {
        assert(out@ =~= old(out)@ + column_defs_text(cs.deep_view(), i as int));
    }
}

/// The column names of the definitions, in order.
pub open spec fn def_names(cols: Seq<ColumnDefV>) -> Seq<Seq<char>> {
    Seq::new(cols.len(), |i: int| cols[i].column)
}

/// Copies a list of column names.
fn clone_column_names(names: &Vec<ColumnName>) -> (r: Vec<ColumnName>)
    ensures
        r.deep_view() == names.deep_view(),
{
    let mut out: Vec<ColumnName> = Vec::new();
    let mut i: usize = 0;
    while i < names.len()
        invariant
            i <= names@.len(),
            out.deep_view() =~= names.deep_view().take(i as int),
        decreases names@.len() - i,
    {
        let ghost prev = out.deep_view();
        out.push(names[i].clone());
        proof {
            assert(out.deep_view() =~= prev.push(names.deep_view()[i as int]));
            assert(out.deep_view() =~= names.deep_view().take(i + 1));
        }
        i += 1;
    }
    proof {
        assert(out.deep_view() =~= names.deep_view());
    }
    out
}

/// The default of a column at the given instant: a literal default is kept;
/// the `now` and `today` functions give the instant as a UTC timestamp;
/// anything else defaults to nil.
pub open spec fn spec_default_value(c: ColumnDefV, now_ms: i64) -> crate::data_value::DataValueV {
    match c.data_type_def.default {
        None => crate::data_value::DataValueV::Nil,
        Some(DefaultValueV::DataValue(dv)) => dv,
        Some(DefaultValueV::Function(f)) => if f.name == "now"@ || f.name == "today"@ {
            crate::data_value::DataValueV::Utc(now_ms as i64)
        } else {
            crate::data_value::DataValueV::Nil
        },
    }
}

impl ColumnDef {
    /// The value this column takes when a row leaves it out, with the
    /// current instant supplied by the caller in epoch milliseconds.
    pub fn default_value(&self, now_ms: i64) -> (r: crate::data_value::DataValue)
        ensures
            r.deep_view() == spec_default_value(self.deep_view(), now_ms),
    {
        match &self.data_type_def.default {
            None => crate::data_value::DataValue::Nil,
            Some(DefaultValue::DataValue(dv)) => dv.clone(),
            Some(DefaultValue::Function(f)) => {
                if crate::ast::parser::utils::str_eq(f.name.as_str(), "now")
                    || crate::ast::parser::utils::str_eq(f.name.as_str(), "today") {
                    crate::data_value::DataValue::Utc(now_ms)
                } else {
                    crate::data_value::DataValue::Nil
                }
            },
        }
    }

    /// Renders this column definition in the canonical surface syntax.
    pub fn to_text(&self) -> (r: String)
        ensures
            r@ == column_def_text(self.deep_view()),
    {
        let mut out = String::new();
        write_column_def(self, &mut out);
        out
    }
}

impl TableDef {
    /// Copies every column definition, in order.
    pub fn matching_column_def_all(&self) -> (r: Vec<ColumnDef>)
        ensures
            r.deep_view() == self.deep_view().columns,
    {
        let mut out: Vec<ColumnDef> = Vec::new();
        let mut i: usize = 0;
        while i < self.columns.len()
            invariant
                i <= self.columns@.len(),
                self.deep_view().columns.len() == self.columns@.len(),
                out@.len() == i,
                forall|j: int|
                    0 <= j < i ==> (#[trigger] out@[j]).deep_view()
                        == self.deep_view().columns[j],
            decreases self.columns@.len() - i,
        {
            out.push(self.columns[i].clone());
            i += 1;
        }
        proof {
            assert(out.deep_view() =~= self.deep_view().columns);
        }
        out
    }

    /// Copies the column definitions carrying the given names, keeping the
    /// names' order and skipping names the table does not carry.
    pub fn matching_column_def(&self, columns: &Vec<ColumnName>) -> (r: Vec<ColumnDef>)
        ensures
            r.deep_view() == spec_matching_defs(
                self.deep_view().columns,
                columns.deep_view(),
                0,
            ),
    {
        let ghost colsv = self.deep_view().columns;
        let ghost namesv = columns.deep_view();
        let ghost target = spec_matching_defs(colsv, namesv, 0);
        let mut out: Vec<ColumnDef> = Vec::new();
        let mut i: usize = 0;
        while i < columns.len()
            invariant
                colsv == self.deep_view().columns,
                namesv == columns.deep_view(),
                namesv.len() == columns@.len(),
                target == spec_matching_defs(colsv, namesv, 0),
                i <= columns@.len(),
                out.deep_view() + spec_matching_defs(colsv, namesv, i as int) == target,
            decreases columns@.len() - i,
        {
            let ghost o0 = out.deep_view();
            proof {
                assert(namesv[i as int] == columns@[i as int].deep_view());
            }
            match self.find_column(&columns[i]) {
                Some(def) => {
                    let ghost dv = def.deep_view();
                    out.push(def.clone());
                    proof {
                        assert(out.deep_view() =~= o0 + seq![dv]);
                        assert((o0 + seq![dv]) + spec_matching_defs(colsv, namesv, i + 1) =~= o0
                            + (seq![dv] + spec_matching_defs(colsv, namesv, i + 1)));
                    }
                },
                None => {},
            }
            i += 1;
        }
        proof {
            assert(spec_matching_defs(colsv, namesv, columns@.len() as int) =~= Seq::<
                ColumnDefV,
            >::empty());
            assert(out.deep_view() =~= target);
        }
        out
    }

    /// Derives the insert that fills every column of this table from
    /// positional parameters `$1..$n`, returning all the columns.
    pub fn derive_insert(&self) -> (r: crate::ast::Insert)
        requires
            self.deep_view().columns.len() < usize::MAX,
        ensures
            r.deep_view().into == self.deep_view().table,
            r.deep_view().columns == def_names(self.deep_view().columns),
            r.deep_view().source == crate::ast::dml::SourceV::Parameterized(
                Seq::new(self.deep_view().columns.len(), |i: int| (i + 1) as usize),
            ),
            r.deep_view().returning == Some(def_names(self.deep_view().columns)),
    {
        let ghost colsv = self.deep_view().columns;
        let mut columns: Vec<ColumnName> = Vec::new();
        let mut params: Vec<usize> = Vec::new();
        let mut i: usize = 0;
        while i < self.columns.len()
            invariant
                colsv == self.deep_view().columns,
                colsv.len() < usize::MAX,
                i <= self.columns@.len(),
                columns.deep_view() =~= def_names(colsv).take(i as int),
                params@ =~= Seq::new(i as nat, |k: int| (k + 1) as usize),
            decreases self.columns@.len() - i,
        {
            let ghost cprev = columns.deep_view();
            columns.push(self.columns[i].column.clone());
            params.push(i + 1);
            proof {
                assert(columns.deep_view() =~= cprev.push(colsv[i as int].column));
                assert(columns.deep_view() =~= def_names(colsv).take(i + 1));
            }
            i += 1;
        }
        proof {
            assert(columns.deep_view() =~= def_names(colsv));
            assert(params@ =~= Seq::new(colsv.len(), |k: int| (k + 1) as usize));
            assert(params.deep_view() =~= Seq::new(colsv.len(), |k: int| (k + 1) as usize));
        }
        let returning = clone_column_names(&columns);
        crate::ast::Insert {
            into: self.table.clone(),
            columns,
            source: crate::ast::dml::Source::Parameterized(params),
            returning: Some(returning),
        }
    }

    /// Renders this table definition in the canonical surface syntax.
    pub fn to_text(&self) -> (r: String)
        ensures
            r@ == table_def_text(self.deep_view()),
    {
        broadcast use crate::ast::parser::utils::lemma_seq_add_assoc;

        let mut out = String::new();
        out.append(self.table.name.as_str());
        out.append("{");
        write_column_defs(&self.columns, 0, &mut out);
        out.append("}");
        proof {
            assert(out@ =~= table_def_text(self.deep_view()));
        }
        out
    }
}


/// Parses a table definition from the start of the input.
pub fn table_def(input: &Vec<char>) -> (r: Result<TableDef, crate::Error>)
    ensures
        crate::ast::parser::wrap_agrees(r, crate::ast::parser::sp_table_def(input@, 0)),
        r matches Ok(t) ==> t.deep_view().no_duplicate_columns(),
{
    match crate::ast::parser::table_def_at(input, 0) {
        Ok((v, _)) => Ok(v),
        Err(e) => Err(crate::ast::parser::perr_to_error(e, "table definition")),
    }
}

/// Parses a table drop from the start of the input.
pub fn drop_table(input: &Vec<char>) -> (r: Result<DropTable, crate::Error>)
    ensures
        crate::ast::parser::wrap_agrees(r, crate::ast::parser::sp_drop_table(input@, 0)),
{
    match crate::ast::parser::drop_table_at(input, 0) {
        Ok((v, _)) => Ok(v),
        Err(e) => Err(crate::ast::parser::perr_to_error(e, "drop table")),
    }
}

/// Parses a table alteration from the start of the input.
pub fn alter_table(input: &Vec<char>) -> (r: Result<AlterTable, crate::Error>)
    ensures
        crate::ast::parser::wrap_agrees(r, crate::ast::parser::sp_alter_table(input@, 0)),
{
    match crate::ast::parser::alter_table_at(input, 0) {
        Ok((v, _)) => Ok(v),
        Err(e) => Err(crate::ast::parser::perr_to_error(e, "alter table")),
    }
}

/// Parses a column definition from the start of the input.
pub fn column_def(input: &Vec<char>) -> (r: Result<ColumnDef, crate::Error>)
    ensures
        crate::ast::parser::wrap_agrees(r, crate::ast::parser::sp_column_def(input@, 0)),
{
    match crate::ast::parser::column_def_at(input, 0) {
        Ok((v, _)) => Ok(v),
        Err(e) => Err(crate::ast::parser::perr_to_error(e, "column definition")),
    }
}

/// Parses a comma-separated column-definition list from the start of the
/// input.
pub fn column_def_list(input: &Vec<char>) -> (r: Result<Vec<ColumnDef>, crate::Error>)
    ensures
        crate::ast::parser::wrap_agrees(r, crate::ast::parser::sp_column_def_list(input@, 0)),
{
    match crate::ast::parser::column_def_list_at(input, 0) {
        Ok((v, _)) => Ok(v),
        Err(e) => Err(crate::ast::parser::perr_to_error(e, "column definition list")),
    }
}

/// Parses a column type from the start of the input.
pub fn data_type_def(input: &Vec<char>) -> (r: Result<DataTypeDef, crate::Error>)
    ensures
        crate::ast::parser::wrap_agrees(r, crate::ast::parser::sp_data_type_def(input@, 0)),
{
    match crate::ast::parser::data_type_def_at(input, 0) {
        Ok((v, _)) => Ok(v),
        Err(e) => Err(crate::ast::parser::perr_to_error(e, "data type definition")),
    }
}


} // verus!
