//! Schemas, tables and columns: the metadata a statement is built from.
use vstd::prelude::*;
use crate::fake::{Generator, produced_by};
use crate::statement::qualified_name;
use crate::value::Value;

verus! {

/// A character that may open an identifier: an ASCII letter or `_`.
pub open spec fn is_ident_start(c: char) -> bool {
    ('a' <= c && c <= 'z') || ('A' <= c && c <= 'Z') || c == '_'
}

/// A character that may continue an identifier: also an ASCII digit.
pub open spec fn is_ident_char(c: char) -> bool {
    is_ident_start(c) || ('0' <= c && c <= '9')
}

/// A plain SQL identifier, safe to write unquoted: `[A-Za-z_][A-Za-z0-9_]*`.
pub open spec fn is_identifier(s: Seq<char>) -> bool {
    &&& s.len() > 0
    &&& is_ident_start(s[0])
    &&& forall|i: int| 1 <= i < s.len() ==> is_ident_char(#[trigger] s[i])
}

/// Checks that `s` is a plain SQL identifier.
pub fn check_identifier(s: &str) -> (r: bool)
    ensures
        r == is_identifier(s@),
{
    let n = s.unicode_len();
    if n == 0 {
        return false;
    }
    let first = s.get_char(0);
    if !(('a' <= first && first <= 'z') || ('A' <= first && first <= 'Z') || first == '_') {
        return false;
    }
    let mut i: usize = 1;
    while i < n
        invariant
            n == s@.len(),
            1 <= i <= n,
            forall|k: int| 1 <= k < i ==> is_ident_char(#[trigger] s@[k]),
        decreases n - i,
    {
        let c = s.get_char(i);
        if !(('a' <= c && c <= 'z') || ('A' <= c && c <= 'Z') || c == '_' || ('0' <= c && c
            <= '9')) {
            return false;
        }
        i = i + 1;
    }
    true
}

/// An optional namespace for a table: a non-empty identifier.
pub struct SchemaDef {
    name: String,
}

impl View for SchemaDef {
    type V = Seq<char>;

    closed spec fn view(&self) -> Seq<char> {
        self.name@
    }
}

impl SchemaDef {
    #[verifier::type_invariant]
    spec fn inv(&self) -> bool {
        is_identifier(self.name@)
    }

    /// A schema of the given name; `None` unless the name is an identifier.
    pub fn new(name: &str) -> (r: Option<SchemaDef>)
        ensures
            r is Some <==> is_identifier(name@),
            r matches Some(s) ==> s@ == name@,
    {
        if check_identifier(name) {
            Some(SchemaDef { name: String::from_str(name) })
        } else {
            None
        }
    }
}

/// One named column and the generator of its values.
pub struct ColumnDef {
    pub name: String,
    pub generator: Generator,
}

impl ColumnDef {
    /// A column of the given name and generator.
    pub fn new(name: &str, generator: Generator) -> (r: ColumnDef)
        ensures
            r.name@ == name@,
            r.generator == generator,
    {
        ColumnDef { name: String::from_str(name), generator }
    }
}

/// No two columns share a name.
pub open spec fn names_distinct(columns: Seq<ColumnDef>) -> bool {
    forall|i: int, j: int|
        0 <= i < columns.len() && 0 <= j < columns.len() && i != j ==> #[trigger] columns[i].name@
            != #[trigger] columns[j].name@
}

/// What a table is: its name, its optional schema and its ordered columns.
pub struct TableModel {
    pub name: Seq<char>,
    pub schema: Option<Seq<char>>,
    pub columns: Seq<ColumnDef>,
}

impl TableModel {
    /// Names are identifiers, the columns are non-empty and their names distinct.
    pub open spec fn wf(self) -> bool {
        &&& is_identifier(self.name)
        &&& (self.schema matches Some(s) ==> is_identifier(s))
        &&& self.columns.len() > 0
        &&& forall|i: int| 0 <= i < self.columns.len() ==> is_identifier(#[trigger] self.columns[i].name@)
        &&& names_distinct(self.columns)
    }

    /// The name written after `INSERT INTO`.
    pub open spec fn qualified(self) -> Seq<char> {
        qualified_name(self.schema, self.name)
    }

    /// The column names, in column order.
    pub open spec fn column_names(self) -> Seq<Seq<char>> {
        self.columns.map_values(|c: ColumnDef| c.name@)
    }
}

/// The name of an optional schema.
pub open spec fn schema_view(schema: Option<SchemaDef>) -> Option<Seq<char>> {
    match schema {
        Some(s) => Some(s@),
        None => None,
    }
}

/// The model of a table with the given parts.
pub open spec fn table_model(
    schema: Option<Seq<char>>,
    name: Seq<char>,
    columns: Seq<ColumnDef>,
) -> TableModel {
    TableModel { name, schema, columns }
}

/// A table: a name, an optional schema and a fixed, ordered, non-empty set of
/// columns.
pub struct TableDef {
    name: String,
    schema: Option<SchemaDef>,
    columns: Vec<ColumnDef>,
}

impl View for TableDef {
    type V = TableModel;

    closed spec fn view(&self) -> TableModel {
        TableModel {
            name: self.name@,
            schema: schema_view(self.schema),
            columns: self.columns@,
        }
    }
}

impl TableDef {
    #[verifier::type_invariant]
    spec fn inv(&self) -> bool {
        self@.wf()
    }

    /// A table of the given schema, name and columns, in that column order.
    /// `None` unless the result is well formed: the name is an identifier, the
    /// columns are non-empty, with identifier names, none repeated.
    pub fn new(schema: Option<SchemaDef>, name: &str, columns: Vec<ColumnDef>) -> (r: Option<TableDef>)
        ensures
            r is Some <==> table_model(schema_view(schema), name@, columns@).wf(),
            r matches Some(t) ==> t@ == table_model(schema_view(schema), name@, columns@),
    {
        if !check_identifier(name) || columns.len() == 0 {
            return None;
        }
        let n = columns.len();
        let mut i: usize = 0;
        while i < n
            invariant
                n == columns@.len(),
                i <= n,
                forall|k: int| 0 <= k < i ==> is_identifier(#[trigger] columns@[k].name@),
                forall|a: int, b: int|
                    0 <= a < i && 0 <= b < i && a != b ==> #[trigger] columns@[a].name@
                        != #[trigger] columns@[b].name@,
            decreases n - i,
        {
            if !check_identifier(columns[i].name.as_str()) {
                return None;
            }
            let mut j: usize = 0;
            while j < i
                invariant
                    n == columns@.len(),
                    j <= i < n,
                    forall|b: int| 0 <= b < j ==> columns@[i as int].name@ != #[trigger] columns@[b].name@,
                decreases i - j,
            {
                if columns[i].name == columns[j].name {
                    assert(columns@[i as int].name@ == columns@[j as int].name@);
                    return None;
                }
                j = j + 1;
            }
            i = i + 1;
        }
        proof {
            match &schema {
                Some(s) => {
                    use_type_invariant(s);
                },
                None => {},
            }
        }
        Some(TableDef { name: String::from_str(name), schema, columns })
    }

    /// The columns, in their fixed order.
    pub fn columns(&self) -> (r: &Vec<ColumnDef>)
        ensures
            r@ == self@.columns,
            self@.wf(),
    {
        proof {
            use_type_invariant(self);
        }
        &self.columns
    }

    /// The column names, in their fixed order.
    pub fn column_names(&self) -> (r: Vec<String>)
        ensures
            r@.map_values(|s: String| s@) == self@.column_names(),
            self@.wf(),
    {
        proof {
            use_type_invariant(self);
        }
        let mut r: Vec<String> = Vec::new();
        let mut i: usize = 0;
        while i < self.columns.len()
            invariant
                i <= self.columns@.len(),
                r@.len() == i,
                forall|k: int| 0 <= k < i ==> #[trigger] r@[k]@ == self.columns@[k].name@,
            decreases self.columns.len() - i,
        {
            r.push(self.columns[i].name.clone());
            i = i + 1;
        }
        assert(r@.map_values(|s: String| s@) =~= self@.column_names());
        r
    }
}

/// A namespace that may qualify a table's name.
pub trait Schema {
    /// The schema's name; `None` for no schema.
    spec fn spec_schema_name(&self) -> Option<Seq<char>>;

    /// The schema's name; `None` for no schema.
    fn schema_name(&self) -> (r: Option<&str>)
        ensures
            r matches Some(s) ==> self.spec_schema_name() == Some(s@),
            r is None ==> self.spec_schema_name() is None,
    ;
}

/// The absent schema: the table name stands unqualified.
impl Schema for () {
    open spec fn spec_schema_name(&self) -> Option<Seq<char>> {
        None
    }

    fn schema_name(&self) -> (r: Option<&str>) {
        None
    }
}

impl Schema for SchemaDef {
    open spec fn spec_schema_name(&self) -> Option<Seq<char>> {
        Some(self@)
    }

    fn schema_name(&self) -> (r: Option<&str>) {
        Some(self.name.as_str())
    }
}

/// A table whose rows can be seeded: a name, optionally qualified by a schema.
pub trait Table {
    /// The table's own name.
    spec fn spec_table_name(&self) -> Seq<char>;

    /// The name of the table's schema, if it has one.
    spec fn spec_table_schema(&self) -> Option<Seq<char>>;

    /// The table's own name, without schema.
    fn table_name(&self) -> (r: &str)
        ensures
            r@ == self.spec_table_name(),
    ;

    /// The name of the table's schema, if it has one.
    fn schema_name(&self) -> (r: Option<&str>)
        ensures
            r matches Some(s) ==> self.spec_table_schema() == Some(s@),
            r is None ==> self.spec_table_schema() is None,
    ;
}

impl Table for TableDef {
    open spec fn spec_table_name(&self) -> Seq<char> {
        self@.name
    }

    open spec fn spec_table_schema(&self) -> Option<Seq<char>> {
        self@.schema
    }

    fn table_name(&self) -> (r: &str) {
        self.name.as_str()
    }

    fn schema_name(&self) -> (r: Option<&str>) {
        match &self.schema {
            Some(s) => s.schema_name(),
            None => None,
        }
    }
}

/// A column of a table: a name and a source of values.
pub trait Column {
    /// The column's name.
    spec fn spec_name(&self) -> Seq<char>;

    /// Where the column's values come from.
    spec fn spec_generator(&self) -> Generator;

    /// The column's name.
    fn name(&self) -> (r: &str)
        ensures
            r@ == self.spec_name(),
    ;

    /// Draws one value for the column.
    fn value(&self) -> (v: Value)
        ensures
            produced_by(self.spec_generator(), v),
    ;
}

impl Column for ColumnDef {
    open spec fn spec_name(&self) -> Seq<char> {
        self.name@
    }

    open spec fn spec_generator(&self) -> Generator {
        self.generator
    }

    fn name(&self) -> (r: &str) {
        self.name.as_str()
    }

    fn value(&self) -> (v: Value) {
        self.generator.generate()
    }
}

} // verus!
