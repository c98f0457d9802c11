//! Row-set generators: a table bound to a repetition count.
use vstd::prelude::*;
use crate::fake::produced_by;
use crate::statement::{
    build_insert, insert_text, join, parenthesised, row_literals, row_sep, statement_head,
    tuple_text,
};
use crate::table::{Column, ColumnDef, SchemaDef, Table, TableDef, TableModel, is_identifier, table_model};
use crate::value::{Value, literal};

verus! {

/// What a row-set generator is: a table and how many rows each statement carries.
pub struct MockModel {
    pub table: TableModel,
    pub count: nat,
}

impl MockModel {
    /// A well-formed table and at least one row.
    pub open spec fn wf(self) -> bool {
        self.table.wf() && self.count >= 1
    }

    /// `rows` is a row set this generator can draw: `count` rows, each with one
    /// value per column, the value at position `i` drawn from column `i`.
    pub open spec fn fits(self, rows: Seq<Seq<Value>>) -> bool {
        &&& rows.len() == self.count
        &&& forall|j: int| 0 <= j < rows.len() ==> (#[trigger] rows[j]).len() == self.table.columns.len()
        &&& forall|j: int, i: int|
            0 <= j < rows.len() && 0 <= i < self.table.columns.len() ==> produced_by(
                self.table.columns[i].generator,
                #[trigger] rows[j][i],
            )
    }

    /// The statement that inserts `rows` into the table.
    pub open spec fn statement(self, rows: Seq<Seq<Value>>) -> Seq<char> {
        insert_text(self.table.qualified(), self.table.column_names(), rows)
    }
}

/// The rows of a row set, as sequences.
pub open spec fn rows_view(rows: Seq<Vec<Value>>) -> Seq<Seq<Value>> {
    rows.map_values(|row: Vec<Value>| row@)
}

/// A row-set generator: a table and a repetition count of at least one.
///
/// It holds no rows: each statement it builds draws fresh values.
pub struct Mock {
    table: TableDef,
    count: usize,
}

impl View for Mock {
    type V = MockModel;

    closed spec fn view(&self) -> MockModel {
        MockModel { table: self.table@, count: self.count as nat }
    }
}

impl Mock {
    #[verifier::type_invariant]
    spec fn inv(&self) -> bool {
        self.count >= 1
    }

    /// A generator of `count` rows of `table`; `None` when `count` is zero.
    pub fn new(table: TableDef, count: usize) -> (r: Option<Mock>)
        ensures
            r is Some <==> count >= 1,
            r matches Some(m) ==> m@.table == table@ && m@.count == count,
    {
        if count == 0 {
            None
        } else {
            Some(Mock { table, count })
        }
    }

    /// The table rows are generated for.
    pub fn table(&self) -> (r: &TableDef)
        ensures
            r@ == self@.table,
            self@.wf(),
    {
        proof {
            use_type_invariant(self);
        }
        // the table's accessor states that it is well formed
        let _ = self.table.columns();
        &self.table
    }

    /// How many rows each statement carries.
    pub fn count(&self) -> (r: usize)
        ensures
            r == self@.count,
            self@.wf(),
    {
        proof {
            use_type_invariant(self);
        }
        let _ = self.table.columns();
        self.count
    }

    /// Draws a fresh row set: `count` rows, each column's generator called
    /// once per row, in column order.
    pub fn generate_rows(&self) -> (rows: Vec<Vec<Value>>)
        ensures
            self@.fits(rows_view(rows@)),
    {
        let columns = self.table.columns();
        let count = self.count();
        let k = columns.len();
        let mut rows: Vec<Vec<Value>> = Vec::new();
        let mut j: usize = 0;
        while j < count
            invariant
                count == self@.count,
                columns@ == self@.table.columns,
                k == columns@.len(),
                j <= count,
                rows@.len() == j,
                forall|a: int| 0 <= a < j ==> (#[trigger] rows@[a])@.len() == k,
                forall|a: int, i: int|
                    0 <= a < j && 0 <= i < k ==> produced_by(
                        columns@[i].generator,
                        #[trigger] rows@[a]@[i],
                    ),
            decreases count - j,
        {
            let mut row: Vec<Value> = Vec::new();
            let mut i: usize = 0;
            while i < k
                invariant
                    k == columns@.len(),
                    i <= k,
                    row@.len() == i,
                    forall|b: int| 0 <= b < i ==> produced_by(columns@[b].generator, #[trigger] row@[b]),
                decreases k - i,
            {
                let v = columns[i].value();
                row.push(v);
                i = i + 1;
            }
            rows.push(row);
            j = j + 1;
        }
        assert(self@.fits(rows_view(rows@)));
        rows
    }

    /// The statement that inserts the given rows into this generator's table.
    pub fn statement_for(&self, rows: &Vec<Vec<Value>>) -> (r: String)
        ensures
            r@ == self@.statement(rows_view(rows@)),
    {
        let names = self.table.column_names();
        let schema = self.table.schema_name();
        let name = self.table.table_name();
        build_insert(schema, name, &names, rows)
    }

    /// Builds a statement over a freshly drawn row set.
    pub fn insert_statement(&self) -> (r: String)
        ensures
            exists|rows: Seq<Seq<Value>>| self@.fits(rows) && r@ == self@.statement(rows),
            self@.wf(),
    {
        let _ = self.count();
        let rows = self.generate_rows();
        let r = self.statement_for(&rows);
        assert(self@.fits(rows_view(rows@)) && r@ == self@.statement(rows_view(rows@)));
        r
    }
}

/// A generator of `count` rows of the table `name` in `schema` (none when
/// empty) with the given columns, in order; `None` when the description is
/// not well formed or `count` is zero.
pub fn generate(schema: &str, name: &str, count: usize, columns: Vec<ColumnDef>) -> (r: Option<Mock>)
    ensures
        r is Some <==> description_valid(schema@, name@, count, columns@),
        r matches Some(m) ==> m@ == described(schema@, name@, count, columns@),
{
    let schema_part = if schema.is_empty() {
        None
    } else {
        match SchemaDef::new(schema) {
            Some(s) => Some(s),
            None => {
                return None;
            },
        }
    };
    match TableDef::new(schema_part, name, columns) {
        Some(t) => Mock::new(t, count),
        None => None,
    }
}

/// The schema a description names: none when its name is empty.
pub open spec fn described_schema(schema: Seq<char>) -> Option<Seq<char>> {
    if schema.len() == 0 {
        None
    } else {
        Some(schema)
    }
}

/// The generator a description stands for.
pub open spec fn described(
    schema: Seq<char>,
    name: Seq<char>,
    count: usize,
    columns: Seq<ColumnDef>,
) -> MockModel {
    MockModel { table: table_model(described_schema(schema), name, columns), count: count as nat }
}

/// A description is accepted: its schema name is empty or an identifier, and
/// the generator it stands for is well formed.
pub open spec fn description_valid(
    schema: Seq<char>,
    name: Seq<char>,
    count: usize,
    columns: Seq<ColumnDef>,
) -> bool {
    (schema.len() == 0 || is_identifier(schema)) && described(schema, name, count, columns).wf()
}

/// Every statement of a generator is the statement head followed by exactly
/// `count` row tuples, separated by `,` and a line break, each tuple holding
/// exactly one literal per column.
pub proof fn lemma_row_tuples(m: MockModel, rows: Seq<Seq<Value>>)
    requires
        m.wf(),
        m.fits(rows),
    ensures
        m.statement(rows) == statement_head(m.table.qualified(), m.table.column_names()) + join(
            rows.map_values(|r: Seq<Value>| tuple_text(r)),
            row_sep(),
        ),
        rows.map_values(|r: Seq<Value>| tuple_text(r)).len() == m.count,
        forall|j: int|
            0 <= j < rows.len() ==> #[trigger] tuple_text(rows[j]) == parenthesised(
                row_literals(rows[j]),
            ) && row_literals(rows[j]).len() == m.table.columns.len(),
{
}

/// The column clause and every row tuple follow one order: the `i`-th name of
/// the clause and the `i`-th literal of each tuple belong to the same column,
/// the literal rendering a value drawn from that column's generator.
pub proof fn lemma_positions_match(m: MockModel, rows: Seq<Seq<Value>>)
    requires
        m.wf(),
        m.fits(rows),
    ensures
        m.table.column_names().len() == m.table.columns.len(),
        forall|i: int|
            0 <= i < m.table.columns.len() ==> #[trigger] m.table.column_names()[i]
                == m.table.columns[i].name@,
        forall|j: int, i: int|
            0 <= j < rows.len() && 0 <= i < m.table.columns.len() ==> {
                &&& row_literals(rows[j]).len() == m.table.columns.len()
                &&& #[trigger] row_literals(rows[j])[i] == literal(rows[j][i])
                &&& produced_by(m.table.columns[i].generator, rows[j][i])
            },
{
}

/// The name after `INSERT INTO` is `schema.table` when a schema is given and
/// the bare table name otherwise: one dot between schema and table, and none
/// anywhere else.
pub proof fn lemma_qualified_name(t: TableModel)
    requires
        t.wf(),
    ensures
        t.schema matches Some(s) ==> t.qualified() == s + seq!['.'] + t.name && t.qualified()[s.len() as int] == '.' && forall|i: int|
            0 <= i < t.qualified().len() && i != s.len() ==> #[trigger] t.qualified()[i] != '.',
        t.schema is None ==> t.qualified() == t.name && forall|i: int|
            0 <= i < t.qualified().len() ==> #[trigger] t.qualified()[i] != '.',
{
    match t.schema {
        Some(s) => {
            let q = t.qualified();
            assert forall|i: int| 0 <= i < q.len() && i != s.len() implies #[trigger] q[i] != '.' by {
                if i < s.len() {
                    assert(q[i] == s[i]);
                } else {
                    assert(q[i] == t.name[i - s.len() - 1]);
                }
            }
        },
        None => {},
    }
}

/// Two statements of one generator share their structure: the same head
/// (table and column clause) and the same number of tuples of the same
/// width; only the literals may differ.
pub proof fn lemma_same_structure(m: MockModel, rows1: Seq<Seq<Value>>, rows2: Seq<Seq<Value>>)
    requires
        m.wf(),
        m.fits(rows1),
        m.fits(rows2),
    ensures
        ({
            let head = statement_head(m.table.qualified(), m.table.column_names());
            &&& m.statement(rows1).take(head.len() as int) == head
            &&& m.statement(rows2).take(head.len() as int) == head
        }),
        rows1.len() == rows2.len(),
        forall|j: int|
            0 <= j < rows1.len() ==> (#[trigger] rows1[j]).len() == rows2[j].len(),
{
    let head = statement_head(m.table.qualified(), m.table.column_names());
    assert(m.statement(rows1).take(head.len() as int) =~= head);
    assert(m.statement(rows2).take(head.len() as int) =~= head);
}

} // verus!
