//! The multi-row `INSERT` statement, as text.
use vstd::prelude::*;
use crate::value::{IntoValue, Value, literal};

verus! {

/// `parts` with `sep` between each two neighbours.
pub open spec fn join(parts: Seq<Seq<char>>, sep: Seq<char>) -> Seq<char>
    decreases parts.len(),
{
    if parts.len() == 0 {
        Seq::empty()
    } else if parts.len() == 1 {
        parts[0]
    } else {
        join(parts.drop_last(), sep) + sep + parts.last()
    }
}

/// `, ` — separates names in the column clause and literals in a tuple.
pub open spec fn item_sep() -> Seq<char> {
    seq![',', ' ']
}

/// `,` and a line break — separates the row tuples.
pub open spec fn row_sep() -> Seq<char> {
    seq![',', '\n']
}

/// `INSERT INTO ` — opens every statement.
pub open spec fn insert_keyword() -> Seq<char> {
    seq!['I', 'N', 'S', 'E', 'R', 'T', ' ', 'I', 'N', 'T', 'O', ' ']
}

/// ` VALUES ` — stands between the column clause and the first tuple.
pub open spec fn values_keyword() -> Seq<char> {
    seq![' ', 'V', 'A', 'L', 'U', 'E', 'S', ' ']
}

/// `schema.table` when a schema is given, else the bare table name.
pub open spec fn qualified_name(schema: Option<Seq<char>>, table: Seq<char>) -> Seq<char> {
    match schema {
        Some(s) => s + seq!['.'] + table,
        None => table,
    }
}

/// A parenthesised, comma-separated list.
pub open spec fn parenthesised(items: Seq<Seq<char>>) -> Seq<char> {
    seq!['('] + join(items, item_sep()) + seq![')']
}

/// The literals of one row, in column order.
pub open spec fn row_literals(row: Seq<Value>) -> Seq<Seq<char>> {
    row.map_values(|v: Value| literal(v))
}

/// One row tuple: `(v1, v2, ...)`.
pub open spec fn tuple_text(row: Seq<Value>) -> Seq<char> {
    parenthesised(row_literals(row))
}

/// Everything before the first row tuple.
pub open spec fn statement_head(qualified: Seq<char>, names: Seq<Seq<char>>) -> Seq<char> {
    insert_keyword() + qualified + seq![' '] + parenthesised(names) + values_keyword()
}

/// The full multi-row statement.
pub open spec fn insert_text(
    qualified: Seq<char>,
    names: Seq<Seq<char>>,
    rows: Seq<Seq<Value>>,
) -> Seq<char> {
    statement_head(qualified, names) + join(rows.map_values(|r: Seq<Value>| tuple_text(r)), row_sep())
}

proof fn lemma_join_step(parts: Seq<Seq<char>>, sep: Seq<char>, i: int)
    requires
        0 <= i < parts.len(),
    ensures
        join(parts.take(i + 1), sep) == if i == 0 {
            parts[0]
        } else {
            join(parts.take(i), sep) + sep + parts[i]
        },
{
    assert(parts.take(i + 1).drop_last() =~= parts.take(i));
}

/// Appends `(n1, n2, ...)` for the given names.
fn push_name_list(names: &Vec<String>, out: &mut String)
    ensures
        final(out)@ == old(out)@ + parenthesised(names@.map_values(|s: String| s@)),
{
    let ghost items = names@.map_values(|s: String| s@);
    proof {
        reveal_strlit("(");
        reveal_strlit(")");
        reveal_strlit(", ");
    }
    assert("("@ =~= seq!['(']);
    assert(")"@ =~= seq![')']);
    assert(", "@ =~= item_sep());
    out.append("(");
    let ghost start = out@;
    let mut i: usize = 0;
    while i < names.len()
        invariant
            i <= names@.len(),
            items == names@.map_values(|s: String| s@),
            start == old(out)@ + seq!['('],
            ", "@ == item_sep(),
            out@ == start + join(items.take(i as int), item_sep()),
        decreases names.len() - i,
    {
        proof {
            lemma_join_step(items, item_sep(), i as int);
        }
        if i > 0 {
            out.append(", ");
        }
        assert(items[i as int] == names@[i as int]@);
        out.append(names[i].as_str());
        assert(out@ =~= start + join(items.take(i + 1), item_sep()));
        i = i + 1;
    }
    assert(items.take(i as int) =~= items);
    out.append(")");
    assert(out@ =~= old(out)@ + parenthesised(items));
}

/// Appends the tuple `(v1, v2, ...)` of one row.
fn push_tuple(row: &Vec<Value>, out: &mut String)
    ensures
        final(out)@ == old(out)@ + tuple_text(row@),
{
    let ghost items = row_literals(row@);
    proof {
        reveal_strlit("(");
        reveal_strlit(")");
        reveal_strlit(", ");
    }
    assert("("@ =~= seq!['(']);
    assert(")"@ =~= seq![')']);
    assert(", "@ =~= item_sep());
    out.append("(");
    let ghost start = out@;
    let mut i: usize = 0;
    while i < row.len()
        invariant
            i <= row@.len(),
            items == row_literals(row@),
            start == old(out)@ + seq!['('],
            ", "@ == item_sep(),
            out@ == start + join(items.take(i as int), item_sep()),
        decreases row.len() - i,
    {
        proof {
            lemma_join_step(items, item_sep(), i as int);
        }
        if i > 0 {
            out.append(", ");
        }
        assert(items[i as int] == literal(row@[i as int]));
        let lit = row[i].as_value();
        out.append(lit.as_str());
        proof {
            if i == 0 {
                assert(out@ =~= start + items[0]);
            } else {
                assert(out@ =~= start + join(items.take(i as int), item_sep()) + item_sep()
                    + items[i as int]);
            }
        }
        assert(out@ =~= start + join(items.take(i + 1), item_sep()));
        i = i + 1;
    }
    assert(items.take(i as int) =~= items);
    out.append(")");
    assert(out@ =~= old(out)@ + tuple_text(row@));
}

/// Builds the multi-row `INSERT` statement for a table, its column names and
/// the rows of values, each row in column order.
pub fn build_insert(
    schema: Option<&str>,
    table: &str,
    names: &Vec<String>,
    rows: &Vec<Vec<Value>>,
) -> (r: String)
    ensures
        r@ == insert_text(
            qualified_name(
                match schema {
                    Some(s) => Some(s@),
                    None => None,
                },
                table@,
            ),
            names@.map_values(|s: String| s@),
            rows@.map_values(|row: Vec<Value>| row@),
        ),
{
    let ghost qualified = qualified_name(
        match schema {
            Some(s) => Some(s@),
            None => None,
        },
        table@,
    );
    let ghost tuples = rows@.map_values(|row: Vec<Value>| row@).map_values(
        |r: Seq<Value>| tuple_text(r),
    );
    proof {
        reveal_strlit("INSERT INTO ");
        reveal_strlit(".");
        reveal_strlit(" ");
        reveal_strlit(" VALUES ");
        reveal_strlit(",\n");
    }
    assert("INSERT INTO "@ =~= insert_keyword());
    assert("."@ =~= seq!['.']);
    assert(" "@ =~= seq![' ']);
    assert(" VALUES "@ =~= values_keyword());
    assert(",\n"@ =~= row_sep());
    let mut out = String::from_str("INSERT INTO ");
    match schema {
        Some(s) => {
            out.append(s);
            out.append(".");
        },
        None => {},
    }
    out.append(table);
    out.append(" ");
    push_name_list(names, &mut out);
    out.append(" VALUES ");
    assert(out@ =~= statement_head(qualified, names@.map_values(|s: String| s@)));
    let ghost start = out@;
    let mut j: usize = 0;
    while j < rows.len()
        invariant
            j <= rows@.len(),
            tuples == rows@.map_values(|row: Vec<Value>| row@).map_values(
                |r: Seq<Value>| tuple_text(r),
            ),
            out@ == start + join(tuples.take(j as int), row_sep()),
            ",\n"@ == row_sep(),
        decreases rows.len() - j,
    {
        proof {
            lemma_join_step(tuples, row_sep(), j as int);
        }
        if j > 0 {
            out.append(",\n");
        }
        assert(tuples[j as int] == tuple_text(rows@[j as int]@));
        push_tuple(&rows[j], &mut out);
        assert(out@ =~= start + join(tuples.take(j + 1), row_sep()));
        j = j + 1;
    }
    assert(tuples.take(j as int) =~= tuples);
    out
}

} // verus!
