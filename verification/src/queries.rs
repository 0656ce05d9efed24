//! The queries by which the persistent store transforms and summarizes
//! tables. Table and column names go between double quotes; predicates and
//! expressions go in as they stand.

use crate::filter::{quote_identifier, quoted_identifier};
use crate::text::{decimal, joined, push_decimal, text_eq, texts_of, to_uppercase, uppercase};
use vstd::prelude::*;

verus! {

/// One term of an `ORDER BY` clause.
pub open spec fn order_term(column: Seq<char>, descending: bool) -> Seq<char> {
    quoted_identifier(column) + (if descending {
        " DESC"@
    } else {
        " ASC"@
    })
}

/// The terms of an `ORDER BY` clause: one for each column that has a
/// direction.
pub open spec fn order_terms(columns: Seq<Seq<char>>, descending: Seq<bool>) -> Seq<Seq<char>> {
    Seq::new(
        if columns.len() <= descending.len() {
            columns.len()
        } else {
            descending.len()
        },
        |i: int| order_term(columns[i], descending[i]),
    )
}

/// The query that selects a table in a given order.
pub open spec fn sort_text(name: Seq<char>, columns: Seq<Seq<char>>, descending: Seq<bool>) -> Seq<
    char,
> {
    "SELECT * FROM "@ + quoted_identifier(name) + " ORDER BY "@ + joined(
        order_terms(columns, descending),
        ", "@,
    )
}

/// The query that selects the rows of a table that meet a predicate.
pub open spec fn filter_text(name: Seq<char>, predicate: Seq<char>) -> Seq<char> {
    "SELECT * FROM "@ + quoted_identifier(name) + " WHERE "@ + predicate
}

/// The columns of `names`, each between double quotes.
pub open spec fn quoted_columns(names: Seq<Seq<char>>) -> Seq<Seq<char>> {
    names.map_values(|n: Seq<char>| quoted_identifier(n))
}

/// The query that groups a table and aggregates each group.
pub open spec fn group_text(
    name: Seq<char>,
    columns: Seq<Seq<char>>,
    aggregates: Seq<Seq<char>>,
) -> Seq<char> {
    "SELECT "@ + joined(quoted_columns(columns), ", "@) + ", "@ + joined(aggregates, ", "@)
        + " FROM "@ + quoted_identifier(name) + " GROUP BY "@ + joined(
        quoted_columns(columns),
        ", "@,
    )
}

/// The query that selects a table with one more column, computed.
pub open spec fn calculated_text(name: Seq<char>, expr: Seq<char>, alias: Seq<char>) -> Seq<char> {
    "SELECT *, ("@ + expr + ") AS "@ + quoted_identifier(alias) + " FROM "@ + quoted_identifier(
        name,
    )
}

/// The statement that summarizes each column of a table.
pub open spec fn summarize_text(name: Seq<char>) -> Seq<char> {
    "SUMMARIZE SELECT * FROM "@ + quoted_identifier(name)
}

/// The aggregate of a chart: a count of rows, or the named function over
/// the value column. Nothing where a value column is needed and missing.
pub open spec fn chart_aggregate(kind: Seq<char>, value: Option<Seq<char>>) -> Option<Seq<char>> {
    if kind == "count"@ {
        Some("COUNT(*)"@)
    } else {
        match value {
            Some(column) => Some(uppercase(kind) + "("@ + quoted_identifier(column) + ")"@),
            None => None,
        }
    }
}

/// The query behind a chart: one row for each group with its label and its
/// value, the largest values first, `limit` rows at most.
pub open spec fn chart_text(
    name: Seq<char>,
    group: Seq<char>,
    aggregate: Seq<char>,
    limit: nat,
) -> Seq<char> {
    "SELECT "@ + quoted_identifier(group) + " AS label, "@ + aggregate + " AS value FROM "@
        + quoted_identifier(name) + " GROUP BY "@ + quoted_identifier(group)
        + " ORDER BY value DESC LIMIT "@ + decimal(limit)
}

fn join_texts(parts: &Vec<String>, sep: &str) -> (r: String)
    ensures
        r@ == joined(texts_of(parts@), sep@),
{
    let mut out = String::new();
    let mut i: usize = 0;
    while i < parts.len()
        invariant
            i <= parts.len(),
            out@ == joined(texts_of(parts@).take(i as int), sep@),
        decreases parts.len() - i,
    {
        if i > 0 {
            out.append(sep);
        }
        out.append(parts[i].as_str());
        proof {
            let all = texts_of(parts@);
            assert(all.take(i + 1).drop_last() =~= all.take(i as int));
            assert(all.take(i + 1).last() == parts@[i as int]@);
            if i == 0 {
                assert(out@ =~= parts@[i as int]@);
            }
        }
        i += 1;
    }
    assert(texts_of(parts@).take(parts.len() as int) =~= texts_of(parts@));
    out
}

/// The query that selects the table `name` in `ORDER BY` order: by each of
/// `columns` that has a direction in `descending`, in that direction.
pub fn sort_query(name: &str, columns: &Vec<String>, descending: &Vec<bool>) -> (r: String)
    ensures
        r@ == sort_text(name@, texts_of(columns@), descending@),
{
    let n: usize = if columns.len() <= descending.len() {
        columns.len()
    } else {
        descending.len()
    };
    let mut terms: Vec<String> = Vec::new();
    let mut i: usize = 0;
    while i < n
        invariant
            i <= n,
            n <= columns.len(),
            n <= descending.len(),
            terms.len() == i,
            forall|j: int|
                0 <= j < i ==> #[trigger] texts_of(terms@)[j] == order_term(
                    columns@[j]@,
                    descending@[j],
                ),
        decreases n - i,
    {
        let mut term = quote_identifier(columns[i].as_str());
        if descending[i] {
            term.append(" DESC");
        } else {
            term.append(" ASC");
        }
        let ghost prev = terms@;
        terms.push(term);
        assert forall|j: int| 0 <= j < i + 1 implies #[trigger] texts_of(terms@)[j] == order_term(
            columns@[j]@,
            descending@[j],
        ) by {
            if j < i {
                assert(texts_of(prev)[j] == order_term(columns@[j]@, descending@[j]));
                assert(terms@[j] == prev[j]);
            }
        }
        i += 1;
    }
    assert(texts_of(terms@) =~= order_terms(texts_of(columns@), descending@));
    let mut out = String::from_str("SELECT * FROM ");
    let ident = quote_identifier(name);
    out.append(ident.as_str());
    out.append(" ORDER BY ");
    let order = join_texts(&terms, ", ");
    out.append(order.as_str());
    out
}

/// The query that selects the rows of the table `name` that meet
/// `where_clause`. The predicate goes in as it stands.
pub fn filter_query(name: &str, where_clause: &str) -> (r: String)
    ensures
        r@ == filter_text(name@, where_clause@),
{
    let mut out = String::from_str("SELECT * FROM ");
    let ident = quote_identifier(name);
    out.append(ident.as_str());
    out.append(" WHERE ");
    out.append(where_clause);
    out
}

/// The query that groups the table `name` by `group_columns` and computes
/// `agg_exprs` for each group. The aggregate expressions go in as they
/// stand.
pub fn group_query(name: &str, group_columns: &Vec<String>, agg_exprs: &Vec<String>) -> (r: String)
    ensures
        r@ == group_text(name@, texts_of(group_columns@), texts_of(agg_exprs@)),
{
    let mut quoted: Vec<String> = Vec::new();
    let mut i: usize = 0;
    while i < group_columns.len()
        invariant
            i <= group_columns.len(),
            quoted.len() == i,
            forall|j: int|
                0 <= j < i ==> #[trigger] texts_of(quoted@)[j] == quoted_identifier(
                    group_columns@[j]@,
                ),
        decreases group_columns.len() - i,
    {
        let ghost prev = quoted@;
        quoted.push(quote_identifier(group_columns[i].as_str()));
        assert forall|j: int| 0 <= j < i + 1 implies #[trigger] texts_of(quoted@)[j]
            == quoted_identifier(group_columns@[j]@) by {
            if j < i {
                assert(texts_of(prev)[j] == quoted_identifier(group_columns@[j]@));
                assert(quoted@[j] == prev[j]);
            }
        }
        i += 1;
    }
    assert(texts_of(quoted@) =~= quoted_columns(texts_of(group_columns@)));
    let columns = join_texts(&quoted, ", ");
    let aggregates = join_texts(agg_exprs, ", ");
    let mut out = String::from_str("SELECT ");
    out.append(columns.as_str());
    out.append(", ");
    out.append(aggregates.as_str());
    out.append(" FROM ");
    let ident = quote_identifier(name);
    out.append(ident.as_str());
    out.append(" GROUP BY ");
    out.append(columns.as_str());
    out
}

/// The query that selects the table `name` with one more column: `expr`
/// under the name `alias`. The expression goes in as it stands.
pub fn calculated_query(name: &str, expr: &str, alias: &str) -> (r: String)
    ensures
        r@ == calculated_text(name@, expr@, alias@),
{
    let mut out = String::from_str("SELECT *, (");
    out.append(expr);
    out.append(") AS ");
    let column = quote_identifier(alias);
    out.append(column.as_str());
    out.append(" FROM ");
    let ident = quote_identifier(name);
    out.append(ident.as_str());
    out
}

/// The statement that summarizes each column of the table `name`.
pub fn summarize_query(name: &str) -> (r: String)
    ensures
        r@ == summarize_text(name@),
{
    let mut out = String::from_str("SUMMARIZE SELECT * FROM ");
    let ident = quote_identifier(name);
    out.append(ident.as_str());
    out
}

/// The aggregate expression of a chart, if `agg_type` and `value_col` give
/// one: `COUNT(*)` for `count`, else the function `agg_type` in upper case
/// over the value column between double quotes.
pub fn chart_aggregate_expr(agg_type: &str, value_col: Option<&str>) -> (r: Option<String>)
    ensures
        match r {
            Some(text) => chart_aggregate(
                agg_type@,
                match value_col {
                    Some(v) => Some(v@),
                    None => None,
                },
            ) == Some(text@),
            None => chart_aggregate(
                agg_type@,
                match value_col {
                    Some(v) => Some(v@),
                    None => None,
                },
            ) is None,
        },
{
    if text_eq(agg_type, "count") {
        Some(String::from_str("COUNT(*)"))
    } else {
        match value_col {
            Some(column) => {
                let mut out = to_uppercase(agg_type);
                out.append("(");
                let ident = quote_identifier(column);
                out.append(ident.as_str());
                out.append(")");
                Some(out)
            },
            None => None,
        }
    }
}

/// The query behind a chart over the table `name`: the groups of
/// `group_col`, each with `aggregate` as its value, the largest values
/// first, `limit` groups at most.
pub fn chart_query(name: &str, group_col: &str, aggregate: &str, limit: u32) -> (r: String)
    ensures
        r@ == chart_text(name@, group_col@, aggregate@, limit as nat),
{
    let group = quote_identifier(group_col);
    let mut out = String::from_str("SELECT ");
    out.append(group.as_str());
    out.append(" AS label, ");
    out.append(aggregate);
    out.append(" AS value FROM ");
    let ident = quote_identifier(name);
    out.append(ident.as_str());
    out.append(" GROUP BY ");
    out.append(group.as_str());
    out.append(" ORDER BY value DESC LIMIT ");
    push_decimal(&mut out, limit as u64);
    out
}

} // verus!
