//! The batched insert of user rows: one placeholder group per row, and rows
//! whose id is already stored are skipped.
use vstd::prelude::*;
use vstd::string::*;
use itertools::Itertools;
use crate::model::{SqlValue, UserRow};
use crate::text::{decimal, decimal_text, join_with, joined, views};

verus! {

/// The statement and its parameters, in placeholder order.
#[derive(Debug, Clone, PartialEq, Eq)]
pub struct BatchInsert {
    pub statement: String,
    pub params: Vec<SqlValue>,
}

/// The columns of a stored row, in table order.
pub open spec fn row_values(r: UserRow) -> Seq<SqlValue> {
    seq![
        SqlValue::Int(r.id),
        SqlValue::Text(r.username),
        SqlValue::Int(r.global_rank),
        SqlValue::Text(r.country_code),
        SqlValue::Text(r.avatar_url),
        SqlValue::Text(r.cover_url),
    ]
}

/// The columns of every row, row after row.
pub open spec fn flat_values(rows: Seq<UserRow>) -> Seq<SqlValue>
    decreases rows.len(),
{
    if rows.len() == 0 {
        Seq::empty()
    } else {
        flat_values(rows.drop_last()) + row_values(rows.last())
    }
}

/// `$k`.
pub open spec fn placeholder(k: nat) -> Seq<char> {
    seq!['$'] + decimal_text(k)
}

/// `($k, $k+1, $k+2, $k+3, $k+4, $k+5)`.
pub open spec fn group_text(k: nat) -> Seq<char> {
    seq!['('] + placeholder(k) + seq![',', ' '] + placeholder(k + 1) + seq![',', ' '] + placeholder(k + 2)
        + seq![',', ' '] + placeholder(k + 3) + seq![',', ' '] + placeholder(k + 4) + seq![',', ' ']
        + placeholder(k + 5) + seq![')']
}

/// The placeholder groups of `n` rows: row `j` holds parameters `6j+1` to `6j+6`.
pub open spec fn groups_text(n: nat) -> Seq<Seq<char>> {
    Seq::new(n, |j: int| group_text((6 * j + 1) as nat))
}

/// The statement that inserts `n` rows and skips those whose id exists.
pub open spec fn statement_text(n: nat) -> Seq<char> {
    "INSERT INTO users VALUES "@ + joined(groups_text(n), seq![',', ' ']) + " ON CONFLICT DO NOTHING"@
}

/// Six parameters per row.
pub proof fn lemma_flat_values_len(rows: Seq<UserRow>)
    ensures
        flat_values(rows).len() == 6 * rows.len(),
    decreases rows.len(),
{
    if rows.len() > 0 {
        lemma_flat_values_len(rows.drop_last());
    }
}

/// The table, keyed by user id, after the insert statement ran on `rows`:
/// each row is added unless a row with its id is already there.
pub open spec fn after_insert(table: Map<i32, UserRow>, rows: Seq<UserRow>) -> Map<i32, UserRow>
    decreases rows.len(),
{
    if rows.len() == 0 {
        table
    } else {
        let t = after_insert(table, rows.drop_last());
        let r = rows.last();
        if t.contains_key(r.id) {
            t
        } else {
            t.insert(r.id, r)
        }
    }
}

/// Whether some row of `rows` has id `k`.
pub open spec fn has_id(rows: Seq<UserRow>, k: i32) -> bool {
    exists|i: int| 0 <= i < rows.len() && #[trigger] rows[i].id == k
}

/// Stored rows stay as they were; the ids afterwards are the old ones and
/// those of `rows`; each added row is one of `rows`.
pub proof fn lemma_after_insert(table: Map<i32, UserRow>, rows: Seq<UserRow>)
    ensures
        forall|k: i32| table.contains_key(k) ==> #[trigger] after_insert(table, rows).contains_key(k)
            && after_insert(table, rows)[k] == table[k],
        forall|k: i32| #[trigger] after_insert(table, rows).contains_key(k) <==> table.contains_key(k)
            || has_id(rows, k),
        forall|k: i32|
            #[trigger] after_insert(table, rows).contains_key(k) && !table.contains_key(k) ==> exists|
                i: int,
            | 0 <= i < rows.len() && rows[i] == after_insert(table, rows)[k] && rows[i].id == k,
    decreases rows.len(),
{
    if rows.len() > 0 {
        let init = rows.drop_last();
        lemma_after_insert(table, init);
        let r = rows.last();
        assert forall|k: i32| has_id(init, k) implies has_id(rows, k) by {
            let i = choose|i: int| 0 <= i < init.len() && #[trigger] init[i].id == k;
            assert(rows[i].id == k);
        }
        assert(rows[rows.len() - 1].id == r.id);
        assert forall|k: i32| has_id(rows, k) implies has_id(init, k) || k == r.id by {
            let i = choose|i: int| 0 <= i < rows.len() && #[trigger] rows[i].id == k;
            if i < init.len() {
                assert(init[i].id == k);
            }
        }
        let t = after_insert(table, init);
        assert forall|k: i32|
            #[trigger] after_insert(table, rows).contains_key(k) && !table.contains_key(k) implies exists|
                i: int,
            | 0 <= i < rows.len() && rows[i] == after_insert(table, rows)[k] && rows[i].id == k by {
            if t.contains_key(k) {
                let i = choose|i: int| 0 <= i < init.len() && init[i] == t[k] && init[i].id == k;
                assert(rows[i] == init[i]);
            } else {
                assert(rows[rows.len() - 1] == r);
            }
        }
    }
}

/// Running the statement on rows whose ids are all stored changes nothing.
pub proof fn lemma_insert_of_stored_ids(table: Map<i32, UserRow>, rows: Seq<UserRow>)
    requires
        forall|i: int| 0 <= i < rows.len() ==> table.contains_key(#[trigger] rows[i].id),
    ensures
        after_insert(table, rows) == table,
    decreases rows.len(),
{
    if rows.len() > 0 {
        let init = rows.drop_last();
        assert forall|i: int| 0 <= i < init.len() implies table.contains_key(#[trigger] init[i].id) by {
            assert(init[i] == rows[i]);
        }
        lemma_insert_of_stored_ids(table, init);
        assert(table.contains_key(rows[rows.len() - 1].id));
    }
}

/// Relies on `Itertools::tuples` over `1..=count`: consecutive numbers taken
/// six at a time, an incomplete last group dropped.
#[verifier::external_body]
fn numbers_by_six(count: usize) -> (r: Vec<(usize, usize, usize, usize, usize, usize)>)
    ensures
        r@.len() == count / 6,
        forall|i: int|
            0 <= i < r@.len() ==> #[trigger] r@[i] == (
                (6 * i + 1) as usize,
                (6 * i + 2) as usize,
                (6 * i + 3) as usize,
                (6 * i + 4) as usize,
                (6 * i + 5) as usize,
                (6 * i + 6) as usize,
            ),
{
    (1..=count).tuples().collect()
}

fn placeholder_of(k: usize) -> (r: String)
    ensures
        r@ == placeholder(k as nat),
{
    proof {
        reveal_strlit("$");
    }
    String::from_str("$").concat(decimal(k).as_str())
}

fn group_of(t: (usize, usize, usize, usize, usize, usize)) -> (r: String)
    requires
        t.1 == t.0 + 1,
        t.2 == t.0 + 2,
        t.3 == t.0 + 3,
        t.4 == t.0 + 4,
        t.5 == t.0 + 5,
    ensures
        r@ == group_text(t.0 as nat),
{
    proof {
        reveal_strlit("(");
        reveal_strlit(", ");
        reveal_strlit(")");
    }
    let mut s = String::from_str("(");
    s.append(placeholder_of(t.0).as_str());
    s.append(", ");
    s.append(placeholder_of(t.1).as_str());
    s.append(", ");
    s.append(placeholder_of(t.2).as_str());
    s.append(", ");
    s.append(placeholder_of(t.3).as_str());
    s.append(", ");
    s.append(placeholder_of(t.4).as_str());
    s.append(", ");
    s.append(placeholder_of(t.5).as_str());
    s.append(")");
    s
}

/// The insert statement for `row_count` rows of six columns each.
pub fn insert_statement(row_count: usize) -> (r: String)
    requires
        row_count <= usize::MAX / 6,
    ensures
        r@ == statement_text(row_count as nat),
{
    let numbers = numbers_by_six(row_count * 6);
    let mut groups: Vec<String> = Vec::new();
    let mut i: usize = 0;
    while i < numbers.len()
        invariant
            numbers@.len() == row_count,
            i <= row_count,
            row_count <= usize::MAX / 6,
            forall|j: int|
                0 <= j < numbers@.len() ==> #[trigger] numbers@[j] == (
                    (6 * j + 1) as usize,
                    (6 * j + 2) as usize,
                    (6 * j + 3) as usize,
                    (6 * j + 4) as usize,
                    (6 * j + 5) as usize,
                    (6 * j + 6) as usize,
                ),
            groups@.len() == i,
            views(groups@) =~= groups_text(i as nat),
        decreases row_count - i,
    {
        let t = numbers[i];
        proof {
            assert(6 * (i as int) + 6 <= 6 * (row_count as int)) by (nonlinear_arith)
                requires
                    i < row_count,
            ;
            assert(6 * (row_count as int) <= usize::MAX) by (nonlinear_arith)
                requires
                    row_count <= usize::MAX / 6,
            ;
            assert(t.0 as nat == 6 * i + 1);
        }
        let g = group_of(t);
        let ghost before = groups@;
        groups.push(g);
        proof {
            assert(groups@ == before.push(g));
            assert forall|j: int| 0 <= j <= i implies #[trigger] views(groups@)[j] == groups_text(
                (i + 1) as nat,
            )[j] by {
                if j < i {
                    assert(groups@[j] == before[j]);
                    assert(views(before)[j] == groups_text(i as nat)[j]);
                }
            }
        }
        i = i + 1;
        assert(views(groups@) =~= groups_text(i as nat));
    }
    proof {
        reveal_strlit(", ");
        assert(", "@ =~= seq![',', ' ']);
    }
    let body = join_with(&groups, ", ");
    let mut s = String::from_str("INSERT INTO users VALUES ");
    s.append(body.as_str());
    s.append(" ON CONFLICT DO NOTHING");
    s
}

/// The parameters of `rows`, six per row, in row order.
pub fn insert_params(rows: &Vec<UserRow>) -> (r: Vec<SqlValue>)
    ensures
        r@ == flat_values(rows@),
{
    let mut out: Vec<SqlValue> = Vec::new();
    let mut i: usize = 0;
    while i < rows.len()
        invariant
            i <= rows@.len(),
            out@ == flat_values(rows@.subrange(0, i as int)),
        decreases rows@.len() - i,
    {
        let r = &rows[i];
        out.push(SqlValue::Int(r.id));
        out.push(SqlValue::Text(r.username.clone()));
        out.push(SqlValue::Int(r.global_rank));
        out.push(SqlValue::Text(r.country_code.clone()));
        out.push(SqlValue::Text(r.avatar_url.clone()));
        out.push(SqlValue::Text(r.cover_url.clone()));
        proof {
            let next = rows@.subrange(0, i + 1);
            assert(next.drop_last() =~= rows@.subrange(0, i as int));
            assert(next.last() == rows@[i as int]);
        }
        i = i + 1;
        assert(out@ =~= flat_values(rows@.subrange(0, i as int)));
    }
    assert(rows@.subrange(0, rows@.len() as int) =~= rows@);
    out
}

/// The statement and parameters that insert `rows` in one batch.
pub fn user_insert(rows: &Vec<UserRow>) -> (r: BatchInsert)
    requires
        rows@.len() <= usize::MAX / 6,
    ensures
        r.statement@ == statement_text(rows@.len()),
        r.params@ == flat_values(rows@),
{
    BatchInsert { statement: insert_statement(rows.len()), params: insert_params(rows) }
}

} // verus!
