//! Which rows of the job queue a worker looks at.

use vstd::prelude::*;

use crate::job::{kind_of, runnable, JobState};

verus! {

/// How a column is compared.
#[derive(Clone, Copy, Debug, Eq, PartialEq, Structural)]
pub enum Comparison {
    Eq,
    Le,
    Lt,
    IsNull,
}

/// What a column is compared with.
#[derive(Debug, Eq, PartialEq)]
pub enum ColumnValue {
    Text(String),
    Int(i64),
}

/// A condition on one column.
#[derive(Debug, Eq, PartialEq)]
pub struct Term {
    pub column: String,
    pub comparison: Comparison,
    pub value: Option<ColumnValue>,
}

/// A condition on a row: all the terms of one of the lists hold.
#[derive(Debug, Eq, PartialEq)]
pub struct Predicate {
    pub any_of: Vec<Vec<Term>>,
}

/// By which column rows are ordered.
#[derive(Debug, Eq, PartialEq)]
pub struct Order {
    pub column: String,
    pub ascending: bool,
}

/// What a column is compared with, as a view.
pub enum ColumnView {
    Text(Seq<char>),
    Int(i64),
}

/// A condition on one column, as a view.
pub struct TermView {
    pub column: Seq<char>,
    pub comparison: Comparison,
    pub value: Option<ColumnView>,
}

impl View for Term {
    type V = TermView;

    open spec fn view(&self) -> TermView {
        TermView {
            column: self.column@,
            comparison: self.comparison,
            value: match self.value {
                Some(ColumnValue::Text(text)) => Some(ColumnView::Text(text@)),
                Some(ColumnValue::Int(number)) => Some(ColumnView::Int(number)),
                None => None,
            },
        }
    }
}

/// The columns of a row, by name; a column without a value is null.
pub type Row = Map<Seq<char>, ColumnView>;

/// Whether the row meets the condition. Nothing but `IsNull` holds of a null.
pub open spec fn term_holds(term: TermView, row: Row) -> bool {
    if !row.contains_key(term.column) {
        term.comparison is IsNull
    } else {
        match (term.comparison, row[term.column], term.value) {
            (Comparison::Eq, found, Some(value)) => found == value,
            (Comparison::Le, ColumnView::Int(found), Some(ColumnView::Int(value))) => found
                <= value,
            (Comparison::Lt, ColumnView::Int(found), Some(ColumnView::Int(value))) => found < value,
            _ => false,
        }
    }
}

/// Whether the row meets all of the conditions.
pub open spec fn terms_hold(terms: Seq<TermView>, row: Row) -> bool {
    forall|i: int| 0 <= i < terms.len() ==> term_holds(#[trigger] terms[i], row)
}

/// Whether the row meets one of the lists of conditions.
pub open spec fn lists_hold(lists: Seq<Seq<TermView>>, row: Row) -> bool {
    exists|i: int| 0 <= i < lists.len() && terms_hold(#[trigger] lists[i], row)
}

impl View for Predicate {
    type V = Seq<Seq<TermView>>;

    open spec fn view(&self) -> Seq<Seq<TermView>> {
        Seq::new(
            self.any_of@.len(),
            |i: int| Seq::new(self.any_of@[i]@.len(), |j: int| self.any_of@[i]@[j]@),
        )
    }
}

/// The condition that a text column has the value.
pub open spec fn text_is(column: Seq<char>, value: Seq<char>) -> TermView {
    TermView { column, comparison: Comparison::Eq, value: Some(ColumnView::Text(value)) }
}

/// The condition on a number column.
pub open spec fn number_is(column: Seq<char>, comparison: Comparison, value: i64) -> TermView {
    TermView { column, comparison, value: Some(ColumnView::Int(value)) }
}

/// What a worker looks for: pending jobs of its kind that are due, and claimed ones
/// whose lease ran out or is not there.
pub open spec fn poll_conditions(kind: Seq<char>, now_ms: i64) -> Seq<Seq<TermView>> {
    seq![
        seq![
            text_is("kind"@, kind),
            text_is("status"@, "pending"@),
            number_is("run_at"@, Comparison::Le, now_ms),
        ],
        seq![
            text_is("kind"@, kind),
            text_is("status"@, "claimed"@),
            number_is("lease_until"@, Comparison::Lt, now_ms),
        ],
        seq![
            text_is("kind"@, kind),
            text_is("status"@, "claimed"@),
            TermView { column: "lease_until"@, comparison: Comparison::IsNull, value: None },
        ],
    ]
}

/// The columns that the queue keeps of a job: its kind, its status, when it runs, and
/// the lease.
pub open spec fn queue_row(state: JobState, lease_until_ms: Option<i64>) -> Row {
    let leased = match lease_until_ms {
        Some(lease) => Map::<Seq<char>, ColumnView>::empty().insert(
            "lease_until"@,
            ColumnView::Int(lease),
        ),
        None => Map::empty(),
    };
    match state {
        JobState::Pending { kind, run_at, .. } => leased.insert(
            "kind"@,
            ColumnView::Text(kind.0@),
        ).insert("status"@, ColumnView::Text("pending"@)).insert("run_at"@, ColumnView::Int(run_at)),
        JobState::Claimed { kind, run_at, .. } => leased.insert(
            "kind"@,
            ColumnView::Text(kind.0@),
        ).insert("status"@, ColumnView::Text("claimed"@)).insert("run_at"@, ColumnView::Int(run_at)),
        JobState::Done => leased.insert("status"@, ColumnView::Text("done"@)),
        JobState::Dead { .. } => leased.insert("status"@, ColumnView::Text("dead"@)),
    }
}

/// The condition that a text column has the value.
fn text_term(column: &str, value: &str) -> (term: Term)
    ensures
        term@ == text_is(column@, value@),
{
    Term {
        column: column.to_owned(),
        comparison: Comparison::Eq,
        value: Some(ColumnValue::Text(value.to_owned())),
    }
}

/// The condition on a number column.
fn number_term(column: &str, comparison: Comparison, value: i64) -> (term: Term)
    ensures
        term@ == number_is(column@, comparison, value),
{
    Term { column: column.to_owned(), comparison, value: Some(ColumnValue::Int(value)) }
}

/// What a worker looks for.
pub fn poll_predicate(kind: &str, now_ms: i64) -> (predicate: Predicate)
    ensures
        predicate@ == poll_conditions(kind@, now_ms),
{
    let due = vec![
        text_term("kind", kind),
        text_term("status", "pending"),
        number_term("run_at", Comparison::Le, now_ms),
    ];
    let expired = vec![
        text_term("kind", kind),
        text_term("status", "claimed"),
        number_term("lease_until", Comparison::Lt, now_ms),
    ];
    let unleased = vec![
        text_term("kind", kind),
        text_term("status", "claimed"),
        Term {
            column: "lease_until".to_owned(),
            comparison: Comparison::IsNull,
            value: None,
        },
    ];
    let predicate = Predicate { any_of: vec![due, expired, unleased] };
    proof {
        let expected = poll_conditions(kind@, now_ms);
        assert(predicate@[0] =~= expected[0]);
        assert(predicate@[1] =~= expected[1]);
        assert(predicate@[2] =~= expected[2]);
        assert(predicate@ =~= expected);
    }
    predicate
}

/// The order in which a worker looks: by when the jobs run.
pub fn poll_order() -> (order: Order)
    ensures
        order.column@ == "run_at"@,
        order.ascending,
{
    Order { column: "run_at".to_owned(), ascending: true }
}

/// A worker looks exactly at the jobs of its kind that may be claimed.
pub proof fn law_polls_find_what_may_be_claimed(
    kind: Seq<char>,
    state: JobState,
    lease_until_ms: Option<i64>,
    now_ms: i64,
)
    ensures
        lists_hold(poll_conditions(kind, now_ms), queue_row(state, lease_until_ms)) <==> (
        kind_of(state) matches Some(own) && own.0@ == kind && runnable(
            state,
            lease_until_ms,
            now_ms,
        )),
{
    reveal_strlit("kind");
    reveal_strlit("status");
    reveal_strlit("run_at");
    reveal_strlit("lease_until");
    reveal_strlit("pending");
    reveal_strlit("claimed");
    reveal_strlit("done");
    reveal_strlit("dead");
    assert("kind"@.len() == 4 && "status"@.len() == 6 && "run_at"@.len() == 6
        && "lease_until"@.len() == 11);
    assert("status"@[0] != "run_at"@[0]);
    assert("pending"@[0] != "claimed"@[0]);
    assert("done"@.len() == 4 && "dead"@.len() == 4 && "pending"@.len() == 7 && "claimed"@.len()
        == 7);
    let row = queue_row(state, lease_until_ms);
    let lists = poll_conditions(kind, now_ms);
    assert(lists.len() == 3);
    assert forall|n: int| 0 <= n < 3 implies (terms_hold(#[trigger] lists[n], row) <==> (term_holds(
        lists[n][0],
        row,
    ) && term_holds(lists[n][1], row) && term_holds(lists[n][2], row))) by {
        assert(lists[n].len() == 3);
    }
    assert(lists_hold(lists, row) <==> (terms_hold(lists[0], row) || terms_hold(lists[1], row)
        || terms_hold(lists[2], row)));
}

/// A worker looks at the jobs of its kind that are due, whether they wait or their lease
/// ran out, and at the ones that run earliest first; it never looks at a job of another
/// kind, at one that is held, or at one that is over.
pub proof fn law_polls_look_at_jobs_that_are_due(
    kind: &str,
    now_ms: i64,
    predicate: Predicate,
    order: Order,
    state: JobState,
    lease_until_ms: Option<i64>,
)
    requires
        call_ensures(poll_predicate, (kind, now_ms), predicate),
        call_ensures(poll_order, (), order),
    ensures
        lists_hold(predicate@, queue_row(state, lease_until_ms)) <==> match state {
            JobState::Pending { kind: own, run_at, .. } => own.0@ == kind@ && run_at <= now_ms,
            JobState::Claimed { kind: own, .. } => own.0@ == kind@ && (lease_until_ms is None
                || lease_until_ms->0 < now_ms),
            _ => false,
        },
        order.column@ == "run_at"@ && order.ascending,
{
    law_polls_find_what_may_be_claimed(kind@, state, lease_until_ms, now_ms);
}

} // verus!
