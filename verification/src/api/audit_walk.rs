//! A walk through the audit ledger, page by page.
//!
//! The first page is asked for without a cursor, and each further one with the cursor of the page
//! before it, until a page has none. The requests of the walk, and others meanwhile, write rows of
//! their own. Those are newer than every row of the first page, so that the pages together hold
//! the rows that were there at the first request: each once, the newest first.

use vstd::prelude::*;

use crate::api::queries::{
    cursor_text, is_audit_page, is_audit_plan, law_cursor_reads_back, row_limit_of,
    AuditBody, AuditParams,
};
use crate::api::walk::lemma_filter_end;
use crate::api::wire::WireAuditEntry;
use crate::state::{AuditEntry, AuditQuery};
use crate::text::opt_text;

verus! {

// ---------------------------------------------------------------------
// The ledger
// ---------------------------------------------------------------------

/// Whether a row with a time and an id is older than another.
pub open spec fn is_older(intent_ms: i64, id: u64, than: (i64, u64)) -> bool {
    intent_ms < than.0 || (intent_ms == than.0 && id < than.1)
}

/// Whether a row is older than a time and an id.
pub open spec fn older_than(than: (i64, u64)) -> spec_fn(AuditEntry) -> bool {
    |row: AuditEntry| is_older(row.intent_ms, row.id, than)
}

/// Whether rows stand with the newest first.
pub open spec fn newest_first(rows: Seq<AuditEntry>) -> bool {
    forall|i: int, j: int|
        0 <= i < j < rows.len() ==> is_older(
            (#[trigger] rows[j]).intent_ms,
            rows[j].id,
            ((#[trigger] rows[i]).intent_ms, rows[i].id),
        )
}

/// What the ledger answers when `limit` rows older than a time and an id are read, or of all rows
/// where there is none to begin after: the newest of them.
pub open spec fn ledger_answer(
    ledger: Seq<AuditEntry>,
    before: Option<(i64, u64)>,
    limit: nat,
) -> Seq<AuditEntry> {
    let left = match before {
        Some(than) => ledger.filter(older_than(than)),
        None => ledger,
    };
    if limit < left.len() {
        left.take(limit as int)
    } else {
        left
    }
}

/// Whether a ledger holds these rows, and before them only rows that are newer.
pub open spec fn grew_from(ledger: Seq<AuditEntry>, rows: Seq<AuditEntry>) -> bool {
    &&& newest_first(ledger)
    &&& rows.len() <= ledger.len()
    &&& ledger.skip(ledger.len() - rows.len()) == rows
}

// ---------------------------------------------------------------------
// The walk
// ---------------------------------------------------------------------

/// A request of a walk, and what became of it.
pub struct AuditStep {
    pub params: AuditParams,
    /// The row that the request itself wrote.
    pub own_row: u64,
    pub plan: (AuditQuery, usize),
    /// The rows that meet the filters of the request, without its own.
    pub ledger: Seq<AuditEntry>,
    pub page: AuditBody,
}

/// Whether two requests ask for the same rows, as many at a time.
pub open spec fn same_filters(a: AuditParams, b: AuditParams) -> bool {
    &&& a.since_ms == b.since_ms
    &&& a.until_ms == b.until_ms
    &&& opt_text(a.token_id) == opt_text(b.token_id)
    &&& opt_text(a.decision) == opt_text(b.decision)
    &&& opt_text(a.path) == opt_text(b.path)
    &&& a.limit == b.limit
}

/// Whether a request of a walk carries the cursor of the page before it, and was planned and
/// answered from a ledger that grew from `rows`.
pub open spec fn is_audit_step(steps: Seq<AuditStep>, i: int, rows: Seq<AuditEntry>) -> bool {
    let step = steps[i];
    &&& same_filters(step.params, steps[0].params)
    &&& opt_text(step.params.before) == (if i == 0 {
        None
    } else {
        opt_text(steps[i - 1].page.next_cursor)
    })
    &&& is_audit_plan(step.plan, step.params, step.own_row)
    &&& if i == 0 {
        step.ledger == rows && newest_first(rows)
    } else {
        grew_from(step.ledger, rows)
    }
    &&& is_audit_page(
        step.page,
        ledger_answer(step.ledger, step.plan.0.before, step.plan.1 as nat),
        step.plan.1,
    )
}

/// Whether these are the first requests of a walk through a ledger that held `rows` at its first:
/// every page but the last has a cursor, and the next page is asked for with it.
pub open spec fn is_audit_walk(steps: Seq<AuditStep>, rows: Seq<AuditEntry>) -> bool {
    &&& steps.len() > 0
    &&& forall|i: int| 0 <= i < steps.len() ==> #[trigger] is_audit_step(steps, i, rows)
    &&& forall|i: int|
        0 <= i < steps.len() - 1 ==> (#[trigger] steps[i]).page.next_cursor is Some
}

/// The rows of the pages, one page after the other.
pub open spec fn audit_walked(steps: Seq<AuditStep>) -> Seq<WireAuditEntry>
    decreases steps.len(),
{
    if steps.len() == 0 {
        Seq::empty()
    } else {
        audit_walked(steps.drop_last()) + steps.last().page.audit@
    }
}

/// After the last of the first `n` rows come the others, whatever was written meanwhile.
proof fn lemma_rows_after(ledger: Seq<AuditEntry>, rows: Seq<AuditEntry>, n: int)
    requires
        grew_from(ledger, rows),
        0 < n <= rows.len(),
    ensures
        ledger.filter(older_than((rows[n - 1].intent_ms, rows[n - 1].id))) == rows.skip(n),
{
    let added = ledger.len() - rows.len();
    let last = added + n - 1;
    let than = (rows[n - 1].intent_ms, rows[n - 1].id);
    assert(ledger.skip(added)[n - 1] == ledger[last]);
    assert forall|i: int| 0 <= i < ledger.len() implies (older_than(than)(#[trigger] ledger[i])
        <==> last + 1 <= i) by {
        if i < last {
            assert(is_older(
                ledger[last].intent_ms,
                ledger[last].id,
                (ledger[i].intent_ms, ledger[i].id),
            ));
        } else if i > last {
            assert(is_older(ledger[i].intent_ms, ledger[i].id, than));
        }
    }
    lemma_filter_end(ledger, older_than(than), last + 1);
    assert(ledger.skip(last + 1) =~= rows.skip(n)) by {
        assert(ledger.skip(added).skip(n) =~= ledger.skip(last + 1));
    }
}

/// How far the first requests of a walk have come.
proof fn lemma_audit_walk(steps: Seq<AuditStep>, rows: Seq<AuditEntry>)
    requires
        is_audit_walk(steps, rows),
    ensures
        ({
            let n = audit_walked(steps).len() as int;
            let last = steps.last().page;
            let limit = row_limit_of(steps[0].params.limit);
            &&& n <= rows.len()
            &&& forall|k: int| 0 <= k < n ==> (#[trigger] audit_walked(steps)[k])@ == rows[k]@
            &&& last.audit.len() <= limit
            &&& last.next_cursor is Some <==> last.audit.len() == limit
            &&& opt_text(last.next_cursor) == (if last.audit.len() == limit {
                Some(cursor_text(rows[n - 1].intent_ms, rows[n - 1].id))
            } else {
                None
            })
            &&& last.next_cursor is None ==> n == rows.len()
            &&& last.next_cursor is Some ==> steps.len() <= n
            &&& steps.len() <= n + 1
        }),
    decreases steps.len(),
{
    let at = steps.len() - 1;
    let step = steps.last();
    let first = audit_walked(steps.drop_last());
    let done = first.len() as int;
    assert(is_audit_step(steps, at, rows));
    if at == 0 {
        assert(rows.skip(0) =~= rows);
    } else {
        let fewer = steps.drop_last();
        assert forall|i: int| 0 <= i < fewer.len() implies #[trigger] is_audit_step(
            fewer,
            i,
            rows,
        ) by {
            assert(is_audit_step(steps, i, rows));
        }
        assert forall|i: int| 0 <= i < fewer.len() - 1 implies (
        #[trigger] fewer[i]).page.next_cursor is Some by {
            assert(steps[i].page.next_cursor is Some);
        }
        lemma_audit_walk(fewer, rows);
        assert(steps[at - 1] == fewer.last());
        assert(steps[at - 1].page.next_cursor is Some);
        let row = rows[done - 1];
        law_cursor_reads_back(row.intent_ms, row.id);
        assert(step.plan.0.before == Some((row.intent_ms, row.id)));
        lemma_rows_after(step.ledger, rows, done);
    }
    let left = rows.skip(done);
    let read = ledger_answer(step.ledger, step.plan.0.before, step.plan.1 as nat);
    assert(read.len() <= left.len());
    assert(forall|k: int| 0 <= k < read.len() ==> #[trigger] read[k] == rows[done + k]);
    assert forall|k: int| 0 <= k < done + read.len() implies (
    #[trigger] audit_walked(steps)[k])@ == rows[k]@ by {
        if k < done {
            assert(audit_walked(steps)[k] == first[k]);
        } else {
            assert(audit_walked(steps)[k] == step.page.audit@[k - done]);
            assert(read[k - done] == rows[k]);
        }
    }
}

/// The first requests of a walk are the first requests of a walk up to any of them.
proof fn lemma_audit_walk_prefix(steps: Seq<AuditStep>, rows: Seq<AuditEntry>, n: int)
    requires
        is_audit_walk(steps, rows),
        0 < n <= steps.len(),
    ensures
        is_audit_walk(steps.take(n), rows),
{
    let fewer = steps.take(n);
    assert forall|i: int| 0 <= i < n implies #[trigger] is_audit_step(fewer, i, rows) by {
        assert(is_audit_step(steps, i, rows));
    }
    assert forall|i: int| 0 <= i < n - 1 implies (#[trigger] fewer[i]).page.next_cursor is Some by {
        assert(steps[i].page.next_cursor is Some);
    }
}

// ---------------------------------------------------------------------
// Laws
// ---------------------------------------------------------------------

/// A walk loses no row and meets none twice: its pages, one after the other, are the rows in
/// their order, the newest first, and all of them once a page has no cursor.
pub proof fn law_audit_walk_is_lossless(steps: Seq<AuditStep>, rows: Seq<AuditEntry>)
    requires
        is_audit_walk(steps, rows),
    ensures
        audit_walked(steps).len() <= rows.len(),
        forall|k: int|
            0 <= k < audit_walked(steps).len() ==> (#[trigger] audit_walked(steps)[k])@
                == rows[k]@,
        forall|i: int, j: int|
            0 <= i < j < audit_walked(steps).len() ==> is_older(
                (#[trigger] audit_walked(steps)[j]).intent_ms,
                audit_walked(steps)[j].id,
                (
                    (#[trigger] audit_walked(steps)[i]).intent_ms,
                    audit_walked(steps)[i].id,
                ),
            ),
        steps.last().page.next_cursor is None ==> audit_walked(steps).len() == rows.len(),
{
    lemma_audit_walk(steps, rows);
    assert(is_audit_step(steps, 0, rows));
    assert forall|i: int, j: int| 0 <= i < j < audit_walked(steps).len() implies is_older(
        (#[trigger] audit_walked(steps)[j]).intent_ms,
        audit_walked(steps)[j].id,
        ((#[trigger] audit_walked(steps)[i]).intent_ms, audit_walked(steps)[i].id),
    ) by {
        assert(audit_walked(steps)[i]@ == rows[i]@);
        assert(audit_walked(steps)[j]@ == rows[j]@);
        assert(is_older(rows[j].intent_ms, rows[j].id, (rows[i].intent_ms, rows[i].id)));
    }
}

/// A walk ends: every page that has a cursor is full, a page that is not full has none, and there
/// are no more pages than rows and one. The last page may be empty, where the rows fill the pages
/// before it.
pub proof fn law_audit_walk_ends(steps: Seq<AuditStep>, rows: Seq<AuditEntry>)
    requires
        is_audit_walk(steps, rows),
    ensures
        forall|i: int|
            0 <= i < steps.len() ==> {
                let page = (#[trigger] steps[i]).page;
                let limit = row_limit_of(steps[0].params.limit);
                &&& page.audit.len() <= limit
                &&& page.next_cursor is Some <==> page.audit.len() == limit
            },
        steps.len() <= rows.len() + 1,
        steps.last().page.next_cursor is Some ==> steps.len() <= rows.len(),
{
    lemma_audit_walk(steps, rows);
    assert forall|i: int| 0 <= i < steps.len() implies {
        let page = (#[trigger] steps[i]).page;
        let limit = row_limit_of(steps[0].params.limit);
        &&& page.audit.len() <= limit
        &&& page.next_cursor is Some <==> page.audit.len() == limit
    } by {
        lemma_audit_walk_prefix(steps, rows, i + 1);
        lemma_audit_walk(steps.take(i + 1), rows);
        assert(steps.take(i + 1).last() == steps[i]);
        assert(steps.take(i + 1)[0] == steps[0]);
    }
}

} // verus!
