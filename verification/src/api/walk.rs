//! A walk through the state of all devices, page by page.
//!
//! The first page is asked for without a cursor, and each further one with the cursor of the page
//! before it, until a page has none. While the store does not change, the pages together hold
//! every device that has state, each once and whole.

use vstd::prelude::*;

use crate::api::paging::{
    device_runs, entries_of, is_page_length, law_pages_continue, law_runs_keep_every_entry,
    DEFAULT_ALL_DEVICES_STATE_LIMIT, MAX_ALL_DEVICES_STATE_LIMIT,
};
use crate::api::server::{
    is_page_plan, is_snapshot_of, is_state_page, page_limit_of, AllDevicesStateSnapshot,
    StatePagePlan,
};
use crate::api::wire::DeviceStateSnapshot;
use crate::order::{lemma_text_before_total, lemma_text_before_transitive, text_before};
use crate::state::DeviceState;
use crate::text::opt_text;

verus! {

// ---------------------------------------------------------------------
// The store
// ---------------------------------------------------------------------

/// Whether the states of a store stand in the order of their devices.
pub open spec fn sorted_by_device(stored: Seq<DeviceState>) -> bool {
    forall|i: int, j: int|
        0 <= i < j < stored.len() ==> !text_before(
            (#[trigger] stored[j]).device_id@,
            (#[trigger] stored[i]).device_id@,
        )
}

/// Whether a state belongs to a device.
pub open spec fn is_of(device_id: Seq<char>) -> spec_fn(DeviceState) -> bool {
    |e: DeviceState| e.device_id@ == device_id
}

/// Whether a state belongs to a device that comes after another.
pub open spec fn is_after(device_id: Seq<char>) -> spec_fn(DeviceState) -> bool {
    |e: DeviceState| text_before(device_id, e.device_id@)
}

/// The states of one device.
pub open spec fn states_of(stored: Seq<DeviceState>, device_id: Seq<char>) -> Seq<DeviceState> {
    stored.filter(is_of(device_id))
}

/// The states of the devices after one, or of all where there is none to begin after.
pub open spec fn states_after(
    stored: Seq<DeviceState>,
    after: Option<Seq<char>>,
) -> Seq<DeviceState> {
    match after {
        Some(id) => stored.filter(is_after(id)),
        None => stored,
    }
}

/// What the store answers when `fetch` devices after one are read: their states, or those of all
/// that are left where there are fewer.
pub open spec fn store_answer(
    stored: Seq<DeviceState>,
    after: Option<Seq<char>>,
    fetch: nat,
) -> Seq<DeviceState> {
    let runs = device_runs(states_after(stored, after));
    entries_of(
        if fetch < runs.len() {
            runs.take(fetch as int)
        } else {
            runs
        },
    )
}

// ---------------------------------------------------------------------
// The walk
// ---------------------------------------------------------------------

/// The device after which a page of a walk begins: the last one of the page before.
pub open spec fn begins_after(pages: Seq<AllDevicesStateSnapshot>, i: int) -> Option<Seq<char>> {
    if i == 0 {
        None
    } else {
        opt_text(pages[i - 1].cursor_after)
    }
}

/// The revision that a page of a walk is pinned to: the one of the page before.
pub open spec fn pinned_to(pages: Seq<AllDevicesStateSnapshot>, i: int) -> Option<u64> {
    if i == 0 {
        None
    } else {
        Some(pages[i - 1].revision)
    }
}

/// Whether a page of a walk was planned and made from what the cursor of the page before says.
pub open spec fn is_walk_page(
    plans: Seq<StatePagePlan>,
    pages: Seq<AllDevicesStateSnapshot>,
    i: int,
    stored: Seq<DeviceState>,
    epoch: Seq<char>,
    revision: u64,
    limit: Option<usize>,
) -> bool {
    &&& is_page_plan(plans[i], begins_after(pages, i), pinned_to(pages, i), limit)
    &&& is_state_page(
        pages[i],
        plans[i].limit,
        plans[i].pinned,
        epoch,
        revision,
        store_answer(stored, opt_text(plans[i].after), plans[i].fetch as nat),
    )
}

/// Whether these are the first pages of a walk through a store that does not change: every page
/// but the last has a cursor, and the next page is asked for with it and with the same limit.
pub open spec fn is_walk(
    plans: Seq<StatePagePlan>,
    pages: Seq<AllDevicesStateSnapshot>,
    stored: Seq<DeviceState>,
    epoch: Seq<char>,
    revision: u64,
    limit: Option<usize>,
) -> bool {
    &&& pages.len() > 0
    &&& plans.len() == pages.len()
    &&& forall|i: int|
        0 <= i < pages.len() ==> #[trigger] is_walk_page(
            plans,
            pages,
            i,
            stored,
            epoch,
            revision,
            limit,
        )
    &&& forall|i: int|
        0 <= i < pages.len() - 1 ==> (#[trigger] pages[i]).cursor_after is Some
}

/// The devices of the pages, one page after the other.
pub open spec fn walked(pages: Seq<AllDevicesStateSnapshot>) -> Seq<DeviceStateSnapshot>
    decreases pages.len(),
{
    if pages.len() == 0 {
        Seq::empty()
    } else {
        walked(pages.drop_last()) + pages.last().devices@
    }
}

// ---------------------------------------------------------------------
// Devices of a sorted store
// ---------------------------------------------------------------------

/// Whether the devices stand in strictly ascending order.
pub open spec fn ascending_runs(runs: Seq<Seq<DeviceState>>) -> bool {
    forall|i: int, j: int|
        0 <= i < j < runs.len() ==> text_before(
            (#[trigger] runs[i])[0].device_id@,
            (#[trigger] runs[j])[0].device_id@,
        )
}

/// Nothing is left of a list of which nothing is wanted.
proof fn lemma_filter_none<T>(list: Seq<T>, wanted: spec_fn(T) -> bool)
    requires
        forall|i: int| 0 <= i < list.len() ==> !wanted(#[trigger] list[i]),
    ensures
        list.filter(wanted) == Seq::<T>::empty(),
    decreases list.len(),
{
    reveal(Seq::filter);
    if list.len() > 0 {
        let init = list.drop_last();
        assert forall|i: int| 0 <= i < init.len() implies !wanted(#[trigger] init[i]) by {
            assert(init[i] == list[i]);
        }
        lemma_filter_none(init, wanted);
        assert(!wanted(list[list.len() - 1]));
    }
}

/// Of a list whose end is wanted and whose beginning is not, the end is left.
pub proof fn lemma_filter_end<T>(list: Seq<T>, wanted: spec_fn(T) -> bool, begin: int)
    requires
        0 <= begin <= list.len(),
        forall|i: int| 0 <= i < list.len() ==> (wanted(#[trigger] list[i]) <==> begin <= i),
    ensures
        list.filter(wanted) == list.skip(begin),
    decreases list.len(),
{
    reveal(Seq::filter);
    if begin == list.len() {
        lemma_filter_none(list, wanted);
        assert(list.skip(begin) =~= Seq::<T>::empty());
    } else {
        let init = list.drop_last();
        assert forall|i: int| 0 <= i < init.len() implies (wanted(#[trigger] init[i]) <==> begin
            <= i) by {
            assert(init[i] == list[i]);
        }
        lemma_filter_end(init, wanted, begin);
        assert(wanted(list[list.len() - 1]));
        assert(init.skip(begin).push(list.last()) =~= list.skip(begin));
    }
}

/// In a sorted store each device is one run of states, and the runs ascend.
proof fn lemma_runs_are_devices(stored: Seq<DeviceState>)
    requires
        sorted_by_device(stored),
    ensures
        ({
            let runs = device_runs(stored);
            &&& ascending_runs(runs)
            &&& forall|k: int|
                0 <= k < runs.len() ==> (#[trigger] runs[k]).len() > 0 && runs[k] == states_of(
                    stored,
                    runs[k][0].device_id@,
                )
            &&& stored.len() > 0 ==> runs.len() > 0 && runs.last()[0].device_id@
                == stored.last().device_id@
            &&& stored.len() == 0 ==> runs.len() == 0
        }),
    decreases stored.len(),
{
    reveal(Seq::filter);
    if stored.len() > 0 {
        let init = stored.drop_last();
        let entry = stored.last();
        let id = entry.device_id@;
        let before = device_runs(init);
        let runs = device_runs(stored);
        assert forall|i: int, j: int| 0 <= i < j < init.len() implies !text_before(
            (#[trigger] init[j]).device_id@,
            (#[trigger] init[i]).device_id@,
        ) by {
            assert(init[i] == stored[i] && init[j] == stored[j]);
        }
        lemma_runs_are_devices(init);
        if before.len() > 0 && before.last()[0].device_id@ == id {
            let last = before.len() - 1;
            assert(runs.len() == before.len());
            assert(runs[last] == before.last().push(entry));
            assert(runs[last][0] == before[last][0]);
            assert forall|k: int| 0 <= k < runs.len() implies (#[trigger] runs[k]).len() > 0
                && runs[k] == states_of(stored, runs[k][0].device_id@) by {
                assert(before[k].len() > 0);
                if k < last {
                    assert(runs[k] == before[k]);
                    lemma_text_before_total(before[k][0].device_id@, before[last][0].device_id@);
                }
            }
            assert forall|i: int, j: int| 0 <= i < j < runs.len() implies text_before(
                (#[trigger] runs[i])[0].device_id@,
                (#[trigger] runs[j])[0].device_id@,
            ) by {
                assert(runs[i][0] == before[i][0]);
                assert(runs[j][0] == before[j][0]);
            }
        } else {
            let n = before.len();
            assert(runs == before.push(seq![entry]));
            assert forall|i: int| 0 <= i < init.len() implies text_before(
                (#[trigger] init[i]).device_id@,
                id,
            ) by {
                let last = init.len() - 1;
                assert(init[last] == stored[last] && init[i] == stored[i]);
                assert(stored[stored.len() - 1] == entry);
                lemma_text_before_total(init[last].device_id@, id);
                assert(text_before(init[last].device_id@, id));
                if i < last {
                    lemma_text_before_total(init[i].device_id@, init[last].device_id@);
                    if init[i].device_id@ != init[last].device_id@ {
                        lemma_text_before_total(init[last].device_id@, id);
                        lemma_text_before_transitive(
                            init[i].device_id@,
                            init[last].device_id@,
                            id,
                        );
                    }
                }
            }
            assert forall|k: int| 0 <= k < n implies text_before(
                (#[trigger] before[k])[0].device_id@,
                id,
            ) by {
                let last = n - 1;
                assert(init.len() > 0);
                assert(before[last][0].device_id@ == init[init.len() - 1].device_id@);
                if k < last {
                    lemma_text_before_total(before[last][0].device_id@, id);
                    lemma_text_before_transitive(
                        before[k][0].device_id@,
                        before[last][0].device_id@,
                        id,
                    );
                }
            }
            let same = is_of(id);
            assert forall|i: int| 0 <= i < init.len() implies !same(#[trigger] init[i]) by {
                lemma_text_before_total(init[i].device_id@, id);
            }
            lemma_filter_none(init, same);
            assert(states_of(stored, id) =~= seq![entry]);
            assert forall|k: int| 0 <= k < runs.len() implies (#[trigger] runs[k]).len() > 0
                && runs[k] == states_of(stored, runs[k][0].device_id@) by {
                if k < n {
                    assert(runs[k] == before[k]);
                    lemma_text_before_total(before[k][0].device_id@, id);
                }
            }
            assert forall|i: int, j: int| 0 <= i < j < runs.len() implies text_before(
                (#[trigger] runs[i])[0].device_id@,
                (#[trigger] runs[j])[0].device_id@,
            ) by {
                assert(runs[i] == before[i]);
                if j < n {
                    assert(runs[j] == before[j]);
                }
            }
        }
    }
}

/// Every state of devices that stand one after the other is in one of them.
proof fn lemma_entry_has_run(runs: Seq<Seq<DeviceState>>, i: int) -> (k: int)
    requires
        0 <= i < entries_of(runs).len(),
    ensures
        0 <= k < runs.len(),
        runs[k].contains(entries_of(runs)[i]),
    decreases runs.len(),
{
    let head = entries_of(runs.drop_last());
    if i < head.len() {
        let k = lemma_entry_has_run(runs.drop_last(), i);
        assert(runs[k] == runs.drop_last()[k]);
        k
    } else {
        assert(runs.last()[i - head.len()] == entries_of(runs)[i]);
        runs.len() - 1
    }
}

/// In a sorted store every state in a run is of the device of the run.
proof fn lemma_run_has_one_device(stored: Seq<DeviceState>, k: int, entry: DeviceState)
    requires
        sorted_by_device(stored),
        0 <= k < device_runs(stored).len(),
        device_runs(stored)[k].contains(entry),
    ensures
        entry.device_id@ == device_runs(stored)[k][0].device_id@,
{
    lemma_runs_are_devices(stored);
    let run = device_runs(stored)[k];
    let id = run[0].device_id@;
    let i = choose|i: int| 0 <= i < run.len() && run[i] == entry;
    stored.lemma_filter_pred(is_of(id), i);
}

/// In a sorted store every state is of the device of a run.
proof fn lemma_state_has_run(stored: Seq<DeviceState>, i: int) -> (k: int)
    requires
        sorted_by_device(stored),
        0 <= i < stored.len(),
    ensures
        0 <= k < device_runs(stored).len(),
        device_runs(stored)[k][0].device_id@ == stored[i].device_id@,
{
    law_runs_keep_every_entry(stored);
    let k = lemma_entry_has_run(device_runs(stored), i);
    lemma_run_has_one_device(stored, k, stored[i]);
    k
}

/// In a sorted store every run has the device of a state.
proof fn lemma_run_has_state(stored: Seq<DeviceState>, k: int) -> (i: int)
    requires
        sorted_by_device(stored),
        0 <= k < device_runs(stored).len(),
    ensures
        0 <= i < stored.len(),
        stored[i].device_id@ == device_runs(stored)[k][0].device_id@,
{
    lemma_runs_are_devices(stored);
    let entry = device_runs(stored)[k][0];
    let id = entry.device_id@;
    assert(states_of(stored, id).contains(entry));
    stored.lemma_filter_contains_rev(is_of(id), entry);
    choose|i: int| 0 <= i < stored.len() && stored[i] == entry
}

/// After the last of the first `n` devices come the others.
proof fn lemma_states_after(stored: Seq<DeviceState>, n: int)
    requires
        sorted_by_device(stored),
        0 < n <= device_runs(stored).len(),
    ensures
        ({
            let runs = device_runs(stored);
            device_runs(states_after(stored, Some(runs[n - 1][0].device_id@))) == runs.skip(n)
        }),
{
    let runs = device_runs(stored);
    let id = runs[n - 1][0].device_id@;
    let begin = entries_of(runs.take(n)).len() as int;
    lemma_runs_are_devices(stored);
    law_pages_continue(stored, n);
    law_runs_keep_every_entry(stored.skip(begin));
    assert forall|i: int| 0 <= i < stored.len() implies (is_after(id)(#[trigger] stored[i])
        <==> begin <= i) by {
        if i < begin {
            assert(stored.take(begin)[i] == stored[i]);
            let k = lemma_entry_has_run(runs.take(n), i);
            assert(runs.take(n)[k] == runs[k]);
            lemma_run_has_one_device(stored, k, stored[i]);
            lemma_text_before_total(runs[k][0].device_id@, id);
        } else {
            assert(stored.skip(begin)[i - begin] == stored[i]);
            let k = lemma_entry_has_run(runs.skip(n), i - begin);
            assert(runs.skip(n)[k] == runs[n + k]);
            lemma_run_has_one_device(stored, n + k, stored[i]);
            assert(text_before(runs[n - 1][0].device_id@, runs[n + k][0].device_id@));
        }
    }
    lemma_filter_end(stored, is_after(id), begin);
}

/// What the store answers falls into the first of the devices that are left.
proof fn lemma_answer_runs(stored: Seq<DeviceState>, after: Option<Seq<char>>, fetch: nat)
    ensures
        ({
            let left = device_runs(states_after(stored, after));
            device_runs(store_answer(stored, after, fetch)) == (if fetch < left.len() {
                left.take(fetch as int)
            } else {
                left
            })
        }),
{
    let entries = states_after(stored, after);
    let left = device_runs(entries);
    if fetch < left.len() {
        law_pages_continue(entries, fetch as int);
    } else {
        law_runs_keep_every_entry(entries);
    }
}

/// How far the first pages of a walk have come.
proof fn lemma_walk(
    plans: Seq<StatePagePlan>,
    pages: Seq<AllDevicesStateSnapshot>,
    stored: Seq<DeviceState>,
    epoch: Seq<char>,
    revision: u64,
    limit: Option<usize>,
)
    requires
        sorted_by_device(stored),
        is_walk(plans, pages, stored, epoch, revision, limit),
    ensures
        ({
            let runs = device_runs(stored);
            let n = walked(pages).len() as int;
            let last = pages.last();
            &&& n <= runs.len()
            &&& forall|k: int|
                0 <= k < n ==> is_snapshot_of(#[trigger] walked(pages)[k], runs[k], epoch, revision)
            &&& last.epoch@ == epoch
            &&& last.revision == revision
            &&& last.devices.len() <= page_limit_of(
                limit,
                DEFAULT_ALL_DEVICES_STATE_LIMIT,
                MAX_ALL_DEVICES_STATE_LIMIT,
            )
            &&& runs.len() > 0 ==> last.devices.len() > 0
            &&& runs.len() > 0 ==> pages.len() <= n
            &&& runs.len() == 0 ==> pages.len() == 1
            &&& opt_text(last.cursor_after) == (if n < runs.len() {
                Some(runs[n - 1][0].device_id@)
            } else {
                None
            })
        }),
    decreases pages.len(),
{
    let runs = device_runs(stored);
    let at = pages.len() - 1;
    let last = pages.last();
    let first = walked(pages.drop_last());
    let done = first.len() as int;
    let plan = plans[at];
    assert(is_walk_page(plans, pages, at, stored, epoch, revision, limit));
    lemma_runs_are_devices(stored);
    if at == 0 {
        assert(runs.skip(0) =~= runs);
    } else {
        let fewer = pages.drop_last();
        assert forall|i: int| 0 <= i < fewer.len() implies #[trigger] is_walk_page(
            plans.drop_last(),
            fewer,
            i,
            stored,
            epoch,
            revision,
            limit,
        ) by {
            assert(is_walk_page(plans, pages, i, stored, epoch, revision, limit));
        }
        assert forall|i: int| 0 <= i < fewer.len() - 1 implies (
        #[trigger] fewer[i]).cursor_after is Some by {
            assert(pages[i].cursor_after is Some);
        }
        lemma_walk(plans.drop_last(), fewer, stored, epoch, revision, limit);
        assert(pages[at - 1] == fewer.last());
        assert(pages[at - 1].cursor_after is Some);
        lemma_states_after(stored, done);
    }
    let left = runs.skip(done);
    lemma_answer_runs(stored, opt_text(plan.after), plan.fetch as nat);
    let read = device_runs(
        store_answer(stored, opt_text(plan.after), plan.fetch as nat),
    );
    let n = last.devices.len() as int;
    assert(is_page_length(read, n, plan.limit as nat));
    assert(forall|k: int| 0 <= k < read.len() ==> #[trigger] read[k] == runs[done + k]);
    assert forall|k: int| 0 <= k < done + n implies is_snapshot_of(
        #[trigger] walked(pages)[k],
        runs[k],
        epoch,
        revision,
    ) by {
        if k < done {
            assert(walked(pages)[k] == first[k]);
        } else {
            assert(walked(pages)[k] == last.devices@[k - done]);
            assert(read[k - done] == runs[k]);
        }
    }
    if n < read.len() {
        assert(n > 0);
        assert(last.devices@.last() == last.devices@[n - 1]);
        assert(read[n - 1] == runs[done + n - 1]);
    }
}

/// The first pages of a walk are the first pages of a walk up to any of them.
proof fn lemma_walk_prefix(
    plans: Seq<StatePagePlan>,
    pages: Seq<AllDevicesStateSnapshot>,
    stored: Seq<DeviceState>,
    epoch: Seq<char>,
    revision: u64,
    limit: Option<usize>,
    n: int,
)
    requires
        is_walk(plans, pages, stored, epoch, revision, limit),
        0 < n <= pages.len(),
    ensures
        is_walk(plans.take(n), pages.take(n), stored, epoch, revision, limit),
{
    let fewer = pages.take(n);
    assert forall|i: int| 0 <= i < n implies #[trigger] is_walk_page(
        plans.take(n),
        fewer,
        i,
        stored,
        epoch,
        revision,
        limit,
    ) by {
        assert(is_walk_page(plans, pages, i, stored, epoch, revision, limit));
    }
    assert forall|i: int| 0 <= i < n - 1 implies (#[trigger] fewer[i]).cursor_after is Some by {
        assert(pages[i].cursor_after is Some);
    }
}

// ---------------------------------------------------------------------
// Laws
// ---------------------------------------------------------------------

/// Whether a device is on one of the pages.
pub open spec fn is_met(pages: Seq<AllDevicesStateSnapshot>, device_id: Seq<char>) -> bool {
    exists|k: int| 0 <= k < walked(pages).len() && (#[trigger] walked(pages)[k]).device_id@
        == device_id
}

/// While the store does not change, a walk meets the devices that have state in strictly
/// ascending order, so each at most once, and each with all its states on one page.
pub proof fn law_walk_meets_devices_in_order(
    plans: Seq<StatePagePlan>,
    pages: Seq<AllDevicesStateSnapshot>,
    stored: Seq<DeviceState>,
    epoch: Seq<char>,
    revision: u64,
    limit: Option<usize>,
)
    requires
        sorted_by_device(stored),
        is_walk(plans, pages, stored, epoch, revision, limit),
    ensures
        forall|i: int, j: int|
            0 <= i < j < walked(pages).len() ==> text_before(
                (#[trigger] walked(pages)[i]).device_id@,
                (#[trigger] walked(pages)[j]).device_id@,
            ),
        forall|k: int|
            0 <= k < walked(pages).len() ==> {
                let met = #[trigger] walked(pages)[k];
                let states = states_of(stored, met.device_id@);
                states.len() > 0 && is_snapshot_of(met, states, epoch, revision)
            },
{
    lemma_walk(plans, pages, stored, epoch, revision, limit);
    lemma_runs_are_devices(stored);
    let runs = device_runs(stored);
    assert forall|i: int, j: int| 0 <= i < j < walked(pages).len() implies text_before(
        (#[trigger] walked(pages)[i]).device_id@,
        (#[trigger] walked(pages)[j]).device_id@,
    ) by {
        assert(text_before(runs[i][0].device_id@, runs[j][0].device_id@));
    }
    assert forall|k: int| 0 <= k < walked(pages).len() implies {
        let met = #[trigger] walked(pages)[k];
        let states = states_of(stored, met.device_id@);
        states.len() > 0 && is_snapshot_of(met, states, epoch, revision)
    } by {
        assert(runs[k].len() > 0);
    }
}

/// While the store does not change, a page of a walk has no cursor if and only if every device
/// that has state has been met.
pub proof fn law_walk_ends_when_all_are_met(
    plans: Seq<StatePagePlan>,
    pages: Seq<AllDevicesStateSnapshot>,
    stored: Seq<DeviceState>,
    epoch: Seq<char>,
    revision: u64,
    limit: Option<usize>,
)
    requires
        sorted_by_device(stored),
        is_walk(plans, pages, stored, epoch, revision, limit),
    ensures
        pages.last().cursor_after is None <==> forall|i: int|
            0 <= i < stored.len() ==> is_met(pages, (#[trigger] stored[i]).device_id@),
{
    lemma_walk(plans, pages, stored, epoch, revision, limit);
    lemma_runs_are_devices(stored);
    let runs = device_runs(stored);
    let n = walked(pages).len() as int;
    if n == runs.len() {
        assert forall|i: int| 0 <= i < stored.len() implies is_met(
            pages,
            (#[trigger] stored[i]).device_id@,
        ) by {
            let k = lemma_state_has_run(stored, i);
            assert(walked(pages)[k].device_id@ == stored[i].device_id@);
        }
    } else {
        let i = lemma_run_has_state(stored, n);
        let id = stored[i].device_id@;
        if is_met(pages, id) {
            let k = choose|k: int|
                0 <= k < walked(pages).len() && (#[trigger] walked(pages)[k]).device_id@ == id;
            assert(is_snapshot_of(walked(pages)[k], runs[k], epoch, revision));
            assert(text_before(runs[k][0].device_id@, runs[n][0].device_id@));
            lemma_text_before_total(id, id);
        }
    }
}

/// While the store does not change, every page of a walk has the revision and the epoch of the
/// first one, no more devices than were asked for, and at least one where there is one. So a walk
/// through a store with state has no more pages than it meets devices.
pub proof fn law_walk_pages_agree(
    plans: Seq<StatePagePlan>,
    pages: Seq<AllDevicesStateSnapshot>,
    stored: Seq<DeviceState>,
    epoch: Seq<char>,
    revision: u64,
    limit: Option<usize>,
)
    requires
        sorted_by_device(stored),
        is_walk(plans, pages, stored, epoch, revision, limit),
    ensures
        forall|i: int|
            0 <= i < pages.len() ==> {
                let page = #[trigger] pages[i];
                &&& page.revision == revision
                &&& page.epoch@ == epoch
                &&& page.devices.len() <= page_limit_of(
                    limit,
                    DEFAULT_ALL_DEVICES_STATE_LIMIT,
                    MAX_ALL_DEVICES_STATE_LIMIT,
                )
                &&& stored.len() > 0 ==> page.devices.len() > 0
            },
        stored.len() > 0 ==> pages.len() <= walked(pages).len(),
        stored.len() == 0 ==> pages.len() == 1 && walked(pages).len() == 0,
{
    lemma_runs_are_devices(stored);
    lemma_walk(plans, pages, stored, epoch, revision, limit);
    assert forall|i: int| 0 <= i < pages.len() implies {
        let page = #[trigger] pages[i];
        &&& page.revision == revision
        &&& page.epoch@ == epoch
        &&& page.devices.len() <= page_limit_of(
            limit,
            DEFAULT_ALL_DEVICES_STATE_LIMIT,
            MAX_ALL_DEVICES_STATE_LIMIT,
        )
        &&& stored.len() > 0 ==> page.devices.len() > 0
    } by {
        lemma_walk_prefix(plans, pages, stored, epoch, revision, limit, i + 1);
        lemma_walk(plans.take(i + 1), pages.take(i + 1), stored, epoch, revision, limit);
        assert(pages.take(i + 1).last() == pages[i]);
    }
}

} // verus!
