//! Pages of device state.
//!
//! A page holds whole devices in their order. It ends before the device that would go over the
//! number of devices asked for, or over the size of a page; the first device is always on it, so
//! that every page makes progress.

use vstd::prelude::*;
use vstd::utf8::*;

use crate::state::DeviceState;

verus! {

/// The devices on a page when the caller does not say.
pub const DEFAULT_ALL_DEVICES_STATE_LIMIT: usize = 64;

/// The most devices on a page.
pub const MAX_ALL_DEVICES_STATE_LIMIT: usize = 256;

/// The size from which on a page takes no further device.
pub const MAX_ALL_DEVICES_STATE_PAGE_BYTES: usize = 1_048_576;

/// The entries of each device, for entries that stand device by device.
pub open spec fn device_runs(entries: Seq<DeviceState>) -> Seq<Seq<DeviceState>>
    decreases entries.len(),
{
    if entries.len() == 0 {
        Seq::empty()
    } else {
        let runs = device_runs(entries.drop_last());
        let entry = entries.last();
        if runs.len() > 0 && runs.last()[0].device_id@ == entry.device_id@ {
            runs.drop_last().push(runs.last().push(entry))
        } else {
            runs.push(seq![entry])
        }
    }
}

/// The size that an entry counts for.
pub open spec fn entry_bytes(entry: DeviceState) -> nat {
    encode_utf8(entry.capability@).len() + entry.field_bytes as nat
}

/// The size that the entries of a device count for.
pub open spec fn run_bytes(run: Seq<DeviceState>) -> nat
    decreases run.len(),
{
    if run.len() == 0 {
        0
    } else {
        run_bytes(run.drop_last()) + entry_bytes(run.last())
    }
}

/// The size that a number of devices counts for.
pub open spec fn runs_bytes(runs: Seq<Seq<DeviceState>>) -> nat
    decreases runs.len(),
{
    if runs.len() == 0 {
        0
    } else {
        runs_bytes(runs.drop_last()) + run_bytes(runs.last())
    }
}

/// Whether the first `n` devices fit on a page.
pub open spec fn fits_page(runs: Seq<Seq<DeviceState>>, n: int, limit: nat) -> bool {
    &&& 0 <= n <= runs.len()
    &&& n <= limit
    &&& n <= 1 || runs_bytes(runs.take(n)) <= MAX_ALL_DEVICES_STATE_PAGE_BYTES
}

/// Whether `n` is the number of devices on the page: they fit, and one more does not.
pub open spec fn is_page_length(runs: Seq<Seq<DeviceState>>, n: int, limit: nat) -> bool {
    &&& fits_page(runs, n, limit)
    &&& n < runs.len() ==> !fits_page(runs, n + 1, limit)
}

/// The entries of a page, device by device.
pub struct DevicePage {
    pub devices: Vec<Vec<DeviceState>>,
    /// Whether there are devices after those on the page.
    pub more: bool,
}

/// The entries of the devices on a page.
pub open spec fn page_runs(devices: Seq<Vec<DeviceState>>) -> Seq<Seq<DeviceState>> {
    devices.map_values(|d: Vec<DeviceState>| d@)
}

/// The sum of two sizes, or the largest size.
pub open spec fn capped_sum(a: nat, b: nat) -> nat {
    if a + b <= usize::MAX {
        a + b
    } else {
        usize::MAX as nat
    }
}

/// Adding entries changes no device but the last, and that only where the entry is its own.
proof fn lemma_runs_prefix(entries: Seq<DeviceState>, i: int)
    requires
        0 < i < entries.len(),
        device_runs(entries.take(i)).last()[0].device_id@ != entries[i].device_id@,
    ensures
        device_runs(entries).len() > device_runs(entries.take(i)).len(),
        device_runs(entries).take(device_runs(entries.take(i)).len() as int) == device_runs(
            entries.take(i),
        ),
    decreases entries.len(),
{
    let head = device_runs(entries.take(i));
    let init = entries.drop_last();
    lemma_runs_nonempty(entries.take(i));
    if i == entries.len() - 1 {
        assert(init =~= entries.take(i));
        assert(entries.last() == entries[i]);
        assert(device_runs(entries) == head.push(seq![entries.last()]));
        assert(device_runs(entries).take(head.len() as int) =~= head);
    } else {
        assert(init.take(i) =~= entries.take(i));
        assert(init[i] == entries[i]);
        lemma_runs_prefix(init, i);
        let runs = device_runs(init);
        assert(device_runs(entries).take(head.len() as int) =~= runs.take(head.len() as int));
    }
}

/// Entries belong to at least one device, and every device has an entry.
pub proof fn lemma_runs_nonempty(entries: Seq<DeviceState>)
    ensures
        entries.len() > 0 ==> device_runs(entries).len() > 0,
        forall|k: int|
            0 <= k < device_runs(entries).len() ==> (#[trigger] device_runs(entries)[k]).len() > 0,
    decreases entries.len(),
{
    if entries.len() > 0 {
        let before = device_runs(entries.drop_last());
        lemma_runs_nonempty(entries.drop_last());
        assert forall|k: int| 0 <= k < device_runs(entries).len() implies (
        #[trigger] device_runs(entries)[k]).len() > 0 by {
            if k < before.len() - 1 {
                assert(device_runs(entries)[k] == before[k]);
            } else if k < before.len() {
                assert(before[k].len() > 0);
            }
        }
    }
}

/// More devices come to no smaller size.
proof fn lemma_runs_bytes_monotone(runs: Seq<Seq<DeviceState>>, n: int, m: int)
    requires
        0 <= n <= m <= runs.len(),
    ensures
        runs_bytes(runs.take(n)) <= runs_bytes(runs.take(m)),
    decreases m - n,
{
    if n < m {
        lemma_runs_bytes_monotone(runs, n, m - 1);
        assert(runs.take(m).drop_last() =~= runs.take(m - 1));
    }
}

/// There is one page length only, so the page is determined by the entries and the limit.
pub proof fn law_page_length_is_unique(
    runs: Seq<Seq<DeviceState>>,
    n: int,
    m: int,
    limit: nat,
)
    requires
        is_page_length(runs, n, limit),
        is_page_length(runs, m, limit),
    ensures
        n == m,
{
    if n < m {
        lemma_runs_bytes_monotone(runs, n + 1, m);
    }
    if m < n {
        lemma_runs_bytes_monotone(runs, m + 1, n);
    }
}

/// Takes the devices of one page off the front of the entries.
pub fn page_devices(entries: Vec<DeviceState>, limit: usize) -> (r: DevicePage)
    ensures
        is_page_length(device_runs(entries@), r.devices.len() as int, limit as nat),
        page_runs(r.devices@) == device_runs(entries@).take(r.devices.len() as int),
        r.more == (r.devices.len() < device_runs(entries@).len()),
{
    let ghost all = entries@;
    let mut rest = entries;
    // The entries are taken from the back of the reversed list, that is from the front.
    let mut queue: Vec<DeviceState> = Vec::new();
    while rest.len() > 0
        invariant
            rest@ == all.take(rest.len() as int),
            rest.len() + queue.len() == all.len(),
            forall|j: int|
                0 <= j < queue.len() ==> #[trigger] queue@[j] == all[all.len() - 1 - j],
        decreases rest.len(),
    {
        let ghost n = rest.len() as int;
        match rest.pop() {
            Some(entry) => {
                assert(entry == all[n - 1]);
                assert(rest@ =~= all.take(n - 1));
                queue.push(entry);
            },
            None => {},
        }
    }
    let mut retained: Vec<Vec<DeviceState>> = Vec::new();
    let mut running: usize = 0;
    let mut pending: Vec<DeviceState> = Vec::new();
    let mut pending_bytes: usize = 0;
    let mut capped = false;
    let ghost mut i: int = 0;
    assert(all.take(0) =~= Seq::<DeviceState>::empty());
    assert(page_runs(retained@) =~= Seq::<Seq<DeviceState>>::empty());
    while queue.len() > 0 && !capped
        invariant
            0 <= i <= all.len(),
            queue.len() == all.len() - i,
            forall|j: int|
                0 <= j < queue.len() ==> #[trigger] queue@[j] == all[all.len() - 1 - j],
            !capped ==> device_runs(all.take(i)) == open_runs(page_runs(retained@), pending@),
            !capped ==> (pending.len() == 0 <==> i == 0),
            !capped ==> pending_bytes == capped_sum(run_bytes(pending@), 0),
            !capped ==> running == capped_sum(runs_bytes(page_runs(retained@)), 0),
            !capped ==> (i == 0 ==> retained.len() == 0),
            retained.len() <= limit,
            retained.len() > 1 ==> runs_bytes(page_runs(retained@))
                <= MAX_ALL_DEVICES_STATE_PAGE_BYTES,
            capped ==> retained.len() < device_runs(all).len() && page_runs(retained@)
                == device_runs(all).take(retained.len() as int) && !fits_page(
                device_runs(all),
                retained.len() + 1,
                limit as nat,
            ),
        decreases
            queue.len(),
            (if capped {
                0int
            } else {
                1int
            }),
    {
        let n = queue.len();
        let is_new = pending.len() == 0 || !pending[0].device_id.as_str().eq(
            queue[n - 1].device_id.as_str(),
        );
        assert(queue@[n - 1] == all[i]);
        let ghost groups = page_runs(retained@);
        if is_new && pending.len() > 0 {
            proof {
                lemma_runs_prefix(all, i);
                let runs = device_runs(all);
                let k = retained.len() as int;
                assert(runs.take(k + 1) =~= groups.push(pending@));
                assert(runs.take(k) =~= groups);
                assert(runs.take(k + 1).drop_last() =~= groups);
            }
            if retained.len() >= limit {
                capped = true;
            } else {
                let would_be: usize = running.saturating_add(pending_bytes);
                if retained.len() > 0 && would_be > MAX_ALL_DEVICES_STATE_PAGE_BYTES {
                    capped = true;
                } else {
                    running = would_be;
                    let mut device: Vec<DeviceState> = Vec::new();
                    std::mem::swap(&mut device, &mut pending);
                    let ghost closed = device@;
                    retained.push(device);
                    pending_bytes = 0;
                    proof {
                        assert(page_runs(retained@) =~= groups.push(closed));
                        assert(groups.push(closed).drop_last() =~= groups);
                    }
                }
            }
        }
        if !capped {
            let ghost runs_before = device_runs(all.take(i));
            let ghost open_before = pending@;
            proof {
                assert(all.take(i + 1).drop_last() =~= all.take(i));
                assert(all.take(i + 1).last() == all[i]);
            }
            match queue.pop() {
                Some(entry) => {
                    let size: usize = entry.capability.as_str().as_bytes().len();
                    let partial: usize = pending_bytes.saturating_add(size);
                    pending_bytes = partial.saturating_add(entry.field_bytes);
                    let ghost taken = entry;
                    pending.push(entry);
                    proof {
                        assert(pending@.drop_last() =~= open_before);
                        assert(pending@.last() == taken);
                        assert(run_bytes(pending@) == run_bytes(open_before) + entry_bytes(taken));
                    }
                },
                None => {},
            }
            proof {
                let groups = page_runs(retained@);
                if open_before.len() > 0 {
                    assert(runs_before.drop_last() =~= groups);
                    assert(device_runs(all.take(i + 1)) =~= open_runs(groups, pending@));
                } else {
                    assert(pending@ =~= seq![all[i]]);
                    assert(device_runs(all.take(i + 1)) =~= open_runs(groups, pending@));
                }
                i = i + 1;
            }
        }
    }
    let ghost groups = page_runs(retained@);
    if !capped && pending.len() > 0 {
        proof {
            assert(all.take(i) =~= all);
            assert(device_runs(all) == groups.push(pending@));
            assert(device_runs(all).take(groups.len() as int) =~= groups);
            assert(device_runs(all).take(groups.len() as int + 1) =~= device_runs(all));
            assert(device_runs(all).drop_last() =~= groups);
        }
        if retained.len() >= limit {
            capped = true;
        } else {
            let would_be: usize = running.saturating_add(pending_bytes);
            if retained.len() > 0 && would_be > MAX_ALL_DEVICES_STATE_PAGE_BYTES {
                capped = true;
            } else {
                retained.push(pending);
                proof {
                    assert(page_runs(retained@) =~= device_runs(all));
                }
            }
        }
    } else if !capped {
        assert(all.take(i) =~= all);
        assert(groups =~= device_runs(all));
        assert(device_runs(all).take(0) =~= groups);
    }
    DevicePage { devices: retained, more: capped }
}

/// The closed devices, and the open one if it has an entry.
pub open spec fn open_runs(
    closed: Seq<Seq<DeviceState>>,
    pending: Seq<DeviceState>,
) -> Seq<Seq<DeviceState>> {
    if pending.len() == 0 {
        closed
    } else {
        closed.push(pending)
    }
}

// ---------------------------------------------------------------------
// Laws
// ---------------------------------------------------------------------

/// The entries of devices, one device after the other.
pub open spec fn entries_of(runs: Seq<Seq<DeviceState>>) -> Seq<DeviceState>
    decreases runs.len(),
{
    if runs.len() == 0 {
        Seq::empty()
    } else {
        entries_of(runs.drop_last()) + runs.last()
    }
}

/// Sorting entries into devices loses none and changes no order.
pub proof fn law_runs_keep_every_entry(entries: Seq<DeviceState>)
    ensures
        entries_of(device_runs(entries)) == entries,
    decreases entries.len(),
{
    if entries.len() > 0 {
        let init = entries.drop_last();
        let runs = device_runs(init);
        law_runs_keep_every_entry(init);
        if runs.len() > 0 && runs.last()[0].device_id@ == entries.last().device_id@ {
            assert(device_runs(entries).drop_last() =~= runs.drop_last());
            assert(entries_of(runs.drop_last()) + runs.last().push(entries.last())
                =~= entries_of(runs).push(entries.last()));
        } else {
            assert(device_runs(entries).drop_last() =~= runs);
        }
        assert(entries_of(device_runs(entries)) =~= entries_of(runs).push(entries.last()));
        assert(init.push(entries.last()) =~= entries);
    } else {
        assert(entries_of(device_runs(entries)) =~= entries);
    }
}

/// A page has at most as many devices as were asked for, at least one where there is one, and
/// stays within its size as soon as it holds more than one.
pub proof fn law_page_bounds(entries: Seq<DeviceState>, n: int, limit: nat)
    requires
        is_page_length(device_runs(entries), n, limit),
        limit > 0,
    ensures
        n <= limit,
        entries.len() > 0 ==> n >= 1,
        n > 1 ==> runs_bytes(device_runs(entries).take(n)) <= MAX_ALL_DEVICES_STATE_PAGE_BYTES,
{
    lemma_runs_nonempty(entries);
}

/// What follows a page is paged as if it stood alone: the devices of the pages, one page after
/// the other, are the devices of the whole. So no device is lost or split between pages.
pub proof fn law_pages_continue(entries: Seq<DeviceState>, n: int)
    requires
        0 <= n <= device_runs(entries).len(),
    ensures
        ({
            let taken = entries_of(device_runs(entries).take(n)).len() as int;
            &&& taken <= entries.len()
            &&& entries.take(taken) == entries_of(device_runs(entries).take(n))
            &&& device_runs(entries.take(taken)) == device_runs(entries).take(n)
            &&& device_runs(entries.skip(taken)) == device_runs(entries).skip(n)
        }),
    decreases entries.len(),
{
    let runs = device_runs(entries);
    law_runs_keep_every_entry(entries);
    let taken = entries_of(runs.take(n)).len() as int;
    if n == runs.len() {
        assert(runs.take(n) =~= runs);
        assert(entries.take(taken) =~= entries);
        assert(entries.skip(taken) =~= Seq::<DeviceState>::empty());
        assert(runs.skip(n) =~= Seq::<Seq<DeviceState>>::empty());
    } else {
        let init = entries.drop_last();
        let before = device_runs(init);
        let entry = entries.last();
        let extends = before.len() > 0 && before.last()[0].device_id@ == entry.device_id@;
        law_runs_keep_every_entry(init);
        if !extends && n == before.len() {
            assert(runs.take(n) =~= before);
            assert(entries.take(taken) =~= init);
            assert(entries.skip(taken) =~= seq![entry]);
            assert(seq![entry].drop_last() =~= Seq::<DeviceState>::empty());
            assert(device_runs(Seq::<DeviceState>::empty()) =~= Seq::<Seq<DeviceState>>::empty());
            assert(device_runs(seq![entry]) =~= seq![seq![entry]]);
            assert(runs.skip(n) =~= seq![seq![entry]]);
        } else {
            law_pages_continue(init, n);
            assert(runs.take(n) =~= before.take(n));
            assert(entries.take(taken) =~= init.take(taken));
            assert(taken < entries.len());
            let tail = init.skip(taken);
            assert(entries.skip(taken) =~= tail.push(entry));
            assert(tail.push(entry).drop_last() =~= tail);
            assert(device_runs(tail) == before.skip(n));
            assert(before.skip(n).last() == before.last());
            if extends {
                assert(before.skip(n).drop_last() =~= before.drop_last().skip(n));
                assert(runs.skip(n) =~= before.drop_last().skip(n).push(before.last().push(entry)));
            } else {
                assert(runs.skip(n) =~= before.skip(n).push(seq![entry]));
            }
            assert(device_runs(entries.skip(taken)) =~= runs.skip(n));
        }
    }
}

} // verus!
