//! The pool of sessions.
//!
//! A session takes a slot before it is opened. The slot is reserved first; it is attached to the
//! session once the session exists, and goes back to the pool when the session closes or was
//! never opened. The pool knows the live sessions by their ids, so that a session that is closed
//! twice gives its slot back once.

use vstd::prelude::*;

use crate::text_map::TextMap;

verus! {

/// A slot that is reserved for a session which does not exist yet. It is given back to the pool
/// by [`BoundedSessionManager::commit`] or [`BoundedSessionManager::cancel`].
#[derive(Debug)]
pub struct Admission {
    _slot: (),
}

/// A pool with a fixed number of slots. Each is free, reserved or attached to a live session.
#[derive(Debug)]
pub struct BoundedSessionManager {
    cap: usize,
    available: usize,
    reserved: usize,
    live: TextMap<()>,
}

/// What a pool holds; the live sessions by their ids.
pub struct PoolModel {
    pub cap: nat,
    pub available: nat,
    pub reserved: nat,
    pub live: Set<Seq<char>>,
}

impl View for BoundedSessionManager {
    type V = PoolModel;

    closed spec fn view(&self) -> PoolModel {
        PoolModel {
            cap: self.cap as nat,
            available: self.available as nat,
            reserved: self.reserved as nat,
            live: self.live@.dom(),
        }
    }
}

/// Whether every slot is in exactly one place.
pub open spec fn pool_balanced(pool: PoolModel) -> bool {
    &&& pool.live.finite()
    &&& pool.available + pool.reserved + pool.live.len() == pool.cap
}

/// A pool after a free slot was reserved. Where none is free nothing changes.
pub open spec fn admitted(pool: PoolModel) -> PoolModel {
    if pool.available == 0 {
        pool
    } else {
        PoolModel {
            available: (pool.available - 1) as nat,
            reserved: pool.reserved + 1,
            ..pool
        }
    }
}

/// A pool after a reserved slot was attached to a session. Where the session has a slot already,
/// the reserved one becomes free; where nothing was reserved nothing changes.
pub open spec fn committed(pool: PoolModel, session: Seq<char>) -> PoolModel {
    if pool.reserved == 0 {
        pool
    } else if pool.live.contains(session) {
        cancelled(pool)
    } else {
        PoolModel {
            reserved: (pool.reserved - 1) as nat,
            live: pool.live.insert(session),
            ..pool
        }
    }
}

/// A pool after a reserved slot was freed. Where nothing was reserved nothing changes.
pub open spec fn cancelled(pool: PoolModel) -> PoolModel {
    if pool.reserved == 0 {
        pool
    } else {
        PoolModel {
            reserved: (pool.reserved - 1) as nat,
            available: pool.available + 1,
            ..pool
        }
    }
}

/// A pool after a session was closed: its slot is free again. Where the session is not live
/// nothing changes.
pub open spec fn released(pool: PoolModel, session: Seq<char>) -> PoolModel {
    if pool.live.contains(session) {
        PoolModel {
            available: pool.available + 1,
            live: pool.live.remove(session),
            ..pool
        }
    } else {
        pool
    }
}

impl BoundedSessionManager {
    #[verifier::type_invariant]
    spec fn balanced(self) -> bool {
        pool_balanced(self@)
    }

    /// A pool with a number of free slots.
    pub fn new(cap: usize) -> (r: Self)
        ensures
            r@ == (PoolModel {
                cap: cap as nat,
                available: cap as nat,
                reserved: 0,
                live: Set::empty(),
            }),
            pool_balanced(r@),
    {
        let live: TextMap<()> = TextMap::new();
        assert(live@.dom() =~= Set::<Seq<char>>::empty());
        BoundedSessionManager { cap, available: cap, reserved: 0, live }
    }

    /// The number of slots.
    pub fn cap(&self) -> (r: usize)
        ensures
            r == self@.cap,
            pool_balanced(self@),
    {
        proof {
            use_type_invariant(self);
        }
        self.cap
    }

    /// The number of live sessions.
    pub fn live(&self) -> (r: usize)
        ensures
            r == self@.live.len(),
            r <= self@.cap,
    {
        proof {
            use_type_invariant(self);
        }
        self.live.len()
    }

    /// Whether a session is live.
    pub fn is_live(&self, session: &str) -> (r: bool)
        ensures
            r == self@.live.contains(session@),
    {
        self.live.contains_key(session)
    }

    /// The number of free slots.
    pub fn available_permits(&self) -> (r: usize)
        ensures
            r == self@.available,
            r <= self@.cap,
    {
        proof {
            use_type_invariant(self);
        }
        self.available
    }

    /// The live sessions, taken out of the pool in order to change them.
    fn take_live(&mut self) -> (r: TextMap<()>)
        ensures
            r@ == old(self).live@,
            final(self)@ == (PoolModel { available: 0, reserved: 0, cap: 0, live: Set::empty() }),
    {
        let mut emptied = BoundedSessionManager::new(0);
        std::mem::swap(self, &mut emptied);
        emptied.live
    }

    /// Reserves a slot, if one is free.
    pub fn try_admit(&mut self) -> (r: Option<Admission>)
        ensures
            r is Some <==> old(self)@.available > 0,
            r is Some ==> final(self)@ == admitted(old(self)@),
            r is None ==> *final(self) == *old(self),
            pool_balanced(final(self)@),
    {
        proof {
            use_type_invariant(&*self);
        }
        if self.available == 0 {
            return None;
        }
        let cap: usize = self.cap;
        let available: usize = self.available - 1;
        let reserved: usize = self.reserved + 1;
        let live = self.take_live();
        *self = BoundedSessionManager { cap, available, reserved, live };
        Some(Admission { _slot: () })
    }

    /// Attaches a reserved slot to a session that now exists.
    pub fn commit(&mut self, admission: Admission, session: &str)
        ensures
            final(self)@ == committed(old(self)@, session@),
            pool_balanced(final(self)@),
    {
        proof {
            use_type_invariant(&*self);
        }
        if self.reserved == 0 {
            return;
        }
        if self.live.contains_key(session) {
            self.cancel(admission);
            return;
        }
        let cap: usize = self.cap;
        let available: usize = self.available;
        let reserved: usize = self.reserved - 1;
        let mut live = self.take_live();
        let ghost before = live@;
        live.insert(session.to_owned(), ());
        assert(live@.dom() =~= before.dom().insert(session@));
        *self = BoundedSessionManager { cap, available, reserved, live };
    }

    /// Frees a reserved slot whose session was not opened.
    pub fn cancel(&mut self, admission: Admission)
        ensures
            final(self)@ == cancelled(old(self)@),
            pool_balanced(final(self)@),
    {
        proof {
            use_type_invariant(&*self);
        }
        if self.reserved == 0 {
            return;
        }
        let cap: usize = self.cap;
        let available: usize = self.available + 1;
        let reserved: usize = self.reserved - 1;
        let live = self.take_live();
        *self = BoundedSessionManager { cap, available, reserved, live };
    }

    /// Frees the slot of a live session. A session that is not live, or no longer, has no slot
    /// to free: closing a session twice does not take another session's slot.
    pub fn release(&mut self, session: &str)
        ensures
            final(self)@ == released(old(self)@, session@),
            pool_balanced(final(self)@),
    {
        proof {
            use_type_invariant(&*self);
        }
        if !self.live.contains_key(session) {
            return;
        }
        assert(self@.live.remove(session@).len() + 1 == self@.live.len());
        let cap: usize = self.cap;
        let available: usize = self.available + 1;
        let reserved: usize = self.reserved;
        let mut live = self.take_live();
        let ghost before = live@;
        live.remove(session);
        assert(live@.dom() =~= before.dom().remove(session@));
        *self = BoundedSessionManager { cap, available, reserved, live };
    }

    /// Closes a session: its slot is freed if the session was known.
    pub fn close_session(&mut self, session: &str, was_present: bool)
        ensures
            final(self)@ == (if was_present {
                released(old(self)@, session@)
            } else {
                old(self)@
            }),
    {
        if was_present {
            self.release(session);
        }
    }
}

/// Freeing the slot of a session leaves every slot in exactly one place, so that there are
/// never more live and reserved sessions than slots.
pub proof fn law_release_keeps_balance(pool: PoolModel, session: Seq<char>)
    requires
        pool_balanced(pool),
    ensures
        pool_balanced(released(pool, session)),
        released(pool, session).live.len() + released(pool, session).reserved <= pool.cap,
{
}

/// Closing a session twice frees one slot, however many others are live.
pub proof fn law_double_release_frees_one_slot(pool: PoolModel, session: Seq<char>)
    ensures
        released(released(pool, session), session) == released(pool, session),
        released(pool, session).available == pool.available + (if pool.live.contains(session) {
            1nat
        } else {
            0nat
        }),
        !released(pool, session).live.contains(session),
{
}

/// Closing a session leaves every other session live.
pub proof fn law_release_spares_the_others(
    pool: PoolModel,
    session: Seq<char>,
    other: Seq<char>,
)
    requires
        other != session,
    ensures
        released(pool, session).live.contains(other) == pool.live.contains(other),
{
}

/// Opening a session and closing it gives back the pool before its slot was reserved.
pub proof fn law_closing_undoes_opening(pool: PoolModel, session: Seq<char>)
    requires
        !pool.live.contains(session),
        pool.available > 0,
    ensures
        ({
            released(committed(admitted(pool), session), session) == pool
        }),
{
    assert(pool.live.insert(session).remove(session) =~= pool.live);
}

} // verus!
