//! Event relay: the process-wide listener table and the entry point that
//! native transaction-update callbacks hit.
//!
//! The table starts absent; initialization establishes it exactly once
//! (repeated initializations are no-ops). A callback is planned as a
//! best-effort fan-out to exactly the subscribers registered for its
//! event; before the table is established no subscriber exists, so such
//! a callback is a no-op, not an error. Deliveries for one
//! subscriber follow the order in which callbacks arrive; the native
//! module is assumed to serialize its own callbacks, and no ordering
//! holds across different events.

use vstd::prelude::*;

use crate::error::Error;
use crate::marshal::FFIResult;
use crate::registry::Delivery;
use crate::registry::Registry;

verus! {

/// The process-wide listener table: absent until established, then a
/// registry of (event, id, handle) bindings.
pub struct Listeners<H> {
    table: Option<Registry<H>>,
}

impl<H> Listeners<H> {
    /// Whether the table has been established.
    pub closed spec fn is_initialized(self) -> bool {
        self.table is Some
    }

    /// The table's invariant.
    pub closed spec fn wf(self) -> bool {
        match self.table {
            Some(reg) => reg.wf(),
            None => true,
        }
    }

    /// The id -> handle map registered for an event; empty while the
    /// table is not established.
    pub closed spec fn subs(self, event: Seq<char>) -> Map<u32, H> {
        match self.table {
            Some(reg) => reg.subs(event),
            None => Map::empty(),
        }
    }

    /// The state at process start: no table yet.
    pub fn new() -> (r: Listeners<H>)
        ensures
            r.wf(),
            !r.is_initialized(),
            forall|e: Seq<char>| #[trigger] r.subs(e) == Map::<u32, H>::empty(),
    {
        Listeners { table: None }
    }

    /// Establishes the table on the first call; every later call is a
    /// no-op. No event's subscriber map changes either way.
    pub fn ensure_init(&mut self)
        requires
            old(self).wf(),
        ensures
            final(self).wf(),
            final(self).is_initialized(),
            forall|e: Seq<char>| #[trigger] final(self).subs(e) == old(self).subs(e),
    {
        if self.table.is_none() {
            let reg = Registry::new();
            proof {
                assert forall|e: Seq<char>| true implies #[trigger] reg.subs(e) == Map::<
                    u32,
                    H,
                >::empty() by {}
            }
            self.table = Some(reg);
        }
    }

    /// Inserts or replaces the subscriber entry for (event, id),
    /// establishing the table first if needed; never fails. Maps of
    /// other events are untouched.
    pub fn register_listener(&mut self, event: String, id: u32, handle: H) -> (r: Result<(), Error>)
        requires
            old(self).wf(),
        ensures
            final(self).wf(),
            final(self).is_initialized(),
            r is Ok,
            final(self).subs(event@) == old(self).subs(event@).insert(id, handle),
            forall|e: Seq<char>|
                e != event@ ==> #[trigger] final(self).subs(e) == old(self).subs(e),
    {
        let ghost orig = *self;
        self.ensure_init();
        let ghost mid = *self;
        match self.table.take() {
            Some(mut reg) => {
                let ghost reg0 = reg;
                proof {
                    assert(mid.table == Some(reg0));
                    assert forall|e: Seq<char>| true implies #[trigger] mid.subs(e) == reg0.subs(
                        e,
                    ) by {}
                }
                reg.register(event, id, handle);
                self.table = Some(reg);
                proof {
                    assert(self.subs(event@) == reg.subs(event@));
                    assert(reg.subs(event@) == reg0.subs(event@).insert(id, handle));
                    assert(mid.subs(event@) == reg0.subs(event@));
                    assert(mid.subs(event@) == orig.subs(event@));
                    assert(self.subs(event@) == orig.subs(event@).insert(id, handle));
                    assert forall|e: Seq<char>| e != event@ implies #[trigger] self.subs(e)
                        == orig.subs(e) by {
                        assert(mid.subs(e) == orig.subs(e));
                        assert(reg0.subs(e) == mid.subs(e));
                        assert(reg.subs(e) == reg0.subs(e));
                        assert(self.subs(e) == reg.subs(e));
                    }
                }
                Ok(())
            },
            None => {
                proof {
                    assert(false);
                }
                Ok(())
            },
        }
    }

    /// Removes the entry for (event, id); a no-op, never an error, when
    /// the pair is not registered — in particular when the table was
    /// never established, where no subscriber exists. Maps of other
    /// events are untouched, and an established table stays established.
    pub fn remove_listener(&mut self, event: &String, id: u32) -> (r: Result<(), Error>)
        requires
            old(self).wf(),
        ensures
            final(self).wf(),
            r is Ok,
            final(self).is_initialized() == old(self).is_initialized(),
            final(self).subs(event@) == old(self).subs(event@).remove(id),
            forall|e: Seq<char>|
                e != event@ ==> #[trigger] final(self).subs(e) == old(self).subs(e),
    {
        match self.table.take() {
            Some(mut reg) => {
                reg.remove(event, id);
                self.table = Some(reg);
                Ok(())
            },
            None => {
                proof {
                    assert(Map::<u32, H>::empty().remove(id) =~= Map::<u32, H>::empty());
                }
                Ok(())
            },
        }
    }

    /// The handle registered for (event, id), if any.
    pub fn handle_of(&self, event: &String, id: u32) -> (r: Option<&H>)
        requires
            self.wf(),
        ensures
            match r {
                Some(h) => self.subs(event@).dom().contains(id) && *h == self.subs(event@)[id],
                None => !self.subs(event@).dom().contains(id),
            },
    {
        match &self.table {
            Some(reg) => reg.handle_of(event, id),
            None => None,
        }
    }
}

/// Entry point for native transaction-update callbacks: plans the
/// fan-out of the payload to exactly the subscribers registered for the
/// event, and never errors. An event without subscribers — in
/// particular any event before the table is established — yields an
/// empty plan and no error. The `Result` shape mirrors the language
/// boundary this entry point is called across.
pub fn trigger<H>(listeners: &Listeners<H>, event: &String, payload: &String) -> (r: Result<
    Vec<Delivery>,
    FFIResult,
>)
    requires
        listeners.wf(),
    ensures
        r matches Ok(plan) && {
            &&& forall|k1: int, k2: int|
                0 <= k1 < k2 < plan@.len() ==> plan@[k1].id != plan@[k2].id
            &&& forall|k: int|
                0 <= k < plan@.len() ==> listeners.subs(event@).dom().contains(
                    (#[trigger] plan@[k]).id,
                ) && plan@[k].payload@ == payload@
            &&& forall|id: u32|
                listeners.subs(event@).dom().contains(id) ==> exists|k: int|
                    0 <= k < plan@.len() && (#[trigger] plan@[k]).id == id
            &&& listeners.subs(event@) == Map::<u32, H>::empty() ==> plan@.len() == 0
        },
{
    match &listeners.table {
        Some(reg) => Ok(reg.dispatch(event, payload)),
        None => {
            let plan: Vec<Delivery> = Vec::new();
            proof {
                assert forall|id: u32|
                    !listeners.subs(event@).dom().contains(id) by {}
            }
            Ok(plan)
        },
    }
}

} // verus!
