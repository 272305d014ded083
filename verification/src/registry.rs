//! Listener registry: a table mapping event names to sets of
//! (subscriber id, delivery handle) pairs.
//!
//! The registry is modelled as a map from event name to a map from
//! subscriber id to handle (`subs`). Subscriber ids are unique within an
//! event but may repeat across events. Registering an id twice for the
//! same event replaces the handle; removing an unregistered pair is a
//! no-op.

use vstd::prelude::*;

verus! {

/// One registered subscriber: the event it listens to, an id unique
/// within that event, and the opaque delivery handle the host supplied.
pub struct Subscriber<H> {
    /// Event name this subscriber listens to.
    pub event: String,
    /// Subscriber id, unique within the event.
    pub id: u32,
    /// Opaque delivery handle.
    pub handle: H,
}

/// One planned delivery produced by a dispatch: the subscriber id to
/// deliver to, and its own copy of the payload.
#[derive(Debug)]
pub struct Delivery {
    /// Id of the subscriber owed this delivery.
    pub id: u32,
    /// The payload to deliver.
    pub payload: String,
}

/// No two rows bind the same (event, id) pair.
spec fn rows_wf<H>(rows: Seq<Subscriber<H>>) -> bool {
    forall|i: int, j: int|
        #![trigger rows[i], rows[j]]
        0 <= i < j < rows.len() ==> !(rows[i].event@ == rows[j].event@ && rows[i].id == rows[j].id)
}

/// The id -> handle map an event's rows denote.
spec fn subs_of<H>(rows: Seq<Subscriber<H>>, event: Seq<char>) -> Map<u32, H>
    decreases rows.len(),
{
    if rows.len() == 0 {
        Map::empty()
    } else {
        let rest = subs_of(rows.drop_last(), event);
        if rows.last().event@ == event {
            rest.insert(rows.last().id, rows.last().handle)
        } else {
            rest
        }
    }
}

proof fn lemma_rows_wf_drop_last<H>(rows: Seq<Subscriber<H>>)
    requires
        rows_wf(rows),
        rows.len() > 0,
    ensures
        rows_wf(rows.drop_last()),
{
    assert forall|i: int, j: int|
        0 <= i < j < rows.drop_last().len() implies !(#[trigger] rows.drop_last()[i].event@
        == #[trigger] rows.drop_last()[j].event@ && rows.drop_last()[i].id
        == rows.drop_last()[j].id) by {
        assert(rows.drop_last()[i] == rows[i]);
        assert(rows.drop_last()[j] == rows[j]);
    }
}

/// If no row binds (event, id), then id is not in the event's map.
proof fn lemma_subs_of_absent<H>(rows: Seq<Subscriber<H>>, event: Seq<char>, id: u32)
    requires
        forall|j: int|
            0 <= j < rows.len() ==> !((#[trigger] rows[j]).event@ == event && rows[j].id == id),
    ensures
        !subs_of(rows, event).dom().contains(id),
    decreases rows.len(),
{
    if rows.len() > 0 {
        assert forall|j: int|
            0 <= j < rows.drop_last().len() implies !((#[trigger] rows.drop_last()[j]).event@
            == event && rows.drop_last()[j].id == id) by {
            assert(rows.drop_last()[j] == rows[j]);
        }
        lemma_subs_of_absent(rows.drop_last(), event, id);
        assert(rows[rows.len() - 1] == rows.last());
    }
}

/// id is in the event's map exactly when some row binds (event, id).
proof fn lemma_subs_of_dom<H>(rows: Seq<Subscriber<H>>, event: Seq<char>, id: u32)
    ensures
        subs_of(rows, event).dom().contains(id) <==> exists|j: int|
            0 <= j < rows.len() && (#[trigger] rows[j]).event@ == event && rows[j].id == id,
    decreases rows.len(),
{
    if rows.len() > 0 {
        lemma_subs_of_dom(rows.drop_last(), event, id);
        if subs_of(rows.drop_last(), event).dom().contains(id) {
            let j = choose|j: int|
                0 <= j < rows.drop_last().len() && (#[trigger] rows.drop_last()[j]).event@ == event
                    && rows.drop_last()[j].id == id;
            assert(rows[j] == rows.drop_last()[j]);
            assert(rows[j].event@ == event && rows[j].id == id);
        }
        if exists|j: int|
            0 <= j < rows.len() && (#[trigger] rows[j]).event@ == event && rows[j].id == id {
            let j = choose|j: int|
                0 <= j < rows.len() && (#[trigger] rows[j]).event@ == event && rows[j].id == id;
            if j < rows.len() - 1 {
                assert(rows.drop_last()[j] == rows[j]);
                assert(subs_of(rows.drop_last(), event).dom().contains(id));
            } else {
                assert(rows.last() == rows[j]);
            }
        }
    }
}

/// A row's handle is what the event's map holds at its id.
proof fn lemma_subs_of_get<H>(rows: Seq<Subscriber<H>>, event: Seq<char>, j: int)
    requires
        rows_wf(rows),
        0 <= j < rows.len(),
        rows[j].event@ == event,
    ensures
        subs_of(rows, event).dom().contains(rows[j].id),
        subs_of(rows, event)[rows[j].id] == rows[j].handle,
    decreases rows.len(),
{
    if j == rows.len() - 1 {
    } else {
        lemma_rows_wf_drop_last(rows);
        assert(rows.drop_last()[j] == rows[j]);
        lemma_subs_of_get(rows.drop_last(), event, j);
    }
}

/// Appending a row inserts its binding into its own event's map and
/// leaves every other event's map unchanged.
proof fn lemma_subs_of_push<H>(rows: Seq<Subscriber<H>>, r: Subscriber<H>, event: Seq<char>)
    ensures
        subs_of(rows.push(r), event) == (if r.event@ == event {
            subs_of(rows, event).insert(r.id, r.handle)
        } else {
            subs_of(rows, event)
        }),
{
    assert(rows.push(r).drop_last() =~= rows);
    assert(rows.push(r).last() == r);
}

/// Replacing a row by one with the same (event, id) binding replaces the
/// handle in its event's map and leaves every other event's map unchanged.
proof fn lemma_subs_of_update<H>(rows: Seq<Subscriber<H>>, i: int, r: Subscriber<H>, event: Seq<char>)
    requires
        rows_wf(rows),
        0 <= i < rows.len(),
        rows[i].event@ == r.event@,
        rows[i].id == r.id,
    ensures
        subs_of(rows.update(i, r), event) == (if r.event@ == event {
            subs_of(rows, event).insert(r.id, r.handle)
        } else {
            subs_of(rows, event)
        }),
    decreases rows.len(),
{
    let updated = rows.update(i, r);
    if i == rows.len() - 1 {
        assert(updated.drop_last() =~= rows.drop_last());
        assert(updated.last() == r);
        if r.event@ == event {
            assert(subs_of(rows.drop_last(), event).insert(rows[i].id, rows[i].handle).insert(
                r.id,
                r.handle,
            ) =~= subs_of(rows.drop_last(), event).insert(r.id, r.handle));
        }
    } else {
        let rest = rows.drop_last();
        lemma_rows_wf_drop_last(rows);
        assert(rest[i] == rows[i]);
        assert(updated.drop_last() =~= rest.update(i, r));
        assert(updated.last() == rows.last());
        lemma_subs_of_update(rest, i, r, event);
        if rows.last().event@ == event && r.event@ == event {
            // same event, two different rows: ids differ
            assert(rows.last().id != r.id);
            assert(subs_of(rest, event).insert(r.id, r.handle).insert(
                rows.last().id,
                rows.last().handle,
            ) =~= subs_of(rest, event).insert(rows.last().id, rows.last().handle).insert(
                r.id,
                r.handle,
            ));
        }
    }
}

/// Removing a row removes its binding from its event's map and leaves
/// every other event's map unchanged.
proof fn lemma_subs_of_remove<H>(rows: Seq<Subscriber<H>>, i: int, event: Seq<char>)
    requires
        rows_wf(rows),
        0 <= i < rows.len(),
    ensures
        subs_of(rows.remove(i), event) == (if rows[i].event@ == event {
            subs_of(rows, event).remove(rows[i].id)
        } else {
            subs_of(rows, event)
        }),
    decreases rows.len(),
{
    if i == rows.len() - 1 {
        assert(rows.remove(i) =~= rows.drop_last());
        if rows[i].event@ == event {
            lemma_rows_wf_drop_last(rows);
            assert forall|j: int|
                0 <= j < rows.drop_last().len() implies !((#[trigger] rows.drop_last()[j]).event@
                == event && rows.drop_last()[j].id == rows[i].id) by {
                assert(rows.drop_last()[j] == rows[j]);
            }
            lemma_subs_of_absent(rows.drop_last(), event, rows[i].id);
            assert(subs_of(rows.drop_last(), event).insert(rows[i].id, rows[i].handle).remove(
                rows[i].id,
            ) =~= subs_of(rows.drop_last(), event));
        }
    } else {
        let rest = rows.drop_last();
        lemma_rows_wf_drop_last(rows);
        assert(rest[i] == rows[i]);
        assert(rows.remove(i).drop_last() =~= rest.remove(i));
        assert(rows.remove(i).last() == rows.last());
        lemma_subs_of_remove(rest, i, event);
        if rows.last().event@ == event && rows[i].event@ == event {
            assert(rows.last().id != rows[i].id);
            assert(subs_of(rest, event).remove(rows[i].id).insert(
                rows.last().id,
                rows.last().handle,
            ) =~= subs_of(rest, event).insert(rows.last().id, rows.last().handle).remove(
                rows[i].id,
            ));
        }
    }
}

/// The listener registry.
pub struct Registry<H> {
    rows: Vec<Subscriber<H>>,
}

impl<H> Registry<H> {
    /// The registry's invariant: no (event, id) pair is bound twice.
    pub closed spec fn wf(self) -> bool {
        rows_wf(self.rows@)
    }

    /// The id -> handle map registered for an event (empty for an event
    /// with no subscribers).
    pub closed spec fn subs(self, event: Seq<char>) -> Map<u32, H> {
        subs_of(self.rows@, event)
    }

    /// An empty registry: every event has an empty subscriber map.
    pub fn new() -> (r: Registry<H>)
        ensures
            r.wf(),
            forall|e: Seq<char>| #[trigger] r.subs(e) == Map::<u32, H>::empty(),
    {
        let r = Registry { rows: Vec::new() };
        proof {
            assert forall|e: Seq<char>| #[trigger] r.subs(e) =~= Map::<u32, H>::empty() by {}
        }
        r
    }

    /// Index of the row binding (event, id), if any.
    fn find_row(&self, event: &String, id: u32) -> (r: Option<usize>)
        ensures
            match r {
                Some(i) => i < self.rows@.len() && self.rows@[i as int].event@ == event@
                    && self.rows@[i as int].id == id,
                None => forall|j: int|
                    0 <= j < self.rows@.len() ==> !((#[trigger] self.rows@[j]).event@ == event@
                        && self.rows@[j].id == id),
            },
    {
        let mut i: usize = 0;
        while i < self.rows.len()
            invariant
                i <= self.rows@.len(),
                forall|j: int|
                    0 <= j < i ==> !((#[trigger] self.rows@[j]).event@ == event@
                        && self.rows@[j].id == id),
            decreases self.rows@.len() - i,
        {
            if self.rows[i].id == id && self.rows[i].event == *event {
                return Some(i);
            }
            i = i + 1;
        }
        None
    }

    /// Inserts or replaces the subscriber entry for (event, id);
    /// registering the same id twice replaces the handle. Maps of other
    /// events are untouched.
    pub fn register(&mut self, event: String, id: u32, handle: H)
        requires
            old(self).wf(),
        ensures
            final(self).wf(),
            final(self).subs(event@) == old(self).subs(event@).insert(id, handle),
            forall|e: Seq<char>|
                e != event@ ==> #[trigger] final(self).subs(e) == old(self).subs(e),
    {
        let ghost old_rows = self.rows@;
        let idx = self.find_row(&event, id);
        match idx {
            Some(i) => {
                let ghost r = Subscriber { event: event, id: id, handle: handle };
                self.rows.set(i, Subscriber { event, id, handle });
                proof {
                    assert(self.rows@ =~= old_rows.update(i as int, r));
                    assert forall|e: Seq<char>| true implies #[trigger] subs_of(self.rows@, e)
                        == (if e == r.event@ {
                        subs_of(old_rows, e).insert(id, handle)
                    } else {
                        subs_of(old_rows, e)
                    }) by {
                        lemma_subs_of_update(old_rows, i as int, r, e);
                    }
                    assert forall|i2: int, j2: int|
                        0 <= i2 < j2 < self.rows@.len() implies !((#[trigger] self.rows@[i2]).event@
                        == (#[trigger] self.rows@[j2]).event@ && self.rows@[i2].id
                        == self.rows@[j2].id) by {
                        assert(old_rows[i2] == if i2 == i as int {
                            old_rows[i2]
                        } else {
                            self.rows@[i2]
                        });
                    }
                }
            },
            None => {
                let ghost r = Subscriber { event: event, id: id, handle: handle };
                self.rows.push(Subscriber { event, id, handle });
                proof {
                    assert(self.rows@ =~= old_rows.push(r));
                    assert forall|e: Seq<char>| true implies #[trigger] subs_of(self.rows@, e)
                        == (if e == r.event@ {
                        subs_of(old_rows, e).insert(id, handle)
                    } else {
                        subs_of(old_rows, e)
                    }) by {
                        lemma_subs_of_push(old_rows, r, e);
                    }
                }
            },
        }
    }

    /// Removes the entry for (event, id) if present; a no-op otherwise.
    /// Maps of other events are untouched.
    pub fn remove(&mut self, event: &String, id: u32)
        requires
            old(self).wf(),
        ensures
            final(self).wf(),
            final(self).subs(event@) == old(self).subs(event@).remove(id),
            forall|e: Seq<char>|
                e != event@ ==> #[trigger] final(self).subs(e) == old(self).subs(e),
    {
        let ghost old_rows = self.rows@;
        let idx = self.find_row(event, id);
        match idx {
            Some(i) => {
                self.rows.remove(i);
                proof {
                    assert forall|e: Seq<char>| true implies #[trigger] subs_of(self.rows@, e)
                        == (if e == event@ {
                        subs_of(old_rows, e).remove(id)
                    } else {
                        subs_of(old_rows, e)
                    }) by {
                        lemma_subs_of_remove(old_rows, i as int, e);
                    }
                    assert forall|i2: int, j2: int|
                        0 <= i2 < j2 < self.rows@.len() implies !((#[trigger] self.rows@[i2]).event@
                        == (#[trigger] self.rows@[j2]).event@ && self.rows@[i2].id
                        == self.rows@[j2].id) by {
                        let pi = if i2 < i as int {
                            i2
                        } else {
                            i2 + 1
                        };
                        let pj = if j2 < i as int {
                            j2
                        } else {
                            j2 + 1
                        };
                        assert(self.rows@[i2] == old_rows[pi]);
                        assert(self.rows@[j2] == old_rows[pj]);
                    }
                }
            },
            None => {
                proof {
                    lemma_subs_of_absent(old_rows, event@, id);
                    assert(subs_of(old_rows, event@).remove(id) =~= subs_of(old_rows, event@));
                }
            },
        }
    }

    /// The handle registered for (event, id), if any.
    pub fn handle_of(&self, event: &String, id: u32) -> (r: Option<&H>)
        requires
            self.wf(),
        ensures
            match r {
                Some(h) => self.subs(event@).dom().contains(id) && *h == self.subs(event@)[id],
                None => !self.subs(event@).dom().contains(id),
            },
    {
        let idx = self.find_row(event, id);
        match idx {
            Some(i) => {
                proof {
                    lemma_subs_of_get(self.rows@, event@, i as int);
                }
                Some(&self.rows[i].handle)
            },
            None => {
                proof {
                    lemma_subs_of_absent(self.rows@, event@, id);
                }
                None
            },
        }
    }

    /// Plans the fan-out of a payload to an event's subscribers: one
    /// delivery, carrying its own copy of the payload, for exactly each
    /// currently registered subscriber of the event — no more, no fewer —
    /// regardless of registrations for other events. An event with no
    /// subscribers yields an empty plan, and the registry is not touched.
    pub fn dispatch(&self, event: &String, payload: &String) -> (r: Vec<Delivery>)
        requires
            self.wf(),
        ensures
            forall|k1: int, k2: int| 0 <= k1 < k2 < r@.len() ==> r@[k1].id != r@[k2].id,
            forall|k: int|
                0 <= k < r@.len() ==> self.subs(event@).dom().contains((#[trigger] r@[k]).id)
                    && r@[k].payload@ == payload@,
            forall|id: u32|
                self.subs(event@).dom().contains(id) ==> exists|k: int|
                    0 <= k < r@.len() && (#[trigger] r@[k]).id == id,
            self.subs(event@) == Map::<u32, H>::empty() ==> r@.len() == 0,
    {
        let mut r: Vec<Delivery> = Vec::new();
        let mut i: usize = 0;
        while i < self.rows.len()
            invariant
                self.wf(),
                i <= self.rows@.len(),
                delivery_ids(r@) == matching_ids(self.rows@.take(i as int), event@),
                forall|k: int| 0 <= k < r@.len() ==> (#[trigger] r@[k]).payload@ == payload@,
            decreases self.rows@.len() - i,
        {
            let ghost prev = r@;
            let matched = self.rows[i].event == *event;
            if matched {
                r.push(Delivery { id: self.rows[i].id, payload: payload.clone() });
            }
            proof {
                let n = i as int;
                assert(self.rows@.take(n + 1).drop_last() =~= self.rows@.take(n));
                assert(self.rows@.take(n + 1).last() == self.rows@[n]);
                if matched {
                    assert(delivery_ids(r@) =~= delivery_ids(prev).push(self.rows@[n].id));
                } else {
                    assert(self.rows@[n].event@ != event@);
                }
            }
            i = i + 1;
        }
        proof {
            assert(self.rows@.take(self.rows@.len() as int) =~= self.rows@);
            let m = matching_ids(self.rows@, event@);
            lemma_matching_ids_distinct(self.rows@, event@);
            assert forall|k1: int, k2: int|
                0 <= k1 < k2 < r@.len() implies r@[k1].id != r@[k2].id by {
                assert(delivery_ids(r@)[k1] == r@[k1].id && delivery_ids(r@)[k2] == r@[k2].id);
            }
            assert forall|k: int|
                0 <= k < r@.len() implies self.subs(event@).dom().contains(
                (#[trigger] r@[k]).id,
            ) && r@[k].payload@ == payload@ by {
                assert(delivery_ids(r@)[k] == r@[k].id);
                assert(m.contains(m[k]));
                lemma_matching_ids_contains(self.rows@, event@, r@[k].id);
                lemma_subs_of_dom(self.rows@, event@, r@[k].id);
            }
            assert forall|id: u32|
                self.subs(event@).dom().contains(id) implies exists|k: int|
                0 <= k < r@.len() && (#[trigger] r@[k]).id == id by {
                lemma_subs_of_dom(self.rows@, event@, id);
                lemma_matching_ids_contains(self.rows@, event@, id);
                let k = choose|k: int| 0 <= k < m.len() && m[k] == id;
                assert(delivery_ids(r@)[k] == r@[k].id);
                assert(r@[k].id == id);
            }
            if r@.len() > 0 {
                assert(self.subs(event@).dom().contains(r@[0].id));
                assert(self.subs(event@) != Map::<u32, H>::empty());
            }
        }
        r
    }

    /// The ids currently registered for an event, without duplicates.
    pub fn subscriber_ids(&self, event: &String) -> (r: Vec<u32>)
        requires
            self.wf(),
        ensures
            forall|k1: int, k2: int| 0 <= k1 < k2 < r@.len() ==> r@[k1] != r@[k2],
            forall|id: u32| #[trigger]
                r@.contains(id) <==> self.subs(event@).dom().contains(id),
    {
        let mut r: Vec<u32> = Vec::new();
        let mut i: usize = 0;
        while i < self.rows.len()
            invariant
                self.wf(),
                i <= self.rows@.len(),
                r@ == matching_ids(self.rows@.take(i as int), event@),
            decreases self.rows@.len() - i,
        {
            let ghost prev = r@;
            let matched = self.rows[i].event == *event;
            if matched {
                r.push(self.rows[i].id);
            }
            proof {
                let n = i as int;
                assert(self.rows@.take(n + 1).drop_last() =~= self.rows@.take(n));
                assert(self.rows@.take(n + 1).last() == self.rows@[n]);
                if !matched {
                    assert(self.rows@[n].event@ != event@);
                }
            }
            i = i + 1;
        }
        proof {
            assert(self.rows@.take(self.rows@.len() as int) =~= self.rows@);
            lemma_matching_ids_distinct(self.rows@, event@);
            assert forall|id: u32| #[trigger]
                r@.contains(id) <==> self.subs(event@).dom().contains(id) by {
                lemma_matching_ids_contains(self.rows@, event@, id);
                lemma_subs_of_dom(self.rows@, event@, id);
            }
        }
        r
    }
}

/// The ids of a delivery plan, in plan order.
spec fn delivery_ids(ds: Seq<Delivery>) -> Seq<u32> {
    ds.map_values(|d: Delivery| d.id)
}

/// The ids of the rows matching an event, in row order.
spec fn matching_ids<H>(rows: Seq<Subscriber<H>>, event: Seq<char>) -> Seq<u32>
    decreases rows.len(),
{
    if rows.len() == 0 {
        Seq::empty()
    } else {
        let rest = matching_ids(rows.drop_last(), event);
        if rows.last().event@ == event {
            rest.push(rows.last().id)
        } else {
            rest
        }
    }
}

/// An id occurs among an event's matching ids exactly when some row
/// binds (event, id).
proof fn lemma_matching_ids_contains<H>(rows: Seq<Subscriber<H>>, event: Seq<char>, id: u32)
    ensures
        matching_ids(rows, event).contains(id) <==> exists|j: int|
            0 <= j < rows.len() && (#[trigger] rows[j]).event@ == event && rows[j].id == id,
    decreases rows.len(),
{
    if rows.len() > 0 {
        lemma_matching_ids_contains(rows.drop_last(), event, id);
        let m = matching_ids(rows, event);
        let rest = matching_ids(rows.drop_last(), event);
        if m.contains(id) {
            let k = choose|k: int| 0 <= k < m.len() && m[k] == id;
            if rows.last().event@ == event && k == m.len() - 1 {
                assert(rows[rows.len() - 1] == rows.last());
            } else {
                assert(rest.contains(id)) by {
                    assert(rest[k] == id);
                }
                let j = choose|j: int|
                    0 <= j < rows.drop_last().len() && (#[trigger] rows.drop_last()[j]).event@
                        == event && rows.drop_last()[j].id == id;
                assert(rows[j] == rows.drop_last()[j]);
                assert(rows[j].event@ == event && rows[j].id == id);
            }
        }
        if exists|j: int|
            0 <= j < rows.len() && (#[trigger] rows[j]).event@ == event && rows[j].id == id {
            let j = choose|j: int|
                0 <= j < rows.len() && (#[trigger] rows[j]).event@ == event && rows[j].id == id;
            if j < rows.len() - 1 {
                assert(rows.drop_last()[j] == rows[j]);
                assert(rest.contains(id));
                let k = choose|k: int| 0 <= k < rest.len() && rest[k] == id;
                assert(m[k] == id);
            } else {
                assert(rows.last() == rows[j]);
                assert(m[m.len() - 1] == id);
            }
        }
    }
}

/// An event's matching ids are pairwise distinct.
proof fn lemma_matching_ids_distinct<H>(rows: Seq<Subscriber<H>>, event: Seq<char>)
    requires
        rows_wf(rows),
    ensures
        forall|k1: int, k2: int|
            0 <= k1 < k2 < matching_ids(rows, event).len() ==> matching_ids(rows, event)[k1]
                != matching_ids(rows, event)[k2],
    decreases rows.len(),
{
    if rows.len() > 0 {
        lemma_rows_wf_drop_last(rows);
        lemma_matching_ids_distinct(rows.drop_last(), event);
        let m = matching_ids(rows, event);
        let rest = matching_ids(rows.drop_last(), event);
        if rows.last().event@ == event {
            assert(!rest.contains(rows.last().id)) by {
                lemma_matching_ids_contains(rows.drop_last(), event, rows.last().id);
                if exists|j: int|
                    0 <= j < rows.drop_last().len() && (#[trigger] rows.drop_last()[j]).event@
                        == event && rows.drop_last()[j].id == rows.last().id {
                    let j = choose|j: int|
                        0 <= j < rows.drop_last().len() && (#[trigger] rows.drop_last()[j]).event@
                            == event && rows.drop_last()[j].id == rows.last().id;
                    assert(rows[j] == rows.drop_last()[j]);
                    assert(rows[rows.len() - 1] == rows.last());
                    assert(!(rows[j].event@ == rows[rows.len() - 1].event@ && rows[j].id
                        == rows[rows.len() - 1].id));
                }
            }
            assert forall|k1: int, k2: int|
                0 <= k1 < k2 < m.len() implies m[k1] != m[k2] by {
                if k2 == m.len() - 1 {
                    assert(rest[k1] == m[k1]);
                    assert(rest.contains(rest[k1]));
                }
            }
        }
    }
}

/// Removing an id that is not registered leaves the subscriber map
/// exactly as it was: the registry's size and its dispatch behaviour are
/// unchanged.
pub proof fn lemma_remove_absent_is_noop<H>(m: Map<u32, H>, id: u32)
    requires
        !m.dom().contains(id),
    ensures
        m.remove(id) == m,
{
    assert(m.remove(id) =~= m);
}

} // verus!
