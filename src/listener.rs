use vstd::prelude::*;
use crate::event::EventType;

verus! {

/// One subscriber: its identifier and the classifiers it wants.
#[derive(Debug)]
pub struct Listener {
    pub id: u64,
    pub events: Vec<EventType>,
}

/// The registry of subscribers. It outlives every reconnect.
///
/// Listeners are kept in the order they subscribed, so their identifiers
/// strictly increase, and each is below `next_id`.
#[derive(Debug)]
pub struct Listeners {
    pub listeners: Vec<Listener>,
    pub next_id: u64,
}

/// The identifiers of `s` strictly increase and stay below `bound`.
pub open spec fn ids_ordered_below(s: Seq<Listener>, bound: u64) -> bool {
    &&& forall|i: int, j: int| 0 <= i < j < s.len() ==> s[i].id < s[j].id
    &&& forall|i: int| 0 <= i < s.len() ==> s[i].id < bound
}

/// The identifiers, in order, of the listeners of `s` whose filter holds `t`.
pub open spec fn targets_of(s: Seq<Listener>, t: EventType) -> Seq<u64>
    decreases s.len(),
{
    if s.len() == 0 {
        Seq::empty()
    } else {
        let rest = targets_of(s.drop_last(), t);
        if s.last().events@.contains(t) {
            rest.push(s.last().id)
        } else {
            rest
        }
    }
}

/// The listeners of `s`, in order, whose identifier is not in `ids`.
pub open spec fn without(s: Seq<Listener>, ids: Seq<u64>) -> Seq<Listener>
    decreases s.len(),
{
    if s.len() == 0 {
        Seq::empty()
    } else {
        let rest = without(s.drop_last(), ids);
        if ids.contains(s.last().id) {
            rest
        } else {
            rest.push(s.last())
        }
    }
}

proof fn lemma_targets_below(s: Seq<Listener>, t: EventType, bound: u64)
    requires
        forall|i: int| 0 <= i < s.len() ==> s[i].id < bound,
    ensures
        forall|k: int| 0 <= k < targets_of(s, t).len() ==> targets_of(s, t)[k] < bound,
    decreases s.len(),
{
    if s.len() > 0 {
        let init = s.drop_last();
        assert forall|i: int| 0 <= i < init.len() implies init[i].id < bound by {
            assert(init[i] == s[i]);
        }
        lemma_targets_below(init, t, bound);
        assert(s.last().id < bound);
        let r = targets_of(s, t);
        let rest = targets_of(init, t);
        assert forall|k: int| 0 <= k < r.len() implies r[k] < bound by {
            if k < rest.len() {
                assert(r[k] == rest[k]);
            }
        }
    }
}

/// An event of classifier `t` goes to every listener whose filter holds `t`
/// and to no other: each identifier handed out belongs to such a listener.
pub proof fn lemma_fan_out(ls: Listeners, t: EventType)
    requires
        ls.wf(),
    ensures
        forall|i: int|
            0 <= i < ls.listeners@.len() ==> (targets_of(ls.listeners@, t).contains(
                #[trigger] ls.listeners@[i].id,
            ) <==> ls.listeners@[i].events@.contains(t)),
        forall|id: u64|
            #[trigger] targets_of(ls.listeners@, t).contains(id) ==> exists|i: int|
                0 <= i < ls.listeners@.len() && ls.listeners@[i].id == id
                    && ls.listeners@[i].events@.contains(t),
{
    lemma_fan_out_seq(ls.listeners@, t);
}

proof fn lemma_fan_out_seq(s: Seq<Listener>, t: EventType)
    requires
        forall|i: int, j: int| 0 <= i < j < s.len() ==> s[i].id < s[j].id,
    ensures
        forall|i: int|
            0 <= i < s.len() ==> (targets_of(s, t).contains(#[trigger] s[i].id)
                <==> s[i].events@.contains(t)),
        forall|id: u64|
            #[trigger] targets_of(s, t).contains(id) ==> exists|i: int|
                0 <= i < s.len() && s[i].id == id && s[i].events@.contains(t),
    decreases s.len(),
{
    if s.len() > 0 {
        let init = s.drop_last();
        let last = s.last();
        assert forall|i: int, j: int| 0 <= i < j < init.len() implies init[i].id < init[j].id by {
            assert(init[i] == s[i] && init[j] == s[j]);
        }
        lemma_fan_out_seq(init, t);
        assert forall|i: int| 0 <= i < init.len() implies init[i].id < last.id by {
            assert(init[i] == s[i]);
        }
        lemma_targets_below(init, t, last.id);
        let rest = targets_of(init, t);
        assert forall|i: int| 0 <= i < s.len() implies (targets_of(s, t).contains(
            #[trigger] s[i].id,
        ) <==> s[i].events@.contains(t)) by {
            if i < s.len() - 1 {
                assert(init[i] == s[i]);
                assert(s[i].id < last.id);
                if last.events@.contains(t) {
                    if targets_of(s, t).contains(s[i].id) {
                        let k = choose|k: int|
                            0 <= k < targets_of(s, t).len() && targets_of(s, t)[k] == s[i].id;
                        assert(k < rest.len());
                        assert(rest[k] == s[i].id);
                    }
                    if rest.contains(s[i].id) {
                        let k = choose|k: int| 0 <= k < rest.len() && rest[k] == s[i].id;
                        assert(targets_of(s, t)[k] == s[i].id);
                    }
                }
            } else {
                assert(s[i] == last);
                if last.events@.contains(t) {
                    assert(targets_of(s, t)[rest.len() as int] == last.id);
                } else {
                    if rest.contains(last.id) {
                        let k = choose|k: int| 0 <= k < rest.len() && rest[k] == last.id;
                        assert(rest[k] < last.id);
                    }
                }
            }
        }
        assert forall|id: u64| #[trigger] targets_of(s, t).contains(id) implies exists|i: int|
            0 <= i < s.len() && s[i].id == id && s[i].events@.contains(t) by {
            if targets_of(init, t).contains(id) {
                let i = choose|i: int|
                    0 <= i < init.len() && init[i].id == id && init[i].events@.contains(t);
                assert(s[i] == init[i]);
            } else {
                let k = choose|k: int| 0 <= k < targets_of(s, t).len() && targets_of(s, t)[k] == id;
                assert(s[s.len() - 1] == last);
            }
        }
    }
}

/// After removing the listeners whose channel was found closed, none of
/// them is left, and every other listener stays.
pub proof fn lemma_prune(s: Seq<Listener>, closed: Seq<u64>)
    ensures
        forall|k: int| 0 <= k < without(s, closed).len() ==> !closed.contains(
            #[trigger] without(s, closed)[k].id,
        ),
        forall|i: int|
            0 <= i < s.len() && !closed.contains(#[trigger] s[i].id) ==> without(
                s,
                closed,
            ).contains(s[i]),
    decreases s.len(),
{
    if s.len() > 0 {
        let init = s.drop_last();
        lemma_prune(init, closed);
        assert forall|i: int| 0 <= i < s.len() && !closed.contains(#[trigger] s[i].id) implies without(
            s,
            closed,
        ).contains(s[i]) by {
            if i < s.len() - 1 {
                assert(init[i] == s[i]);
                let k = choose|k: int| 0 <= k < without(init, closed).len() && without(init, closed)[k] == init[i];
                if !closed.contains(s.last().id) {
                    assert(without(s, closed)[k] == init[i]);
                }
            } else {
                assert(without(s, closed).last() == s[i]);
            }
        }
    }
}

/// Whether a filter holds a classifier.
pub fn filter_contains(events: &Vec<EventType>, t: EventType) -> (r: bool)
    ensures
        r == events@.contains(t),
{
    let mut i: usize = 0;
    while i < events.len()
        invariant
            0 <= i <= events.len(),
            forall|k: int| 0 <= k < i ==> events@[k] != t,
        decreases events.len() - i,
    {
        if events[i] == t {
            return true;
        }
        i = i + 1;
    }
    false
}

fn ids_contain(ids: &Vec<u64>, id: u64) -> (r: bool)
    ensures
        r == ids@.contains(id),
{
    let mut i: usize = 0;
    while i < ids.len()
        invariant
            0 <= i <= ids.len(),
            forall|k: int| 0 <= k < i ==> ids@[k] != id,
        decreases ids.len() - i,
    {
        if ids[i] == id {
            return true;
        }
        i = i + 1;
    }
    false
}

impl Listeners {
    /// Identifiers are strictly increasing and below `next_id`.
    pub open spec fn wf(&self) -> bool {
        ids_ordered_below(self.listeners@, self.next_id)
    }

    /// An empty registry.
    pub fn new() -> (r: Listeners)
        ensures
            r.wf(),
            r.listeners@.len() == 0,
            r.next_id == 0,
    {
        Listeners { listeners: Vec::new(), next_id: 0 }
    }

    /// Registers a subscriber with its filter and returns its identifier;
    /// `None`, changing nothing, once every identifier has been handed out.
    pub fn subscribe(&mut self, events: Vec<EventType>) -> (r: Option<u64>)
        requires
            old(self).wf(),
        ensures
            final(self).wf(),
            old(self).next_id == u64::MAX ==> r is None && *final(self) == *old(self),
            old(self).next_id < u64::MAX ==> r == Some(old(self).next_id)
                && final(self).next_id == old(self).next_id + 1
                && final(self).listeners@ == old(self).listeners@.push(
                    Listener { id: old(self).next_id, events },
                ),
    {
        if self.next_id == u64::MAX {
            return None;
        }
        let id = self.next_id;
        self.listeners.push(Listener { id, events });
        self.next_id = id + 1;
        Some(id)
    }

    /// The identifiers, in order, of the listeners whose filter holds `t`.
    pub fn targets(&self, t: EventType) -> (r: Vec<u64>)
        ensures
            r@ == targets_of(self.listeners@, t),
    {
        let mut r: Vec<u64> = Vec::new();
        let mut i: usize = 0;
        while i < self.listeners.len()
            invariant
                0 <= i <= self.listeners.len(),
                r@ == targets_of(self.listeners@.subrange(0, i as int), t),
            decreases self.listeners.len() - i,
        {
            assert(self.listeners@.subrange(0, i + 1).drop_last() =~= self.listeners@.subrange(
                0,
                i as int,
            ));
            if filter_contains(&self.listeners[i].events, t) {
                r.push(self.listeners[i].id);
            }
            i = i + 1;
        }
        assert(self.listeners@.subrange(0, i as int) =~= self.listeners@);
        r
    }

    /// Removes every listener whose identifier is in `ids`.
    pub fn remove_all(&mut self, ids: &Vec<u64>)
        requires
            old(self).wf(),
        ensures
            final(self).wf(),
            final(self).next_id == old(self).next_id,
            final(self).listeners@ == without(old(self).listeners@, ids@),
    {
        let mut rest: Vec<Listener> = Vec::new();
        std::mem::swap(&mut rest, &mut self.listeners);
        let ghost s = rest@;
        let n: usize = rest.len();
        let mut kept: Vec<Listener> = Vec::new();
        proof {
            assert(s.subrange(0, 0) =~= Seq::<Listener>::empty());
            assert(s.subrange(0, s.len() as int) =~= s);
        }
        let mut i: usize = 0;
        while rest.len() > 0
            invariant
                i + rest@.len() == s.len(),
                s.len() == n,
                rest@ == s.subrange(i as int, s.len() as int),
                kept@ == without(s.subrange(0, i as int), ids@),
                ids_ordered_below(s, self.next_id),
                ids_ordered_below(kept@, self.next_id),
                forall|k: int, m: int| 0 <= k < kept@.len() && i <= m < s.len() ==> kept@[k].id < s[m].id,
            decreases rest@.len(),
        {
            let l = rest.remove(0);
            proof {
                assert(l == s[i as int]);
                assert(s.subrange(0, i + 1).drop_last() =~= s.subrange(0, i as int));
                assert(s.subrange(0, i + 1).last() == s[i as int]);
            }
            if !ids_contain(ids, l.id) {
                kept.push(l);
            }
            i = i + 1;
        }
        proof {
            assert(s.subrange(0, i as int) =~= s);
        }
        self.listeners = kept;
    }

    /// Removes the listener with identifier `id`, if registered.
    pub fn unsubscribe(&mut self, id: u64)
        requires
            old(self).wf(),
        ensures
            final(self).wf(),
            final(self).next_id == old(self).next_id,
            final(self).listeners@ == without(old(self).listeners@, seq![id]),
    {
        let ids = vec![id];
        assert(ids@ =~= seq![id]);
        self.remove_all(&ids);
    }
}

} // verus!
