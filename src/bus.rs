use vstd::prelude::*;
use std::collections::VecDeque;
use crate::demand::DemandCounter;

verus! {

/// The queue after `p` arrives at a queue bounded by `cap`: the newest entries
/// stay, and the oldest leave first.
pub open spec fn push_evict(q: Seq<Seq<u8>>, p: Seq<u8>, cap: nat) -> Seq<Seq<u8>> {
    newest(q.push(p), cap)
}

/// The last `cap` entries of `s`, or all of `s` when it is no longer.
pub open spec fn newest(s: Seq<Seq<u8>>, cap: nat) -> Seq<Seq<u8>> {
    if s.len() > cap {
        s.subrange(s.len() - cap, s.len() as int)
    } else {
        s
    }
}

/// Every queue of `m` after one publish of `p`.
pub open spec fn published(m: Map<u64, Seq<Seq<u8>>>, p: Seq<u8>, cap: nat) -> Map<
    u64,
    Seq<Seq<u8>>,
> {
    Map::new(|id: u64| m.contains_key(id), |id: u64| push_evict(m[id], p, cap))
}

/// The deep view of a queue of byte buffers.
pub open spec fn contents_of(q: Seq<Vec<u8>>) -> Seq<Seq<u8>> {
    q.map_values(|v: Vec<u8>| v@)
}

/// The handle a viewer holds on its queue.
pub struct Subscription {
    id: u64,
}

impl Subscription {
    pub closed spec fn key(&self) -> u64 {
        self.id
    }

    pub fn id(&self) -> (r: u64)
        ensures
            r == self.key(),
    {
        self.id
    }
}

struct ViewerQueue {
    id: u64,
    packets: VecDeque<Vec<u8>>,
}

/// Fans each published message out to one bounded queue per registered
/// viewer. A full queue loses its oldest message, so publishing never waits
/// on a viewer, and the number of registered viewers is the demand.
pub struct BroadcastBus {
    capacity: usize,
    next_id: u64,
    queues: Vec<ViewerQueue>,
    demand: DemandCounter,
    model: Ghost<Map<u64, Seq<Seq<u8>>>>,
}

impl View for BroadcastBus {
    type V = Map<u64, Seq<Seq<u8>>>;

    closed spec fn view(&self) -> Map<u64, Seq<Seq<u8>>> {
        self.model@
    }
}

impl BroadcastBus {
    /// How many messages a viewer queue holds at most.
    pub closed spec fn cap(&self) -> nat {
        self.capacity as nat
    }

    /// How many subscriptions have been handed out so far.
    pub closed spec fn issued(&self) -> nat {
        self.next_id as nat
    }

    pub closed spec fn demand_value(&self) -> nat {
        self.demand.value()
    }

    pub closed spec fn internal_wf(&self) -> bool {
        &&& self.model@.dom().finite()
        &&& self.model@.dom().len() == self.queues@.len()
        &&& self.demand.value() == self.queues@.len()
        &&& self.queues@.len() <= self.next_id
        &&& forall|i: int|
            #![trigger self.queues@[i]]
            0 <= i < self.queues@.len() ==> {
                &&& self.queues@[i].id < self.next_id
                &&& self.model@.contains_key(self.queues@[i].id)
                &&& self.model@[self.queues@[i].id] == contents_of(self.queues@[i].packets@)
            }
        &&& forall|i: int, j: int|
            0 <= i < j < self.queues@.len() ==> #[trigger] self.queues@[i].id
                != #[trigger] self.queues@[j].id
        &&& forall|id: u64| #[trigger]
            self.model@.contains_key(id) ==> exists|i: int|
                0 <= i < self.queues@.len() && #[trigger] self.queues@[i].id == id
        &&& forall|id: u64| #[trigger]
            self.model@.contains_key(id) ==> self.model@[id].len() <= self.capacity
    }

    /// The bus is consistent: one queue per live subscription, each within
    /// capacity, and the demand equal to the number of live subscriptions.
    pub open spec fn wf(&self) -> bool {
        &&& self.internal_wf()
        &&& self.demand_value() == self@.dom().len()
        &&& forall|id: u64| #[trigger]
            self@.contains_key(id) ==> id < self.issued() && self@[id].len() <= self.cap()
    }

    /// A bus with no viewers whose queues hold at most `capacity` messages.
    pub fn new(capacity: usize) -> (r: BroadcastBus)
        ensures
            r.wf(),
            r@ == Map::<u64, Seq<Seq<u8>>>::empty(),
            r.cap() == capacity,
            r.issued() == 0,
    {
        BroadcastBus {
            capacity,
            next_id: 0,
            queues: Vec::new(),
            demand: DemandCounter::new(),
            model: Ghost(Map::empty()),
        }
    }

    pub fn capacity(&self) -> (r: usize)
        ensures
            r == self.cap(),
    {
        self.capacity
    }

    /// The number of registered viewers.
    pub fn demand(&self) -> (r: u64)
        ensures
            r == self.demand_value(),
    {
        self.demand.get()
    }

    /// Whether any viewer is registered.
    pub fn poll_demand(&self) -> (r: bool)
        ensures
            r == (self.demand_value() > 0),
    {
        self.demand.poll_demand()
    }

    fn position(&self, id: u64) -> (r: Option<usize>)
        requires
            self.wf(),
        ensures
            match r {
                Some(i) => i < self.queues@.len() && self.queues@[i as int].id == id,
                None => !self@.contains_key(id),
            },
    {
        let mut i: usize = 0;
        while i < self.queues.len()
            invariant
                self.wf(),
                i <= self.queues@.len(),
                forall|j: int| 0 <= j < i ==> #[trigger] self.queues@[j].id != id,
            decreases self.queues@.len() - i,
        {
            if self.queues[i].id == id {
                return Some(i);
            }
            i = i + 1;
        }
        None
    }

    /// Opens an empty queue for a new viewer and counts it in the demand.
    /// Refused only once every subscription number has been handed out.
    pub fn register(&mut self) -> (r: Option<Subscription>)
        requires
            old(self).wf(),
        ensures
            final(self).wf(),
            final(self).cap() == old(self).cap(),
            (final(self)@.dom(), final(self).issued()) == apply_change(
                old(self)@.dom(),
                old(self).issued(),
                ViewerChange::Register,
            ),
            r is Some <==> old(self).issued() < u64::MAX,
            match r {
                Some(s) => {
                    &&& s.key() == old(self).issued()
                    &&& !old(self)@.contains_key(s.key())
                    &&& final(self)@ == old(self)@.insert(s.key(), Seq::empty())
                    &&& final(self).issued() == old(self).issued() + 1
                    &&& final(self).demand_value() == old(self).demand_value() + 1
                },
                None => {
                    &&& final(self)@ == old(self)@
                    &&& final(self).issued() == old(self).issued()
                    &&& final(self).demand_value() == old(self).demand_value()
                },
            },
    {
        if self.next_id == u64::MAX {
            return None;
        }
        let ghost old_dom = self.model@.dom();
        let id = self.next_id;
        proof {
            assert(!self.model@.contains_key(id));
        }
        let ghost old_queues = self.queues@;
        self.queues.push(ViewerQueue { id, packets: VecDeque::new() });
        self.demand.increment();
        self.next_id = id + 1;
        self.model = Ghost(self.model@.insert(id, Seq::empty()));
        proof {
            let n = old_queues.len() as int;
            assert(self.model@.dom() =~= old_dom.insert(id));
            assert(self.queues@[n].packets@ == Seq::<Vec<u8>>::empty());
            assert(contents_of(self.queues@[n].packets@) =~= Seq::<Seq<u8>>::empty());
            assert forall|i: int|
                0 <= i < n implies #[trigger] self.queues@[i] == old_queues[i] by {}
            assert forall|k: u64| #[trigger]
                self.model@.contains_key(k) implies exists|i: int|
                    0 <= i < self.queues@.len() && #[trigger] self.queues@[i].id == k by {
                if k != id {
                    let i = choose|i: int| 0 <= i < old_queues.len() && old_queues[i].id == k;
                    assert(self.queues@[i].id == k);
                } else {
                    assert(self.queues@[n].id == k);
                }
            }
        }
        Some(Subscription { id })
    }

    /// Removes the viewer's queue and takes it out of the demand. A handle
    /// that is no longer registered changes nothing, so each registration
    /// is taken out of the demand at most once.
    pub fn deregister(&mut self, sub: &Subscription) -> (r: bool)
        requires
            old(self).wf(),
        ensures
            final(self).wf(),
            final(self).cap() == old(self).cap(),
            final(self).issued() == old(self).issued(),
            r == old(self)@.contains_key(sub.key()),
            final(self)@ == old(self)@.remove(sub.key()),
            (final(self)@.dom(), final(self).issued()) == apply_change(
                old(self)@.dom(),
                old(self).issued(),
                ViewerChange::Deregister(sub.key()),
            ),
            r ==> final(self).demand_value() + 1 == old(self).demand_value(),
            !r ==> final(self).demand_value() == old(self).demand_value(),
    {
        match self.position(sub.id) {
            None => {
                proof {
                    assert(self.model@.remove(sub.id) =~= self.model@);
                    assert(self.model@.dom().remove(sub.id) =~= self.model@.dom());
                }
                false
            },
            Some(i) => {
                let ghost old_queues = self.queues@;
                let ghost id = sub.id;
                let ghost old_dom = self.model@.dom();
                let _gone = self.queues.remove(i);
                self.demand.decrement();
                self.model = Ghost(self.model@.remove(sub.id));
                proof {
                    assert(self.model@.dom() =~= old_dom.remove(id));
                    assert forall|j: int|
                        0 <= j < self.queues@.len() implies #[trigger] self.queues@[j] == (
                        if j < i {
                            old_queues[j]
                        } else {
                            old_queues[j + 1]
                        }) by {}
                    assert forall|j: int|
                        #![trigger self.queues@[j]]
                        0 <= j < self.queues@.len() implies self.queues@[j].id != id by {
                        if j < i {
                            assert(old_queues[j].id != old_queues[i as int].id);
                        } else {
                            assert(old_queues[j + 1].id != old_queues[i as int].id);
                        }
                    }
                    assert forall|k: u64| #[trigger]
                        self.model@.contains_key(k) implies exists|j: int|
                            0 <= j < self.queues@.len() && #[trigger] self.queues@[j].id == k by {
                        let j = choose|j: int| 0 <= j < old_queues.len() && old_queues[j].id == k;
                        if j < i {
                            assert(self.queues@[j].id == k);
                        } else {
                            assert(j != i);
                            assert(self.queues@[j - 1].id == k);
                        }
                    }
                    assert forall|a: int, b: int|
                        0 <= a < b < self.queues@.len() implies #[trigger] self.queues@[a].id
                            != #[trigger] self.queues@[b].id by {
                        let a0 = if a < i { a } else { a + 1 };
                        let b0 = if b < i { b } else { b + 1 };
                        assert(old_queues[a0].id != old_queues[b0].id);
                    }
                }
                true
            },
        }
    }

    /// Appends a copy of `msg` to every viewer queue; a queue already at
    /// capacity drops its oldest message first. No queue depends on another.
    pub fn publish(&mut self, msg: &Vec<u8>)
        requires
            old(self).wf(),
        ensures
            final(self).wf(),
            final(self).cap() == old(self).cap(),
            final(self).issued() == old(self).issued(),
            final(self).demand_value() == old(self).demand_value(),
            final(self)@ == published(old(self)@, msg@, old(self).cap()),
    {
        let ghost old_queues = self.queues@;
        let ghost cap = self.capacity as nat;
        let mut i: usize = 0;
        while i < self.queues.len()
            invariant
                self.queues@.len() == old_queues.len(),
                i <= self.queues@.len(),
                cap == self.capacity,
                old(self).wf(),
                old_queues == old(self).queues@,
                self.model == old(self).model,
                self.capacity == old(self).capacity,
                self.next_id == old(self).next_id,
                self.demand == old(self).demand,
                forall|j: int|
                    #![trigger self.queues@[j]]
                    0 <= j < self.queues@.len() ==> self.queues@[j].id == old_queues[j].id,
                forall|j: int|
                    #![trigger self.queues@[j]]
                    0 <= j < i ==> contents_of(self.queues@[j].packets@) == push_evict(
                        contents_of(old_queues[j].packets@),
                        msg@,
                        cap,
                    ),
                forall|j: int|
                    #![trigger self.queues@[j]]
                    i <= j < self.queues@.len() ==> self.queues@[j] == old_queues[j],
                forall|j: int|
                    #![trigger old_queues[j]]
                    0 <= j < old_queues.len() ==> contents_of(old_queues[j].packets@).len()
                        <= cap,
            decreases self.queues@.len() - i,
        {
            let copy = msg.clone();
            proof {
                assert(copy@ =~= msg@);
            }
            let ghost before = contents_of(self.queues@[i as int].packets@);
            self.queues[i].packets.push_back(copy);
            proof {
                assert(contents_of(self.queues@[i as int].packets@) =~= before.push(msg@));
            }
            if self.queues[i].packets.len() > self.capacity {
                let _oldest = self.queues[i].packets.pop_front();
                proof {
                    assert(contents_of(self.queues@[i as int].packets@) =~= before.push(
                        msg@,
                    ).subrange(1, before.len() as int + 1));
                }
            }
            i = i + 1;
        }
        self.model = Ghost(published(self.model@, msg@, cap));
        proof {
            assert forall|j: int|
                #![trigger self.queues@[j]]
                0 <= j < self.queues@.len() implies self.model@[self.queues@[j].id] == contents_of(
                    self.queues@[j].packets@,
                ) by {}
            assert(self.model@.dom() =~= old(self).model@.dom());
            assert forall|k: u64| #[trigger]
                self.model@.contains_key(k) implies exists|j: int|
                    0 <= j < self.queues@.len() && #[trigger] self.queues@[j].id == k by {
                let j = choose|j: int| 0 <= j < old_queues.len() && old_queues[j].id == k;
                assert(self.queues@[j].id == k);
            }
            assert forall|k: u64| #[trigger]
                self.model@.contains_key(k) implies self.model@[k].len() <= self.capacity by {
                assert(old(self).model@[k].len() <= cap);
            }
        }
    }

    /// Hands the viewer its oldest waiting message, if it has one.
    pub fn next(&mut self, sub: &Subscription) -> (r: Option<Vec<u8>>)
        requires
            old(self).wf(),
        ensures
            final(self).wf(),
            final(self).cap() == old(self).cap(),
            final(self).issued() == old(self).issued(),
            final(self).demand_value() == old(self).demand_value(),
            ({
                let id = sub.key();
                if old(self)@.contains_key(id) && old(self)@[id].len() > 0 {
                    &&& r is Some
                    &&& r->Some_0@ == old(self)@[id][0]
                    &&& final(self)@ == old(self)@.insert(id, old(self)@[id].drop_first())
                } else {
                    &&& r is None
                    &&& final(self)@ == old(self)@
                }
            }),
    {
        match self.position(sub.id) {
            None => None,
            Some(i) => {
                if self.queues[i].packets.len() == 0 {
                    proof {
                        assert(contents_of(self.queues@[i as int].packets@).len() == 0);
                    }
                    return None;
                }
                let ghost old_queues = self.queues@;
                let ghost before = contents_of(self.queues@[i as int].packets@);
                let first = self.queues[i].packets.pop_front();
                self.model = Ghost(self.model@.insert(sub.id, before.drop_first()));
                proof {
                    assert(contents_of(self.queues@[i as int].packets@) =~= before.drop_first());
                    assert forall|j: int|
                        0 <= j < self.queues@.len() && j != i implies #[trigger] self.queues@[j]
                            == old_queues[j] by {}
                    assert(self.model@.dom() =~= old(self).model@.dom());
                    assert forall|k: u64| #[trigger]
                        self.model@.contains_key(k) implies exists|j: int|
                            0 <= j < self.queues@.len() && #[trigger] self.queues@[j].id == k by {
                        let j = choose|j: int| 0 <= j < old_queues.len() && old_queues[j].id == k;
                        assert(self.queues@[j].id == k);
                    }
                }
                first
            },
        }
    }

    /// How many messages wait for the viewer, or `None` for a handle that is
    /// no longer registered.
    pub fn pending(&self, sub: &Subscription) -> (r: Option<usize>)
        requires
            self.wf(),
        ensures
            match r {
                Some(n) => self@.contains_key(sub.key()) && n == self@[sub.key()].len(),
                None => !self@.contains_key(sub.key()),
            },
    {
        match self.position(sub.id) {
            None => None,
            Some(i) => Some(self.queues[i].packets.len()),
        }
    }
}

/// Publishing the messages `ps`, in order, onto the queue `q` bounded by `cap`.
pub open spec fn publish_all(q: Seq<Seq<u8>>, ps: Seq<Seq<u8>>, cap: nat) -> Seq<Seq<u8>>
    decreases ps.len(),
{
    if ps.len() == 0 {
        q
    } else {
        push_evict(publish_all(q, ps.drop_last(), cap), ps.last(), cap)
    }
}

proof fn lemma_newest_push(s: Seq<Seq<u8>>, x: Seq<u8>, cap: nat)
    ensures
        newest(newest(s, cap).push(x), cap) == newest(s.push(x), cap),
{
    let t = s.push(x);
    if s.len() > cap {
        let n = newest(s, cap);
        assert(n.push(x).len() == cap + 1);
        assert(newest(n.push(x), cap) =~= newest(t, cap));
    } else {
        assert(newest(s, cap) == s);
    }
}

/// A queue bounded by `cap` that nobody drains holds, after any run of
/// publishes, exactly the newest `cap` messages of all that reached it, in
/// the order they were published: the oldest are the ones evicted.
pub proof fn lemma_fan_out_bound(q: Seq<Seq<u8>>, ps: Seq<Seq<u8>>, cap: nat)
    requires
        q.len() <= cap,
    ensures
        publish_all(q, ps, cap) == newest(q + ps, cap),
        publish_all(q, ps, cap).len() <= cap,
    decreases ps.len(),
{
    if ps.len() == 0 {
        assert(q + ps =~= q);
    } else {
        let init = ps.drop_last();
        lemma_fan_out_bound(q, init, cap);
        lemma_newest_push(q + init, ps.last(), cap);
        assert((q + init).push(ps.last()) =~= q + ps);
    }
}

/// Publishing one message more than a fresh queue holds, with nothing
/// consumed, leaves exactly the most recent `cap` messages: the first one
/// published is the one evicted.
pub proof fn lemma_one_over_capacity(ps: Seq<Seq<u8>>, cap: nat)
    requires
        ps.len() == cap + 1,
    ensures
        publish_all(Seq::empty(), ps, cap) == ps.subrange(1, cap as int + 1),
{
    lemma_fan_out_bound(Seq::empty(), ps, cap);
    assert(Seq::<Seq<u8>>::empty() + ps =~= ps);
}

/// A viewer's queue after a publish depends on that queue and the message
/// alone: what another viewer has left undrained has no effect on it, the
/// message is at its end, and no queue, drained or not, grows past `cap`.
pub proof fn lemma_isolation(
    a: Map<u64, Seq<Seq<u8>>>,
    b: Map<u64, Seq<Seq<u8>>>,
    id: u64,
    p: Seq<u8>,
    cap: nat,
)
    requires
        a.contains_key(id),
        b.contains_key(id),
        a[id] == b[id],
        cap > 0,
    ensures
        published(a, p, cap)[id] == published(b, p, cap)[id],
        published(a, p, cap)[id].last() == p,
        a[id].len() <= cap ==> published(a, p, cap)[id].len() <= cap,
{
}

/// A change to the set of viewers.
pub enum ViewerChange {
    Register,
    Deregister(u64),
}

/// The live subscriptions and the number handed out, after one change made
/// through `register` or `deregister`.
pub open spec fn apply_change(live: Set<u64>, issued: nat, c: ViewerChange) -> (Set<u64>, nat) {
    match c {
        ViewerChange::Register => if issued < u64::MAX {
            (live.insert(issued as u64), issued + 1)
        } else {
            (live, issued)
        },
        ViewerChange::Deregister(id) => (live.remove(id), issued),
    }
}

/// The state after a sequence of changes.
pub open spec fn apply_changes(live: Set<u64>, issued: nat, cs: Seq<ViewerChange>) -> (
    Set<u64>,
    nat,
)
    decreases cs.len(),
{
    if cs.len() == 0 {
        (live, issued)
    } else {
        let prev = apply_changes(live, issued, cs.drop_last());
        apply_change(prev.0, prev.1, cs.last())
    }
}

/// How many of the changes registered a viewer.
pub open spec fn registrations(live: Set<u64>, issued: nat, cs: Seq<ViewerChange>) -> nat
    decreases cs.len(),
{
    if cs.len() == 0 {
        0
    } else {
        let prev = apply_changes(live, issued, cs.drop_last());
        registrations(live, issued, cs.drop_last()) + match cs.last() {
            ViewerChange::Register => if prev.1 < u64::MAX {
                1nat
            } else {
                0nat
            },
            ViewerChange::Deregister(_) => 0nat,
        }
    }
}

/// How many of the changes took a registered viewer away.
pub open spec fn deregistrations(live: Set<u64>, issued: nat, cs: Seq<ViewerChange>) -> nat
    decreases cs.len(),
{
    if cs.len() == 0 {
        0
    } else {
        let prev = apply_changes(live, issued, cs.drop_last());
        deregistrations(live, issued, cs.drop_last()) + match cs.last() {
            ViewerChange::Register => 0nat,
            ViewerChange::Deregister(id) => if prev.0.contains(id) {
                1nat
            } else {
                0nat
            },
        }
    }
}

proof fn lemma_changes_fresh(live: Set<u64>, issued: nat, cs: Seq<ViewerChange>)
    requires
        live.finite(),
        forall|x: u64| live.contains(x) ==> x < issued,
    ensures
        apply_changes(live, issued, cs).0.finite(),
        forall|x: u64| apply_changes(live, issued, cs).0.contains(x) ==> x < apply_changes(live, issued, cs).1,
        apply_changes(live, issued, cs).0.len() + deregistrations(live, issued, cs) == live.len()
            + registrations(live, issued, cs),
    decreases cs.len(),
{
    if cs.len() > 0 {
        lemma_changes_fresh(live, issued, cs.drop_last());
    }
}

/// Starting from a new bus, for any sequence of registrations and
/// deregistrations (a viewer that drops off is deregistered like any other),
/// the demand afterwards is the number of registrations minus the number of
/// deregistrations that took a registered viewer away, and that difference
/// is never negative, after the whole sequence as after each prefix of it.
pub proof fn lemma_demand_accounting(cs: Seq<ViewerChange>)
    ensures
        apply_changes(Set::empty(), 0, cs).0.len() == registrations(Set::empty(), 0, cs)
            - deregistrations(Set::empty(), 0, cs),
        deregistrations(Set::empty(), 0, cs) <= registrations(Set::empty(), 0, cs),
{
    lemma_changes_fresh(Set::empty(), 0, cs);
}

/// One viewer's session: registering it and later deregistering it, however
/// the connection ended, leaves the live viewers, and so the demand, where
/// they were; in between the demand is one higher. This holds while
/// subscription numbers remain to be handed out.
pub proof fn lemma_session_round_trip(live: Set<u64>, issued: nat)
    requires
        live.finite(),
        issued < u64::MAX,
        forall|x: u64| live.contains(x) ==> x < issued,
    ensures
        ({
            let during = apply_change(live, issued, ViewerChange::Register);
            let after = apply_change(during.0, during.1, ViewerChange::Deregister(issued as u64));
            &&& during.0.len() == live.len() + 1
            &&& after.0 == live
            &&& after.0.len() == live.len()
        }),
{
    assert(!live.contains(issued as u64));
    assert(live.insert(issued as u64).remove(issued as u64) =~= live);
}

} // verus!
