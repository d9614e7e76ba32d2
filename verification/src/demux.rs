//! The event demultiplexer.
//!
//! One ordered stream of heterogeneous events is split into independent
//! sub-streams by predicate. Each registered group owns a predicate and
//! a private buffer; an incoming event is routed into the buffer of the
//! first registered, still-live group whose predicate accepts it, and is
//! dropped when no group matches. Exhaustion of the upstream source is
//! latched and reported to every sub-stream once its buffer is drained.
//!
//! Routing is exclusive: an event lands in at most one buffer, and the
//! relative order of the events inside one buffer equals their upstream
//! order.

use vstd::prelude::*;

verus! {

/// A routing predicate over events of type `E`. Implementors pair an
/// executable test with the specification it decides.
pub trait EventPredicate<E>: Sized {
    /// Whether the predicate accepts the event.
    spec fn accepts(&self, e: &E) -> bool;

    /// Decide [`EventPredicate::accepts`] on a concrete event.
    fn eval(&self, e: &E) -> (r: bool)
        ensures
            r == self.accepts(e),
    ;
}

/// A registered `(predicate, buffer)` pair.
struct DemuxGroup<E, P> {
    predicate: P,
    live: bool,
    buffer: Vec<E>,
}

/// What a sub-stream sees when it polls.
#[derive(Debug, PartialEq, Eq, Structural)]
pub enum DemuxPoll<E> {
    /// The next buffered event of this sub-stream.
    Item(E),
    /// Nothing buffered; the upstream may still produce events.
    Pending,
    /// Nothing buffered and the upstream is exhausted.
    Ended,
}

/// The demultiplexer: an ordered list of registered groups fed from one
/// upstream source.
pub struct Demux<E, P> {
    groups: Vec<DemuxGroup<E, P>>,
    ended: bool,
}

impl<E, P: EventPredicate<E>> Demux<E, P> {
    /// How many groups have been registered, live or not.
    pub closed spec fn group_count(self) -> nat {
        self.groups@.len()
    }

    /// Whether group `i` is still registered for routing.
    pub closed spec fn group_live(self, i: int) -> bool {
        self.groups@[i].live
    }

    /// The predicate of group `i`.
    pub closed spec fn group_pred(self, i: int) -> P {
        self.groups@[i].predicate
    }

    /// The buffered events of group `i`, oldest first.
    pub closed spec fn buffer(self, i: int) -> Seq<E> {
        self.groups@[i].buffer@
    }

    /// Whether upstream exhaustion has been latched.
    pub closed spec fn spec_ended(self) -> bool {
        self.ended
    }

    /// Two demultiplexers route alike: same groups, same predicates,
    /// same liveness.
    pub open spec fn same_groups(self, other: Self) -> bool {
        &&& self.group_count() == other.group_count()
        &&& forall|i: int|
            0 <= i < self.group_count() ==> #[trigger] self.group_pred(i) == other.group_pred(i)
                && self.group_live(i) == other.group_live(i)
    }

    /// The first live group at index `i` or later whose predicate
    /// accepts `e`.
    pub open spec fn route_from(self, e: E, i: int) -> Option<int>
        decreases self.group_count() - i,
    {
        if i < 0 || i >= self.group_count() {
            None
        } else if self.group_live(i) && self.group_pred(i).accepts(&e) {
            Some(i)
        } else {
            self.route_from(e, i + 1)
        }
    }

    /// Where an incoming event is routed: the first live group whose
    /// predicate accepts it, or nowhere.
    pub open spec fn route(self, e: E) -> Option<int> {
        self.route_from(e, 0)
    }

    /// The events of `events`, in order, that are routed to group `gid`.
    pub open spec fn routed_to(self, events: Seq<E>, gid: int) -> Seq<E>
        decreases events.len(),
    {
        if events.len() == 0 {
            Seq::empty()
        } else {
            let prefix = self.routed_to(events.drop_last(), gid);
            if self.route(events.last()) == Some(gid) {
                prefix.push(events.last())
            } else {
                prefix
            }
        }
    }

    /// Routing is decided by the groups alone: demultiplexers with the
    /// same groups route every event alike.
    pub proof fn lemma_route_unchanged(d1: Self, d2: Self, e: E, i: int)
        requires
            d1.same_groups(d2),
        ensures
            d1.route_from(e, i) == d2.route_from(e, i),
        decreases d1.group_count() - i,
    {
        if 0 <= i < d1.group_count() {
            assert(d1.group_pred(i) == d2.group_pred(i));
            assert(d1.group_live(i) == d2.group_live(i));
            Self::lemma_route_unchanged(d1, d2, e, i + 1);
        }
    }

    /// What `route_from` finds: the first match at or after `k`, with no
    /// earlier match in that range.
    proof fn lemma_route_from_props(self, e: E, k: int)
        requires
            0 <= k <= self.group_count(),
        ensures
            match self.route_from(e, k) {
                Some(i) => k <= i < self.group_count() && self.group_live(i)
                    && self.group_pred(i).accepts(&e) && (forall|j: int|
                    k <= j < i ==> !(#[trigger] self.group_live(j)
                        && self.group_pred(j).accepts(&e))),
                None => forall|j: int|
                    k <= j < self.group_count() ==> !(#[trigger] self.group_live(j)
                        && self.group_pred(j).accepts(&e)),
            },
        decreases self.group_count() - k,
    {
        if k < self.group_count() {
            self.lemma_route_from_props(e, k + 1);
        }
    }

    /// Routing is exclusive and first-match: an event is destined for at
    /// most one group, the first live one that accepts it; when no live
    /// group accepts it, it is destined for none.
    pub proof fn lemma_route_exclusive(self, e: E)
        ensures
            match self.route(e) {
                Some(i) => 0 <= i < self.group_count() && self.group_live(i)
                    && self.group_pred(i).accepts(&e) && (forall|j: int|
                    0 <= j < i ==> !(#[trigger] self.group_live(j)
                        && self.group_pred(j).accepts(&e))),
                None => forall|j: int|
                    0 <= j < self.group_count() ==> !(#[trigger] self.group_live(j)
                        && self.group_pred(j).accepts(&e)),
            },
    {
        self.lemma_route_from_props(e, 0);
    }

    /// When no group before `k` matches, routing starts at `k`.
    proof fn lemma_route_skip(self, e: E, k: int)
        requires
            0 <= k <= self.group_count(),
            forall|j: int|
                0 <= j < k ==> !(#[trigger] self.group_live(j) && self.group_pred(j).accepts(&e)),
        ensures
            self.route(e) == self.route_from(e, k),
        decreases k,
    {
        if k > 0 {
            self.lemma_route_skip(e, k - 1);
        }
    }

    /// A fresh demultiplexer: no groups, upstream not exhausted.
    pub fn new() -> (r: Self)
        ensures
            r.group_count() == 0,
            !r.spec_ended(),
    {
        Demux { groups: Vec::new(), ended: false }
    }

    /// Register a new group against the shared upstream. Returns the
    /// group's sub-stream handle; existing groups are untouched and keep
    /// routing priority over the new one.
    pub fn add_group(&mut self, predicate: P) -> (gid: usize)
        ensures
            gid == old(self).group_count(),
            final(self).group_count() == old(self).group_count() + 1,
            final(self).group_pred(gid as int) == predicate,
            final(self).group_live(gid as int),
            final(self).buffer(gid as int) == Seq::<E>::empty(),
            forall|i: int|
                0 <= i < old(self).group_count() ==> #[trigger] final(self).group_pred(i)
                    == old(self).group_pred(i) && final(self).group_live(i) == old(
                    self,
                ).group_live(i) && final(self).buffer(i) == old(self).buffer(i),
            final(self).spec_ended() == old(self).spec_ended(),
    {
        let gid = self.groups.len();
        self.groups.push(DemuxGroup { predicate, live: true, buffer: Vec::new() });
        gid
    }

    /// Latch upstream exhaustion; every sub-stream will see it once its
    /// buffer is drained.
    pub fn finish(&mut self)
        ensures
            final(self).spec_ended(),
            final(self).same_groups(*old(self)),
            forall|i: int|
                0 <= i < old(self).group_count() ==> #[trigger] final(self).buffer(i) == old(
                    self,
                ).buffer(i),
    {
        self.ended = true;
    }

    /// Deregister a sub-stream: its predicate no longer takes part in
    /// routing and its buffered events are discarded. Events that only
    /// it would have matched are dropped from now on.
    pub fn drop_group(&mut self, gid: usize)
        requires
            gid < old(self).group_count(),
        ensures
            final(self).group_count() == old(self).group_count(),
            !final(self).group_live(gid as int),
            final(self).buffer(gid as int) == Seq::<E>::empty(),
            final(self).group_pred(gid as int) == old(self).group_pred(gid as int),
            forall|i: int|
                0 <= i < old(self).group_count() && i != gid ==> #[trigger] final(self).group_pred(
                    i,
                ) == old(self).group_pred(i) && final(self).group_live(i) == old(self).group_live(i)
                    && final(self).buffer(i) == old(self).buffer(i),
            final(self).spec_ended() == old(self).spec_ended(),
    {
        let mut group = self.groups.remove(gid);
        group.live = false;
        group.buffer = Vec::new();
        self.groups.insert(gid, group);
        proof {
            assert forall|i: int| 0 <= i < self.groups@.len() && i != gid implies self.groups@[i]
                == old(self).groups@[i] by {}
        }
    }

    /// Route one upstream event: it is appended to the buffer of the
    /// first live group whose predicate accepts it, and every other
    /// buffer is untouched; an event no live group accepts is dropped.
    /// Returns the receiving group, if any.
    pub fn dispatch(&mut self, e: E) -> (routed: Option<usize>)
        ensures
            final(self).same_groups(*old(self)),
            final(self).spec_ended() == old(self).spec_ended(),
            match old(self).route(e) {
                Some(i) => routed == Some(i as usize) && final(self).buffer(i) == old(self).buffer(
                    i,
                ).push(e) && (forall|j: int|
                    0 <= j < old(self).group_count() && j != i ==> #[trigger] final(self).buffer(j)
                        == old(self).buffer(j)),
                None => routed is None && (forall|j: int|
                    0 <= j < old(self).group_count() ==> #[trigger] final(self).buffer(j) == old(
                        self,
                    ).buffer(j)),
            },
    {
        let mut i: usize = 0;
        let mut found: Option<usize> = None;
        while i < self.groups.len()
            invariant
                *self == *old(self),
                i <= self.group_count(),
                found is None ==> forall|j: int|
                    0 <= j < i ==> !(#[trigger] self.group_live(j) && self.group_pred(j).accepts(
                        &e,
                    )),
                found is Some ==> i >= self.group_count(),
                found matches Some(k) ==> k < self.group_count() && self.group_live(k as int)
                    && self.group_pred(k as int).accepts(&e) && (forall|j: int|
                    0 <= j < k ==> !(#[trigger] self.group_live(j) && self.group_pred(j).accepts(
                        &e,
                    ))),
            decreases self.group_count() - i,
        {
            let group = &self.groups[i];
            if group.live && group.predicate.eval(&e) {
                found = Some(i);
                i = self.groups.len();
            } else {
                i = i + 1;
            }
        }
        match found {
            Some(gid) => {
                proof {
                    self.lemma_route_skip(e, gid as int);
                    assert(self.route(e) == Some(gid as int));
                }
                let mut group = self.groups.remove(gid);
                group.buffer.push(e);
                self.groups.insert(gid, group);
                proof {
                    assert forall|j: int|
                        0 <= j < self.groups@.len() && j != gid implies self.groups@[j] == old(
                        self,
                    ).groups@[j] by {}
                }
                Some(gid)
            },
            None => {
                proof {
                    self.lemma_route_skip(e, self.group_count() as int);
                }
                None
            },
        }
    }

    /// Route a whole upstream sequence, in order. Each group's buffer is
    /// extended by exactly the events routed to it, in upstream order:
    /// within one sub-stream, relative order equals upstream order.
    pub fn dispatch_all(&mut self, events: Vec<E>)
        ensures
            final(self).same_groups(*old(self)),
            final(self).spec_ended() == old(self).spec_ended(),
            forall|g: int|
                0 <= g < old(self).group_count() ==> #[trigger] final(self).buffer(g) == old(
                    self,
                ).buffer(g) + old(self).routed_to(events@, g),
    {
        let ghost orig = events@;
        let mut remaining = events;
        let ghost mut k: int = 0;
        while remaining.len() > 0
            invariant
                0 <= k <= orig.len(),
                remaining@ == orig.skip(k),
                self.same_groups(*old(self)),
                self.spec_ended() == old(self).spec_ended(),
                forall|g: int|
                    0 <= g < old(self).group_count() ==> #[trigger] self.buffer(g) == old(
                        self,
                    ).buffer(g) + old(self).routed_to(orig.take(k), g),
            decreases remaining@.len(),
        {
            let e = remaining.remove(0);
            proof {
                assert(e == orig[k]);
                assert(remaining@ =~= orig.skip(k + 1));
            }
            let ghost pre = *self;
            self.dispatch(e);
            proof {
                Self::lemma_route_unchanged(pre, *old(self), e, 0);
                assert(orig.take(k + 1).drop_last() =~= orig.take(k));
                assert(orig.take(k + 1).last() == orig[k]);
                assert forall|g: int| 0 <= g < old(self).group_count() implies #[trigger] self
                    .buffer(g) == old(self).buffer(g) + old(self).routed_to(orig.take(k + 1), g) by {
                    if old(self).route(orig[k]) == Some(g) {
                        assert(self.buffer(g) == pre.buffer(g).push(e));
                    } else {
                        assert(self.buffer(g) == pre.buffer(g));
                    }
                }
                k = k + 1;
            }
        }
        proof {
            assert(orig.take(k) =~= orig);
        }
    }

    /// Poll one sub-stream: pop its oldest buffered event if it has one;
    /// otherwise report latched upstream exhaustion, or that the
    /// sub-stream must wait for more upstream events.
    pub fn poll_next(&mut self, gid: usize) -> (r: DemuxPoll<E>)
        requires
            gid < old(self).group_count(),
        ensures
            final(self).same_groups(*old(self)),
            final(self).spec_ended() == old(self).spec_ended(),
            forall|j: int|
                0 <= j < old(self).group_count() && j != gid ==> #[trigger] final(self).buffer(j)
                    == old(self).buffer(j),
            if old(self).buffer(gid as int).len() > 0 {
                r == DemuxPoll::Item(old(self).buffer(gid as int)[0]) && final(self).buffer(
                    gid as int,
                ) == old(self).buffer(gid as int).drop_first()
            } else {
                final(self).buffer(gid as int) == old(self).buffer(gid as int) && r == (
                if old(self).spec_ended() {
                    DemuxPoll::<E>::Ended
                } else {
                    DemuxPoll::<E>::Pending
                })
            },
    {
        if self.groups[gid].buffer.len() > 0 {
            let mut group = self.groups.remove(gid);
            let e = group.buffer.remove(0);
            self.groups.insert(gid, group);
            proof {
                assert forall|j: int| 0 <= j < self.groups@.len() && j != gid implies self.groups@[j]
                    == old(self).groups@[j] by {}
                assert(self.buffer(gid as int) =~= old(self).buffer(gid as int).drop_first());
            }
            DemuxPoll::Item(e)
        } else if self.ended {
            DemuxPoll::Ended
        } else {
            DemuxPoll::Pending
        }
    }
}

/// Threshold predicates over numbers: the simplest routing rule, used
/// to group a stream of plain numeric events.
#[derive(Clone, Copy, Debug, PartialEq, Eq, Structural)]
pub enum ThresholdFilter {
    /// Accepts events strictly above the bound.
    Above(usize),
    /// Accepts events strictly below the bound.
    Below(usize),
}

impl EventPredicate<usize> for ThresholdFilter {
    open spec fn accepts(&self, e: &usize) -> bool {
        match *self {
            ThresholdFilter::Above(bound) => *e > bound,
            ThresholdFilter::Below(bound) => *e < bound,
        }
    }

    fn eval(&self, e: &usize) -> (r: bool)
        ensures
            r == self.accepts(e),
    {
        match *self {
            ThresholdFilter::Above(bound) => *e > bound,
            ThresholdFilter::Below(bound) => *e < bound,
        }
    }
}

} // verus!
