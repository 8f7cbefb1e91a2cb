//! The event bus: a bounded broadcast channel of [`AxonEvent`].
//!
//! The bus keeps the most recent `capacity` events. Publishing never waits
//! for a subscriber. A subscriber holds its own cursor into the history of
//! everything published; when it falls behind the retained window it is
//! told how many events it missed and resumes from the oldest retained one.
//!
//! The model of the bus is the whole history of accepted events. The
//! executable bus stores only the retained window, in a ring, and is
//! proved to answer every receive exactly as the model does.

use vstd::prelude::*;
use crate::event::event::{AxonEvent, EventView};

verus! {

/// Mathematical model of the bus.
pub struct BusView {
    /// How many events are retained for slow subscribers.
    pub capacity: nat,
    /// Every event accepted so far, in publish order.
    pub log: Seq<EventView>,
    /// Whether the bus was closed.
    pub closed: bool,
}

/// What one receive attempt yields, as a mathematical value.
pub enum RecvView {
    /// The next event in publish order.
    Event(EventView),
    /// The subscriber fell behind; this many events were dropped for it.
    Lagged(nat),
    /// Nothing new yet.
    Empty,
    /// The bus is closed and everything retained was delivered.
    Closed,
}

/// Largest number of events one bus accepts over its lifetime.
pub open spec fn position_limit() -> nat {
    u64::MAX as nat
}

impl BusView {
    /// Position of the oldest event still retained.
    pub open spec fn oldest(self) -> nat {
        if self.log.len() > self.capacity {
            (self.log.len() - self.capacity) as nat
        } else {
            0
        }
    }

    /// Whether the next publish is accepted.
    pub open spec fn accepts(self) -> bool {
        !self.closed && self.log.len() < position_limit()
    }

    /// The bus after one publish: the event is appended unless the bus is
    /// closed or its position counter is exhausted, in which case it is dropped.
    pub open spec fn publish(self, e: EventView) -> BusView {
        if self.accepts() {
            BusView { log: self.log.push(e), ..self }
        } else {
            self
        }
    }

    /// The bus after publishing `es` one after another.
    pub open spec fn publish_all(self, es: Seq<EventView>) -> BusView
        decreases es.len(),
    {
        if es.len() == 0 {
            self
        } else {
            self.publish_all(es.drop_last()).publish(es.last())
        }
    }

    /// The bus after closing.
    pub open spec fn close(self) -> BusView {
        BusView { closed: true, ..self }
    }

    /// One receive attempt by a subscriber whose cursor is `cursor`:
    /// the new cursor and what is delivered.
    pub open spec fn recv(self, cursor: nat) -> (nat, RecvView) {
        if cursor < self.oldest() {
            (self.oldest(), RecvView::Lagged((self.oldest() - cursor) as nat))
        } else if cursor < self.log.len() {
            (cursor + 1, RecvView::Event(self.log[cursor as int]))
        } else if self.closed {
            (cursor, RecvView::Closed)
        } else {
            (cursor, RecvView::Empty)
        }
    }

    /// `n` receive attempts in a row with no publish in between:
    /// the final cursor and everything delivered, in order.
    pub open spec fn drain(self, cursor: nat, n: nat) -> (nat, Seq<RecvView>)
        decreases n,
    {
        if n == 0 {
            (cursor, Seq::empty())
        } else {
            let (next, first) = self.recv(cursor);
            let (last, rest) = self.drain(next, (n - 1) as nat);
            (last, seq![first] + rest)
        }
    }
}

/// The events `es` as successful deliveries.
pub open spec fn delivered(es: Seq<EventView>) -> Seq<RecvView> {
    Seq::new(es.len(), |i: int| RecvView::Event(es[i]))
}

/// What one receive attempt yields.
#[derive(Debug, Clone, PartialEq, Eq)]
pub enum RecvOutcome {
    Event(AxonEvent),
    Lagged(u64),
    Empty,
    Closed,
}

impl View for RecvOutcome {
    type V = RecvView;

    open spec fn view(&self) -> RecvView {
        match *self {
            RecvOutcome::Event(e) => RecvView::Event(e@),
            RecvOutcome::Lagged(n) => RecvView::Lagged(n as nat),
            RecvOutcome::Empty => RecvView::Empty,
            RecvOutcome::Closed => RecvView::Closed,
        }
    }
}

/// The publishing side of the bus; it owns the retained window.
///
/// The window is a ring: the event published at position `p` lies in slot
/// `p % capacity` until the event at position `p + capacity` replaces it.
pub struct EventBus {
    capacity: usize,
    slots: Vec<AxonEvent>,
    published: u64,
    closed: bool,
    log: Ghost<Seq<EventView>>,
}

/// Two positions less than `size` apart lie in different slots of a ring
/// of that size.
proof fn lemma_slots_differ(a: int, b: int, size: int)
    requires
        size > 0,
        0 <= a < b < a + size,
    ensures
        a % size != b % size,
{
    if a % size == b % size {
        vstd::arithmetic::div_mod::lemma_fundamental_div_mod(a, size);
        vstd::arithmetic::div_mod::lemma_fundamental_div_mod(b, size);
        let k = b / size - a / size;
        assert(b - a == size * k) by (nonlinear_arith)
            requires
                a == size * (a / size) + a % size,
                b == size * (b / size) + b % size,
                a % size == b % size,
                k == b / size - a / size,
        ;
        assert(false) by (nonlinear_arith)
            requires
                size > 0,
                0 < size * k < size,
        ;
    }
}

/// Name under which publishers hold the bus.
pub type EventSender = EventBus;

/// A subscriber's independent receive stream: a cursor into the history.
#[derive(Debug)]
pub struct EventReceiver {
    next: u64,
}

impl View for EventReceiver {
    type V = nat;

    closed spec fn view(&self) -> nat {
        self.next as nat
    }
}

impl View for EventBus {
    type V = BusView;

    closed spec fn view(&self) -> BusView {
        BusView { capacity: self.capacity as nat, log: self.log@, closed: self.closed }
    }
}

impl EventBus {
    /// The slot of a position.
    spec fn slot(&self, position: int) -> int {
        position % (self.capacity as int)
    }

    /// The ring holds exactly the tail of the history, each event in the
    /// slot of its position.
    pub closed spec fn wf(&self) -> bool {
        &&& self.capacity > 0
        &&& self.published as nat == self.log@.len()
        &&& self.slots@.len() + self@.oldest() == self.log@.len()
        &&& forall|p: int|
            self@.oldest() <= p < self.log@.len() ==> self.slots@[self.slot(p)]@
                == #[trigger] self.log@[p]
    }

    /// An open bus with nothing published.
    pub fn new(capacity: usize) -> (bus: EventBus)
        requires
            capacity > 0,
        ensures
            bus.wf(),
            bus@ == (BusView { capacity: capacity as nat, log: Seq::empty(), closed: false }),
    {
        EventBus {
            capacity,
            slots: Vec::new(),
            published: 0,
            closed: false,
            log: Ghost(Seq::empty()),
        }
    }

    /// Number of events this bus retains.
    pub fn capacity(&self) -> (n: usize)
        ensures
            n as nat == self@.capacity,
    {
        self.capacity
    }

    /// Number of events accepted so far.
    pub fn published(&self) -> (n: u64)
        requires
            self.wf(),
        ensures
            n as nat == self@.log.len(),
    {
        self.published
    }

    /// Whether the bus was closed.
    pub fn is_closed(&self) -> (b: bool)
        ensures
            b == self@.closed,
    {
        self.closed
    }

    /// Publishes one event without waiting for anyone. Returns whether the
    /// event was accepted; an event offered to a closed bus is dropped.
    pub fn publish(&mut self, event: AxonEvent) -> (accepted: bool)
        requires
            old(self).wf(),
        ensures
            final(self).wf(),
            final(self)@ == old(self)@.publish(event@),
            accepted == old(self)@.accepts(),
    {
        if self.closed || self.published == u64::MAX {
            return false;
        }
        let ghost before = self@;
        let ghost old_slots = self.slots@;
        let ghost size = self.capacity as int;
        let ghost position = self.published as int;
        proof {
            vstd::arithmetic::div_mod::lemma_mod_bound(position, size);
        }
        if self.slots.len() < self.capacity {
            proof {
                vstd::arithmetic::div_mod::lemma_small_mod(position as nat, size as nat);
            }
            self.slots.push(event);
        } else {
            let at: usize = (self.published % (self.capacity as u64)) as usize;
            self.slots.set(at, event);
        }
        self.published = self.published + 1;
        self.log = Ghost(before.log.push(event@));
        proof {
            let after = self@;
            assert(after == before.publish(event@));
            assert(self.slots@[self.slot(position)]@ == event@);
            assert forall|p: int|
                after.oldest() <= p < after.log.len() implies self.slots@[self.slot(p)]@
                == #[trigger] after.log[p] by {
                vstd::arithmetic::div_mod::lemma_mod_bound(p, size);
                if p < position {
                    if old_slots.len() < size {
                        vstd::arithmetic::div_mod::lemma_small_mod(p as nat, size as nat);
                    } else {
                        lemma_slots_differ(p, position, size);
                    }
                    assert(self.slots@[self.slot(p)] == old_slots[self.slot(p)]);
                    assert(old_slots[self.slot(p)]@ == before.log[p]);
                }
            }
        }
        true
    }

    /// A new receive stream that starts at the current publish position.
    pub fn subscribe(&self) -> (rx: EventReceiver)
        requires
            self.wf(),
        ensures
            rx@ == self@.log.len(),
    {
        EventReceiver { next: self.published }
    }

    /// Closes the bus: later publishes are dropped, and every subscriber is
    /// told so once it has received what was retained.
    pub fn close(&mut self)
        requires
            old(self).wf(),
        ensures
            final(self).wf(),
            final(self)@ == old(self)@.close(),
    {
        self.closed = true;
    }
}

impl EventReceiver {
    /// Position of the next event this subscriber expects.
    pub fn position(&self) -> (n: u64)
        ensures
            n as nat == self@,
    {
        self.next
    }

    /// One receive attempt; never waits.
    pub fn try_recv(&mut self, bus: &EventBus) -> (out: RecvOutcome)
        requires
            bus.wf(),
        ensures
            (final(self)@, out@) == bus@.recv(old(self)@),
    {
        let retained: u64 = bus.slots.len() as u64;
        let oldest: u64 = bus.published - retained;
        if self.next < oldest {
            let missed: u64 = oldest - self.next;
            self.next = oldest;
            RecvOutcome::Lagged(missed)
        } else if self.next < bus.published {
            proof {
                vstd::arithmetic::div_mod::lemma_mod_bound(self.next as int, bus.capacity as int);
                if bus.slots@.len() < bus.capacity {
                    vstd::arithmetic::div_mod::lemma_small_mod(
                        self.next as nat,
                        bus.capacity as nat,
                    );
                }
            }
            let at: usize = (self.next % (bus.capacity as u64)) as usize;
            let event = bus.slots[at].duplicate();
            assert(event@ == bus.log@[self.next as int]);
            self.next = self.next + 1;
            RecvOutcome::Event(event)
        } else if bus.closed {
            RecvOutcome::Closed
        } else {
            RecvOutcome::Empty
        }
    }
}

/// Creates a bus that retains `capacity` events, with a first subscriber.
pub fn create_event_bus(capacity: usize) -> (pair: (EventSender, EventReceiver))
    requires
        capacity > 0,
    ensures
        pair.0.wf(),
        pair.0@ == (BusView { capacity: capacity as nat, log: Seq::empty(), closed: false }),
        pair.1@ == 0,
{
    let bus = EventBus::new(capacity);
    let rx = bus.subscribe();
    (bus, rx)
}

/// Like [`create_event_bus`], for a capacity that was not validated:
/// a capacity of zero yields nothing.
pub fn try_create_event_bus(capacity: usize) -> (made: Option<(EventSender, EventReceiver)>)
    ensures
        (made is Some) == (capacity > 0),
        made matches Some(pair) ==> {
            &&& pair.0.wf()
            &&& pair.0@ == (BusView { capacity: capacity as nat, log: Seq::empty(), closed: false })
            &&& pair.1@ == 0
        },
{
    if capacity > 0 {
        Some(create_event_bus(capacity))
    } else {
        None
    }
}

/// Publishing a batch to an open bus with room in its counter appends the
/// batch to the history and changes nothing else.
pub proof fn lemma_publish_all_appends(b: BusView, es: Seq<EventView>)
    requires
        !b.closed,
        b.log.len() + es.len() <= position_limit(),
    ensures
        b.publish_all(es) == (BusView { log: b.log + es, ..b }),
    decreases es.len(),
{
    if es.len() == 0 {
        assert(b.log + es =~= b.log);
    } else {
        lemma_publish_all_appends(b, es.drop_last());
        assert((b.log + es.drop_last()).push(es.last()) =~= b.log + es);
    }
}

/// Publishing never rewrites history: what was published before is still
/// there, at the same positions.
pub proof fn lemma_publish_keeps_history(b: BusView, e: EventView)
    ensures
        b.log.len() <= b.publish(e).log.len(),
        b.publish(e).log.subrange(0, b.log.len() as int) == b.log,
        b.oldest() <= b.publish(e).oldest(),
{
    assert(b.publish(e).log.subrange(0, b.log.len() as int) =~= b.log);
}

/// Ordering invariant. A subscriber that has not fallen behind the retained
/// window receives, in `n` attempts, exactly the next `n` published events
/// in publish order: no lag notice, no gap, no duplicate.
pub proof fn lemma_in_order_delivery(b: BusView, cursor: nat, n: nat)
    requires
        b.oldest() <= cursor,
        cursor + n <= b.log.len(),
    ensures
        b.drain(cursor, n) == (
            cursor + n,
            delivered(b.log.subrange(cursor as int, (cursor + n) as int)),
        ),
    decreases n,
{
    if n == 0 {
        assert(delivered(b.log.subrange(cursor as int, cursor as int)) =~= Seq::empty());
    } else {
        lemma_in_order_delivery(b, cursor + 1, (n - 1) as nat);
        let rest = delivered(b.log.subrange((cursor + 1) as int, (cursor + n) as int));
        assert(seq![RecvView::Event(b.log[cursor as int])] + rest =~= delivered(
            b.log.subrange(cursor as int, (cursor + n) as int),
        ));
    }
}

/// Ordering invariant for a subscriber that keeps up. A subscriber that joins
/// an open bus and then sees no more than `capacity` publishes receives
/// exactly those events, in the order they were published.
pub proof fn lemma_subscriber_sees_publish_order(b: BusView, es: Seq<EventView>)
    requires
        !b.closed,
        b.log.len() + es.len() <= position_limit(),
        es.len() <= b.capacity,
    ensures
        b.publish_all(es).drain(b.log.len(), es.len()) == (
            b.log.len() + es.len(),
            delivered(es),
        ),
{
    lemma_publish_all_appends(b, es);
    let after = b.publish_all(es);
    lemma_in_order_delivery(after, b.log.len(), es.len());
    assert(after.log.subrange(b.log.len() as int, (b.log.len() + es.len()) as int) =~= es);
}

/// Lag policy. A subscriber that joins an open bus and stays away while more
/// than `capacity` events are published is told, on its first attempt, how
/// many events it missed: all but the last `capacity`. The attempts after
/// that deliver exactly the retained events, in publish order.
pub proof fn lemma_lag_then_continuation(b: BusView, es: Seq<EventView>)
    requires
        b.capacity > 0,
        !b.closed,
        b.log.len() + es.len() <= position_limit(),
        es.len() > b.capacity,
    ensures
        ({
            let after = b.publish_all(es);
            let dropped = (es.len() - b.capacity) as nat;
            let resume = b.log.len() + dropped;
            &&& after.recv(b.log.len()) == (resume, RecvView::Lagged(dropped))
            &&& after.drain(resume, b.capacity) == (
                resume + b.capacity,
                delivered(es.subrange(dropped as int, es.len() as int)),
            )
            &&& after.recv(resume + b.capacity).1 == RecvView::Empty
        }),
{
    lemma_publish_all_appends(b, es);
    let after = b.publish_all(es);
    let dropped = (es.len() - b.capacity) as nat;
    let resume = b.log.len() + dropped;
    assert(after.oldest() == resume);
    lemma_in_order_delivery(after, resume, b.capacity);
    assert(after.log.subrange(resume as int, (resume + b.capacity) as int) =~= es.subrange(
        dropped as int,
        es.len() as int,
    ));
}

/// One step of a schedule: somebody publishes, or the subscriber tries to
/// receive.
pub enum BusOp {
    Publish(EventView),
    Receive,
}

/// The bus, the cursor of one subscriber and what that subscriber was
/// handed, after the operations of a schedule in order.
pub open spec fn run_schedule(b: BusView, cursor: nat, ops: Seq<BusOp>) -> (
    BusView,
    nat,
    Seq<RecvView>,
)
    decreases ops.len(),
{
    if ops.len() == 0 {
        (b, cursor, Seq::empty())
    } else {
        let (bus, at, handed) = run_schedule(b, cursor, ops.drop_last());
        match ops.last() {
            BusOp::Publish(e) => (bus.publish(e), at, handed),
            BusOp::Receive => (bus, bus.recv(at).0, handed.push(bus.recv(at).1)),
        }
    }
}

/// The events among what a subscriber was handed, in order.
pub open spec fn events_of(handed: Seq<RecvView>) -> Seq<EventView>
    decreases handed.len(),
{
    if handed.len() == 0 {
        Seq::empty()
    } else {
        match handed.last() {
            RecvView::Event(e) => events_of(handed.drop_last()).push(e),
            _ => events_of(handed.drop_last()),
        }
    }
}

/// Number of positions that what a subscriber was handed accounts for: one
/// per event, and the announced count per lag notice.
pub open spec fn accounted(handed: Seq<RecvView>) -> nat
    decreases handed.len(),
{
    if handed.len() == 0 {
        0
    } else {
        match handed.last() {
            RecvView::Event(_) => accounted(handed.drop_last()) + 1,
            RecvView::Lagged(n) => accounted(handed.drop_last()) + n,
            _ => accounted(handed.drop_last()),
        }
    }
}

/// Whether a subscriber was never told that it lagged.
pub open spec fn never_lagged(handed: Seq<RecvView>) -> bool {
    forall|i: int| 0 <= i < handed.len() ==> !(#[trigger] handed[i] is Lagged)
}

/// Ordering invariant, for every schedule. However publishes and receive
/// attempts interleave: history only grows at its end; the subscriber's
/// cursor never passes the end of history; every position the cursor moved
/// over is accounted for, by a delivered event or by the count of a lag
/// notice; and a subscriber that was never told that it lagged was handed
/// exactly the events between its first and its last cursor, in publish
/// order.
pub proof fn lemma_schedule_keeps_order(b: BusView, cursor: nat, ops: Seq<BusOp>)
    requires
        cursor <= b.log.len(),
    ensures
        ({
            let (bus, at, handed) = run_schedule(b, cursor, ops);
            &&& b.log.len() <= bus.log.len()
            &&& bus.log.subrange(0, b.log.len() as int) == b.log
            &&& cursor <= at <= bus.log.len()
            &&& at - cursor == accounted(handed)
            &&& never_lagged(handed) ==> events_of(handed) == bus.log.subrange(
                cursor as int,
                at as int,
            )
        }),
    decreases ops.len(),
{
    if ops.len() == 0 {
        assert(b.log.subrange(0, b.log.len() as int) =~= b.log);
        assert(b.log.subrange(cursor as int, cursor as int) =~= Seq::<EventView>::empty());
    } else {
        lemma_schedule_keeps_order(b, cursor, ops.drop_last());
        let (bus, at, handed) = run_schedule(b, cursor, ops.drop_last());
        match ops.last() {
            BusOp::Publish(e) => {
                let after = bus.publish(e);
                assert(after.log.subrange(0, b.log.len() as int) =~= bus.log.subrange(
                    0,
                    b.log.len() as int,
                ));
                assert(after.log.subrange(cursor as int, at as int) =~= bus.log.subrange(
                    cursor as int,
                    at as int,
                ));
            },
            BusOp::Receive => {
                let (next, got) = bus.recv(at);
                let all = handed.push(got);
                assert(all.drop_last() =~= handed);
                if never_lagged(all) {
                    assert(!(all[handed.len() as int] is Lagged));
                    assert forall|i: int| 0 <= i < handed.len() implies !(
                    #[trigger] handed[i] is Lagged) by {
                        assert(all[i] == handed[i]);
                    }
                    match got {
                        RecvView::Event(e) => {
                            assert(bus.log.subrange(cursor as int, at as int).push(e)
                                =~= bus.log.subrange(cursor as int, next as int));
                        },
                        _ => {},
                    }
                }
            },
        }
    }
}

/// Shutdown. A closed bus drops whatever is offered to it, without any
/// other effect, and a subscriber that has not fallen behind receives what
/// was retained, in order, and is then told that the bus is closed.
pub proof fn lemma_closed_bus_ends(b: BusView, cursor: nat, e: EventView)
    requires
        b.closed,
        b.oldest() <= cursor <= b.log.len(),
    ensures
        b.publish(e) == b,
        b.drain(cursor, (b.log.len() - cursor) as nat) == (
            b.log.len(),
            delivered(b.log.subrange(cursor as int, b.log.len() as int)),
        ),
        b.recv(b.log.len()) == (b.log.len(), RecvView::Closed),
{
    lemma_in_order_delivery(b, cursor, (b.log.len() - cursor) as nat);
}

/// A closed bus is told apart from a lagging one: once a subscriber has
/// caught up, every further attempt on a closed bus answers `Closed`, and
/// no attempt on an open bus ever does.
pub proof fn lemma_closed_is_distinct(b: BusView, cursor: nat)
    ensures
        b.recv(cursor).1 is Closed <==> (b.closed && cursor >= b.log.len()),
        b.recv(cursor).1 is Lagged <==> cursor < b.oldest(),
{
}

} // verus!
