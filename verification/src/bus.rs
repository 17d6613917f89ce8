//! The event bus: a bounded multi-producer, multi-consumer broadcast of
//! status events.
//!
//! Publishing is non-blocking and best-effort: an event is appended to the
//! log whether or not anyone is subscribed, and is simply never read when no
//! subscriber is attached. Each subscriber reads the log through its own
//! cursor, strictly in publish order. A subscriber that falls more than the
//! bus's capacity behind loses its oldest unread entries: the next delivery
//! jumps forward and reports how many entries were skipped. On subscription,
//! before any real event, the bus delivers one synthetic connect item so a
//! viewer can request a full status refresh without waiting for activity.
//!
//! The bus object is constructed once at process start and threaded by
//! reference into both the pipeline's caller and the subscription endpoint.

use vstd::prelude::*;

use crate::status::{ServiceStatus, ServiceStatusView};

verus! {

/// The bus payload: a request to re-render full status, one service's status
/// transition, or an unstructured error notification. Ordering is implicit
/// in publish order.
#[derive(Clone, Debug, PartialEq, Eq)]
pub enum ServiceEvent {
    AllStatus,
    ServiceUpdate { id: i64, status: ServiceStatus },
    UnknownEvent { msg: String },
}

/// Mathematical model of a `ServiceEvent`.
pub enum ServiceEventView {
    AllStatus,
    ServiceUpdate { id: int, status: ServiceStatusView },
    UnknownEvent { msg: Seq<char> },
}

impl View for ServiceEvent {
    type V = ServiceEventView;

    open spec fn view(&self) -> ServiceEventView {
        match self {
            ServiceEvent::AllStatus => ServiceEventView::AllStatus,
            ServiceEvent::ServiceUpdate { id, status } => ServiceEventView::ServiceUpdate {
                id: *id as int,
                status: status@,
            },
            ServiceEvent::UnknownEvent { msg } => ServiceEventView::UnknownEvent { msg: msg@ },
        }
    }
}

impl ServiceEvent {
    /// A copy with the same model; unlike the derived clone, the copy is
    /// known to carry the same payload.
    pub fn duplicate(&self) -> (r: Self)
        ensures
            r@ == self@,
    {
        match self {
            ServiceEvent::AllStatus => ServiceEvent::AllStatus,
            ServiceEvent::ServiceUpdate { id, status } => ServiceEvent::ServiceUpdate {
                id: *id,
                status: status.duplicate(),
            },
            ServiceEvent::UnknownEvent { msg } => ServiceEvent::UnknownEvent { msg: msg.clone() },
        }
    }
}

/// What one delivery hands a subscriber: the synthetic connect snapshot, or
/// one published event together with how many older unread entries were lost
/// to overflow just before it.
#[derive(Clone, Debug, PartialEq, Eq)]
pub enum BusItem {
    Connected,
    Event { event: ServiceEvent, skipped: usize },
}

/// Mathematical model of a `BusItem`.
pub enum BusItemView {
    Connected,
    Event { event: ServiceEventView, skipped: nat },
}

impl View for BusItem {
    type V = BusItemView;

    open spec fn view(&self) -> BusItemView {
        match self {
            BusItem::Connected => BusItemView::Connected,
            BusItem::Event { event, skipped } => BusItemView::Event {
                event: event@,
                skipped: *skipped as nat,
            },
        }
    }
}

/// The bus: the full publish log and the per-subscriber backlog bound.
pub struct ServiceBroadcast {
    log: Vec<ServiceEvent>,
    capacity: usize,
}

/// Mathematical model of the bus.
pub struct ServiceBroadcastView {
    pub log: Seq<ServiceEventView>,
    pub capacity: nat,
}

impl ServiceBroadcastView {
    /// Well-formedness of the bus: it can hold at least one pending entry
    /// per subscriber. Both constructors establish it and publishing keeps
    /// it.
    pub open spec fn wf(self) -> bool {
        self.capacity >= 1
    }
}

impl View for ServiceBroadcast {
    type V = ServiceBroadcastView;

    closed spec fn view(&self) -> ServiceBroadcastView {
        ServiceBroadcastView {
            log: self.log@.map_values(|e: ServiceEvent| e@),
            capacity: self.capacity as nat,
        }
    }
}

/// One subscriber's read position, with the history of its deliveries kept
/// alongside for reasoning: where it subscribed, which log positions it has
/// received, and how many entries overflow has cost it.
pub struct Subscription {
    cursor: usize,
    pending_connect: bool,
    start: Ghost<int>,
    received: Ghost<Seq<int>>,
    skipped_total: Ghost<nat>,
}

/// Mathematical model of a `Subscription`.
pub struct SubState {
    pub cursor: int,
    pub pending_connect: bool,
    pub start: int,
    pub received: Seq<int>,
    pub skipped_total: nat,
}

impl View for Subscription {
    type V = SubState;

    closed spec fn view(&self) -> SubState {
        SubState {
            cursor: self.cursor as int,
            pending_connect: self.pending_connect,
            start: self.start@,
            received: self.received@,
            skipped_total: self.skipped_total@,
        }
    }
}

impl SubState {
    /// Well-formedness of a subscription against the bus: the cursor lies
    /// inside the log, the bookkeeping adds up, and the received positions
    /// are strictly increasing and behind the cursor.
    pub open spec fn wf(self, bus: ServiceBroadcastView) -> bool {
        &&& 0 <= self.start <= self.cursor <= bus.log.len()
        &&& self.cursor == self.start + self.received.len() + self.skipped_total
        &&& forall|k: int|
            0 <= k < self.received.len() ==> self.start <= #[trigger] self.received[k]
                < self.cursor
        &&& forall|k1: int, k2: int|
            0 <= k1 < k2 < self.received.len() ==> #[trigger] self.received[k1]
                < #[trigger] self.received[k2]
    }
}

/// What one delivery does: clears a pending connect item first; otherwise,
/// with nothing unread, delivers nothing; otherwise delivers the oldest
/// unread entry still within the capacity window, skipping — and counting —
/// whatever older unread entries have overflowed.
pub open spec fn recv_spec(bus: ServiceBroadcastView, sub: SubState) -> (
    SubState,
    Option<BusItemView>,
) {
    if sub.pending_connect {
        (SubState { pending_connect: false, ..sub }, Option::Some(BusItemView::Connected))
    } else if sub.cursor >= bus.log.len() {
        (sub, Option::None)
    } else {
        let origin = if bus.log.len() - sub.cursor > bus.capacity {
            bus.log.len() - bus.capacity
        } else {
            sub.cursor
        };
        (
            SubState {
                cursor: origin + 1,
                received: sub.received.push(origin),
                skipped_total: (sub.skipped_total + (origin - sub.cursor)) as nat,
                ..sub
            },
            Option::Some(
                BusItemView::Event {
                    event: bus.log[origin],
                    skipped: (origin - sub.cursor) as nat,
                },
            ),
        )
    }
}

impl ServiceBroadcast {
    /// A bus with the conventional capacity of one hundred pending entries
    /// per subscriber.
    pub fn new() -> (r: Self)
        ensures
            r@.log == Seq::<ServiceEventView>::empty(),
            r@.capacity == 100,
            r@.wf(),
    {
        let r = ServiceBroadcast { log: Vec::new(), capacity: 100 };
        proof {
            assert(r@.log =~= Seq::<ServiceEventView>::empty());
        }
        r
    }

    /// A bus with the given backlog bound per subscriber.
    pub fn with_capacity(capacity: usize) -> (r: Self)
        requires
            capacity >= 1,
        ensures
            r@.log == Seq::<ServiceEventView>::empty(),
            r@.capacity == capacity,
            r@.wf(),
    {
        let r = ServiceBroadcast { log: Vec::new(), capacity };
        proof {
            assert(r@.log =~= Seq::<ServiceEventView>::empty());
        }
        r
    }

    /// Publishes one event: appended to the log, delivered to subscribers as
    /// they catch up. Non-blocking and best-effort — with no subscriber
    /// attached the event is simply never read, and no error is reported.
    pub fn publish(&mut self, event: ServiceEvent)
        ensures
            final(self)@.log == old(self)@.log + seq![event@],
            final(self)@.capacity == old(self)@.capacity,
    {
        let ghost before = self@.log;
        self.log.push(event);
        proof {
            assert(self@.log =~= before + seq![self.log@[self.log@.len() - 1]@]);
        }
    }

    /// Attaches a new subscriber at the end of the log, with its connect
    /// snapshot pending: the snapshot is delivered before any event, and
    /// events published earlier are never delivered to it.
    pub fn subscribe(&self) -> (s: Subscription)
        ensures
            s@.pending_connect,
            s@.cursor == self@.log.len(),
            s@.start == self@.log.len(),
            s@.received == Seq::<int>::empty(),
            s@.skipped_total == 0,
            s@.wf(self@),
    {
        Subscription {
            cursor: self.log.len(),
            pending_connect: true,
            start: Ghost(self.log.len() as int),
            received: Ghost(Seq::empty()),
            skipped_total: Ghost(0),
        }
    }

    /// Delivers the subscriber's next item, as `recv_spec` says: the pending
    /// connect snapshot first, then unread events in publish order, jumping
    /// over — and counting — entries lost to overflow. Nothing pending
    /// delivers nothing.
    pub fn recv(&self, sub: &mut Subscription) -> (r: Option<BusItem>)
        requires
            self@.wf(),
            old(sub)@.wf(self@),
        ensures
            final(sub)@ == recv_spec(self@, old(sub)@).0,
            (match r {
                Option::Some(item) => Option::Some(item@),
                Option::None => Option::<BusItemView>::None,
            }) == recv_spec(self@, old(sub)@).1,
            final(sub)@.wf(self@),
    {
        if sub.pending_connect {
            sub.pending_connect = false;
            return Option::Some(BusItem::Connected);
        }
        let len = self.log.len();
        if sub.cursor >= len {
            return Option::None;
        }
        let origin = if len - sub.cursor > self.capacity {
            len - self.capacity
        } else {
            sub.cursor
        };
        let skipped = origin - sub.cursor;
        let item = self.log[origin].duplicate();
        proof {
            sub.received@ = sub.received@.push(origin as int);
            sub.skipped_total@ = (sub.skipped_total@ + skipped as nat) as nat;
        }
        sub.cursor = origin + 1;
        Option::Some(BusItem::Event { event: item, skipped })
    }
}

/// A new bus subscriber always receives the connect snapshot before any
/// externally triggered event: while the snapshot is pending, a delivery
/// yields exactly the connect item and leaves the received history — empty
/// at subscription — unchanged.
pub proof fn lemma_connect_snapshot_first(bus: ServiceBroadcastView, sub: SubState)
    requires
        sub.pending_connect,
    ensures
        recv_spec(bus, sub).1 == Option::Some(BusItemView::Connected),
        recv_spec(bus, sub).0.received == sub.received,
{
}

/// Lossy delivery never reorders: a well-formed subscriber's received log
/// positions are strictly increasing, so events arrive in publish order and
/// none arrives twice; the bookkeeping shows that overflow makes it receive
/// strictly fewer events than were published past it; and a subscriber more
/// than the capacity behind loses entries on its next delivery.
pub proof fn lemma_lossy_in_order_delivery(bus: ServiceBroadcastView, sub: SubState)
    requires
        sub.wf(bus),
    ensures
        forall|k1: int, k2: int|
            0 <= k1 < k2 < sub.received.len() ==> #[trigger] sub.received[k1]
                < #[trigger] sub.received[k2],
        sub.received.len() + sub.skipped_total == sub.cursor - sub.start,
        sub.skipped_total > 0 ==> sub.received.len() < sub.cursor - sub.start,
        !sub.pending_connect && bus.log.len() - sub.cursor > bus.capacity ==> recv_spec(
            bus,
            sub,
        ).0.skipped_total > sub.skipped_total,
{
}

/// Publishing keeps every attached subscriber well-formed: the log only
/// grows, so cursors and received positions stay inside it.
pub proof fn lemma_publish_preserves_wf(
    bus: ServiceBroadcastView,
    sub: SubState,
    event: ServiceEventView,
)
    requires
        sub.wf(bus),
    ensures
        sub.wf(ServiceBroadcastView { log: bus.log + seq![event], ..bus }),
{
}

} // verus!
