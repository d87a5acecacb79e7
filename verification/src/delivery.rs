//! The delivery loop: the decisions of the loop that takes records from a
//! session's channel and forwards each one to the viewer's sink.

use vstd::prelude::*;

use crate::record::{Data, DataView};

verus! {

/// Why a delivery loop ended.
#[derive(Debug, Clone, Copy, PartialEq, Eq, Structural)]
pub enum DeliveryEnd {
    /// The producer is gone and the channel is drained: the normal end.
    ChannelClosed,
    /// The sink rejected a record or closed.
    SinkClosed,
}

/// Where a delivery loop stands.
#[derive(Debug, Clone, Copy, PartialEq, Eq, Structural)]
pub enum DeliveryState {
    Delivering,
    Finished(DeliveryEnd),
}

/// What the driver reports to the delivery loop.
#[derive(Debug, Clone, PartialEq, Eq)]
pub enum DeliveryEvent {
    /// The channel gave this record.
    Dequeued(Data),
    /// The channel is closed and empty.
    ChannelClosed,
    /// The sink accepted the record.
    Forwarded,
    /// The sink rejected the record or is closed.
    SinkRejected,
}

/// A `DeliveryEvent` over mathematical values.
pub enum DeliveryEventView {
    Dequeued(DataView),
    ChannelClosed,
    Forwarded,
    SinkRejected,
}

impl View for DeliveryEvent {
    type V = DeliveryEventView;

    open spec fn view(&self) -> DeliveryEventView {
        match *self {
            DeliveryEvent::Dequeued(record) => DeliveryEventView::Dequeued(record@),
            DeliveryEvent::ChannelClosed => DeliveryEventView::ChannelClosed,
            DeliveryEvent::Forwarded => DeliveryEventView::Forwarded,
            DeliveryEvent::SinkRejected => DeliveryEventView::SinkRejected,
        }
    }
}

/// What the delivery loop asks of its driver.
#[derive(Debug, Clone, PartialEq, Eq)]
pub enum DeliveryAction {
    /// Take the next record from the channel, waiting while it is empty.
    Dequeue,
    /// Serialize this record and hand it to the sink.
    Forward(Data),
    /// Leave the loop and drop the consumer end of the channel, so that the
    /// producer finds the channel closed on its next enqueue.
    Stop(DeliveryEnd),
    /// Nothing: the loop has ended.
    Ignore,
}

/// A `DeliveryAction` over mathematical values.
pub enum DeliveryActionView {
    Dequeue,
    Forward(DataView),
    Stop(DeliveryEnd),
    Ignore,
}

impl View for DeliveryAction {
    type V = DeliveryActionView;

    open spec fn view(&self) -> DeliveryActionView {
        match *self {
            DeliveryAction::Dequeue => DeliveryActionView::Dequeue,
            DeliveryAction::Forward(record) => DeliveryActionView::Forward(record@),
            DeliveryAction::Stop(end) => DeliveryActionView::Stop(end),
            DeliveryAction::Ignore => DeliveryActionView::Ignore,
        }
    }
}

/// The state that follows `state` on `event`, and the action that the loop
/// then asks for: each dequeued record is forwarded as it is, the next one is
/// taken once the sink accepted, and the loop ends when the channel closes or
/// the sink rejects.
pub open spec fn next_delivery(state: DeliveryState, event: DeliveryEventView) -> (
    DeliveryState,
    DeliveryActionView,
) {
    match state {
        DeliveryState::Finished(_) => (state, DeliveryActionView::Ignore),
        DeliveryState::Delivering => match event {
            DeliveryEventView::Dequeued(record) => (
                DeliveryState::Delivering,
                DeliveryActionView::Forward(record),
            ),
            DeliveryEventView::Forwarded => (DeliveryState::Delivering, DeliveryActionView::Dequeue),
            DeliveryEventView::ChannelClosed => (
                DeliveryState::Finished(DeliveryEnd::ChannelClosed),
                DeliveryActionView::Stop(DeliveryEnd::ChannelClosed),
            ),
            DeliveryEventView::SinkRejected => (
                DeliveryState::Finished(DeliveryEnd::SinkClosed),
                DeliveryActionView::Stop(DeliveryEnd::SinkClosed),
            ),
        },
    }
}

/// One delivery loop, for one channel and one sink.
#[derive(Debug)]
pub struct DeliveryLoop {
    state: DeliveryState,
}

impl View for DeliveryLoop {
    type V = DeliveryState;

    closed spec fn view(&self) -> DeliveryState {
        self.state
    }
}

impl DeliveryLoop {
    /// A loop that delivers. Its driver starts by taking a record from the
    /// channel.
    pub fn new() -> (delivery: DeliveryLoop)
        ensures
            delivery@ == DeliveryState::Delivering,
    {
        DeliveryLoop { state: DeliveryState::Delivering }
    }

    /// Where the loop stands.
    pub fn state(&self) -> (state: DeliveryState)
        ensures
            state == self@,
    {
        self.state
    }

    /// Takes one event: moves the loop to the state that follows and returns
    /// the action that the driver is to perform next.
    pub fn step(&mut self, event: DeliveryEvent) -> (action: DeliveryAction)
        ensures
            (final(self)@, action@) == next_delivery(old(self)@, event@),
    {
        match self.state {
            DeliveryState::Finished(_) => DeliveryAction::Ignore,
            DeliveryState::Delivering => match event {
                DeliveryEvent::Dequeued(record) => DeliveryAction::Forward(record),
                DeliveryEvent::Forwarded => DeliveryAction::Dequeue,
                DeliveryEvent::ChannelClosed => {
                    self.state = DeliveryState::Finished(DeliveryEnd::ChannelClosed);
                    DeliveryAction::Stop(DeliveryEnd::ChannelClosed)
                },
                DeliveryEvent::SinkRejected => {
                    self.state = DeliveryState::Finished(DeliveryEnd::SinkClosed);
                    DeliveryAction::Stop(DeliveryEnd::SinkClosed)
                },
            },
        }
    }
}

/// Where a loop stands after it took `events` one by one from `state`, and
/// the actions it asked for, in the order of the events.
pub open spec fn run_delivery(state: DeliveryState, events: Seq<DeliveryEventView>) -> (
    DeliveryState,
    Seq<DeliveryActionView>,
)
    decreases events.len(),
{
    if events.len() == 0 {
        (state, Seq::empty())
    } else {
        let before = run_delivery(state, events.drop_last());
        let last = next_delivery(before.0, events.last());
        (last.0, before.1.push(last.1))
    }
}

/// The records among a sequence of actions: those that are to be forwarded,
/// in the order in which they were asked for.
pub open spec fn forwarded(actions: Seq<DeliveryActionView>) -> Seq<DataView>
    decreases actions.len(),
{
    if actions.len() == 0 {
        Seq::empty()
    } else {
        match actions.last() {
            DeliveryActionView::Forward(record) => forwarded(actions.drop_last()).push(record),
            _ => forwarded(actions.drop_last()),
        }
    }
}

/// What a driver reports while the channel gives `records` and the sink
/// accepts each of them.
pub open spec fn drain_events(records: Seq<DataView>) -> Seq<DeliveryEventView>
    decreases records.len(),
{
    if records.len() == 0 {
        Seq::empty()
    } else {
        drain_events(records.drop_last()).push(DeliveryEventView::Dequeued(records.last())).push(
            DeliveryEventView::Forwarded,
        )
    }
}

/// A loop that drains records one at a time from the channel to a sink that
/// accepts them keeps delivering, and forwards exactly those records,
/// unchanged and in the order in which the channel gave them.
pub proof fn records_are_forwarded_in_order(records: Seq<DataView>)
    ensures
        run_delivery(DeliveryState::Delivering, drain_events(records)).0
            == DeliveryState::Delivering,
        forwarded(run_delivery(DeliveryState::Delivering, drain_events(records)).1) == records,
    decreases records.len(),
{
    if records.len() > 0 {
        records_are_forwarded_in_order(records.drop_last());
        let record = records.last();
        let earlier = drain_events(records.drop_last());
        let before = run_delivery(DeliveryState::Delivering, earlier);
        let taken = earlier.push(DeliveryEventView::Dequeued(record));
        let after_take = run_delivery(DeliveryState::Delivering, taken);
        assert(taken.drop_last() =~= earlier);
        assert(after_take.1.drop_last() =~= before.1);
        let accepted = taken.push(DeliveryEventView::Forwarded);
        let after_all = run_delivery(DeliveryState::Delivering, accepted);
        assert(accepted.drop_last() =~= taken);
        assert(after_all.1.drop_last() =~= after_take.1);
        assert(forwarded(after_all.1) == forwarded(after_take.1));
    }
}

/// A loop whose sink rejects ends for that reason and asks its driver to
/// drop the consumer end of the channel; one whose channel closes ends
/// normally.
pub proof fn delivery_ends_with_its_cause()
    ensures
        next_delivery(DeliveryState::Delivering, DeliveryEventView::SinkRejected) == (
            DeliveryState::Finished(DeliveryEnd::SinkClosed),
            DeliveryActionView::Stop(DeliveryEnd::SinkClosed),
        ),
        next_delivery(DeliveryState::Delivering, DeliveryEventView::ChannelClosed) == (
            DeliveryState::Finished(DeliveryEnd::ChannelClosed),
            DeliveryActionView::Stop(DeliveryEnd::ChannelClosed),
        ),
        forall|end: DeliveryEnd, event: DeliveryEventView|
            #[trigger] next_delivery(DeliveryState::Finished(end), event) == (
                DeliveryState::Finished(end),
                DeliveryActionView::Ignore,
            ),
{
}

} // verus!
