//! The bounded queue between the listener and the main control flow.
//!
//! The queue holds at most [`QUEUE_CAPACITY`] events and hands them out in the
//! order in which they were put in. It never blocks: a producer that finds it
//! full is told so and tries again when the consumer has taken an event.

use std::collections::VecDeque;
use vstd::prelude::*;

use crate::notification::{
    addressed_to, classify, fetch_lines_name, line_count, Inbound, NotificationFromNeovim,
    NotificationReceiver,
};
use crate::value::RpcValue;

verus! {

/// How many events the queue holds at most.
pub const QUEUE_CAPACITY: usize = 16;

/// What a producer learns when it offers an event.
#[derive(Clone, Copy, Debug, PartialEq, Eq, Structural)]
pub enum SendOutcome {
    /// The event is in the queue, behind all that were there.
    Queued,
    /// The queue is full: nothing changed, the producer has to wait.
    Full,
    /// The consumer is gone for good: nothing changed, and no event will ever
    /// be taken again.
    Disconnected,
}

/// The contents of a queue after an event was offered to it.
pub open spec fn contents_after_send(
    pending: Seq<NotificationFromNeovim>,
    event: NotificationFromNeovim,
) -> Seq<NotificationFromNeovim> {
    if pending.len() < QUEUE_CAPACITY {
        pending.push(event)
    } else {
        pending
    }
}

/// The contents of a queue after the consumer asked for an event.
pub open spec fn contents_after_recv(pending: Seq<NotificationFromNeovim>) -> Seq<
    NotificationFromNeovim,
> {
    if pending.len() > 0 {
        pending.subrange(1, pending.len() as int)
    } else {
        pending
    }
}

/// The event that the consumer gets from a queue with these contents.
pub open spec fn received_from(pending: Seq<NotificationFromNeovim>) -> Option<
    NotificationFromNeovim,
> {
    if pending.len() > 0 {
        Some(pending[0])
    } else {
        None
    }
}

/// A bounded first-in, first-out queue of events.
pub struct NotificationQueue {
    events: VecDeque<NotificationFromNeovim>,
    consumer_gone: bool,
}

impl NotificationQueue {
    /// The queue's invariant: it never holds more than its capacity.
    pub closed spec fn wf(&self) -> bool {
        self.events@.len() <= QUEUE_CAPACITY
    }

    /// The events that wait in the queue, oldest first. Whether the consumer
    /// is still there is no part of the view: `disconnected` tells it.
    pub closed spec fn view(&self) -> Seq<NotificationFromNeovim> {
        self.events@
    }

    /// Whether the consumer has gone for good.
    pub closed spec fn disconnected(&self) -> bool {
        self.consumer_gone
    }

    /// An empty queue with its consumer present.
    pub fn new() -> (queue: NotificationQueue)
        ensures
            queue.wf(),
            queue@ == Seq::<NotificationFromNeovim>::empty(),
            !queue.disconnected(),
    {
        NotificationQueue { events: VecDeque::new(), consumer_gone: false }
    }

    /// The number of events that wait.
    pub fn len(&self) -> (n: usize)
        requires
            self.wf(),
        ensures
            n == self@.len(),
            n <= QUEUE_CAPACITY,
    {
        self.events.len()
    }

    /// Whether the consumer has gone for good.
    pub fn is_disconnected(&self) -> (gone: bool)
        ensures
            gone == self.disconnected(),
    {
        self.consumer_gone
    }

    /// Offers an event. It is queued behind the others unless the consumer is
    /// gone or the queue is full.
    pub fn try_send(&mut self, event: NotificationFromNeovim) -> (outcome: SendOutcome)
        requires
            old(self).wf(),
        ensures
            final(self).wf(),
            final(self).disconnected() == old(self).disconnected(),
            old(self).disconnected() ==> outcome == SendOutcome::Disconnected && final(self)@
                == old(self)@,
            !old(self).disconnected() ==> final(self)@ == contents_after_send(old(self)@, event),
            !old(self).disconnected() && old(self)@.len() < QUEUE_CAPACITY ==> outcome
                == SendOutcome::Queued,
            !old(self).disconnected() && old(self)@.len() >= QUEUE_CAPACITY ==> outcome
                == SendOutcome::Full,
    {
        if self.consumer_gone {
            SendOutcome::Disconnected
        } else if self.events.len() >= QUEUE_CAPACITY {
            SendOutcome::Full
        } else {
            self.events.push_back(event);
            SendOutcome::Queued
        }
    }

    /// Takes the oldest event, if there is one.
    pub fn try_recv(&mut self) -> (event: Option<NotificationFromNeovim>)
        requires
            old(self).wf(),
        ensures
            final(self).wf(),
            event == received_from(old(self)@),
            final(self)@ == contents_after_recv(old(self)@),
            final(self).disconnected() == old(self).disconnected(),
    {
        self.events.pop_front()
    }

    /// Records that the consumer is gone for good. The events that wait stay.
    pub fn disconnect(&mut self)
        requires
            old(self).wf(),
        ensures
            final(self).wf(),
            final(self).disconnected(),
            final(self)@ == old(self)@,
    {
        self.consumer_gone = true;
    }
}

/// What the listener did with one inbound notification.
#[derive(Clone, Copy, Debug, PartialEq, Eq, Structural)]
pub enum Delivery {
    /// The event is in the queue.
    Queued(NotificationFromNeovim),
    /// The queue is full: the listener waits and offers the event again.
    Blocked(NotificationFromNeovim),
    /// The notification yields no event; the outcome says why.
    Dropped(Inbound),
    /// The consumer is gone for good: the listener cannot go on.
    ConsumerGone,
}

/// What the listener of the session `page_id` does with the notification
/// `name` and its arguments, before a queue with the contents `pending`.
pub open spec fn delivery_of(
    page_id: Seq<char>,
    name: Seq<char>,
    args: Seq<RpcValue>,
    pending: Seq<NotificationFromNeovim>,
    disconnected: bool,
) -> Delivery {
    match classify(page_id, name, args) {
        Inbound::Accepted(event) => if disconnected {
            Delivery::ConsumerGone
        } else if pending.len() < QUEUE_CAPACITY {
            Delivery::Queued(event)
        } else {
            Delivery::Blocked(event)
        },
        dropped => Delivery::Dropped(dropped),
    }
}

impl NotificationReceiver {
    /// Handles one inbound notification: an event of this session goes to the
    /// back of the queue, everything else leaves the queue as it was.
    pub fn deliver(
        &self,
        queue: &mut NotificationQueue,
        notification: &str,
        args: &Vec<RpcValue>,
    ) -> (delivery: Delivery)
        requires
            old(queue).wf(),
        ensures
            final(queue).wf(),
            final(queue).disconnected() == old(queue).disconnected(),
            delivery == delivery_of(
                self.page_id@,
                notification@,
                args@,
                old(queue)@,
                old(queue).disconnected(),
            ),
            delivery matches Delivery::Queued(event) ==> final(queue)@ == old(queue)@.push(event),
            !(delivery is Queued) ==> final(queue)@ == old(queue)@,
    {
        match self.handle_notify(notification, args) {
            Inbound::Accepted(event) => match queue.try_send(event) {
                SendOutcome::Queued => Delivery::Queued(event),
                SendOutcome::Full => Delivery::Blocked(event),
                SendOutcome::Disconnected => Delivery::ConsumerGone,
            },
            Inbound::ForeignSession => Delivery::Dropped(Inbound::ForeignSession),
            Inbound::Unrecognized => Delivery::Dropped(Inbound::Unrecognized),
        }
    }
}

/// One use of the queue: the producer offers an event, or the consumer asks
/// for one.
pub enum QueueOp {
    /// The producer offers this event.
    Send(NotificationFromNeovim),
    /// The consumer asks for an event.
    Recv,
}

/// What a run of uses has come to.
pub struct QueueTrace {
    /// The events that wait in the queue, oldest first.
    pub pending: Seq<NotificationFromNeovim>,
    /// The events that the queue took in, in the order of their arrival.
    pub accepted: Seq<NotificationFromNeovim>,
    /// The events that the consumer got, in the order in which it got them.
    pub delivered: Seq<NotificationFromNeovim>,
}

/// The trace of the uses `ops`, made one after the other of a queue that was
/// empty at first.
pub open spec fn trace_of(ops: Seq<QueueOp>) -> QueueTrace
    decreases ops.len(),
{
    if ops.len() == 0 {
        QueueTrace { pending: Seq::empty(), accepted: Seq::empty(), delivered: Seq::empty() }
    } else {
        let before = trace_of(ops.drop_last());
        match ops.last() {
            QueueOp::Send(event) => QueueTrace {
                pending: contents_after_send(before.pending, event),
                accepted: if before.pending.len() < QUEUE_CAPACITY {
                    before.accepted.push(event)
                } else {
                    before.accepted
                },
                delivered: before.delivered,
            },
            QueueOp::Recv => QueueTrace {
                pending: contents_after_recv(before.pending),
                accepted: before.accepted,
                delivered: match received_from(before.pending) {
                    Some(event) => before.delivered.push(event),
                    None => before.delivered,
                },
            },
        }
    }
}

/// First in, first out: however sends and receives follow each other, the
/// events that the consumer got, followed by those that still wait, are the
/// events that the queue took in, in the order of their arrival; and the queue
/// never holds more than its capacity.
pub proof fn lemma_first_in_first_out(ops: Seq<QueueOp>)
    ensures
        trace_of(ops).delivered + trace_of(ops).pending == trace_of(ops).accepted,
        trace_of(ops).pending.len() <= QUEUE_CAPACITY,
    decreases ops.len(),
{
    let trace = trace_of(ops);
    if ops.len() == 0 {
        assert(trace.delivered + trace.pending =~= trace.accepted);
    } else {
        lemma_first_in_first_out(ops.drop_last());
        assert(trace.delivered + trace.pending =~= trace.accepted);
    }
}

/// The session filter: a notification whose first argument is not the id of
/// this session yields no event and is never queued, whatever its name; a
/// fetch notification of this session yields a fetch for the count it
/// carries, and a generic fetch where it carries none.
pub proof fn lemma_session_filter(
    page_id: Seq<char>,
    name: Seq<char>,
    args: Seq<RpcValue>,
    pending: Seq<NotificationFromNeovim>,
    disconnected: bool,
)
    ensures
        !addressed_to(page_id, args) ==> delivery_of(page_id, name, args, pending, disconnected)
            == Delivery::Dropped(Inbound::ForeignSession),
        addressed_to(page_id, args) && name == fetch_lines_name() ==> classify(page_id, name, args)
            == (match line_count(args) {
            Some(count) => Inbound::Accepted(NotificationFromNeovim::FetchLines(count)),
            None => Inbound::Accepted(NotificationFromNeovim::FetchPart),
        }),
        delivery_of(page_id, name, args, pending, disconnected) matches Delivery::Queued(event)
            ==> addressed_to(page_id, args) && classify(page_id, name, args) == Inbound::Accepted(
            event,
        ),
{
}

} // verus!
