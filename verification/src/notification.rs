//! The notification bridge: inbound notifications of the editor are filtered
//! by session id, turned into typed events and handed on through a bounded
//! first-in, first-out queue.

use vstd::prelude::*;
use vstd::string::*;

use crate::text::same_text;
use crate::value::RpcValue;

verus! {

/// An event that the editor sends to this session.
#[derive(Clone, Copy, Debug, PartialEq, Eq, Structural)]
pub enum NotificationFromNeovim {
    /// More output is wanted; how much is left to the receiver.
    FetchPart,
    /// This many more lines of output are wanted.
    FetchLines(u64),
    /// The output buffer was closed.
    BufferClosed,
}

/// What becomes of one inbound notification.
#[derive(Clone, Copy, Debug, PartialEq, Eq, Structural)]
pub enum Inbound {
    /// It belongs to this session and is understood: the event goes to the queue.
    Accepted(NotificationFromNeovim),
    /// Its first argument is not this session's id: it is dropped.
    ForeignSession,
    /// Its name is not one that the bridge knows: it is dropped.
    Unrecognized,
}

/// The name under which the editor asks for more lines.
pub open spec fn fetch_lines_name() -> Seq<char> {
    "page_fetch_lines"@
}

/// The name under which the editor reports a closed buffer.
pub open spec fn buffer_closed_name() -> Seq<char> {
    "page_buffer_closed"@
}

/// Whether the arguments start with the session id `page_id`.
pub open spec fn addressed_to(page_id: Seq<char>, args: Seq<RpcValue>) -> bool {
    args.len() > 0 && args[0].text() == Some(page_id)
}

/// The line count that a fetch notification carries as its second argument.
pub open spec fn line_count(args: Seq<RpcValue>) -> Option<u64> {
    if args.len() > 1 {
        args[1].unsigned()
    } else {
        None
    }
}

/// What becomes of the notification `name` with arguments `args` in the
/// session `page_id`.
pub open spec fn classify(page_id: Seq<char>, name: Seq<char>, args: Seq<RpcValue>) -> Inbound {
    if !addressed_to(page_id, args) {
        Inbound::ForeignSession
    } else if name == fetch_lines_name() {
        match line_count(args) {
            Some(count) => Inbound::Accepted(NotificationFromNeovim::FetchLines(count)),
            None => Inbound::Accepted(NotificationFromNeovim::FetchPart),
        }
    } else if name == buffer_closed_name() {
        Inbound::Accepted(NotificationFromNeovim::BufferClosed)
    } else {
        Inbound::Unrecognized
    }
}

/// The names that the session subscribes to, in the order of subscription.
pub fn subscribed_names() -> (names: Vec<&'static str>)
    ensures
        names@.len() == 2,
        names@[0]@ == fetch_lines_name(),
        names@[1]@ == buffer_closed_name(),
{
    let mut names: Vec<&'static str> = Vec::new();
    names.push("page_fetch_lines");
    names.push("page_buffer_closed");
    names
}

/// The listener's side of the bridge: it knows the id of its session, taken
/// by value when the listener is made.
pub struct NotificationReceiver {
    /// The id of the session whose notifications are let through.
    pub page_id: String,
}

impl NotificationReceiver {
    /// A receiver for the session `page_id`.
    pub fn new(page_id: &str) -> (receiver: NotificationReceiver)
        ensures
            receiver.page_id@ == page_id@,
    {
        NotificationReceiver { page_id: String::from_str(page_id) }
    }

    /// Decides what becomes of one inbound notification.
    ///
    /// A notification whose first argument is not this session's id never
    /// yields an event, whatever its name.
    pub fn handle_notify(&self, notification: &str, args: &Vec<RpcValue>) -> (outcome: Inbound)
        ensures
            outcome == classify(self.page_id@, notification@, args@),
    {
        if args.len() == 0 {
            return Inbound::ForeignSession;
        }
        let addressed = match args[0].as_str() {
            Some(id) => same_text(id, self.page_id.as_str()),
            None => false,
        };
        if !addressed {
            return Inbound::ForeignSession;
        }
        if same_text(notification, "page_fetch_lines") {
            let count = if args.len() > 1 {
                args[1].as_u64()
            } else {
                None
            };
            match count {
                Some(lines) => Inbound::Accepted(NotificationFromNeovim::FetchLines(lines)),
                None => Inbound::Accepted(NotificationFromNeovim::FetchPart),
            }
        } else if same_text(notification, "page_buffer_closed") {
            Inbound::Accepted(NotificationFromNeovim::BufferClosed)
        } else {
            Inbound::Unrecognized
        }
    }

    /// Answers a request of the editor. The bridge serves none: every request
    /// is answered with the number zero.
    pub fn handle_request(&self, request: &str, args: &Vec<RpcValue>) -> (answer: RpcValue)
        ensures
            answer == RpcValue::Unsigned(0),
    {
        RpcValue::Unsigned(0)
    }
}

} // verus!
