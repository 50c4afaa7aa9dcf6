//! The session establisher: whether to attach to an editor that runs already
//! or to spawn one, which transport an address selects, how long to poll for
//! the socket of a spawned editor, and what closing the connection waits for.

use vstd::prelude::*;
use vstd::string::*;

use crate::address::{is_host_and_port, is_host_port};
use crate::notification::{NotificationFromNeovim, NotificationReceiver};
use crate::queue::NotificationQueue;

verus! {

/// How many times the socket of a spawned editor is tried.
pub const CONNECT_ATTEMPTS: u64 = 100;

/// How many milliseconds pass between two tries.
pub const CONNECT_INTERVAL_MS: u64 = 16;

/// Where the session is to be established.
#[derive(Debug, PartialEq, Eq)]
pub enum SessionTarget {
    /// Attach to the editor that listens at this address.
    Attach(String),
    /// Spawn an editor and connect to it.
    Spawn,
}

/// The transport that reaches an address.
#[derive(Clone, Copy, Debug, PartialEq, Eq, Structural)]
pub enum Transport {
    /// A network socket.
    Tcp,
    /// A socket in the file system.
    UnixSocket,
}

/// How one attempt to connect ended.
#[derive(Clone, Copy, Debug, PartialEq, Eq, Structural)]
pub enum ConnectAnswer {
    /// The session is open.
    Connected,
    /// Nothing is there yet at the address.
    NotFound,
    /// The attempt failed for another reason.
    Failed,
}

/// Why no session could be established.
#[derive(Clone, Copy, Debug, PartialEq, Eq, Structural)]
pub enum ConnectFailure {
    /// Every allowed attempt found nothing at the address.
    Exhausted,
    /// An attempt failed for a reason that waiting does not mend.
    Rejected,
}

/// What follows an attempt to connect.
#[derive(Clone, Copy, Debug, PartialEq, Eq, Structural)]
pub enum ConnectStep {
    /// The session is open: no further attempt is made.
    Established,
    /// Wait this many milliseconds, then try again.
    Wait(u64),
    /// Give up for this reason.
    GiveUp(ConnectFailure),
}

/// The transport that reaches `address`.
pub open spec fn transport_of(address: Seq<char>) -> Transport {
    if is_host_port(address) {
        Transport::Tcp
    } else {
        Transport::UnixSocket
    }
}

/// What follows the attempt with the number `attempt`, counted from 1, to
/// reach a spawned editor, when it ended with `answer`.
pub open spec fn spawn_step(attempt: u64, answer: ConnectAnswer) -> ConnectStep {
    match answer {
        ConnectAnswer::Connected => ConnectStep::Established,
        ConnectAnswer::NotFound => if attempt < CONNECT_ATTEMPTS {
            ConnectStep::Wait(CONNECT_INTERVAL_MS)
        } else {
            ConnectStep::GiveUp(ConnectFailure::Exhausted)
        },
        ConnectAnswer::Failed => ConnectStep::GiveUp(ConnectFailure::Rejected),
    }
}

/// What follows the one attempt to reach an editor that was named by its
/// address, when it ended with `answer`: there is no second attempt.
pub open spec fn attach_step(answer: ConnectAnswer) -> ConnectStep {
    match answer {
        ConnectAnswer::Connected => ConnectStep::Established,
        ConnectAnswer::NotFound => ConnectStep::GiveUp(ConnectFailure::Rejected),
        ConnectAnswer::Failed => ConnectStep::GiveUp(ConnectFailure::Rejected),
    }
}

/// Decides where the session is established: at the address, where one is
/// given, and at a newly spawned editor otherwise.
pub fn open(address: Option<&str>) -> (target: SessionTarget)
    ensures
        match address {
            Some(given) => target matches SessionTarget::Attach(chosen) && chosen@ == given@,
            None => target == SessionTarget::Spawn,
        },
{
    match address {
        Some(given) => SessionTarget::Attach(String::from_str(given)),
        None => SessionTarget::Spawn,
    }
}

/// Selects the transport for an address: the network for an address of the
/// shape `host:port`, a socket in the file system for every other.
pub fn session_at_address(nvim_listen_addr: &str) -> (transport: Transport)
    ensures
        transport == transport_of(nvim_listen_addr@),
{
    if is_host_and_port(nvim_listen_addr) {
        Transport::Tcp
    } else {
        Transport::UnixSocket
    }
}

/// Decides what follows the attempt with the number `attempt`, counted from
/// 1, to reach the spawned editor.
///
/// Only an attempt that found nothing at the address is followed by another,
/// after a pause, and only as long as fewer than [`CONNECT_ATTEMPTS`] were
/// made.
pub fn session_with_new_neovim_process(attempt: u64, answer: ConnectAnswer) -> (step: ConnectStep)
    ensures
        step == spawn_step(attempt, answer),
{
    match answer {
        ConnectAnswer::Connected => ConnectStep::Established,
        ConnectAnswer::NotFound => {
            if attempt < CONNECT_ATTEMPTS {
                ConnectStep::Wait(CONNECT_INTERVAL_MS)
            } else {
                ConnectStep::GiveUp(ConnectFailure::Exhausted)
            }
        },
        ConnectAnswer::Failed => ConnectStep::GiveUp(ConnectFailure::Rejected),
    }
}

/// Decides what follows the attempt with the number `attempt` to reach
/// `target`. An editor named by its address is tried once; a spawned one is
/// polled.
pub fn connection_step(target: &SessionTarget, attempt: u64, answer: ConnectAnswer) -> (step:
    ConnectStep)
    ensures
        target is Attach ==> step == attach_step(answer),
        target is Spawn ==> step == spawn_step(attempt, answer),
{
    match target {
        SessionTarget::Attach(_) => match answer {
            ConnectAnswer::Connected => ConnectStep::Established,
            _ => ConnectStep::GiveUp(ConnectFailure::Rejected),
        },
        SessionTarget::Spawn => session_with_new_neovim_process(attempt, answer),
    }
}

/// What is kept of an established connection: the child process, if this
/// invocation spawned one, and the number of the buffer that was current
/// when the session was opened.
#[derive(Clone, Copy, Debug, PartialEq, Eq)]
pub struct NeovimConnection {
    /// The process id of the editor that this invocation spawned, if it did.
    pub nvim_proc: Option<u32>,
    /// The number of the buffer that was current at first.
    pub initial_buf_number: i64,
}

impl NeovimConnection {
    /// Whether this invocation spawned the editor that it is connected to.
    pub fn is_child_neovim_process_spawned(&self) -> (spawned: bool)
        ensures
            spawned == self.nvim_proc.is_some(),
    {
        self.nvim_proc.is_some()
    }
}

/// Sets up the two ends of the notification bridge for the session
/// `page_id`: a receiver that lets only that session's notifications through,
/// and an empty queue with its consumer present.
pub fn subscribe(page_id: &str) -> (bridge: (NotificationReceiver, NotificationQueue))
    ensures
        bridge.0.page_id@ == page_id@,
        bridge.1.wf(),
        bridge.1@ == Seq::<NotificationFromNeovim>::empty(),
        !bridge.1.disconnected(),
{
    (NotificationReceiver::new(page_id), NotificationQueue::new())
}

/// Closes the connection and tells which process is to be waited for: the
/// child that this invocation spawned, and none where it attached to an
/// editor that ran already.
pub fn close(nvim_connection: NeovimConnection) -> (awaited: Option<u32>)
    ensures
        awaited == nvim_connection.nvim_proc,
{
    nvim_connection.nvim_proc
}

/// How polling for a spawned editor ended.
pub enum ConnectEnd {
    /// The attempt with this number opened the session.
    Established(nat),
    /// After this many attempts the establisher gave up, for this reason.
    GaveUp(nat, ConnectFailure),
    /// The answers ran out after this many attempts.
    Unanswered(nat),
}

/// The end of the polling of which `made` attempts are done, where
/// `answers[i]` is how the attempt with the number `i + 1` ends.
pub open spec fn poll_from(answers: Seq<ConnectAnswer>, made: nat) -> ConnectEnd
    decreases answers.len() - made,
{
    if made >= answers.len() || made >= CONNECT_ATTEMPTS {
        ConnectEnd::Unanswered(made)
    } else {
        match spawn_step((made + 1) as u64, answers[made as int]) {
            ConnectStep::Established => ConnectEnd::Established(made + 1),
            ConnectStep::Wait(_) => poll_from(answers, made + 1),
            ConnectStep::GiveUp(failure) => ConnectEnd::GaveUp(made + 1, failure),
        }
    }
}

/// Whether each of the first `upto` attempts finds nothing at the address.
pub open spec fn none_there(answers: Seq<ConnectAnswer>, upto: int) -> bool {
    forall|i: int| 0 <= i < upto && i < answers.len() ==> #[trigger] answers[i]
        == ConnectAnswer::NotFound
}

/// A socket that appears after `k` attempts, `k` below the limit, is reached
/// by the attempt `k + 1`, and no attempt follows it.
pub proof fn lemma_connects_once_reachable(answers: Seq<ConnectAnswer>, k: nat)
    requires
        k < CONNECT_ATTEMPTS,
        k < answers.len(),
        none_there(answers, k as int),
        answers[k as int] == ConnectAnswer::Connected,
    ensures
        poll_from(answers, 0) == ConnectEnd::Established(k + 1),
{
    lemma_poll_skips_absent(answers, 0, k);
}

/// A socket that never appears ends the polling after exactly
/// [`CONNECT_ATTEMPTS`] attempts.
pub proof fn lemma_gives_up_when_never_reachable(answers: Seq<ConnectAnswer>)
    requires
        answers.len() >= CONNECT_ATTEMPTS,
        none_there(answers, CONNECT_ATTEMPTS as int),
    ensures
        poll_from(answers, 0) == ConnectEnd::GaveUp(
            CONNECT_ATTEMPTS as nat,
            ConnectFailure::Exhausted,
        ),
{
    lemma_poll_skips_absent(answers, 0, (CONNECT_ATTEMPTS - 1) as nat);
    assert(answers[CONNECT_ATTEMPTS - 1] == ConnectAnswer::NotFound);
}

/// An attempt that fails for another reason than an absent socket ends the
/// polling at once.
pub proof fn lemma_rejection_ends_polling(answers: Seq<ConnectAnswer>, k: nat)
    requires
        k < CONNECT_ATTEMPTS,
        k < answers.len(),
        none_there(answers, k as int),
        answers[k as int] == ConnectAnswer::Failed,
    ensures
        poll_from(answers, 0) == ConnectEnd::GaveUp(k + 1, ConnectFailure::Rejected),
{
    lemma_poll_skips_absent(answers, 0, k);
}

/// The polling never makes more than [`CONNECT_ATTEMPTS`] attempts, whatever
/// the answers are.
pub proof fn lemma_polling_is_bounded(answers: Seq<ConnectAnswer>, made: nat)
    requires
        made <= CONNECT_ATTEMPTS,
    ensures
        match poll_from(answers, made) {
            ConnectEnd::Established(attempts) => made < attempts <= CONNECT_ATTEMPTS,
            ConnectEnd::GaveUp(attempts, _) => made < attempts <= CONNECT_ATTEMPTS,
            ConnectEnd::Unanswered(attempts) => made <= attempts <= CONNECT_ATTEMPTS,
        },
    decreases answers.len() - made,
{
    if made < answers.len() && made < CONNECT_ATTEMPTS {
        if spawn_step((made + 1) as u64, answers[made as int]) is Wait {
            lemma_polling_is_bounded(answers, made + 1);
        }
    }
}

/// Polling that meets only an absent socket from the attempt after `from` up
/// to the attempt `to` goes on after `to` attempts.
proof fn lemma_poll_skips_absent(answers: Seq<ConnectAnswer>, from: nat, to: nat)
    requires
        from <= to < CONNECT_ATTEMPTS,
        to < answers.len(),
        none_there(answers, to as int),
    ensures
        poll_from(answers, from) == poll_from(answers, to),
    decreases to - from,
{
    if from < to {
        assert(answers[from as int] == ConnectAnswer::NotFound);
        lemma_poll_skips_absent(answers, from + 1, to);
    }
}

} // verus!
