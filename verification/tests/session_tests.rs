use page_session::notification::NotificationFromNeovim;
use page_session::queue::SendOutcome;
use page_session::session::{
    close, connection_step, open, session_at_address, session_with_new_neovim_process, subscribe,
    ConnectAnswer, ConnectFailure, ConnectStep, NeovimConnection, SessionTarget, Transport,
    CONNECT_ATTEMPTS, CONNECT_INTERVAL_MS,
};

/// Polls a socket that appears after `absent` attempts, or never. Gives the
/// end of the polling, the number of attempts made and the time waited.
fn poll(absent: Option<u64>) -> (ConnectStep, u64, u64) {
    let mut attempts: u64 = 0;
    let mut waited: u64 = 0;
    loop {
        attempts += 1;
        let answer = match absent {
            Some(k) if attempts > k => ConnectAnswer::Connected,
            _ => ConnectAnswer::NotFound,
        };
        match session_with_new_neovim_process(attempts, answer) {
            ConnectStep::Wait(millis) => waited += millis,
            end => return (end, attempts, waited),
        }
    }
}

#[test]
fn polling_constants() {
    assert_eq!(CONNECT_ATTEMPTS, 100);
    assert_eq!(CONNECT_INTERVAL_MS, 16);
}

#[test]
fn an_address_means_attach() {
    assert_eq!(open(Some("127.0.0.1:6666")), SessionTarget::Attach("127.0.0.1:6666".to_string()));
    assert_eq!(open(Some("/tmp/nvim.sock")), SessionTarget::Attach("/tmp/nvim.sock".to_string()));
}

#[test]
fn no_address_means_spawn() {
    assert_eq!(open(None), SessionTarget::Spawn);
}

#[test]
fn transport_follows_the_shape_of_the_address() {
    assert_eq!(session_at_address("127.0.0.1:6666"), Transport::Tcp);
    assert_eq!(session_at_address("localhost:6666"), Transport::Tcp);
    assert_eq!(session_at_address("[::1]:6666"), Transport::Tcp);
    assert_eq!(session_at_address("/tmp/nvim.sock"), Transport::UnixSocket);
    assert_eq!(session_at_address("/tmp/page/socket-a1b2"), Transport::UnixSocket);
    assert_eq!(session_at_address("nvim.sock"), Transport::UnixSocket);
}

#[test]
fn a_path_with_a_colon_is_no_host() {
    assert_eq!(session_at_address("/tmp/dir:80"), Transport::UnixSocket);
    assert_eq!(session_at_address("./a:1"), Transport::UnixSocket);
    assert_eq!(session_at_address("host/x:80"), Transport::UnixSocket);
}

#[test]
fn a_port_is_a_number_up_to_the_highest_port() {
    assert_eq!(session_at_address("host:0"), Transport::Tcp);
    assert_eq!(session_at_address("host:65535"), Transport::Tcp);
    assert_eq!(session_at_address("host:0000080"), Transport::Tcp);
    assert_eq!(session_at_address("host:65536"), Transport::UnixSocket);
    assert_eq!(session_at_address("host:99999999999999999999999"), Transport::UnixSocket);
    assert_eq!(session_at_address("host:"), Transport::UnixSocket);
    assert_eq!(session_at_address("host:80x"), Transport::UnixSocket);
    assert_eq!(session_at_address("host:-1"), Transport::UnixSocket);
    assert_eq!(session_at_address("host: 80"), Transport::UnixSocket);
}

#[test]
fn a_host_is_not_empty() {
    assert_eq!(session_at_address(":80"), Transport::UnixSocket);
    assert_eq!(session_at_address(":"), Transport::UnixSocket);
    assert_eq!(session_at_address(""), Transport::UnixSocket);
    assert_eq!(session_at_address("a:1"), Transport::Tcp);
    assert_eq!(session_at_address("a:b:1"), Transport::Tcp);
    assert_eq!(session_at_address("a:1:b"), Transport::UnixSocket);
}

#[test]
fn every_socket_address_of_the_standard_library_has_the_shape() {
    for address in ["127.0.0.1:6666", "0.0.0.0:0", "[::1]:6666", "[fe80::1%3]:80", "[::ffff:1.2.3.4]:65535"] {
        assert_eq!(session_at_address(address), Transport::Tcp);
    }
}

#[test]
fn a_socket_that_is_there_at_once_needs_one_attempt() {
    assert_eq!(poll(Some(0)), (ConnectStep::Established, 1, 0));
}

#[test]
fn a_socket_that_appears_after_k_attempts_needs_k_plus_one() {
    assert_eq!(poll(Some(1)), (ConnectStep::Established, 2, 16));
    assert_eq!(poll(Some(7)), (ConnectStep::Established, 8, 7 * 16));
    assert_eq!(poll(Some(99)), (ConnectStep::Established, 100, 99 * 16));
}

#[test]
fn a_socket_that_never_appears_ends_after_a_hundred_attempts() {
    assert_eq!(poll(None), (ConnectStep::GiveUp(ConnectFailure::Exhausted), 100, 99 * 16));
    assert_eq!(poll(Some(100)), (ConnectStep::GiveUp(ConnectFailure::Exhausted), 100, 99 * 16));
}

#[test]
fn another_failure_ends_the_polling_at_once() {
    assert_eq!(
        session_with_new_neovim_process(1, ConnectAnswer::Failed),
        ConnectStep::GiveUp(ConnectFailure::Rejected)
    );
    assert_eq!(
        session_with_new_neovim_process(50, ConnectAnswer::Failed),
        ConnectStep::GiveUp(ConnectFailure::Rejected)
    );
}

#[test]
fn steps_of_the_polling() {
    assert_eq!(
        session_with_new_neovim_process(1, ConnectAnswer::NotFound),
        ConnectStep::Wait(16)
    );
    assert_eq!(
        session_with_new_neovim_process(99, ConnectAnswer::NotFound),
        ConnectStep::Wait(16)
    );
    assert_eq!(
        session_with_new_neovim_process(100, ConnectAnswer::NotFound),
        ConnectStep::GiveUp(ConnectFailure::Exhausted)
    );
    assert_eq!(
        session_with_new_neovim_process(100, ConnectAnswer::Connected),
        ConnectStep::Established
    );
}

#[test]
fn attaching_is_tried_once() {
    let target = open(Some("/tmp/nvim.sock"));
    assert_eq!(connection_step(&target, 1, ConnectAnswer::Connected), ConnectStep::Established);
    assert_eq!(
        connection_step(&target, 1, ConnectAnswer::NotFound),
        ConnectStep::GiveUp(ConnectFailure::Rejected)
    );
    assert_eq!(
        connection_step(&target, 1, ConnectAnswer::Failed),
        ConnectStep::GiveUp(ConnectFailure::Rejected)
    );
}

#[test]
fn spawning_is_polled() {
    let target = open(None);
    assert_eq!(connection_step(&target, 1, ConnectAnswer::NotFound), ConnectStep::Wait(16));
    assert_eq!(
        connection_step(&target, 100, ConnectAnswer::NotFound),
        ConnectStep::GiveUp(ConnectFailure::Exhausted)
    );
    assert_eq!(connection_step(&target, 3, ConnectAnswer::Connected), ConnectStep::Established);
}

#[test]
fn closing_waits_only_for_a_spawned_child() {
    let attached = NeovimConnection {
        nvim_proc: None,
        initial_buf_number: 1,
    };
    assert!(!attached.is_child_neovim_process_spawned());
    assert_eq!(close(attached), None);
    let spawned = NeovimConnection {
        nvim_proc: Some(4711),
        initial_buf_number: 1,
    };
    assert!(spawned.is_child_neovim_process_spawned());
    assert_eq!(close(spawned), Some(4711));
}

#[test]
fn subscribing_gives_a_receiver_and_an_empty_queue() {
    let (receiver, mut queue) = subscribe("id-9");
    assert_eq!(receiver.page_id, "id-9");
    assert_eq!(queue.len(), 0);
    assert!(!queue.is_disconnected());
    assert_eq!(queue.try_send(NotificationFromNeovim::FetchPart), SendOutcome::Queued);
}
