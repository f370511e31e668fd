use embedded_recruitment_task::server::{
    ListenerAction, ListenerEvent, Server, ServerState, StopOutcome,
};
use std::sync::Arc;
use std::time::Duration;

fn every_event() -> Vec<ListenerEvent> {
    vec![
        ListenerEvent::Ready,
        ListenerEvent::Accepted,
        ListenerEvent::AcceptFailed,
        ListenerEvent::ShutdownSignalled,
        ListenerEvent::ListenerFailed,
    ]
}

fn running_server() -> Server {
    let mut server = Server::new();
    assert_eq!(server.run(ListenerEvent::Ready), ListenerAction::Wait);
    server
}

#[test]
fn a_new_server_is_created_with_its_flag_raised() {
    let server = Server::new();
    assert_eq!(server.state(), ServerState::Created);
    assert!(server.is_running());
}

#[test]
fn entering_the_loop_makes_the_server_running() {
    let mut server = Server::new();
    assert_eq!(server.run(ListenerEvent::Ready), ListenerAction::Wait);
    assert_eq!(server.state(), ServerState::Running);
    assert!(server.is_running());
}

#[test]
fn every_accepted_connection_is_spawned() {
    let mut server = running_server();
    for _ in 0..50 {
        assert_eq!(server.run(ListenerEvent::Accepted), ListenerAction::Spawn);
        assert_eq!(server.state(), ServerState::Running);
        assert_eq!(server.run(ListenerEvent::Ready), ListenerAction::Wait);
    }
}

#[test]
fn an_accept_error_is_reported_and_the_listener_goes_on() {
    let mut server = running_server();
    assert_eq!(
        server.run(ListenerEvent::AcceptFailed),
        ListenerAction::ReportAcceptError
    );
    assert_eq!(server.state(), ServerState::Running);
    assert_eq!(server.run(ListenerEvent::Ready), ListenerAction::Wait);
    assert_eq!(server.run(ListenerEvent::Accepted), ListenerAction::Spawn);
}

#[test]
fn the_first_event_of_any_kind_finds_a_created_server_live() {
    let expected = vec![
        (ListenerAction::Wait, ServerState::Running),
        (ListenerAction::Spawn, ServerState::Running),
        (ListenerAction::ReportAcceptError, ServerState::Running),
        (ListenerAction::Exit, ServerState::Stopped),
        (ListenerAction::Fail, ServerState::Stopped),
    ];
    for (event, (action, state)) in every_event().into_iter().zip(expected) {
        let mut server = Server::new();
        assert_eq!(server.run(event), action);
        assert_eq!(server.state(), state);
    }
}

#[test]
fn the_shutdown_signal_ends_the_loop_without_error() {
    let mut server = running_server();
    assert_eq!(
        server.run(ListenerEvent::ShutdownSignalled),
        ListenerAction::Exit
    );
    assert_eq!(server.state(), ServerState::Stopped);
    assert!(!server.is_running());
}

#[test]
fn a_listener_failure_ends_the_loop_with_an_error() {
    let mut server = running_server();
    assert_eq!(
        server.run(ListenerEvent::ListenerFailed),
        ListenerAction::Fail
    );
    assert_eq!(server.state(), ServerState::Stopped);
    assert_eq!(server.run(ListenerEvent::Ready), ListenerAction::Exit);
}

#[test]
fn stop_brings_a_running_server_to_stopped() {
    let mut server = running_server();
    assert_eq!(server.stop(), StopOutcome::SignalSent);
    assert_eq!(server.state(), ServerState::Stopped);
    assert!(!server.is_running());
}

#[test]
fn stop_brings_a_created_server_to_stopped() {
    let mut server = Server::new();
    assert_eq!(server.stop(), StopOutcome::SignalSent);
    assert_eq!(server.state(), ServerState::Stopped);
}

#[test]
fn a_second_stop_is_a_no_op() {
    let mut server = running_server();
    assert_eq!(server.stop(), StopOutcome::SignalSent);
    assert_eq!(server.stop(), StopOutcome::AlreadyStopped);
    assert_eq!(server.state(), ServerState::Stopped);
    assert_eq!(server.stop(), StopOutcome::AlreadyStopped);
    assert_eq!(server.state(), ServerState::Stopped);
}

#[test]
fn stop_after_the_loop_has_ended_is_a_no_op() {
    let mut server = running_server();
    server.run(ListenerEvent::ShutdownSignalled);
    assert_eq!(server.stop(), StopOutcome::AlreadyStopped);
}

#[test]
fn nothing_is_accepted_after_stop() {
    for first in every_event() {
        let mut server = running_server();
        server.stop();
        assert_eq!(server.run(first), ListenerAction::Exit);
        for event in every_event() {
            assert_eq!(server.run(event), ListenerAction::Exit);
            assert_eq!(server.state(), ServerState::Stopped);
            assert!(!server.is_running());
        }
    }
}

#[test]
fn a_stopped_server_does_not_run_again() {
    let mut server = Server::new();
    server.stop();
    assert_eq!(server.run(ListenerEvent::Ready), ListenerAction::Exit);
    assert_eq!(server.state(), ServerState::Stopped);
}

#[test]
fn the_signal_is_the_same_through_the_whole_life_of_a_server() {
    let mut server = Server::new();
    let signal = Arc::clone(server.shutdown_signal());
    server.run(ListenerEvent::Ready);
    assert!(Arc::ptr_eq(&signal, server.shutdown_signal()));
    server.run(ListenerEvent::Accepted);
    assert!(Arc::ptr_eq(&signal, server.shutdown_signal()));
    server.stop();
    assert!(Arc::ptr_eq(&signal, server.shutdown_signal()));
    server.stop();
    assert!(Arc::ptr_eq(&signal, server.shutdown_signal()));
}

#[test]
fn two_servers_have_signals_of_their_own() {
    let one = Server::new();
    let other = Server::new();
    assert!(!Arc::ptr_eq(one.shutdown_signal(), other.shutdown_signal()));
}

#[test]
fn stop_wakes_a_listener_that_is_waiting() {
    let runtime = tokio::runtime::Builder::new_current_thread()
        .enable_time()
        .build()
        .unwrap();
    let mut server = running_server();
    let signal = Arc::clone(server.shutdown_signal());
    let woken = runtime.block_on(async {
        let mut waiting = Box::pin(signal.notified());
        waiting.as_mut().enable();
        assert_eq!(server.stop(), StopOutcome::SignalSent);
        tokio::time::timeout(Duration::from_secs(5), waiting)
            .await
            .is_ok()
    });
    assert!(woken);
    assert_eq!(
        server.run(ListenerEvent::ShutdownSignalled),
        ListenerAction::Exit
    );
}

#[test]
fn stop_wakes_every_waiter_at_once() {
    let runtime = tokio::runtime::Builder::new_current_thread()
        .enable_time()
        .build()
        .unwrap();
    let mut server = running_server();
    let signal = Arc::clone(server.shutdown_signal());
    let woken = runtime.block_on(async {
        let mut first = Box::pin(signal.notified());
        let mut second = Box::pin(signal.notified());
        first.as_mut().enable();
        second.as_mut().enable();
        server.stop();
        let first = tokio::time::timeout(Duration::from_secs(5), first).await;
        let second = tokio::time::timeout(Duration::from_secs(5), second).await;
        first.is_ok() && second.is_ok()
    });
    assert!(woken);
}

#[test]
fn a_second_stop_sends_no_signal() {
    let runtime = tokio::runtime::Builder::new_current_thread()
        .enable_time()
        .build()
        .unwrap();
    let mut server = running_server();
    server.stop();
    let signal = Arc::clone(server.shutdown_signal());
    let woken = runtime.block_on(async {
        let mut waiting = Box::pin(signal.notified());
        waiting.as_mut().enable();
        assert_eq!(server.stop(), StopOutcome::AlreadyStopped);
        tokio::time::timeout(Duration::from_millis(100), waiting)
            .await
            .is_ok()
    });
    assert!(!woken);
}

#[test]
fn the_listener_s_events_send_no_signal() {
    let runtime = tokio::runtime::Builder::new_current_thread()
        .enable_time()
        .build()
        .unwrap();
    let mut server = Server::new();
    let signal = Arc::clone(server.shutdown_signal());
    let woken = runtime.block_on(async {
        let mut waiting = Box::pin(signal.notified());
        waiting.as_mut().enable();
        for event in every_event() {
            server.run(event);
        }
        tokio::time::timeout(Duration::from_millis(100), waiting)
            .await
            .is_ok()
    });
    assert!(!woken);
}
