use ssh_tunnel::{
    accept_step, relay_step, run_accept, run_relay, AcceptAction, AcceptEvent, RelayAction,
    RelayEvent,
};

#[test]
fn bytes_cross_the_relay_unmodified_and_in_order() {
    let events = vec![
        RelayEvent::LocalData(vec![1, 2, 3]),
        RelayEvent::ChannelData(vec![9]),
        RelayEvent::LocalData(vec![4, 5]),
        RelayEvent::ChannelOther,
        RelayEvent::ChannelData(vec![8, 7]),
        RelayEvent::LocalClosed,
        RelayEvent::LocalData(vec![6]),
    ];
    let o = run_relay(&events);
    assert_eq!(o.remote, vec![1, 2, 3, 4, 5]);
    assert_eq!(o.local, vec![9, 8, 7]);
}

#[test]
fn relay_stops_at_channel_close() {
    let events = vec![
        RelayEvent::ChannelData(vec![42]),
        RelayEvent::ChannelClosed,
        RelayEvent::ChannelData(vec![43]),
        RelayEvent::LocalData(vec![44]),
    ];
    let o = run_relay(&events);
    assert_eq!(o.remote, Vec::<u8>::new());
    assert_eq!(o.local, vec![42]);
}

#[test]
fn relay_stops_at_local_read_error() {
    let events = vec![
        RelayEvent::LocalData(vec![5]),
        RelayEvent::LocalFailed,
        RelayEvent::ChannelData(vec![6]),
    ];
    let o = run_relay(&events);
    assert_eq!(o.remote, vec![5]);
    assert_eq!(o.local, Vec::<u8>::new());
}

#[test]
fn empty_trace_relays_nothing() {
    let o = run_relay(&Vec::new());
    assert!(o.remote.is_empty());
    assert!(o.local.is_empty());
}

#[test]
fn relay_step_passes_frames_through_verbatim() {
    match relay_step(RelayEvent::LocalData(vec![10, 20])) {
        RelayAction::SendToRemote(d) => assert_eq!(d, vec![10, 20]),
        _ => panic!("expected bytes forwarded to the remote"),
    }
    match relay_step(RelayEvent::ChannelData(vec![30])) {
        RelayAction::SendToLocal(d) => assert_eq!(d, vec![30]),
        _ => panic!("expected bytes written to the local socket"),
    }
    assert_eq!(relay_step(RelayEvent::ChannelOther), RelayAction::Ignore);
    assert_eq!(relay_step(RelayEvent::LocalClosed), RelayAction::Stop);
    assert_eq!(relay_step(RelayEvent::LocalFailed), RelayAction::Stop);
    assert_eq!(relay_step(RelayEvent::ChannelClosed), RelayAction::Stop);
}

#[test]
fn accept_loop_admits_nothing_after_shutdown() {
    let events = vec![
        AcceptEvent::ConnectionArrived,
        AcceptEvent::AcceptFailed,
        AcceptEvent::ConnectionArrived,
        AcceptEvent::ShutdownRequested,
        AcceptEvent::ConnectionArrived,
        AcceptEvent::ConnectionArrived,
    ];
    assert_eq!(run_accept(&events), 2);
}

#[test]
fn accept_error_does_not_terminate_the_loop() {
    let events = vec![AcceptEvent::AcceptFailed, AcceptEvent::ConnectionArrived];
    assert_eq!(run_accept(&events), 1);
}

#[test]
fn accept_loop_without_shutdown_admits_every_connection() {
    let events = vec![
        AcceptEvent::ConnectionArrived,
        AcceptEvent::ConnectionArrived,
        AcceptEvent::ConnectionArrived,
    ];
    assert_eq!(run_accept(&events), 3);
}

#[test]
fn accept_step_decisions() {
    assert_eq!(accept_step(AcceptEvent::ShutdownRequested), AcceptAction::Stop);
    assert_eq!(accept_step(AcceptEvent::ConnectionArrived), AcceptAction::SpawnRelay);
    assert_eq!(accept_step(AcceptEvent::AcceptFailed), AcceptAction::KeepWaiting);
}
