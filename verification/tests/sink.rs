use stubborn_sink::stubborn_sink::{
    LinkEvent, RemoteConnectionState, StubbornSink, Submit, DEFAULT_BACKOFF_MS,
};

fn all_events() -> Vec<LinkEvent> {
    vec![
        LinkEvent::DialStarted,
        LinkEvent::DialPending,
        LinkEvent::DialFailed,
        LinkEvent::LinkUp,
        LinkEvent::Taken,
        LinkEvent::LinkDown,
    ]
}

fn sink_in(state: RemoteConnectionState) -> StubbornSink {
    let mut sink = StubbornSink::new("127.0.0.1:8765".to_string());
    if state != RemoteConnectionState::NotConnected {
        sink.start_send(LinkEvent::DialStarted);
    }
    if state == RemoteConnectionState::Connected {
        sink.start_send(LinkEvent::LinkUp);
    }
    assert_eq!(sink.status(), state);
    sink
}

#[test]
fn new_sink_is_not_connected() {
    let sink = StubbornSink::new("127.0.0.1:8765".to_string());
    assert_eq!(sink.status(), RemoteConnectionState::NotConnected);
    assert_eq!(sink.remote_addr(), "127.0.0.1:8765");
    assert_eq!(sink.backoff_ms(), 100);
    assert_eq!(DEFAULT_BACKOFF_MS, 100);
}

#[test]
fn state_names() {
    assert_eq!(RemoteConnectionState::NotConnected.to_string(), "NotConnected");
    assert_eq!(RemoteConnectionState::Connecting.to_string(), "Connecting");
    assert_eq!(RemoteConnectionState::Connected.to_string(), "Connected");
}

#[test]
fn not_connected_starts_a_connect() {
    let mut sink = sink_in(RemoteConnectionState::NotConnected);
    assert_eq!(sink.start_send(LinkEvent::DialStarted), Submit::Again);
    assert_eq!(sink.status(), RemoteConnectionState::Connecting);
}

#[test]
fn pending_connect_is_busy() {
    let mut sink = sink_in(RemoteConnectionState::Connecting);
    assert_eq!(sink.start_send(LinkEvent::DialPending), Submit::Busy);
    assert_eq!(sink.status(), RemoteConnectionState::Connecting);
}

#[test]
fn failed_connect_backs_off_and_redials() {
    let mut sink = sink_in(RemoteConnectionState::Connecting);
    assert_eq!(sink.start_send(LinkEvent::DialFailed), Submit::Backoff(100));
    assert_eq!(sink.status(), RemoteConnectionState::NotConnected);
    assert_eq!(sink.start_send(LinkEvent::DialStarted), Submit::Again);
    assert_eq!(sink.status(), RemoteConnectionState::Connecting);
}

#[test]
fn successful_connect_is_connected() {
    let mut sink = sink_in(RemoteConnectionState::Connecting);
    assert_eq!(sink.start_send(LinkEvent::LinkUp), Submit::Again);
    assert_eq!(sink.status(), RemoteConnectionState::Connected);
}

#[test]
fn connected_link_accepts() {
    let mut sink = sink_in(RemoteConnectionState::Connected);
    assert_eq!(sink.start_send(LinkEvent::Taken), Submit::Accepted);
    assert_eq!(sink.status(), RemoteConnectionState::Connected);
}

#[test]
fn stale_link_drops_to_not_connected() {
    let mut sink = sink_in(RemoteConnectionState::Connected);
    assert_eq!(sink.start_send(LinkEvent::LinkDown), Submit::Again);
    assert_eq!(sink.status(), RemoteConnectionState::NotConnected);
}

#[test]
fn a_report_that_does_not_answer_the_state_changes_nothing() {
    let answers = |state: RemoteConnectionState, event: LinkEvent| match state {
        RemoteConnectionState::NotConnected => event == LinkEvent::DialStarted,
        RemoteConnectionState::Connecting => {
            event == LinkEvent::DialPending
                || event == LinkEvent::DialFailed
                || event == LinkEvent::LinkUp
        }
        RemoteConnectionState::Connected => {
            event == LinkEvent::Taken || event == LinkEvent::LinkDown
        }
    };
    for state in [
        RemoteConnectionState::NotConnected,
        RemoteConnectionState::Connecting,
        RemoteConnectionState::Connected,
    ] {
        for event in all_events() {
            if !answers(state, event) {
                let mut sink = sink_in(state);
                assert_eq!(sink.start_send(event), Submit::Again);
                assert_eq!(sink.status(), state);
            }
        }
    }
}

#[test]
fn address_and_backoff_never_change() {
    let mut sink = StubbornSink::new("remote:1".to_string());
    for event in [
        LinkEvent::DialStarted,
        LinkEvent::DialFailed,
        LinkEvent::DialStarted,
        LinkEvent::LinkUp,
        LinkEvent::Taken,
        LinkEvent::LinkDown,
    ] {
        sink.start_send(event);
        assert_eq!(sink.remote_addr(), "remote:1");
        assert_eq!(sink.backoff_ms(), 100);
    }
}
