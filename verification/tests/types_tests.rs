use wormhole_native::{add, hello, ProgressEvent, ReceiveOffer, WormholeError};

#[test]
fn progress_event_halfway() {
    let ev = ProgressEvent::new(5, 10);
    assert_eq!(ev.transferred, 5);
    assert_eq!(ev.total, 10);
    assert_eq!(ev.percent, 50);
}

#[test]
fn progress_event_rounds() {
    assert_eq!(ProgressEvent::new(1, 3).percent, 33);
    assert_eq!(ProgressEvent::new(2, 3).percent, 67);
}

#[test]
fn progress_event_zero_total() {
    let ev = ProgressEvent::new(0, 0);
    assert_eq!(ev.percent, 0);
}

#[test]
fn progress_event_complete() {
    let ev = ProgressEvent::new(10, 10);
    assert_eq!(ev.percent, 100);
}

#[test]
fn progress_event_nothing_sent() {
    assert_eq!(ProgressEvent::new(0, 10).percent, 0);
}

#[test]
fn receive_offer_fields() {
    let offer = ReceiveOffer::new("a.txt".to_string(), 5);
    assert_eq!(offer.filename, "a.txt");
    assert_eq!(offer.filesize, 5);
}

#[test]
fn hello_greets() {
    assert_eq!(hello(), "Hello from wormhole-native!");
}

#[test]
fn add_adds() {
    assert_eq!(add(2, 3), 5);
}

#[test]
fn error_messages_distinguish_failures() {
    assert_eq!(
        WormholeError::ConnectionFailed("relay down".to_string()).message(),
        "Connection failed: relay down"
    );
    assert_eq!(
        WormholeError::InvalidCode("7-wrong-words".to_string()).message(),
        "Invalid code: 7-wrong-words"
    );
    assert_eq!(
        WormholeError::TransferFailed("peer gone".to_string()).message(),
        "Transfer failed: peer gone"
    );
    assert_eq!(WormholeError::Cancelled.message(), "Operation cancelled");
    assert_eq!(
        WormholeError::FileNotFound("/tmp/missing".to_string()).message(),
        "File not found: /tmp/missing"
    );
    assert_eq!(
        WormholeError::IoError("disk full".to_string()).message(),
        "IO error: disk full"
    );
    assert_eq!(
        WormholeError::ProtocolError("bad frame".to_string()).message(),
        "Protocol error: bad frame"
    );
    assert_eq!(
        WormholeError::NoActiveSession.message(),
        "No active wormhole session"
    );
}

#[test]
fn progress_event_clamps_overshoot() {
    let ev = ProgressEvent::new(15, 10);
    assert_eq!(ev.percent, 100);
}
