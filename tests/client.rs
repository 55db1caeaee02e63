use mirkobo::api::FromServerMessage;
use mirkobo::channel::WorkerStep;
use mirkobo::client::{ClientAction, ClientPhase, ClientSession, RETRY_DELAY_MS};
use mirkobo::codec::encode_server;

fn active_session() -> ClientSession {
    let mut s = ClientSession::new();
    assert_eq!(s.start(), vec![ClientAction::StartWorkers, ClientAction::Connect]);
    assert_eq!(s.on_connected(true), vec![ClientAction::SendPing]);
    assert_eq!(s.phase(), ClientPhase::AwaitingPong);
    assert_eq!(s.on_message(&encode_server(FromServerMessage::Pong)), vec![ClientAction::SendScreenSize]);
    assert_eq!(s.phase(), ClientPhase::Active);
    s
}

#[test]
fn handshake_then_taps_in_order() {
    let mut s = active_session();
    for (x, y) in [(1u16, 2u16), (3, 4), (5, 6)] {
        assert_eq!(s.on_message(&encode_server(FromServerMessage::Click(x, y))), vec![]);
        // Capture traffic in between does not disturb the taps.
        let _ = s.on_message(&encode_server(FromServerMessage::RequestScreen));
    }
    assert_eq!(s.next_tap(), WorkerStep::Run((1, 2)));
    assert_eq!(s.next_tap(), WorkerStep::Run((3, 4)));
    assert_eq!(s.next_tap(), WorkerStep::Run((5, 6)));
    assert_eq!(s.next_tap(), WorkerStep::Wait);
}

#[test]
fn request_while_capture_outstanding_is_ignored() {
    let mut s = active_session();
    let request = encode_server(FromServerMessage::RequestScreen);
    assert_eq!(s.on_message(&request), vec![]);
    assert_eq!(s.on_message(&request), vec![ClientAction::CaptureIgnored]);
    assert_eq!(s.next_capture(), WorkerStep::Run(()));
    assert_eq!(s.on_message(&request), vec![ClientAction::CaptureIgnored]);
    assert_eq!(s.next_capture(), WorkerStep::Wait);
    assert!(s.capture_done());
    assert_eq!(s.on_message(&request), vec![]);
    assert_eq!(s.next_capture(), WorkerStep::Run(()));
}

#[test]
fn disconnect_stops_workers_before_retry() {
    let mut s = active_session();
    let _ = s.on_message(&encode_server(FromServerMessage::Click(7, 8)));
    let _ = s.on_message(&encode_server(FromServerMessage::RequestScreen));
    assert_eq!(s.next_capture(), WorkerStep::Run(()));
    assert_eq!(
        s.on_disconnected(),
        vec![ClientAction::StopWorkers, ClientAction::WaitRetry(RETRY_DELAY_MS)]
    );
    assert_eq!(RETRY_DELAY_MS, 3000);
    assert_eq!(s.phase(), ClientPhase::RetryWait);
    assert_eq!(s.next_tap(), WorkerStep::Stop);
    assert_eq!(s.next_capture(), WorkerStep::Stop);
    assert!(!s.capture_done());
    assert_eq!(s.on_disconnected(), vec![]);
    assert_eq!(s.start(), vec![ClientAction::StartWorkers, ClientAction::Connect]);
    assert_eq!(s.next_tap(), WorkerStep::Wait);
}

#[test]
fn failed_connection_retries() {
    let mut s = ClientSession::new();
    let _ = s.start();
    assert_eq!(
        s.on_connected(false),
        vec![ClientAction::StopWorkers, ClientAction::WaitRetry(3000)]
    );
    assert_eq!(s.phase(), ClientPhase::RetryWait);
}

#[test]
fn message_before_pong_ends_session() {
    let mut s = ClientSession::new();
    let _ = s.start();
    let _ = s.on_connected(true);
    assert_eq!(
        s.on_message(&encode_server(FromServerMessage::Click(1, 1))),
        vec![ClientAction::StopWorkers, ClientAction::WaitRetry(3000)]
    );
    assert_eq!(s.next_tap(), WorkerStep::Stop);
}

#[test]
fn undecodable_frame_ends_session() {
    let mut s = active_session();
    assert_eq!(
        s.on_message(&[1, 0, 0]),
        vec![ClientAction::StopWorkers, ClientAction::WaitRetry(3000)]
    );
    assert_eq!(s.phase(), ClientPhase::RetryWait);
}

#[test]
fn second_pong_resends_screen_size() {
    let mut s = active_session();
    assert_eq!(s.on_message(&encode_server(FromServerMessage::Pong)), vec![ClientAction::SendScreenSize]);
}

#[test]
fn events_before_start_are_ignored() {
    let mut s = ClientSession::new();
    assert_eq!(s.phase(), ClientPhase::Disconnected);
    assert_eq!(s.on_connected(true), vec![]);
    assert_eq!(s.on_message(&encode_server(FromServerMessage::Pong)), vec![]);
    assert_eq!(s.next_tap(), WorkerStep::Stop);
}
