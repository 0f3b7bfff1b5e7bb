use yured::error::Error;
use yured::ws::{
    ws_loop, ConnectOutcome, Incoming, IoKind, LoopAction, Outgoing, PollStep, WsClient,
    READ_TIMEOUT_MS, RECONNECT_BACKOFF_MS,
};

fn connected_client() -> WsClient {
    let mut client = WsClient::new("wss://collector.example/yure/".to_string());
    client.poll_connect(ConnectOutcome::Ready).unwrap();
    client
}

#[test]
fn client_starts_disconnected() {
    let client = WsClient::new("wss://collector.example/yure/".to_string());
    assert!(!client.is_connected());
    assert!(client.maybe_connect());
    assert_eq!(client.url(), "wss://collector.example/yure/");
}

#[test]
fn successful_handshake_connects() {
    let client = connected_client();
    assert!(client.is_connected());
    assert!(!client.maybe_connect());
}

#[test]
fn failed_handshake_stays_disconnected() {
    let mut client = WsClient::new("wss://collector.example/yure/".to_string());
    assert_eq!(
        client.poll_connect(ConnectOutcome::HandshakeFailed("refused".to_string())),
        Err(Error::Ws("refused".to_string()))
    );
    assert!(!client.is_connected());
    assert_eq!(
        client.poll_connect(ConnectOutcome::ConfigureFailed("bad socket".to_string())),
        Err(Error::InvalidState("websocket configure has been fucked: bad socket".to_string()))
    );
    assert!(!client.is_connected());
}

#[test]
fn sent_text_keeps_the_connection() {
    let mut client = connected_client();
    assert_eq!(client.send_text(Some(Ok(()))), Ok(true));
    assert!(client.is_connected());
}

#[test]
fn failed_send_disconnects() {
    let mut client = connected_client();
    assert_eq!(
        client.send_text(Some(Err("broken pipe".to_string()))),
        Err(Error::Ws("broken pipe".to_string()))
    );
    assert!(!client.is_connected());
}

#[test]
fn nothing_is_sent_without_socket() {
    let mut client = WsClient::new("wss://collector.example/yure/".to_string());
    assert_eq!(client.send_text(None), Ok(false));
    assert!(!client.is_connected());
}

#[test]
fn ping_is_answered() {
    let mut client = connected_client();
    assert_eq!(client.poll_incoming(Incoming::Ping), PollStep::ReplyPong);
    assert!(client.is_connected());
    assert_eq!(client.pong_sent(Ok(())), PollStep::Continue);
    assert!(client.is_connected());
}

#[test]
fn failed_pong_disconnects() {
    let mut client = connected_client();
    assert_eq!(
        client.pong_sent(Err("reset".to_string())),
        PollStep::Stop(Some(Error::Ws("reset".to_string())))
    );
    assert!(!client.is_connected());
}

#[test]
fn close_frame_closes_the_session() {
    let mut client = connected_client();
    assert_eq!(client.poll_incoming(Incoming::Close), PollStep::CloseSession);
    assert!(!client.is_connected());
}

#[test]
fn other_messages_are_passed_over() {
    let mut client = connected_client();
    assert_eq!(client.poll_incoming(Incoming::Message), PollStep::Continue);
    assert!(client.is_connected());
}

#[test]
fn a_read_that_ran_out_of_time_keeps_the_connection() {
    for kind in [IoKind::WouldBlock, IoKind::TimedOut, IoKind::Interrupted] {
        let mut client = connected_client();
        assert_eq!(
            client.poll_incoming(Incoming::Io(kind, "later".to_string())),
            PollStep::Stop(None)
        );
        assert!(client.is_connected());
    }
}

#[test]
fn other_read_failures_disconnect() {
    let mut client = connected_client();
    assert_eq!(
        client.poll_incoming(Incoming::Io(IoKind::Other, "reset by peer".to_string())),
        PollStep::Stop(Some(Error::Ws("reset by peer".to_string())))
    );
    assert!(!client.is_connected());
    let mut client = connected_client();
    assert_eq!(
        client.poll_incoming(Incoming::Failed("protocol violation".to_string())),
        PollStep::Stop(Some(Error::Ws("protocol violation".to_string())))
    );
    assert!(!client.is_connected());
}

#[test]
fn closed_connection_ends_polling_without_error() {
    for incoming in [Incoming::ConnectionClosed, Incoming::AlreadyClosed] {
        let mut client = connected_client();
        assert_eq!(client.poll_incoming(incoming), PollStep::Stop(None));
        assert!(!client.is_connected());
    }
}

#[test]
fn disconnected_client_has_nothing_to_poll() {
    let mut client = WsClient::new("wss://collector.example/yure/".to_string());
    assert_eq!(client.poll_incoming(Incoming::Ping), PollStep::Stop(None));
    assert!(!client.is_connected());
}

#[test]
fn sender_loop_turns() {
    assert_eq!(ws_loop(false, Outgoing::Batch("[1]".to_string())), LoopAction::Backoff);
    assert_eq!(ws_loop(false, Outgoing::Closed), LoopAction::Backoff);
    assert_eq!(
        ws_loop(true, Outgoing::Batch("[1]".to_string())),
        LoopAction::SendAndPoll("[1]".to_string())
    );
    assert_eq!(ws_loop(true, Outgoing::Nothing), LoopAction::Poll);
    assert_eq!(ws_loop(true, Outgoing::Closed), LoopAction::Stop);
}

#[test]
fn sender_timings() {
    assert_eq!(READ_TIMEOUT_MS, 10);
    assert_eq!(RECONNECT_BACKOFF_MS, 200);
}
