use echo_dispatch::tcp::{
    handler_continues, listen_continues, tcp_connection_step, tcp_listen_step, ListenAction,
    ListenEvent, TcpAction, TcpEvent,
};
use echo_dispatch::text::check_utf8;
use echo_dispatch::udp::{
    receiver_continues, udp_receive_step, UdpAction, UdpEvent,
};
use echo_dispatch::MAX_PACKET_SIZE;

#[test]
fn tcp_round_trip_echoes_exact_bytes() {
    let sent: Vec<u8> = b"hello over tcp".to_vec();
    let action = tcp_connection_step(TcpEvent::Received(sent.clone()));
    match action {
        TcpAction::Echo(echoed) => assert_eq!(echoed, sent),
        _ => panic!("decodable data must be echoed"),
    }
}

#[test]
fn tcp_echo_handler_keeps_reading() {
    let action = tcp_connection_step(TcpEvent::Received(b"ping".to_vec()));
    assert!(handler_continues(&action));
}

#[test]
fn tcp_full_buffer_chunk_is_echoed_whole() {
    let sent = vec![b'a'; MAX_PACKET_SIZE];
    let action = tcp_connection_step(TcpEvent::Received(sent.clone()));
    match action {
        TcpAction::Echo(echoed) => assert_eq!(echoed, sent),
        _ => panic!("a full 2048-byte chunk must be echoed whole"),
    }
}

#[test]
fn tcp_half_close_is_a_clean_disconnect() {
    let action = tcp_connection_step(TcpEvent::Disconnected);
    assert!(matches!(action, TcpAction::LogDisconnect));
    assert!(!handler_continues(&action));
}

#[test]
fn tcp_read_error_shuts_down_the_connection() {
    let action = tcp_connection_step(TcpEvent::ReadFailed);
    assert!(matches!(action, TcpAction::ShutdownBoth));
    assert!(!handler_continues(&action));
}

#[test]
fn tcp_undecodable_data_closes_only_this_connection() {
    let action = tcp_connection_step(TcpEvent::Received(vec![0xff, 0xfe, 0x41]));
    assert!(matches!(action, TcpAction::ReportDecodeError));
    assert!(!handler_continues(&action));
}

#[test]
fn tcp_bind_failure_is_fatal() {
    let action = tcp_listen_step(ListenEvent::BindFailed);
    assert!(matches!(action, ListenAction::FatalExit));
    assert!(!listen_continues(&action));
}

#[test]
fn tcp_accept_outcomes_keep_the_listener_running() {
    let spawned = tcp_listen_step(ListenEvent::Accepted);
    assert!(matches!(spawned, ListenAction::SpawnHandler));
    assert!(listen_continues(&spawned));
    let failed = tcp_listen_step(ListenEvent::AcceptFailed);
    assert!(matches!(failed, ListenAction::LogAndContinue));
    assert!(listen_continues(&failed));
}

#[test]
fn utf8_accepts_plain_and_multibyte_text() {
    assert!(check_utf8(b"plain ascii"));
    assert!(check_utf8("héllo wörld".as_bytes()));
    assert!(check_utf8("\u{2713} \u{1F600}".as_bytes()));
    assert!(check_utf8(b""));
}

#[test]
fn utf8_rejects_malformed_bytes() {
    assert!(!check_utf8(&[0xff]));
    assert!(!check_utf8(&[0x80]));
    assert!(!check_utf8(&[0xc3]));
    assert!(!check_utf8(&[0xc0, 0x80]));
    assert!(!check_utf8(&[0xe0, 0x80, 0x80]));
    assert!(!check_utf8(&[0xed, 0xa0, 0x80]));
    assert!(!check_utf8(&[0xf4, 0x90, 0x80, 0x80]));
    assert!(!check_utf8(&[0xf0, 0x9f, 0x98]));
}

#[test]
fn udp_small_datagram_is_logged_whole() {
    let payload: Vec<u8> = b"one datagram".to_vec();
    let action = udp_receive_step(UdpEvent::Datagram(
        payload.clone(),
        "127.0.0.1:9000".to_string(),
    ));
    match action {
        UdpAction::LogDatagram(log) => {
            assert_eq!(log.payload, payload);
            assert_eq!(log.size, payload.len());
            assert_eq!(log.source, "127.0.0.1:9000");
        }
        _ => panic!("a datagram must produce exactly one log record"),
    }
}

#[test]
fn udp_oversized_datagram_is_truncated() {
    let mut payload = vec![b'x'; MAX_PACKET_SIZE + 952];
    payload[MAX_PACKET_SIZE - 1] = b'y';
    let action = udp_receive_step(UdpEvent::Datagram(payload.clone(), "src".to_string()));
    match action {
        UdpAction::LogDatagram(log) => {
            assert_eq!(log.size, MAX_PACKET_SIZE);
            assert_eq!(log.payload, payload[..MAX_PACKET_SIZE].to_vec());
            assert_eq!(log.payload[MAX_PACKET_SIZE - 1], b'y');
        }
        _ => panic!("an oversized datagram is still logged, truncated"),
    }
}

#[test]
fn udp_exact_buffer_size_datagram_is_kept_whole() {
    let payload = vec![b'z'; MAX_PACKET_SIZE];
    let action = udp_receive_step(UdpEvent::Datagram(payload.clone(), "src".to_string()));
    match action {
        UdpAction::LogDatagram(log) => {
            assert_eq!(log.size, MAX_PACKET_SIZE);
            assert_eq!(log.payload, payload);
        }
        _ => panic!("a datagram that just fits must be logged whole"),
    }
}

#[test]
fn udp_receive_error_retries() {
    let action = udp_receive_step(UdpEvent::ReceiveFailed);
    assert!(matches!(action, UdpAction::LogAndRetry));
    assert!(receiver_continues(&action));
}

#[test]
fn udp_bind_failure_is_fatal() {
    let action = udp_receive_step(UdpEvent::BindFailed);
    assert!(matches!(action, UdpAction::FatalExit));
    assert!(!receiver_continues(&action));
}
