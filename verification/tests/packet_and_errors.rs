use study_server::error::SessionSendError;
use study_server::packet::{frame_packet, make_packet, PacketTag};
use study_server::text::decimal;
use study_server::AppError;

#[test]
fn tag_bytes_round_trip() {
    let tags = [
        PacketTag::Heartbeat,
        PacketTag::Auth,
        PacketTag::Text,
        PacketTag::TextError,
        PacketTag::Binary,
        PacketTag::Game,
        PacketTag::JoinQueue,
    ];
    for tag in tags {
        assert_eq!(PacketTag::from_u8(tag.to_u8()), Some(tag));
    }
}

#[test]
fn tag_byte_values() {
    assert_eq!(PacketTag::Heartbeat.to_u8(), 0);
    assert_eq!(PacketTag::Auth.to_u8(), 1);
    assert_eq!(PacketTag::Text.to_u8(), 2);
    assert_eq!(PacketTag::TextError.to_u8(), 3);
    assert_eq!(PacketTag::Binary.to_u8(), 4);
    assert_eq!(PacketTag::Game.to_u8(), 10);
    assert_eq!(PacketTag::JoinQueue.to_u8(), 11);
}

#[test]
fn unknown_tag_bytes() {
    for b in [5u8, 6, 9, 12, 99, 255] {
        assert_eq!(PacketTag::from_u8(b), None);
    }
}

#[test]
fn frames_carry_tag_then_payload() {
    assert_eq!(frame_packet(PacketTag::Text, b"hi"), vec![2, b'h', b'i']);
    assert_eq!(frame_packet(PacketTag::Heartbeat, &[]), vec![0]);
    assert_eq!(make_packet(7, &[1, 2, 3]), vec![7, 1, 2, 3]);
}

#[test]
fn decimal_notation() {
    assert_eq!(decimal(0), "0");
    assert_eq!(decimal(7), "7");
    assert_eq!(decimal(10), "10");
    assert_eq!(decimal(1557), "1557");
    assert_eq!(decimal(u32::MAX), "4294967295");
}

#[test]
fn client_messages_for_each_error() {
    assert_eq!(
        AppError::InvalidTicket.to_client_message(),
        ("AUTH_FAILED", "Invalid or expired ticket".to_string())
    );
    assert_eq!(
        AppError::UnknownSocketType { value: 42 }.to_client_message(),
        ("BAD_REQUEST", "Unknown opcode: 42".to_string())
    );
    assert_eq!(
        AppError::Utf8 { field: "ticket".to_string() }.to_client_message(),
        ("BAD_FORMAT", "Invalid UTF-8 in ticket".to_string())
    );
    assert_eq!(
        AppError::InvalidFrame { reason: "First frame must be auth".to_string() }.to_client_message(),
        ("BAD_REQUEST", "First frame must be auth".to_string())
    );
    assert_eq!(
        AppError::DuplicateLogin { user_id: "u1".to_string() }.to_client_message(),
        ("ALREADY_CONNECTED", "User is already connected".to_string())
    );
    let internal = [
        AppError::Config { reason: "x".to_string() },
        AppError::Bind { addr: "0.0.0.0:8080".to_string() },
        AppError::Serve,
        AppError::Redis { reason: "down".to_string() },
        AppError::SessionManager { reason: "gone".to_string() },
        AppError::WebSocket { reason: "recv".to_string() },
        AppError::TicketLookupFailed { key: "k".to_string() },
        AppError::SessionSendFailed { user_id: "u".to_string(), source: SessionSendError },
        AppError::RoomManager { reason: "r".to_string() },
    ];
    for e in internal {
        assert_eq!(e.to_client_message(), ("SERVER_ERROR", "Internal server error".to_string()));
    }
}

#[test]
fn error_descriptions() {
    let cases = [
        (AppError::Config { reason: "bad url".to_string() }, "configuration error: bad url"),
        (AppError::Bind { addr: "0.0.0.0:8080".to_string() }, "failed to bind server socket at 0.0.0.0:8080"),
        (AppError::Serve, "server runtime error"),
        (AppError::Redis { reason: "operation failed".to_string() }, "redis error: operation failed"),
        (AppError::SessionManager { reason: "closed".to_string() }, "SessionManager error: closed"),
        (AppError::WebSocket { reason: "recv - x".to_string() }, "websocket protocol error: recv - x"),
        (AppError::UnknownSocketType { value: 200 }, "unknown socket type: 200"),
        (AppError::Utf8 { field: "ticket".to_string() }, "utf-8 decode failed for field: ticket"),
        (AppError::InvalidTicket, "ticket is invalid or expired"),
        (AppError::TicketLookupFailed { key: "game_ticket:a".to_string() }, "ticket lookup failed (key: game_ticket:a)"),
        (
            AppError::SessionSendFailed { user_id: "u9".to_string(), source: SessionSendError },
            "session channel full/closed for user_id=u9",
        ),
        (AppError::InvalidFrame { reason: "short".to_string() }, "invalid frame: short"),
        (AppError::DuplicateLogin { user_id: "u1".to_string() }, "duplicate login for user_id=u1"),
        (AppError::RoomManager { reason: "Room a not found".to_string() }, "room manager error: Room a not found"),
    ];
    for (e, text) in cases {
        assert_eq!(e.to_message(), text);
    }
    assert_eq!(SessionSendError.message(), "receiver dropped or channel closed");
}
