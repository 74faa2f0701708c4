use bytes::Bytes;
use study_server::client::{
    global_room_id, login_success_frame, match_join_error_frame, AuthPlan, BinaryAction, ClientActor, ClientStep,
    InboundFrame, JoinOutcome, SocketStep,
};
use study_server::messages::{ClientMessage, Delivery, RoomMessage};
use study_server::rooms::global::GlobalRoomActor;
use study_server::rooms::ingame::{game_result, InGameRoomActor};
use study_server::rooms::RoomHandle;
use study_server::deliveries::{failed_delivery, DeliveryRun};
use study_server::error::SessionSendError;
use study_server::shared_bytes::first_byte;
use study_server::AppError;

fn join(id: &str, tx: u32) -> RoomMessage<u32> {
    RoomMessage::Join { user_id: id.to_string(), tx }
}

fn packet(id: &str, data: &[u8]) -> RoomMessage<u32> {
    RoomMessage::GamePacket { user_id: id.to_string(), data: Bytes::from(data.to_vec()) }
}

fn sorted_targets(ds: &[Delivery]) -> Vec<String> {
    let mut t: Vec<String> = ds.iter().map(|d| d.target_id.clone()).collect();
    t.sort();
    t
}

#[test]
fn global_room_echo_adds_one() {
    let mut room: GlobalRoomActor<u32> = GlobalRoomActor::new();
    room.handle_command(join("a", 1));
    room.handle_command(join("b", 2));
    let out = room.handle_command(packet("a", &[1, 10, 255, 0]));
    assert_eq!(
        out,
        vec![Delivery { target_id: "a".to_string(), msg: ClientMessage::SendBinary(vec![1, 11, 0, 1]) }]
    );
    let stranger = room.handle_command(packet("zed", &[1, 5]));
    assert!(stranger.is_empty());
}

#[test]
fn global_room_relay_skips_sender() {
    let mut room: GlobalRoomActor<u32> = GlobalRoomActor::new();
    room.handle_command(join("a", 1));
    room.handle_command(join("b", 2));
    room.handle_command(join("c", 3));
    let out = room.handle_command(packet("b", &[2, 9, 8]));
    assert_eq!(sorted_targets(&out), vec!["a".to_string(), "c".to_string()]);
    for d in &out {
        assert_eq!(d.msg, ClientMessage::SendBinary(vec![2, 9, 8]));
    }
}

#[test]
fn global_room_counter_announced_to_all() {
    let mut room: GlobalRoomActor<u32> = GlobalRoomActor::new();
    room.handle_command(join("a", 1));
    room.handle_command(join("b", 2));
    let out = room.handle_command(packet("a", &[3]));
    assert_eq!(room.shared_counter(), 1);
    assert_eq!(sorted_targets(&out), vec!["a".to_string(), "b".to_string()]);
    for d in &out {
        assert_eq!(d.msg, ClientMessage::SendText("Room Counter: 1".to_string()));
    }
    let again = room.handle_command(packet("b", &[3, 0]));
    assert_eq!(room.shared_counter(), 2);
    assert_eq!(again[0].msg, ClientMessage::SendText("Room Counter: 2".to_string()));
}

#[test]
fn global_room_ignores_empty_and_unknown_packets() {
    let mut room: GlobalRoomActor<u32> = GlobalRoomActor::new();
    room.handle_command(join("a", 1));
    assert!(room.handle_command(packet("a", &[])).is_empty());
    assert!(room.handle_command(packet("a", &[9, 1])).is_empty());
    assert!(room.handle_command(RoomMessage::EndGame).is_empty());
    assert_eq!(room.shared_counter(), 0);
    room.handle_command(RoomMessage::Leave { user_id: "a".to_string() });
    assert_eq!(room.occupant(&"a".to_string()), None);
}

#[test]
fn ingame_room_starts_once_with_two_players() {
    let mut room: InGameRoomActor<u32> = InGameRoomActor::new("r1".to_string());
    let s1 = room.handle_command(join("a", 1));
    assert!(s1.start_game.is_none());
    let s2 = room.handle_command(join("b", 2));
    let mut players = s2.start_game.expect("game starts with two players");
    players.sort();
    assert_eq!(players, vec!["a".to_string(), "b".to_string()]);
    room.handle_command(RoomMessage::Leave { user_id: "b".to_string() });
    let s3 = room.handle_command(join("c", 3));
    assert!(s3.start_game.is_none());
}

#[test]
fn ingame_room_end_game_closes_room() {
    let mut room: InGameRoomActor<u32> = InGameRoomActor::new("r2".to_string());
    room.handle_command(join("a", 1));
    room.handle_command(join("b", 2));
    let step = room.handle_command(RoomMessage::EndGame);
    assert_eq!(sorted_targets(&step.deliveries), vec!["a".to_string(), "b".to_string()]);
    for d in &step.deliveries {
        assert_eq!(d.msg, ClientMessage::ClosedRoom { room_id: "r2".to_string() });
    }
    assert_eq!(step.delete_room, Some("r2".to_string()));
    assert_eq!(room.occupant(&"a".to_string()), None);
}

#[test]
fn game_result_first_player_wins() {
    let out = game_result(&vec!["a".to_string(), "b".to_string()]);
    assert_eq!(
        out,
        vec![
            Delivery { target_id: "a".to_string(), msg: ClientMessage::SendText("GAME_RESULT: WIN (vs b)".to_string()) },
            Delivery { target_id: "b".to_string(), msg: ClientMessage::SendText("GAME_RESULT: LOSE (vs a)".to_string()) },
        ]
    );
    assert!(game_result(&vec!["a".to_string()]).is_empty());
}

#[test]
fn room_handle_mailbox_error() {
    let h = RoomHandle::new(5u32, "r9".to_string());
    assert_eq!(*h.sender(), 5);
    assert_eq!(h.room_id(), "r9");
    assert_eq!(h.mailbox_closed(), AppError::RoomManager { reason: "room mailbox closed: r9".to_string() });
}

fn binary(data: &[u8]) -> InboundFrame {
    InboundFrame::Binary(Bytes::from(data.to_vec()))
}

#[test]
fn auth_guest_and_ticket() {
    let mut c: ClientActor<u32> = ClientActor::new();
    assert_eq!(c.authenticate(binary(&[1])), Ok(AuthPlan::Guest));
    assert!(c.is_guest());
    assert_eq!(c.id(), "{\"id\":1557, \"name\":\"Guest_1557\"}");
    assert_eq!(login_success_frame(&AuthPlan::Guest), [&[2u8][..], b"Guest Login Success"].concat());

    let mut t: ClientActor<u32> = ClientActor::new();
    let mut frame = vec![1u8];
    frame.extend_from_slice("abc✓".as_bytes());
    assert_eq!(
        t.authenticate(binary(&frame)),
        Ok(AuthPlan::LookupTicket { key: "game_ticket:abc✓".to_string() })
    );
    assert_eq!(t.complete_login(Some("user-7".to_string())), Ok(()));
    assert_eq!(t.id(), "user-7");
    assert!(!t.is_guest());
    let plan = AuthPlan::LookupTicket { key: "game_ticket:abc".to_string() };
    assert_eq!(login_success_frame(&plan), [&[2u8][..], b"Login Success"].concat());
    // a ticket login after a guest login is still confirmed as a ticket login
    let mut g: ClientActor<u32> = ClientActor::new();
    assert_eq!(g.authenticate(binary(&[1])), Ok(AuthPlan::Guest));
    let plan2 = g.authenticate(binary(&[1, b'z'])).unwrap();
    assert_eq!(g.complete_login(Some("user-8".to_string())), Ok(()));
    assert_eq!(login_success_frame(&plan2), [&[2u8][..], b"Login Success"].concat());
}

#[test]
fn auth_rejections() {
    let mut c: ClientActor<u32> = ClientActor::new();
    let bad = AppError::InvalidFrame { reason: "First frame must be auth".to_string() };
    assert_eq!(c.authenticate(binary(&[])), Err(bad.clone()));
    assert_eq!(c.authenticate(binary(&[2, 1])), Err(bad));
    assert_eq!(c.authenticate(binary(&[1, 0xff, 0xfe])), Err(AppError::Utf8 { field: "ticket".to_string() }));
    assert_eq!(c.complete_login(None), Err(AppError::InvalidTicket));
    let ws = |r: &str| Err(AppError::WebSocket { reason: r.to_string() });
    assert_eq!(c.authenticate(InboundFrame::Text), ws("Text frame not supported"));
    assert_eq!(c.authenticate(InboundFrame::Close), ws("Closed before auth"));
    assert_eq!(c.authenticate(InboundFrame::Ended), ws("Closed before auth"));
    assert_eq!(c.authenticate(InboundFrame::Ping), ws("Unsupported websocket frame (expected binary)"));
    assert_eq!(c.authenticate(InboundFrame::Failed("reset".to_string())), ws("recv - reset"));
    assert!(!c.is_guest());
    assert_eq!(c.id(), "");
}

#[test]
fn binary_frames_from_client() {
    let mut c: ClientActor<u32> = ClientActor::new();
    match c.handle_binary(&Bytes::from(vec![])) {
        Ok(BinaryAction::Ignore) => {}
        other => panic!("unexpected {:?}", other),
    }
    match c.handle_binary(&Bytes::from(vec![0])) {
        Ok(BinaryAction::Reply(f)) => assert_eq!(f, vec![0]),
        other => panic!("unexpected {:?}", other),
    }
    match c.handle_binary(&Bytes::from(vec![10, 1, 2])) {
        Err(e) => assert_eq!(e, AppError::RoomManager { reason: "global room handle missing".to_string() }),
        other => panic!("unexpected {:?}", other),
    }
    assert_eq!(c.finish_join_room(global_room_id(), JoinOutcome::Joined(4)), None);
    match c.handle_binary(&Bytes::from(vec![10, 1, 2])) {
        Ok(BinaryAction::ForwardGame { room_id, payload }) => {
            assert_eq!(room_id, "global");
            assert_eq!(&payload[..], &[1, 2]);
        }
        other => panic!("unexpected {:?}", other),
    }
    match c.handle_binary(&Bytes::from(vec![10])) {
        Ok(BinaryAction::Ignore) => {}
        other => panic!("unexpected {:?}", other),
    }
    match c.handle_binary(&Bytes::from(vec![11])) {
        Ok(BinaryAction::JoinQueue { confirmation }) => {
            assert_eq!(confirmation, [&[2u8][..], b"Joined Queue"].concat())
        }
        other => panic!("unexpected {:?}", other),
    }
    match c.handle_binary(&Bytes::from(vec![1, 0])) {
        Err(e) => assert_eq!(
            e,
            AppError::WebSocket { reason: "unexpected packet tag in binary handler: 1".to_string() }
        ),
        other => panic!("unexpected {:?}", other),
    }
    match c.handle_binary(&Bytes::from(vec![77])) {
        Err(e) => assert_eq!(e, AppError::UnknownSocketType { value: 77 }),
        other => panic!("unexpected {:?}", other),
    }
    c.handle_client_message(ClientMessage::ClosedRoom { room_id: "global".to_string() });
    assert_eq!(c.joined_room(&"global".to_string()), None);
}

#[test]
fn socket_frames_while_running() {
    let c: ClientActor<u32> = ClientActor::new();
    assert!(matches!(c.handle_socket_frame(InboundFrame::Close), Ok(SocketStep::Stop)));
    assert!(matches!(c.handle_socket_frame(InboundFrame::Ended), Ok(SocketStep::Stop)));
    assert!(matches!(c.handle_socket_frame(InboundFrame::Ping), Ok(SocketStep::Continue)));
    assert!(matches!(c.handle_socket_frame(InboundFrame::Pong), Ok(SocketStep::Continue)));
    match c.handle_socket_frame(InboundFrame::Text) {
        Err(e) => assert_eq!(e, AppError::WebSocket { reason: "Unsupported frame type".to_string() }),
        other => panic!("unexpected {:?}", other),
    }
    match c.handle_socket_frame(InboundFrame::Failed("eof".to_string())) {
        Err(e) => assert_eq!(e, AppError::WebSocket { reason: "recv - eof".to_string() }),
        other => panic!("unexpected {:?}", other),
    }
    match c.handle_socket_frame(binary(&[0])) {
        Ok(SocketStep::Act(BinaryAction::Reply(f))) => assert_eq!(f, vec![0]),
        other => panic!("unexpected {:?}", other),
    }
}

#[test]
fn server_messages_become_frames() {
    let mut c: ClientActor<u32> = ClientActor::new();
    match c.handle_client_message(ClientMessage::SendText("hé".to_string())) {
        ClientStep::Send(f) => assert_eq!(f, [&[2u8][..], "hé".as_bytes()].concat()),
        other => panic!("unexpected {:?}", other),
    }
    match c.handle_client_message(ClientMessage::SendBinary(vec![9, 9])) {
        ClientStep::Send(f) => assert_eq!(f, vec![4, 9, 9]),
        other => panic!("unexpected {:?}", other),
    }
    match c.handle_client_message(ClientMessage::Kick { reason: "idle".to_string() }) {
        ClientStep::SendAndClose(f) => assert_eq!(f, [&[3u8][..], b"Kicked: idle"].concat()),
        other => panic!("unexpected {:?}", other),
    }
    match c.handle_client_message(ClientMessage::JoinRoom { room_id: "m1".to_string() }) {
        ClientStep::JoinRoom { room_id } => assert_eq!(room_id, "m1"),
        other => panic!("unexpected {:?}", other),
    }
    c.finish_join_room("m1".to_string(), JoinOutcome::Joined(3));
    assert_eq!(c.joined_room(&"m1".to_string()), Some(&3));
    match c.handle_client_message(ClientMessage::ClosedRoom { room_id: "m1".to_string() }) {
        ClientStep::Notify(f) => assert_eq!(f, [&[2u8][..], b"ROOM_CLOSED:m1"].concat()),
        other => panic!("unexpected {:?}", other),
    }
    assert_eq!(c.joined_room(&"m1".to_string()), None);
}

#[test]
fn join_room_failures_are_reported() {
    let mut c: ClientActor<u32> = ClientActor::new();
    assert_eq!(
        c.finish_join_room("x".to_string(), JoinOutcome::NotFound),
        Some([&[3u8][..], b"Room 'x' not found."].concat())
    );
    let e = AppError::RoomManager { reason: "room mailbox closed: x".to_string() };
    assert_eq!(
        c.finish_join_room("x".to_string(), JoinOutcome::JoinFailed(e.clone())),
        Some([&[3u8][..], b"Failed to enter room: room manager error: room mailbox closed: x"].concat())
    );
    assert!(c.joined_room_ids().is_empty());
    assert_eq!(
        match_join_error_frame(&e),
        [&[3u8][..], b"Match Join Error: room manager error: room mailbox closed: x"].concat()
    );
}

#[test]
fn first_byte_of_packets() {
    assert_eq!(first_byte(&Bytes::from(vec![])), None);
    assert_eq!(first_byte(&Bytes::from(vec![3, 1])), Some(3));
}

#[test]
fn global_room_accepts_packets_while_counter_fits() {
    let room: GlobalRoomActor<u32> = GlobalRoomActor::new();
    assert!(room.accepts_packet(&Bytes::from(vec![3])));
    assert!(room.accepts_packet(&Bytes::from(vec![])));
    assert!(room.accepts_packet(&Bytes::from(vec![1, 2])));
}

#[test]
fn refused_delivery_error() {
    assert_eq!(
        failed_delivery("u5".to_string()),
        AppError::SessionSendFailed { user_id: "u5".to_string(), source: SessionSendError }
    );
}

fn text_to(id: &str, t: &str) -> Delivery {
    Delivery { target_id: id.to_string(), msg: ClientMessage::SendText(t.to_string()) }
}

#[test]
fn delivery_run_goes_in_order() {
    let mut run = DeliveryRun::new(vec![text_to("a", "1"), text_to("b", "2")]);
    let mut seen = Vec::new();
    while let Some(d) = run.next() {
        seen.push(d.clone());
        run.record(true);
    }
    assert_eq!(seen, vec![text_to("a", "1"), text_to("b", "2")]);
    assert_eq!(run.finish(), Ok(()));
}

#[test]
fn delivery_run_stops_at_first_refusal() {
    let mut run = DeliveryRun::new(vec![text_to("a", "1"), text_to("b", "2"), text_to("c", "3")]);
    let mut seen = Vec::new();
    while let Some(d) = run.next() {
        let accepted = d.target_id != "b";
        seen.push(d.target_id.clone());
        run.record(accepted);
    }
    assert_eq!(seen, vec!["a".to_string(), "b".to_string()]);
    assert_eq!(
        run.finish(),
        Err(AppError::SessionSendFailed { user_id: "b".to_string(), source: SessionSendError })
    );
}
