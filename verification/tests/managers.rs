use study_server::error::SessionSendError;
use study_server::matchmaker::{match_notices, Matchmaker};
use study_server::messages::{ClientMessage, MatchmakerCommand, RoomManagerCommand, ServerMessage};
use study_server::room_manager::{RoomManager, RoomManagerAction};
use study_server::rooms::RoomType;
use study_server::session_manager::{SessionAction, SessionManager};
use study_server::AppError;

type Msg = ServerMessage<u32, &'static str, &'static str>;

fn connect(id: &str, tx: u32) -> Msg {
    ServerMessage::Connect { actor_id: id.to_string(), tx, reply: "r" }
}

#[test]
fn session_connect_and_duplicate_login() {
    let mut m: SessionManager<u32> = SessionManager::new();
    match m.handle_message(connect("alice", 1)) {
        SessionAction::ReplyConnect { actor_id, result, .. } => {
            assert_eq!(actor_id, "alice");
            assert_eq!(result, Ok(()));
        }
        other => panic!("unexpected {:?}", other),
    }
    match m.handle_message(connect("alice", 2)) {
        SessionAction::ReplyConnect { result, .. } => {
            assert_eq!(result, Err(AppError::DuplicateLogin { user_id: "alice".to_string() }));
        }
        other => panic!("unexpected {:?}", other),
    }
    assert_eq!(m.session(&"alice".to_string()), Some(&1));
    assert_eq!(m.online_count(), 1);
}

#[test]
fn session_connect_then_disconnect_restores() {
    let mut m: SessionManager<u32> = SessionManager::new();
    m.handle_message(connect("bob", 5));
    m.handle_message(connect("carol", 6));
    match m.handle_message(Msg::Disconnect { actor_id: "bob".to_string() }) {
        SessionAction::Disconnected { actor_id, total } => {
            assert_eq!(actor_id, "bob");
            assert_eq!(total, 1);
        }
        other => panic!("unexpected {:?}", other),
    }
    match m.handle_message(Msg::Disconnect { actor_id: "bob".to_string() }) {
        SessionAction::Ignored { actor_id } => assert_eq!(actor_id, "bob"),
        other => panic!("unexpected {:?}", other),
    }
    assert_eq!(m.session(&"bob".to_string()), None);
    assert_eq!(m.session(&"carol".to_string()), Some(&6));
}

#[test]
fn session_message_to_and_count() {
    let mut m: SessionManager<u32> = SessionManager::new();
    m.handle_message(connect("dave", 9));
    match m.handle_message(Msg::MessageTo {
        target_id: "dave".to_string(),
        msg: ClientMessage::SendText("hi".to_string()),
    }) {
        SessionAction::Deliver { target_id, msg } => {
            assert_eq!(target_id, "dave");
            assert_eq!(msg, ClientMessage::SendText("hi".to_string()));
        }
        other => panic!("unexpected {:?}", other),
    }
    match m.handle_message(Msg::MessageTo {
        target_id: "erin".to_string(),
        msg: ClientMessage::SendText("hi".to_string()),
    }) {
        SessionAction::TargetNotFound { target_id } => assert_eq!(target_id, "erin"),
        other => panic!("unexpected {:?}", other),
    }
    match m.handle_message(Msg::GetOnlineCount { reply: "c" }) {
        SessionAction::ReplyCount { count, reply } => {
            assert_eq!(count, 1);
            assert_eq!(reply, "c");
        }
        other => panic!("unexpected {:?}", other),
    }
}

#[test]
fn session_cleanup_after_failures() {
    let mut m: SessionManager<u32> = SessionManager::new();
    m.handle_message(connect("frank", 1));
    m.connect_reply_failed(&"frank".to_string(), &Ok(()));
    assert_eq!(m.online_count(), 0);
    m.handle_message(connect("gina", 2));
    m.connect_reply_failed(&"gina".to_string(), &Err(AppError::DuplicateLogin { user_id: "gina".to_string() }));
    assert_eq!(m.online_count(), 1);
    let e = m.delivery_failed("gina".to_string());
    assert_eq!(e, AppError::SessionSendFailed { user_id: "gina".to_string(), source: SessionSendError });
    assert_eq!(m.online_count(), 0);
}

type RoomCmd = RoomManagerCommand<&'static str, &'static str>;

#[test]
fn room_create_get_delete() {
    let mut m: RoomManager<u32> = RoomManager::new();
    let room_id = match m.handle_command(RoomCmd::CreateRoom {
        room_type: RoomType::Global,
        room_id: Some("global".to_string()),
        reply: "c",
    }) {
        RoomManagerAction::StartRoom { room_type, room_id, .. } => {
            assert_eq!(room_type, RoomType::Global);
            room_id
        }
        other => panic!("unexpected {:?}", other),
    };
    assert_eq!(room_id, "global");
    m.register_room(room_id, 77);
    match m.handle_command(RoomCmd::GetRoom { room_id: "global".to_string(), reply: "g" }) {
        RoomManagerAction::ReplyRoom { room_id, reply } => {
            assert_eq!(room_id, "global");
            assert_eq!(reply, "g");
        }
        other => panic!("unexpected {:?}", other),
    }
    assert_eq!(m.room(&"global".to_string()), Some(&77));
    match m.handle_command(RoomCmd::CreateRoom {
        room_type: RoomType::InGame,
        room_id: Some("global".to_string()),
        reply: "c",
    }) {
        RoomManagerAction::RejectCreate { error, .. } => {
            assert_eq!(error, AppError::RoomManager { reason: "Room global already exists".to_string() });
        }
        other => panic!("unexpected {:?}", other),
    }
    match m.handle_command(RoomCmd::DeleteRoom { room_id: "global".to_string() }) {
        RoomManagerAction::Deleted { room_id, remaining } => {
            assert_eq!(room_id, "global");
            assert_eq!(remaining, 0);
        }
        other => panic!("unexpected {:?}", other),
    }
    match m.handle_command(RoomCmd::GetRoom { room_id: "global".to_string(), reply: "g" }) {
        RoomManagerAction::RejectGet { error, .. } => {
            assert_eq!(error, AppError::RoomManager { reason: "Room global not found".to_string() });
        }
        other => panic!("unexpected {:?}", other),
    }
    match m.handle_command(RoomCmd::DeleteRoom { room_id: "global".to_string() }) {
        RoomManagerAction::UnknownRoom { room_id } => assert_eq!(room_id, "global"),
        other => panic!("unexpected {:?}", other),
    }
}

#[test]
fn room_created_without_id_gets_fresh_uuid() {
    let mut m: RoomManager<u32> = RoomManager::new();
    let a = match m.handle_command(RoomCmd::CreateRoom { room_type: RoomType::InGame, room_id: None, reply: "c" }) {
        RoomManagerAction::StartRoom { room_id, .. } => room_id,
        other => panic!("unexpected {:?}", other),
    };
    assert_eq!(a.len(), 36);
    for (i, c) in a.chars().enumerate() {
        if i == 8 || i == 13 || i == 18 || i == 23 {
            assert_eq!(c, '-');
        } else {
            assert!(c.is_ascii_digit() || ('a'..='f').contains(&c), "{}", a);
        }
    }
    m.register_room(a.clone(), 1);
    let b = match m.handle_command(RoomCmd::CreateRoom { room_type: RoomType::InGame, room_id: None, reply: "c" }) {
        RoomManagerAction::StartRoom { room_id, .. } => room_id,
        other => panic!("unexpected {:?}", other),
    };
    assert_ne!(a, b);
}

type MmCmd = MatchmakerCommand<u32>;

#[test]
fn matchmaker_pairs_in_arrival_order() {
    let mut mm: Matchmaker<u32> = Matchmaker::new();
    let first = mm.handle_command(MmCmd::JoinQueue { user_id: "p1".to_string(), tx: 1 });
    assert!(first.is_empty());
    let second = mm.handle_command(MmCmd::JoinQueue { user_id: "p2".to_string(), tx: 2 });
    assert_eq!(second.len(), 1);
    assert_eq!(second[0].first, ("p1".to_string(), 1));
    assert_eq!(second[0].second, ("p2".to_string(), 2));
    let third = mm.handle_command(MmCmd::JoinQueue { user_id: "p3".to_string(), tx: 3 });
    assert!(third.is_empty());
}

#[test]
fn matchmaker_leave_queue() {
    let mut mm: Matchmaker<u32> = Matchmaker::new();
    mm.handle_command(MmCmd::JoinQueue { user_id: "p1".to_string(), tx: 1 });
    let left = mm.handle_command(MmCmd::LeaveQueue { user_id: "p1".to_string() });
    assert!(left.is_empty());
    let not_there = mm.handle_command(MmCmd::LeaveQueue { user_id: "nobody".to_string() });
    assert!(not_there.is_empty());
    let after = mm.handle_command(MmCmd::JoinQueue { user_id: "p2".to_string(), tx: 2 });
    assert!(after.is_empty());
    let pair = mm.handle_command(MmCmd::JoinQueue { user_id: "p3".to_string(), tx: 3 });
    assert_eq!(pair.len(), 1);
    assert_eq!(pair[0].first.0, "p2");
    assert_eq!(pair[0].second.0, "p3");
}

#[test]
fn session_failed_mailbox_gets_nothing_more() {
    let mut m: SessionManager<u32> = SessionManager::new();
    m.handle_message(connect("hank", 4));
    m.delivery_failed("hank".to_string());
    match m.handle_message(Msg::MessageTo { target_id: "hank".to_string(), msg: ClientMessage::Kick { reason: "x".to_string() } }) {
        SessionAction::TargetNotFound { target_id } => assert_eq!(target_id, "hank"),
        other => panic!("unexpected {:?}", other),
    }
}

#[test]
fn matched_pair_is_sent_to_the_new_room() {
    let mut mm: Matchmaker<u32> = Matchmaker::new();
    mm.handle_command(MmCmd::JoinQueue { user_id: "p1".to_string(), tx: 1 });
    let pairs = mm.handle_command(MmCmd::JoinQueue { user_id: "p2".to_string(), tx: 2 });
    let notices = match_notices(&pairs[0], &Ok("room-7".to_string()));
    assert_eq!(notices.len(), 2);
    assert_eq!(notices[0].target_id, "p1");
    assert_eq!(notices[1].target_id, "p2");
    for n in &notices {
        assert_eq!(n.msg, ClientMessage::JoinRoom { room_id: "room-7".to_string() });
    }
    let none = match_notices(&pairs[0], &Err(AppError::RoomManager { reason: "mailbox closed".to_string() }));
    assert!(none.is_empty());
}
