use vstd::prelude::*;
use bytes::Bytes;
use crate::rooms::RoomType;

verus! {

/// Identifier of a connected user (its user id, or the guest id).
pub type ActorId = String;

/// A message for one client actor.
#[derive(Debug, Clone, PartialEq, Eq)]
pub enum ClientMessage {
    SendText(String),
    SendBinary(Vec<u8>),
    Kick { reason: String },
    JoinRoom { room_id: String },
    ClosedRoom { room_id: String },
}

/// A request to the session manager. `T` is a client mailbox, `R` the channel
/// on which a connect request is answered, `C` the one on which a count is
/// answered.
#[derive(Debug)]
pub enum ServerMessage<T, R, C> {
    Connect { actor_id: ActorId, tx: T, reply: R },
    Disconnect { actor_id: ActorId },
    MessageTo { target_id: ActorId, msg: ClientMessage },
    GetOnlineCount { reply: C },
}

/// A message for a room actor. `T` is a client mailbox.
#[derive(Debug)]
pub enum RoomMessage<T> {
    Join { user_id: ActorId, tx: T },
    Leave { user_id: ActorId },
    GamePacket { user_id: ActorId, data: Bytes },
    EndGame,
}

/// A request to the room manager. `CR` answers a creation, `GR` a lookup.
#[derive(Debug)]
pub enum RoomManagerCommand<CR, GR> {
    CreateRoom { room_type: RoomType, room_id: Option<String>, reply: CR },
    GetRoom { room_id: String, reply: GR },
    DeleteRoom { room_id: String },
}

/// A request to the matchmaker. `T` is a client mailbox.
#[derive(Debug)]
pub enum MatchmakerCommand<T> {
    JoinQueue { user_id: ActorId, tx: T },
    LeaveQueue { user_id: ActorId },
}

/// A message to hand to the mailbox of the client `target_id`.
#[derive(Debug, Clone, PartialEq, Eq)]
pub struct Delivery {
    pub target_id: ActorId,
    pub msg: ClientMessage,
}

} // verus!
