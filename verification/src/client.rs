//! The decisions of a client connection: authentication on the first frame,
//! handling of the frames that the client sends, and of the messages that the
//! server sends to the client.

use vstd::prelude::*;
use vstd::slice::{slice_subrange, slice_to_vec};
use vstd::utf8::{decode_utf8, encode_utf8, valid_utf8};
use bytes::Bytes;
use crate::error::AppError;
use crate::messages::ClientMessage;
use crate::packet::{frame_packet, framed, tag_byte, tag_of_byte, PacketTag};
use crate::registry::{names_of, Registry};
use crate::shared_bytes::{bytes_as_slice, bytes_slice_from, bytes_view};
use crate::text::{join2, join3};

verus! {

/// `String::from_utf8`: the text that `bytes` encode, or `None` where they
/// are not valid UTF-8. The contract states std's documented behaviour with
/// vstd's model of UTF-8.
#[verifier::external_body]
fn string_from_utf8(bytes: Vec<u8>) -> (r: Option<String>)
    ensures
        match r {
            Some(s) => valid_utf8(bytes@) && s@ == decode_utf8(bytes@),
            None => !valid_utf8(bytes@),
        },
{
    match String::from_utf8(bytes) {
        Ok(s) => Some(s),
        Err(_) => None,
    }
}

/// A frame read from a client's websocket.
#[derive(Debug)]
pub enum InboundFrame {
    Binary(Bytes),
    Text,
    Ping,
    Pong,
    Close,
    /// Any other kind of websocket frame.
    Other,
    /// The stream ended.
    Ended,
    /// Reading failed; the description of the failure.
    Failed(String),
}

/// How a login goes on after the first frame.
#[derive(Debug, Clone, PartialEq, Eq)]
pub enum AuthPlan {
    /// An empty ticket: the client is a guest and is logged in as such.
    Guest,
    /// Look up and consume the ticket stored under `key`; the stored value is
    /// the user id (see `ClientActor::complete_login`).
    LookupTicket { key: String },
}

/// What to do with a binary frame from the client.
#[derive(Debug)]
pub enum BinaryAction {
    /// Nothing.
    Ignore,
    /// Send `frame` back to the client.
    Reply(Vec<u8>),
    /// Pass the game packet `payload` to the room `room_id`.
    ForwardGame { room_id: String, payload: Bytes },
    /// Put the client in the matchmaking queue, then send it `confirmation`.
    JoinQueue { confirmation: Vec<u8> },
}

/// What to do with a frame from the client while the connection runs.
#[derive(Debug)]
pub enum SocketStep {
    /// Carry out the action for a binary frame.
    Act(BinaryAction),
    /// Keep-alive frame: nothing to do.
    Continue,
    /// The client closed the connection.
    Stop,
}

/// What to do with a message from the server for this client.
#[derive(Debug)]
pub enum ClientStep {
    /// Send `frame`; a failure ends the connection.
    Send(Vec<u8>),
    /// Send `frame`, then close the connection.
    SendAndClose(Vec<u8>),
    /// Send `frame`, ignoring a failure.
    Notify(Vec<u8>),
    /// Join the game room `room_id` (see `ClientActor::finish_join_room`).
    JoinRoom { room_id: String },
}

/// How an attempt to join a room ended.
#[derive(Debug)]
pub enum JoinOutcome<H> {
    /// The room manager knows no such room.
    NotFound,
    /// The room did not take the join request.
    JoinFailed(AppError),
    /// The room took the join request; `H` is its handle.
    Joined(H),
}

/// The frame that carries the text `text` under `tag`.
pub open spec fn text_frame(tag: PacketTag, text: Seq<char>) -> Seq<u8> {
    framed(tag_byte(tag), encode_utf8(text))
}

/// The id under which guests are logged in.
pub open spec fn guest_id_text() -> Seq<char> {
    "{\"id\":1557, \"name\":\"Guest_1557\"}"@
}

/// The key under which the ticket store keeps the ticket `ticket`.
pub open spec fn ticket_key_text(ticket: Seq<char>) -> Seq<char> {
    "game_ticket:"@ + ticket
}

/// Whether `e` is a websocket error with the reason `reason`.
pub open spec fn is_websocket_error(e: AppError, reason: Seq<char>) -> bool {
    &&& e matches AppError::WebSocket { reason: r }
    &&& r@ == reason
}

/// Whether `r` is what the first frame `frame` of a connection leads to, by
/// the frame's bytes.
pub open spec fn is_auth_answer(frame: InboundFrame, r: Result<AuthPlan, AppError>) -> bool {
    match frame {
        InboundFrame::Binary(data) => {
            let b = bytes_view(data);
            let ticket = b.subrange(1, b.len() as int);
            if b.len() == 0 || b[0] != tag_byte(PacketTag::Auth) {
                &&& r matches Err(AppError::InvalidFrame { reason })
                &&& reason@ == "First frame must be auth"@
            } else if b.len() < 2 {
                r == Ok::<AuthPlan, AppError>(AuthPlan::Guest)
            } else if valid_utf8(ticket) {
                &&& r matches Ok(AuthPlan::LookupTicket { key })
                &&& key@ == ticket_key_text(decode_utf8(ticket))
            } else {
                &&& r matches Err(AppError::Utf8 { field })
                &&& field@ == "ticket"@
            }
        },
        InboundFrame::Text => r matches Err(e) && is_websocket_error(e, "Text frame not supported"@),
        InboundFrame::Close | InboundFrame::Ended => {
            r matches Err(e) && is_websocket_error(e, "Closed before auth"@)
        },
        InboundFrame::Failed(detail) => {
            r matches Err(e) && is_websocket_error(e, "recv - "@ + detail@)
        },
        _ => r matches Err(e) && is_websocket_error(e, "Unsupported websocket frame (expected binary)"@),
    }
}

/// Whether `r` is the answer to the binary frame with bytes `b` from a client
/// that is in the rooms `rooms`.
pub open spec fn is_binary_answer(b: Seq<u8>, rooms: Set<Seq<char>>, r: Result<BinaryAction, AppError>) -> bool {
    if b.len() == 0 {
        r matches Ok(BinaryAction::Ignore)
    } else {
        match tag_of_byte(b[0]) {
            Some(PacketTag::Heartbeat) => {
                &&& r matches Ok(BinaryAction::Reply(f))
                &&& f@ == framed(tag_byte(PacketTag::Heartbeat), Seq::empty())
            },
            Some(PacketTag::Game) => {
                if b.len() <= 1 {
                    r matches Ok(BinaryAction::Ignore)
                } else if rooms.contains("global"@) {
                    &&& r matches Ok(BinaryAction::ForwardGame { room_id, payload })
                    &&& room_id@ == "global"@
                    &&& bytes_view(payload) == b.subrange(1, b.len() as int)
                } else {
                    &&& r matches Err(AppError::RoomManager { reason })
                    &&& reason@ == "global room handle missing"@
                }
            },
            Some(PacketTag::JoinQueue) => {
                &&& r matches Ok(BinaryAction::JoinQueue { confirmation })
                &&& confirmation@ == text_frame(PacketTag::Text, "Joined Queue"@)
            },
            Some(_) => {
                &&& r matches Err(e)
                &&& is_websocket_error(
                    e,
                    "unexpected packet tag in binary handler: "@ + crate::text::decimal_chars(b[0] as nat),
                )
            },
            None => r == Err::<BinaryAction, AppError>(AppError::UnknownSocketType { value: b[0] }),
        }
    }
}

/// The state of one client connection: who it is and which rooms it is in.
/// `H` is a room handle.
pub struct ClientActor<H> {
    id: String,
    is_guest: bool,
    joined_rooms: Registry<H>,
}

impl<H> ClientActor<H> {
    /// The connection's user id; empty before login.
    pub closed spec fn user(&self) -> Seq<char> {
        self.id@
    }

    /// Whether the connection is logged in as a guest.
    pub closed spec fn guest(&self) -> bool {
        self.is_guest
    }

    /// The rooms the connection is in, each with its handle.
    pub closed spec fn rooms(&self) -> Map<Seq<char>, H> {
        self.joined_rooms@
    }

    /// A connection before login: no id, no rooms.
    pub fn new() -> (r: Self)
        ensures
            r.user() == Seq::<char>::empty(),
            !r.guest(),
            r.rooms() == Map::<Seq<char>, H>::empty(),
    {
        ClientActor { id: String::new(), is_guest: false, joined_rooms: Registry::new() }
    }

    /// The connection's user id.
    pub fn id(&self) -> (r: &String)
        ensures
            r@ == self.user(),
    {
        &self.id
    }

    /// Whether the connection is logged in as a guest.
    pub fn is_guest(&self) -> (r: bool)
        ensures
            r == self.guest(),
    {
        self.is_guest
    }

    /// Reads the first frame of a connection, which must carry a ticket. An
    /// empty ticket logs the client in as a guest at once.
    pub fn authenticate(&mut self, frame: InboundFrame) -> (r: Result<AuthPlan, AppError>)
        ensures
            is_auth_answer(frame, r),
            final(self).rooms() == old(self).rooms(),
            if r == Ok::<AuthPlan, AppError>(AuthPlan::Guest) {
                &&& final(self).guest()
                &&& final(self).user() == guest_id_text()
            } else {
                &&& final(self).guest() == old(self).guest()
                &&& final(self).user() == old(self).user()
            },
    {
        match frame {
            InboundFrame::Binary(data) => {
                let bytes = bytes_as_slice(&data);
                if bytes.len() == 0 || bytes[0] != PacketTag::Auth.to_u8() {
                    return Err(AppError::InvalidFrame { reason: String::from_str("First frame must be auth") });
                }
                if bytes.len() < 2 {
                    self.is_guest = true;
                    self.id = String::from_str("{\"id\":1557, \"name\":\"Guest_1557\"}");
                    return Ok(AuthPlan::Guest);
                }
                let ticket_bytes = slice_to_vec(slice_subrange(bytes, 1, bytes.len()));
                match string_from_utf8(ticket_bytes) {
                    Some(ticket) => Ok(AuthPlan::LookupTicket { key: join2("game_ticket:", ticket.as_str()) }),
                    None => Err(AppError::Utf8 { field: String::from_str("ticket") }),
                }
            },
            InboundFrame::Text => Err(AppError::WebSocket { reason: String::from_str("Text frame not supported") }),
            InboundFrame::Close | InboundFrame::Ended => {
                Err(AppError::WebSocket { reason: String::from_str("Closed before auth") })
            },
            InboundFrame::Failed(detail) => Err(AppError::WebSocket { reason: join2("recv - ", detail.as_str()) }),
            _ => Err(
                AppError::WebSocket {
                    reason: String::from_str("Unsupported websocket frame (expected binary)"),
                },
            ),
        }
    }

    /// Finishes a ticket login with the user id found under the ticket, or
    /// `None` where the ticket was unknown or expired.
    pub fn complete_login(&mut self, user_id: Option<String>) -> (r: Result<(), AppError>)
        ensures
            final(self).rooms() == old(self).rooms(),
            final(self).guest() == old(self).guest(),
            match user_id {
                Some(u) => r is Ok && final(self).user() == u@,
                None => r == Err::<(), AppError>(AppError::InvalidTicket) && final(self).user() == old(self).user(),
            },
    {
        match user_id {
            Some(u) => {
                self.id = u;
                Ok(())
            },
            None => Err(AppError::InvalidTicket),
        }
    }

    /// Decides what to do with a binary frame from the client.
    pub fn handle_binary(&self, data: &Bytes) -> (r: Result<BinaryAction, AppError>)
        ensures
            is_binary_answer(bytes_view(*data), self.rooms().dom(), r),
    {
        let bytes = bytes_as_slice(data);
        if bytes.len() == 0 {
            return Ok(BinaryAction::Ignore);
        }
        let lead = bytes[0];
        match PacketTag::from_u8(lead) {
            Some(PacketTag::Heartbeat) => {
                let empty: Vec<u8> = Vec::new();
                Ok(BinaryAction::Reply(frame_packet(PacketTag::Heartbeat, empty.as_slice())))
            },
            Some(PacketTag::Game) => {
                if bytes.len() > 1 {
                    let global = String::from_str("global");
                    proof {
                        reveal_strlit("global");
                    }
                    if self.joined_rooms.contains_key(&global) {
                        let payload = bytes_slice_from(data, 1);
                        Ok(BinaryAction::ForwardGame { room_id: global, payload })
                    } else {
                        Err(AppError::RoomManager { reason: String::from_str("global room handle missing") })
                    }
                } else {
                    Ok(BinaryAction::Ignore)
                }
            },
            Some(PacketTag::JoinQueue) => {
                Ok(BinaryAction::JoinQueue { confirmation: text_packet(PacketTag::Text, "Joined Queue") })
            },
            Some(_) => {
                let n = crate::text::decimal(lead as u32);
                Err(AppError::WebSocket { reason: join2("unexpected packet tag in binary handler: ", n.as_str()) })
            },
            None => Err(AppError::UnknownSocketType { value: lead }),
        }
    }

    /// Decides what to do with a frame from the client while the connection
    /// runs.
    pub fn handle_socket_frame(&self, frame: InboundFrame) -> (r: Result<SocketStep, AppError>)
        ensures
            match frame {
                InboundFrame::Binary(data) => match r {
                    Ok(SocketStep::Act(a)) => is_binary_answer(bytes_view(data), self.rooms().dom(), Ok(a)),
                    Ok(_) => false,
                    Err(e) => is_binary_answer(bytes_view(data), self.rooms().dom(), Err(e)),
                },
                InboundFrame::Close | InboundFrame::Ended => r matches Ok(SocketStep::Stop),
                InboundFrame::Ping | InboundFrame::Pong => r matches Ok(SocketStep::Continue),
                InboundFrame::Failed(detail) => r matches Err(e) && is_websocket_error(e, "recv - "@ + detail@),
                _ => r matches Err(e) && is_websocket_error(e, "Unsupported frame type"@),
            },
    {
        match frame {
            InboundFrame::Binary(data) => match self.handle_binary(&data) {
                Ok(a) => Ok(SocketStep::Act(a)),
                Err(e) => Err(e),
            },
            InboundFrame::Close | InboundFrame::Ended => Ok(SocketStep::Stop),
            InboundFrame::Ping | InboundFrame::Pong => Ok(SocketStep::Continue),
            InboundFrame::Failed(detail) => Err(AppError::WebSocket { reason: join2("recv - ", detail.as_str()) }),
            _ => Err(AppError::WebSocket { reason: String::from_str("Unsupported frame type") }),
        }
    }

    /// Decides what to do with a message from the server for this client.
    pub fn handle_client_message(&mut self, msg: ClientMessage) -> (step: ClientStep)
        ensures
            match msg {
                ClientMessage::SendText(text) => {
                    &&& final(self).rooms() == old(self).rooms()
                    &&& step matches ClientStep::Send(f) && f@ == text_frame(PacketTag::Text, text@)
                },
                ClientMessage::SendBinary(data) => {
                    &&& final(self).rooms() == old(self).rooms()
                    &&& step matches ClientStep::Send(f) && f@ == framed(tag_byte(PacketTag::Binary), data@)
                },
                ClientMessage::Kick { reason } => {
                    &&& final(self).rooms() == old(self).rooms()
                    &&& step matches ClientStep::SendAndClose(f)
                    &&& f@ == text_frame(PacketTag::TextError, "Kicked: "@ + reason@)
                },
                ClientMessage::JoinRoom { room_id } => {
                    &&& final(self).rooms() == old(self).rooms()
                    &&& step == (ClientStep::JoinRoom { room_id })
                },
                ClientMessage::ClosedRoom { room_id } => {
                    &&& final(self).rooms() == old(self).rooms().remove(room_id@)
                    &&& step matches ClientStep::Notify(f)
                    &&& f@ == text_frame(PacketTag::Text, "ROOM_CLOSED:"@ + room_id@)
                },
            },
            final(self).user() == old(self).user(),
            final(self).guest() == old(self).guest(),
    {
        match msg {
            ClientMessage::SendText(text) => ClientStep::Send(text_packet(PacketTag::Text, text.as_str())),
            ClientMessage::SendBinary(data) => ClientStep::Send(frame_packet(PacketTag::Binary, data.as_slice())),
            ClientMessage::Kick { reason } => {
                let text = join2("Kicked: ", reason.as_str());
                ClientStep::SendAndClose(text_packet(PacketTag::TextError, text.as_str()))
            },
            ClientMessage::JoinRoom { room_id } => ClientStep::JoinRoom { room_id },
            ClientMessage::ClosedRoom { room_id } => {
                self.joined_rooms.remove(&room_id);
                let text = join2("ROOM_CLOSED:", room_id.as_str());
                ClientStep::Notify(text_packet(PacketTag::Text, text.as_str()))
            },
        }
    }

    /// Records how joining the room `room_id` ended; gives the error frame to
    /// send to the client where it failed.
    pub fn finish_join_room(&mut self, room_id: String, outcome: JoinOutcome<H>) -> (notice: Option<Vec<u8>>)
        ensures
            final(self).user() == old(self).user(),
            final(self).guest() == old(self).guest(),
            match outcome {
                JoinOutcome::NotFound => {
                    &&& final(self).rooms() == old(self).rooms()
                    &&& notice matches Some(f)
                    &&& f@ == text_frame(PacketTag::TextError, "Room '"@ + room_id@ + "' not found."@)
                },
                JoinOutcome::JoinFailed(e) => {
                    &&& final(self).rooms() == old(self).rooms()
                    &&& notice matches Some(f)
                    &&& f@ == text_frame(
                        PacketTag::TextError,
                        "Failed to enter room: "@ + crate::error::error_message(e),
                    )
                },
                JoinOutcome::Joined(h) => {
                    &&& final(self).rooms() == old(self).rooms().insert(room_id@, h)
                    &&& notice is None
                },
            },
    {
        match outcome {
            JoinOutcome::NotFound => {
                let text = join3("Room '", room_id.as_str(), "' not found.");
                Some(text_packet(PacketTag::TextError, text.as_str()))
            },
            JoinOutcome::JoinFailed(e) => {
                let detail = e.to_message();
                let text = join2("Failed to enter room: ", detail.as_str());
                Some(text_packet(PacketTag::TextError, text.as_str()))
            },
            JoinOutcome::Joined(h) => {
                self.joined_rooms.insert(room_id, h);
                None
            },
        }
    }

    /// The handle of the joined room `room_id`, if the client is in it.
    pub fn joined_room(&self, room_id: &String) -> (r: Option<&H>)
        ensures
            match r {
                Some(h) => self.rooms().contains_key(room_id@) && *h == self.rooms()[room_id@],
                None => !self.rooms().contains_key(room_id@),
            },
    {
        self.joined_rooms.get(room_id)
    }

    /// The ids of the rooms the client is in, each once.
    pub fn joined_room_ids(&self) -> (ids: Vec<String>)
        ensures
            names_of(ids@).no_duplicates(),
            names_of(ids@).to_set() == self.rooms().dom(),
    {
        self.joined_rooms.keys()
    }
}

/// The frame that tells the client its login along `plan` succeeded: a
/// guest login is confirmed as such, a ticket login plainly.
pub fn login_success_frame(plan: &AuthPlan) -> (f: Vec<u8>)
    ensures
        f@ == text_frame(
            PacketTag::Text,
            match plan {
                AuthPlan::Guest => "Guest Login Success"@,
                AuthPlan::LookupTicket { .. } => "Login Success"@,
            },
        ),
{
    match plan {
        AuthPlan::Guest => text_packet(PacketTag::Text, "Guest Login Success"),
        AuthPlan::LookupTicket { .. } => text_packet(PacketTag::Text, "Login Success"),
    }
}

/// The frame that carries `text` under `tag`.
pub fn text_packet(tag: PacketTag, text: &str) -> (f: Vec<u8>)
    ensures
        f@ == text_frame(tag, text@),
{
    frame_packet(tag, text.as_bytes())
}

/// The error frame that tells the client a match's room could not be joined.
pub fn match_join_error_frame(e: &AppError) -> (f: Vec<u8>)
    ensures
        f@ == text_frame(PacketTag::TextError, "Match Join Error: "@ + crate::error::error_message(*e)),
{
    let detail = e.to_message();
    let text = join2("Match Join Error: ", detail.as_str());
    text_packet(PacketTag::TextError, text.as_str())
}

/// The id of the room that every client joins on login.
pub fn global_room_id() -> (r: String)
    ensures
        r@ == "global"@,
{
    String::from_str("global")
}

} // verus!
