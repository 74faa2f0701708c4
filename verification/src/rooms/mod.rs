use vstd::prelude::*;
use crate::error::AppError;
use crate::text::join2;

pub mod global;
pub mod ingame;

verus! {

/// The kinds of room that the room manager can run.
#[derive(Debug, Clone, Copy, PartialEq, Eq)]
pub enum RoomType {
    Global,
    InGame,
}

/// Handle of a running room: the room's mailbox `S` and its id.
#[derive(Debug, Clone)]
pub struct RoomHandle<S> {
    sender: S,
    room_id: String,
}

impl<S> RoomHandle<S> {
    /// The handle of the room `room_id` whose mailbox is `sender`.
    pub fn new(sender: S, room_id: String) -> (r: Self)
        ensures
            r.mailbox() == sender,
            r.id() == room_id@,
    {
        RoomHandle { sender, room_id }
    }

    /// The room's mailbox.
    pub closed spec fn mailbox(&self) -> S {
        self.sender
    }

    /// The room's id.
    pub closed spec fn id(&self) -> Seq<char> {
        self.room_id@
    }

    /// The room's mailbox.
    pub fn sender(&self) -> (r: &S)
        ensures
            *r == self.mailbox(),
    {
        &self.sender
    }

    /// The room's id.
    pub fn room_id(&self) -> (r: &String)
        ensures
            r@ == self.id(),
    {
        &self.room_id
    }

    /// The error for a message that the room's mailbox did not take.
    pub fn mailbox_closed(&self) -> (e: AppError)
        ensures
            e matches AppError::RoomManager { reason } && reason@ == "room mailbox closed: "@ + self.id(),
    {
        AppError::RoomManager { reason: join2("room mailbox closed: ", self.room_id.as_str()) }
    }
}

} // verus!
