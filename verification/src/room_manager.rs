use vstd::prelude::*;
use crate::error::AppError;
use crate::messages::RoomManagerCommand;
use crate::registry::Registry;
use crate::rooms::RoomType;
use crate::text::join3;

verus! {

/// Whether `c` is a lowercase hexadecimal digit.
pub open spec fn is_lower_hex(c: char) -> bool {
    ('0' <= c && c <= '9') || ('a' <= c && c <= 'f')
}

/// Whether `s` is the hyphenated text of a UUID: 36 characters, hyphens at
/// positions 8, 13, 18 and 23, lowercase hexadecimal digits elsewhere.
pub open spec fn is_uuid_text(s: Seq<char>) -> bool {
    &&& s.len() == 36
    &&& forall|i: int|
        0 <= i < 36 ==> if i == 8 || i == 13 || i == 18 || i == 23 {
            #[trigger] s[i] == '-'
        } else {
            is_lower_hex(s[i])
        }
}

/// Whether the UUID text `s` marks a random (version 4) UUID of the RFC 4122
/// variant: `'4'` at position 14, one of `'8'`, `'9'`, `'a'`, `'b'` at 19.
pub open spec fn is_random_uuid_text(s: Seq<char>) -> bool {
    &&& is_uuid_text(s)
    &&& s[14] == '4'
    &&& (s[19] == '8' || s[19] == '9' || s[19] == 'a' || s[19] == 'b')
}

/// `Uuid::new_v4().to_string()`: the text of a fresh random (version 4)
/// UUID, in the hyphenated lowercase form that the crate's `Display` writes
/// (`LowerHex` of `as_hyphenated`); `new_v4` sets the version nibble to 4
/// and the two variant bits to `10`. Which id comes out is chance, so only
/// its form is stated; in particular nothing says it differs from ids
/// already in use.
#[verifier::external_body]
fn fresh_room_id() -> (id: String)
    ensures
        is_random_uuid_text(id@),
{
    uuid::Uuid::new_v4().to_string()
}

/// What the room manager does in answer to one request.
#[derive(Debug)]
pub enum RoomManagerAction<CR, GR> {
    /// The id is taken: answer the creation request `reply` with `error`.
    RejectCreate { reply: CR, error: AppError },
    /// Start a room of `room_type` named `room_id`, register its handle with
    /// `register_room`, and answer `reply` with the id and the handle.
    StartRoom { room_type: RoomType, room_id: String, reply: CR },
    /// Answer the lookup `reply` with the handle of `room_id`.
    ReplyRoom { room_id: String, reply: GR },
    /// Answer the lookup `reply` with `error`.
    RejectGet { reply: GR, error: AppError },
    /// The room was removed; `remaining` rooms are left.
    Deleted { room_id: String, remaining: usize },
    /// A delete request for a room that is not running.
    UnknownRoom { room_id: String },
}

/// The text of the error for a room id that is already in use.
pub open spec fn room_exists_reason(room_id: Seq<char>) -> Seq<char> {
    "Room "@ + room_id + " already exists"@
}

/// The text of the error for a room id that names no running room.
pub open spec fn room_missing_reason(room_id: Seq<char>) -> Seq<char> {
    "Room "@ + room_id + " not found"@
}

/// Whether `action` is the manager's answer to a request to create a room
/// of `room_type` named `room_id` while `rooms` are running.
pub open spec fn is_create_answer<H, CR, GR>(
    rooms: Map<Seq<char>, H>,
    room_type: RoomType,
    room_id: String,
    reply: CR,
    action: RoomManagerAction<CR, GR>,
) -> bool {
    if rooms.contains_key(room_id@) {
        &&& action matches RoomManagerAction::RejectCreate { reply: r, error: AppError::RoomManager { reason } }
        &&& r == reply
        &&& reason@ == room_exists_reason(room_id@)
    } else {
        action == RoomManagerAction::<CR, GR>::StartRoom { room_type, room_id, reply }
    }
}

/// Whether `action` is the manager's answer to a lookup of `room_id` while
/// `rooms` are running.
pub open spec fn is_get_answer<H, CR, GR>(
    rooms: Map<Seq<char>, H>,
    room_id: String,
    reply: GR,
    action: RoomManagerAction<CR, GR>,
) -> bool {
    if rooms.contains_key(room_id@) {
        action == RoomManagerAction::<CR, GR>::ReplyRoom { room_id, reply }
    } else {
        &&& action matches RoomManagerAction::RejectGet { reply: r, error: AppError::RoomManager { reason } }
        &&& r == reply
        &&& reason@ == room_missing_reason(room_id@)
    }
}

/// Whether `action` is the manager's answer to a deletion of `room_id` while
/// `rooms` are running.
pub open spec fn is_delete_answer<H, CR, GR>(
    rooms: Map<Seq<char>, H>,
    room_id: String,
    action: RoomManagerAction<CR, GR>,
) -> bool {
    if rooms.contains_key(room_id@) {
        action == RoomManagerAction::<CR, GR>::Deleted {
            room_id,
            remaining: rooms.remove(room_id@).len() as usize,
        }
    } else {
        action == RoomManagerAction::<CR, GR>::UnknownRoom { room_id }
    }
}

/// The room manager's state: the handle of each running room, by room id.
pub struct RoomManager<H> {
    rooms: Registry<H>,
}

impl<H> View for RoomManager<H> {
    type V = Map<Seq<char>, H>;

    closed spec fn view(&self) -> Map<Seq<char>, H> {
        self.rooms@
    }
}

impl<H> RoomManager<H> {
    /// A manager with no rooms.
    pub fn new() -> (r: Self)
        ensures
            r@ == Map::<Seq<char>, H>::empty(),
    {
        RoomManager { rooms: Registry::new() }
    }

    /// Applies one request. A creation without an id gets a fresh random id.
    pub fn handle_command<CR, GR>(&mut self, cmd: RoomManagerCommand<CR, GR>) -> (action:
        RoomManagerAction<CR, GR>)
        ensures
            match cmd {
                RoomManagerCommand::CreateRoom { room_type, room_id, reply } => {
                    &&& final(self)@ == old(self)@
                    &&& exists|id: String|
                        {
                            &&& (room_id matches Some(given) ==> id == given)
                            &&& (room_id is None ==> is_random_uuid_text(id@))
                            &&& is_create_answer(old(self)@, room_type, id, reply, action)
                        }
                },
                RoomManagerCommand::GetRoom { room_id, reply } => {
                    &&& final(self)@ == old(self)@
                    &&& is_get_answer(old(self)@, room_id, reply, action)
                },
                RoomManagerCommand::DeleteRoom { room_id } => {
                    &&& final(self)@ == old(self)@.remove(room_id@)
                    &&& is_delete_answer(old(self)@, room_id, action)
                },
            },
    {
        match cmd {
            RoomManagerCommand::CreateRoom { room_type, room_id, reply } => {
                let id = match room_id {
                    Some(given) => given,
                    None => fresh_room_id(),
                };
                self.create_room_with_id(room_type, id, reply)
            },
            RoomManagerCommand::GetRoom { room_id, reply } => self.get_room(room_id, reply),
            RoomManagerCommand::DeleteRoom { room_id } => self.delete_room(room_id),
        }
    }

    /// Answers a request to create a room named `room_id`.
    pub fn create_room_with_id<CR, GR>(&self, room_type: RoomType, room_id: String, reply: CR) -> (action:
        RoomManagerAction<CR, GR>)
        ensures
            is_create_answer(self@, room_type, room_id, reply, action),
    {
        if self.rooms.contains_key(&room_id) {
            let reason = join3("Room ", room_id.as_str(), " already exists");
            RoomManagerAction::RejectCreate { reply, error: AppError::RoomManager { reason } }
        } else {
            RoomManagerAction::StartRoom { room_type, room_id, reply }
        }
    }

    /// Answers a lookup of `room_id`.
    pub fn get_room<CR, GR>(&self, room_id: String, reply: GR) -> (action: RoomManagerAction<CR, GR>)
        ensures
            is_get_answer(self@, room_id, reply, action),
    {
        if self.rooms.contains_key(&room_id) {
            RoomManagerAction::ReplyRoom { room_id, reply }
        } else {
            let reason = join3("Room ", room_id.as_str(), " not found");
            RoomManagerAction::RejectGet { reply, error: AppError::RoomManager { reason } }
        }
    }

    /// Removes the room `room_id`, if it is running.
    pub fn delete_room<CR, GR>(&mut self, room_id: String) -> (action: RoomManagerAction<CR, GR>)
        ensures
            final(self)@ == old(self)@.remove(room_id@),
            is_delete_answer(old(self)@, room_id, action),
    {
        match self.rooms.remove(&room_id) {
            Some(_) => {
                let remaining = self.rooms.len();
                RoomManagerAction::Deleted { room_id, remaining }
            },
            None => RoomManagerAction::UnknownRoom { room_id },
        }
    }

    /// Records the handle of a room that was started under `room_id`.
    pub fn register_room(&mut self, room_id: String, handle: H)
        ensures
            final(self)@ == old(self)@.insert(room_id@, handle),
    {
        self.rooms.insert(room_id, handle);
    }

    /// The handle of the running room `room_id`, if any.
    pub fn room(&self, room_id: &String) -> (r: Option<&H>)
        ensures
            match r {
                Some(h) => self@.contains_key(room_id@) && *h == self@[room_id@],
                None => !self@.contains_key(room_id@),
            },
    {
        self.rooms.get(room_id)
    }
}

/// A room created under a free id and registered can then be looked up, and
/// the lookup gives the handle that was registered.
pub proof fn lemma_created_room_is_found<H, CR, GR>(
    rooms: Map<Seq<char>, H>,
    room_type: RoomType,
    room_id: String,
    create_reply: CR,
    get_reply: GR,
    handle: H,
    created: RoomManagerAction<CR, GR>,
    looked_up: RoomManagerAction<CR, GR>,
)
    requires
        !rooms.contains_key(room_id@),
        is_create_answer(rooms, room_type, room_id, create_reply, created),
        is_get_answer(rooms.insert(room_id@, handle), room_id, get_reply, looked_up),
    ensures
        created == (RoomManagerAction::<CR, GR>::StartRoom { room_type, room_id, reply: create_reply }),
        looked_up == (RoomManagerAction::<CR, GR>::ReplyRoom { room_id, reply: get_reply }),
        rooms.insert(room_id@, handle)[room_id@] == handle,
{
}

/// A room id names at most one room: creating a room under an id in use is
/// refused and leaves the running room in place.
pub proof fn lemma_duplicate_room_refused<H, CR, GR>(
    rooms: Map<Seq<char>, H>,
    room_type: RoomType,
    room_id: String,
    reply: CR,
    action: RoomManagerAction<CR, GR>,
)
    requires
        rooms.contains_key(room_id@),
        is_create_answer(rooms, room_type, room_id, reply, action),
    ensures
        (action is RejectCreate),
{
}

/// After a room is deleted, looking it up fails.
pub proof fn lemma_deleted_room_is_gone<H, CR, GR>(
    rooms: Map<Seq<char>, H>,
    room_id: String,
    reply: GR,
    looked_up: RoomManagerAction<CR, GR>,
)
    requires
        is_get_answer(rooms.remove(room_id@), room_id, reply, looked_up),
    ensures
        (looked_up is RejectGet),
{
}

} // verus!
