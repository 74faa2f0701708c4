//! A game room for one match: the game starts when the second player is in,
//! and the room closes itself when the game ends.

use vstd::prelude::*;
use crate::deliveries::{carries_text, fan_out, is_fan_out, same_message};
use crate::messages::{ActorId, ClientMessage, Delivery, RoomMessage};
use crate::registry::{names_of, Registry};
use crate::text::join3;

verus! {

/// What a game room does in answer to one message.
#[derive(Debug)]
pub struct InGameStep {
    /// Messages to hand to occupants' mailboxes, in order.
    pub deliveries: Vec<Delivery>,
    /// Start the game between these players (see `game_result`).
    pub start_game: Option<Vec<ActorId>>,
    /// Ask the room manager to delete this room.
    pub delete_room: Option<String>,
}

/// The text that tells a player the game's outcome against `opponent`.
pub open spec fn result_text(won: bool, opponent: Seq<char>) -> Seq<char> {
    if won {
        "GAME_RESULT: WIN (vs "@ + opponent + ")"@
    } else {
        "GAME_RESULT: LOSE (vs "@ + opponent + ")"@
    }
}

/// The outcome of a game among `players`: the first listed wins, the second
/// loses, and each is told so; with fewer than two players nothing is sent.
pub fn game_result(players: &Vec<ActorId>) -> (deliveries: Vec<Delivery>)
    ensures
        if players@.len() >= 2 {
            &&& deliveries@.len() == 2
            &&& deliveries@[0].target_id@ == players@[0]@
            &&& carries_text(deliveries@[0].msg, result_text(true, players@[1]@))
            &&& deliveries@[1].target_id@ == players@[1]@
            &&& carries_text(deliveries@[1].msg, result_text(false, players@[0]@))
        } else {
            deliveries@.len() == 0
        },
{
    if players.len() >= 2 {
        let winner = &players[0];
        let loser = &players[1];
        let win = join3("GAME_RESULT: WIN (vs ", loser.as_str(), ")");
        let lose = join3("GAME_RESULT: LOSE (vs ", winner.as_str(), ")");
        vec![
            Delivery { target_id: winner.clone(), msg: ClientMessage::SendText(win) },
            Delivery { target_id: loser.clone(), msg: ClientMessage::SendText(lose) },
        ]
    } else {
        Vec::new()
    }
}

/// A game room's state.
pub struct InGameRoomActor<T> {
    occupants: Registry<T>,
    room_id: String,
    game_started: bool,
}

impl<T> InGameRoomActor<T> {
    /// The occupants, each with its mailbox.
    pub closed spec fn occupants(&self) -> Map<Seq<char>, T> {
        self.occupants@
    }

    /// The room's id.
    pub closed spec fn id(&self) -> Seq<char> {
        self.room_id@
    }

    /// Whether the game has been started.
    pub closed spec fn started(&self) -> bool {
        self.game_started
    }

    /// An empty room named `room_id` whose game has not started.
    pub fn new(room_id: String) -> (r: Self)
        ensures
            r.occupants() == Map::<Seq<char>, T>::empty(),
            r.id() == room_id@,
            !r.started(),
    {
        InGameRoomActor { occupants: Registry::new(), room_id, game_started: false }
    }

    /// The room's id.
    pub fn room_id(&self) -> (r: &String)
        ensures
            r@ == self.id(),
    {
        &self.room_id
    }

    /// The mailbox of the occupant `user_id`, if it is in the room.
    pub fn occupant(&self, user_id: &String) -> (r: Option<&T>)
        ensures
            match r {
                Some(tx) => self.occupants().contains_key(user_id@) && *tx == self.occupants()[user_id@],
                None => !self.occupants().contains_key(user_id@),
            },
    {
        self.occupants.get(user_id)
    }

    /// The ids of the occupants, each once.
    pub fn occupant_ids(&self) -> (ids: Vec<ActorId>)
        ensures
            crate::registry::names_of(ids@).no_duplicates(),
            crate::registry::names_of(ids@).to_set() == self.occupants().dom(),
    {
        self.occupants.keys()
    }

    /// Applies one room message.
    pub fn handle_command(&mut self, cmd: RoomMessage<T>) -> (step: InGameStep)
        ensures
            final(self).id() == old(self).id(),
            match cmd {
                RoomMessage::Join { user_id, tx } => {
                    &&& final(self).occupants() == old(self).occupants().insert(user_id@, tx)
                    &&& step.deliveries@.len() == 0
                    &&& step.delete_room is None
                    &&& if final(self).occupants().len() == 2 && !old(self).started() {
                        &&& final(self).started()
                        &&& step.start_game matches Some(players)
                        &&& names_of(players@).no_duplicates()
                        &&& names_of(players@).to_set() == final(self).occupants().dom()
                    } else {
                        &&& final(self).started() == old(self).started()
                        &&& step.start_game is None
                    }
                },
                RoomMessage::Leave { user_id } => {
                    &&& final(self).occupants() == old(self).occupants().remove(user_id@)
                    &&& final(self).started() == old(self).started()
                    &&& step.deliveries@.len() == 0
                    &&& step.start_game is None
                    &&& step.delete_room is None
                },
                RoomMessage::GamePacket { .. } => {
                    &&& final(self).occupants() == old(self).occupants()
                    &&& final(self).started() == old(self).started()
                    &&& step.deliveries@.len() == 0
                    &&& step.start_game is None
                    &&& step.delete_room is None
                },
                RoomMessage::EndGame => {
                    &&& final(self).occupants() == Map::<Seq<char>, T>::empty()
                    &&& final(self).started() == old(self).started()
                    &&& is_fan_out(step.deliveries@, old(self).occupants().dom())
                    &&& forall|i: int| 0 <= i < step.deliveries@.len() ==> (#[trigger] step.deliveries@[i].msg matches ClientMessage::ClosedRoom { room_id } && room_id@ == old(self).id())
                    &&& step.start_game is None
                    &&& step.delete_room matches Some(id) && id@ == old(self).id()
                },
            },
    {
        match cmd {
            RoomMessage::Join { user_id, tx } => {
                self.occupants.insert(user_id, tx);
                let mut start_game = None;
                if self.occupants.len() == 2 && !self.game_started {
                    self.game_started = true;
                    start_game = Some(self.occupants.keys());
                }
                InGameStep { deliveries: Vec::new(), start_game, delete_room: None }
            },
            RoomMessage::Leave { user_id } => {
                self.occupants.remove(&user_id);
                InGameStep { deliveries: Vec::new(), start_game: None, delete_room: None }
            },
            RoomMessage::GamePacket { .. } => {
                InGameStep { deliveries: Vec::new(), start_game: None, delete_room: None }
            },
            RoomMessage::EndGame => {
                let names = self.occupants.keys();
                let notice = ClientMessage::ClosedRoom { room_id: self.room_id.clone() };
                let deliveries = fan_out(&names, None, &notice);
                proof {
                    assert forall|i: int| 0 <= i < deliveries@.len() implies (#[trigger] deliveries@[i].msg matches ClientMessage::ClosedRoom { room_id } && room_id@ == self.id()) by {
                        assert(same_message(deliveries@[i].msg, notice));
                    }
                }
                self.occupants.clear();
                InGameStep {
                    deliveries,
                    start_game: None,
                    delete_room: Some(self.room_id.clone()),
                }
            },
        }
    }
}

} // verus!
