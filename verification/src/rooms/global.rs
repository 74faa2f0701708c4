//! The global room, which every user joins on login: it keeps the list of
//! occupants and runs a small example game on the packets they send.

use vstd::prelude::*;
use vstd::slice::slice_subrange;
use bytes::Bytes;
use crate::deliveries::{carries_binary, carries_text, fan_out, is_fan_out, same_message};
use crate::messages::{ActorId, ClientMessage, Delivery, RoomMessage};
use crate::packet::{framed, make_packet};
use crate::registry::Registry;
use crate::shared_bytes::{bytes_as_slice, bytes_view};
use crate::text::{decimal, decimal_chars, join2};

verus! {

/// Each byte of `payload` plus one, wrapping 255 to 0.
pub open spec fn incremented(payload: Seq<u8>) -> Seq<u8> {
    Seq::new(payload.len(), |i: int| if payload[i] == 255 { 0u8 } else { (payload[i] + 1) as u8 })
}

/// The shared counter after the game packet `data`: operation 3 counts up.
pub open spec fn counter_after(counter: u32, data: Seq<u8>) -> u32 {
    if data.len() > 0 && data[0] == 3 {
        (counter + 1) as u32
    } else {
        counter
    }
}

/// The game packet `data` does not count the shared counter past its range.
pub open spec fn counter_fits(counter: u32, data: Seq<u8>) -> bool {
    data.len() > 0 && data[0] == 3 ==> counter < u32::MAX
}

/// The text that announces the counter value `value`.
pub open spec fn counter_text(value: nat) -> Seq<char> {
    "Room Counter: "@ + decimal_chars(value)
}

/// Whether `deliveries` are what the room sends in answer to the game packet
/// `data` from `user`, with `occupants` in the room and the counter at
/// `counter`.
/// - operation 1 answers the sender alone, if it is in the room, with the
///   payload's bytes each plus one;
/// - operation 2 relays the payload to every other occupant;
/// - operation 3 counts up and announces the new count to every occupant;
/// - an empty packet or another operation gets no answer.
pub open spec fn is_game_reply<T>(
    occupants: Map<Seq<char>, T>,
    counter: u32,
    user: Seq<char>,
    data: Seq<u8>,
    deliveries: Seq<Delivery>,
) -> bool {
    let payload = data.subrange(1, data.len() as int);
    if data.len() == 0 {
        deliveries.len() == 0
    } else if data[0] == 1 {
        if occupants.contains_key(user) {
            &&& deliveries.len() == 1
            &&& deliveries[0].target_id@ == user
            &&& carries_binary(deliveries[0].msg, framed(1, incremented(payload)))
        } else {
            deliveries.len() == 0
        }
    } else if data[0] == 2 {
        &&& is_fan_out(deliveries, occupants.dom().remove(user))
        &&& forall|i: int| 0 <= i < deliveries.len() ==> carries_binary(#[trigger] deliveries[i].msg, framed(2, payload))
    } else if data[0] == 3 {
        &&& is_fan_out(deliveries, occupants.dom())
        &&& forall|i: int| 0 <= i < deliveries.len() ==> carries_text(#[trigger] deliveries[i].msg, counter_text((counter + 1) as nat))
    } else {
        deliveries.len() == 0
    }
}

/// The global room's state: its occupants' mailboxes and a shared counter.
pub struct GlobalRoomActor<T> {
    occupants: Registry<T>,
    shared_counter: u32,
}

impl<T> GlobalRoomActor<T> {
    /// The occupants, each with its mailbox.
    pub closed spec fn occupants(&self) -> Map<Seq<char>, T> {
        self.occupants@
    }

    /// The shared counter.
    pub closed spec fn counter(&self) -> u32 {
        self.shared_counter
    }

    /// An empty room with the counter at zero.
    pub fn new() -> (r: Self)
        ensures
            r.occupants() == Map::<Seq<char>, T>::empty(),
            r.counter() == 0,
    {
        GlobalRoomActor { occupants: Registry::new(), shared_counter: 0 }
    }

    /// The current value of the shared counter.
    pub fn shared_counter(&self) -> (n: u32)
        ensures
            n == self.counter(),
    {
        self.shared_counter
    }

    /// The mailbox of the occupant `user_id`, if it is in the room.
    pub fn occupant(&self, user_id: &String) -> (r: Option<&T>)
        ensures
            match r {
                Some(tx) => self.occupants().contains_key(user_id@) && *tx == self.occupants()[user_id@],
                None => !self.occupants().contains_key(user_id@),
            },
    {
        self.occupants.get(user_id)
    }

    /// The ids of the occupants, each once.
    pub fn occupant_ids(&self) -> (ids: Vec<ActorId>)
        ensures
            crate::registry::names_of(ids@).no_duplicates(),
            crate::registry::names_of(ids@).to_set() == self.occupants().dom(),
    {
        self.occupants.keys()
    }

    /// Whether the game packet `data` may be handled now: it does not count
    /// the shared counter past its range.
    pub fn accepts_packet(&self, data: &Bytes) -> (r: bool)
        ensures
            r == counter_fits(self.counter(), bytes_view(*data)),
    {
        match crate::shared_bytes::first_byte(data) {
            Some(op_code) => op_code != 3 || self.shared_counter < u32::MAX,
            None => true,
        }
    }

    /// Applies one room message; the result lists the messages to hand to
    /// occupants' mailboxes, in order. They are handed out as one
    /// `DeliveryRun`: the first refusal ends the run and is reported.
    pub fn handle_command(&mut self, cmd: RoomMessage<T>) -> (deliveries: Vec<Delivery>)
        requires
            cmd matches RoomMessage::GamePacket { data, .. } ==> counter_fits(
                old(self).counter(),
                bytes_view(data),
            ),
        ensures
            match cmd {
                RoomMessage::Join { user_id, tx } => {
                    &&& final(self).occupants() == old(self).occupants().insert(user_id@, tx)
                    &&& final(self).counter() == old(self).counter()
                    &&& deliveries@.len() == 0
                },
                RoomMessage::Leave { user_id } => {
                    &&& final(self).occupants() == old(self).occupants().remove(user_id@)
                    &&& final(self).counter() == old(self).counter()
                    &&& deliveries@.len() == 0
                },
                RoomMessage::GamePacket { user_id, data } => {
                    &&& final(self).occupants() == old(self).occupants()
                    &&& final(self).counter() == counter_after(old(self).counter(), bytes_view(data))
                    &&& is_game_reply(
                        old(self).occupants(),
                        old(self).counter(),
                        user_id@,
                        bytes_view(data),
                        deliveries@,
                    )
                },
                RoomMessage::EndGame => {
                    &&& final(self).occupants() == old(self).occupants()
                    &&& final(self).counter() == old(self).counter()
                    &&& deliveries@.len() == 0
                },
            },
    {
        match cmd {
            RoomMessage::Join { user_id, tx } => {
                self.occupants.insert(user_id, tx);
                Vec::new()
            },
            RoomMessage::Leave { user_id } => {
                self.occupants.remove(&user_id);
                Vec::new()
            },
            RoomMessage::GamePacket { user_id, data } => self.handle_game_logic(&user_id, &data),
            RoomMessage::EndGame => Vec::new(),
        }
    }

    /// Sends `payload` under the operation code `op_code` to `target_id`, if
    /// it is in the room.
    fn unicast(&self, target_id: &ActorId, op_code: u8, payload: &[u8]) -> (deliveries: Vec<Delivery>)
        ensures
            if self.occupants().contains_key(target_id@) {
                &&& deliveries@.len() == 1
                &&& deliveries@[0].target_id@ == target_id@
                &&& carries_binary(deliveries@[0].msg, framed(op_code, payload@))
            } else {
                deliveries@.len() == 0
            },
    {
        if self.occupants.contains_key(target_id) {
            let packet = make_packet(op_code, payload);
            vec![Delivery { target_id: target_id.clone(), msg: ClientMessage::SendBinary(packet) }]
        } else {
            Vec::new()
        }
    }

    /// Sends `payload` under `op_code` to every occupant but `exclude_id`.
    fn broadcast(&self, op_code: u8, payload: &[u8], exclude_id: Option<&ActorId>) -> (deliveries: Vec<
        Delivery,
    >)
        ensures
            is_fan_out(
                deliveries@,
                match exclude_id {
                    Some(x) => self.occupants().dom().remove(x@),
                    None => self.occupants().dom(),
                },
            ),
            forall|i: int| 0 <= i < deliveries@.len() ==> carries_binary(#[trigger] deliveries@[i].msg, framed(op_code, payload@)),
    {
        let names = self.occupants.keys();
        let packet = make_packet(op_code, payload);
        let msg = ClientMessage::SendBinary(packet);
        let deliveries = fan_out(&names, exclude_id, &msg);
        proof {
            assert forall|i: int| 0 <= i < deliveries@.len() implies #[trigger] carries_binary(
                deliveries@[i].msg,
                framed(op_code, payload@),
            ) by {
                assert(same_message(deliveries@[i].msg, msg));
            }
        }
        deliveries
    }

    /// Sends `text` to every occupant but `exclude_id`.
    fn broadcast_text(&self, text: String, exclude_id: Option<&ActorId>) -> (deliveries: Vec<Delivery>)
        ensures
            is_fan_out(
                deliveries@,
                match exclude_id {
                    Some(x) => self.occupants().dom().remove(x@),
                    None => self.occupants().dom(),
                },
            ),
            forall|i: int| 0 <= i < deliveries@.len() ==> carries_text(#[trigger] deliveries@[i].msg, text@),
    {
        let names = self.occupants.keys();
        let ghost t = text@;
        let msg = ClientMessage::SendText(text);
        let deliveries = fan_out(&names, exclude_id, &msg);
        proof {
            assert forall|i: int| 0 <= i < deliveries@.len() implies #[trigger] carries_text(
                deliveries@[i].msg,
                t,
            ) by {
                assert(same_message(deliveries@[i].msg, msg));
            }
        }
        deliveries
    }

    /// The example game: answers one game packet from `user_id`.
    fn handle_game_logic(&mut self, user_id: &ActorId, data: &Bytes) -> (deliveries: Vec<Delivery>)
        requires
            counter_fits(old(self).counter(), bytes_view(*data)),
        ensures
            final(self).occupants() == old(self).occupants(),
            final(self).counter() == counter_after(old(self).counter(), bytes_view(*data)),
            is_game_reply(old(self).occupants(), old(self).counter(), user_id@, bytes_view(*data), deliveries@),
    {
        let bytes = bytes_as_slice(data);
        if bytes.len() == 0 {
            return Vec::new();
        }
        let op_code = bytes[0];
        let payload = slice_subrange(bytes, 1, bytes.len());
        if op_code == 1 {
            let mut response: Vec<u8> = Vec::new();
            let mut i: usize = 0;
            while i < payload.len()
                invariant
                    i <= payload@.len(),
                    response@ == incremented(payload@).subrange(0, i as int),
                decreases payload@.len() - i,
            {
                response.push(payload[i].wrapping_add(1));
                proof {
                    assert(response@ =~= incremented(payload@).subrange(0, i as int + 1));
                }
                i = i + 1;
            }
            assert(response@ =~= incremented(payload@));
            self.unicast(user_id, 1, &response)
        } else if op_code == 2 {
            self.broadcast(2, payload, Some(user_id))
        } else if op_code == 3 {
            self.shared_counter = self.shared_counter + 1;
            let count = decimal(self.shared_counter);
            let msg = join2("Room Counter: ", count.as_str());
            self.broadcast_text(msg, None)
        } else {
            Vec::new()
        }
    }
}

/// A game packet is refused only where counting up would pass `u32::MAX`: it
/// is accepted whenever the counter is below `u32::MAX` or the packet is no
/// counter packet, and refused when both hold.
pub proof fn lemma_counter_packet_refused_only_at_max(counter: u32, data: Seq<u8>)
    ensures
        counter < u32::MAX ==> counter_fits(counter, data),
        !(data.len() > 0 && data[0] == 3) ==> counter_fits(counter, data),
        (data.len() > 0 && data[0] == 3 && counter == u32::MAX) ==> !counter_fits(counter, data),
{
}

/// A counter packet moves the counter up by exactly one; any other packet
/// leaves it.
pub proof fn lemma_counter_counts_counter_packets(counter: u32, data: Seq<u8>)
    requires
        counter_fits(counter, data),
    ensures
        (data.len() > 0 && data[0] == 3) ==> counter_after(counter, data) == counter + 1,
        !(data.len() > 0 && data[0] == 3) ==> counter_after(counter, data) == counter,
{
}

} // verus!
