use vstd::prelude::*;

verus! {

/// First byte of every frame exchanged with a client.
#[derive(Debug, Clone, Copy, PartialEq, Eq)]
pub enum PacketTag {
    Heartbeat,
    Auth,
    Text,
    TextError,
    Binary,
    Game,
    JoinQueue,
}

/// The byte that stands for `tag` on the wire.
pub open spec fn tag_byte(tag: PacketTag) -> u8 {
    match tag {
        PacketTag::Heartbeat => 0,
        PacketTag::Auth => 1,
        PacketTag::Text => 2,
        PacketTag::TextError => 3,
        PacketTag::Binary => 4,
        PacketTag::Game => 10,
        PacketTag::JoinQueue => 11,
    }
}

/// The tag that `value` stands for, if any.
pub open spec fn tag_of_byte(value: u8) -> Option<PacketTag> {
    if value == 0 {
        Some(PacketTag::Heartbeat)
    } else if value == 1 {
        Some(PacketTag::Auth)
    } else if value == 2 {
        Some(PacketTag::Text)
    } else if value == 3 {
        Some(PacketTag::TextError)
    } else if value == 4 {
        Some(PacketTag::Binary)
    } else if value == 10 {
        Some(PacketTag::Game)
    } else if value == 11 {
        Some(PacketTag::JoinQueue)
    } else {
        None
    }
}

impl PacketTag {
    /// Decodes a tag byte; `None` for a byte that names no tag.
    pub fn from_u8(value: u8) -> (r: Option<PacketTag>)
        ensures
            r == tag_of_byte(value),
    {
        match value {
            0 => Some(PacketTag::Heartbeat),
            1 => Some(PacketTag::Auth),
            2 => Some(PacketTag::Text),
            3 => Some(PacketTag::TextError),
            4 => Some(PacketTag::Binary),
            10 => Some(PacketTag::Game),
            11 => Some(PacketTag::JoinQueue),
            _ => None,
        }
    }

    /// The wire byte of this tag.
    pub fn to_u8(self) -> (r: u8)
        ensures
            r == tag_byte(self),
    {
        match self {
            PacketTag::Heartbeat => 0,
            PacketTag::Auth => 1,
            PacketTag::Text => 2,
            PacketTag::TextError => 3,
            PacketTag::Binary => 4,
            PacketTag::Game => 10,
            PacketTag::JoinQueue => 11,
        }
    }
}

/// Decoding the byte of a tag gives back that tag.
pub proof fn lemma_tag_byte_round_trip(tag: PacketTag)
    ensures
        tag_of_byte(tag_byte(tag)) == Some(tag),
{
}

/// A byte that decodes to a tag is that tag's byte: no two bytes share a tag.
pub proof fn lemma_tag_of_byte_exact(value: u8)
    ensures
        match tag_of_byte(value) {
            Some(tag) => tag_byte(tag) == value,
            None => forall|tag: PacketTag| tag_byte(tag) != value,
        },
{
}

/// `payload` behind a first byte `lead`.
pub open spec fn framed(lead: u8, payload: Seq<u8>) -> Seq<u8> {
    seq![lead] + payload
}

/// Builds a frame: the byte `lead` followed by `payload`.
pub fn make_packet(lead: u8, payload: &[u8]) -> (packet: Vec<u8>)
    ensures
        packet@ == framed(lead, payload@),
{
    let mut packet: Vec<u8> = Vec::new();
    packet.push(lead);
    let mut i: usize = 0;
    while i < payload.len()
        invariant
            i <= payload@.len(),
            packet@ == framed(lead, payload@.subrange(0, i as int)),
        decreases payload@.len() - i,
    {
        packet.push(payload[i]);
        proof {
            assert(payload@.subrange(0, i as int + 1) =~= payload@.subrange(0, i as int).push(payload@[i as int]));
            assert(packet@ =~= framed(lead, payload@.subrange(0, i as int + 1)));
        }
        i = i + 1;
    }
    proof {
        assert(payload@.subrange(0, payload@.len() as int) =~= payload@);
    }
    packet
}

/// Builds the frame that carries `payload` under `tag`.
pub fn frame_packet(tag: PacketTag, payload: &[u8]) -> (packet: Vec<u8>)
    ensures
        packet@ == framed(tag_byte(tag), payload@),
{
    make_packet(tag.to_u8(), payload)
}

/// A frame's first byte is its lead byte and the rest is its payload.
pub proof fn lemma_framed_parts(lead: u8, payload: Seq<u8>)
    ensures
        framed(lead, payload).len() == payload.len() + 1,
        framed(lead, payload)[0] == lead,
        framed(lead, payload).subrange(1, payload.len() as int + 1) == payload,
{
    assert(framed(lead, payload).subrange(1, payload.len() as int + 1) =~= payload);
}

} // verus!
