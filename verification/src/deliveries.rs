use vstd::prelude::*;
use crate::error::{AppError, SessionSendError};
use crate::messages::{ClientMessage, Delivery};
use crate::registry::names_of;

verus! {

/// The recipients of `deliveries`, in order.
pub open spec fn targets(deliveries: Seq<Delivery>) -> Seq<Seq<char>> {
    deliveries.map_values(|d: Delivery| d.target_id@)
}

/// Whether `msg` sends the binary frame `bytes`.
pub open spec fn carries_binary(msg: ClientMessage, bytes: Seq<u8>) -> bool {
    &&& msg matches ClientMessage::SendBinary(b)
    &&& b@ == bytes
}

/// Whether `msg` sends the text `text`.
pub open spec fn carries_text(msg: ClientMessage, text: Seq<char>) -> bool {
    &&& msg matches ClientMessage::SendText(t)
    &&& t@ == text
}

/// Whether `deliveries` go to each client in `recipients` once, and to nobody
/// else.
pub open spec fn is_fan_out(deliveries: Seq<Delivery>, recipients: Set<Seq<char>>) -> bool {
    &&& targets(deliveries).no_duplicates()
    &&& targets(deliveries).to_set() == recipients
}

/// The error for a delivery that the mailbox of `target_id` refused.
pub fn failed_delivery(target_id: String) -> (e: AppError)
    ensures
        e == (AppError::SessionSendFailed { user_id: target_id, source: SessionSendError }),
{
    AppError::SessionSendFailed { user_id: target_id, source: SessionSendError }
}

/// Whether `a` and `b` are the same message: same kind, same text or bytes.
pub open spec fn same_message(a: ClientMessage, b: ClientMessage) -> bool {
    match (a, b) {
        (ClientMessage::SendText(x), ClientMessage::SendText(y)) => x@ == y@,
        (ClientMessage::SendBinary(x), ClientMessage::SendBinary(y)) => x@ == y@,
        (ClientMessage::Kick { reason: x }, ClientMessage::Kick { reason: y }) => x@ == y@,
        (ClientMessage::JoinRoom { room_id: x }, ClientMessage::JoinRoom { room_id: y }) => x@ == y@,
        (ClientMessage::ClosedRoom { room_id: x }, ClientMessage::ClosedRoom { room_id: y }) => x@ == y@,
        _ => false,
    }
}

/// A copy of `msg`.
pub fn copy_message(msg: &ClientMessage) -> (r: ClientMessage)
    ensures
        same_message(r, *msg),
{
    match msg {
        ClientMessage::SendText(t) => ClientMessage::SendText(t.clone()),
        ClientMessage::SendBinary(b) => {
            let c = b.clone();
            assert(c@ =~= b@);
            ClientMessage::SendBinary(c)
        },
        ClientMessage::Kick { reason } => ClientMessage::Kick { reason: reason.clone() },
        ClientMessage::JoinRoom { room_id } => ClientMessage::JoinRoom { room_id: room_id.clone() },
        ClientMessage::ClosedRoom { room_id } => ClientMessage::ClosedRoom { room_id: room_id.clone() },
    }
}

/// Hands a copy of `msg` to every name in `names` but `excluded`.
pub fn fan_out(names: &Vec<String>, excluded: Option<&String>, msg: &ClientMessage) -> (deliveries: Vec<Delivery>)
    requires
        names_of(names@).no_duplicates(),
    ensures
        is_fan_out(
            deliveries@,
            match excluded {
                Some(x) => names_of(names@).to_set().remove(x@),
                None => names_of(names@).to_set(),
            },
        ),
        forall|i: int| 0 <= i < deliveries@.len() ==> same_message(#[trigger] deliveries@[i].msg, *msg),
{
    let mut deliveries: Vec<Delivery> = Vec::new();
    let mut i: usize = 0;
    while i < names.len()
        invariant
            i <= names@.len(),
            names_of(names@).no_duplicates(),
            targets(deliveries@).no_duplicates(),
            forall|k: Seq<char>| #[trigger] targets(deliveries@).contains(k) <==>
                (names_of(names@).subrange(0, i as int).contains(k) && (excluded matches Some(x) ==> k != x@)),
            forall|j: int| 0 <= j < deliveries@.len() ==> same_message(#[trigger] deliveries@[j].msg, *msg),
        decreases names@.len() - i,
    {
        let skip = match excluded {
            Some(x) => names[i].eq(x),
            None => false,
        };
        assert(skip <==> (excluded matches Some(x) && names@[i as int]@ == x@));
        let ghost before = deliveries@;
        if !skip {
            let copy = copy_message(msg);
            deliveries.push(Delivery { target_id: names[i].clone(), msg: copy });
        }
        proof {
            let all = names_of(names@);
            let prefix = all.subrange(0, i as int);
            let next = all.subrange(0, i as int + 1);
            let ni = names@[i as int]@;
            assert(all[i as int] == ni);
            assert(next =~= prefix.push(ni));
            assert(!prefix.contains(ni)) by {
                if prefix.contains(ni) {
                    let j = choose|j: int| 0 <= j < prefix.len() && prefix[j] == ni;
                    assert(all[j] == all[i as int]);
                }
            }
            if !skip {
                assert(targets(deliveries@) =~= targets(before).push(ni));
                assert(!targets(before).contains(ni));
            } else {
                assert(targets(deliveries@) =~= targets(before));
            }
            assert forall|k: Seq<char>| #[trigger] targets(deliveries@).contains(k) <==>
                (next.contains(k) && (excluded matches Some(x) ==> k != x@)) by {
                let keep = excluded matches Some(x) ==> k != x@;
                assert(targets(before).contains(k) <==> (prefix.contains(k) && keep));
                if prefix.contains(k) {
                    let j = choose|j: int| 0 <= j < prefix.len() && prefix[j] == k;
                    assert(next[j] == k);
                }
                if next.contains(k) {
                    let j = choose|j: int| 0 <= j < next.len() && next[j] == k;
                    if j < i {
                        assert(prefix[j] == k);
                    } else {
                        assert(k == ni);
                    }
                }
                if targets(deliveries@).contains(k) {
                    let j = choose|j: int| 0 <= j < targets(deliveries@).len() && targets(deliveries@)[j] == k;
                    if j < before.len() {
                        assert(targets(before)[j] == k);
                        assert(targets(before).contains(k));
                        assert(prefix.contains(k));
                        let j2 = choose|j2: int| 0 <= j2 < prefix.len() && prefix[j2] == k;
                        assert(next[j2] == k);
                    } else {
                        assert(k == ni);
                        assert(!skip);
                        assert(next[i as int] == ni);
                    }
                }
                if targets(before).contains(k) {
                    let j = choose|j: int| 0 <= j < targets(before).len() && targets(before)[j] == k;
                    assert(targets(deliveries@)[j] == k);
                }
                if !skip && k == ni {
                    assert(targets(deliveries@)[before.len() as int] == k);
                }
                if next.contains(k) && keep && !prefix.contains(k) {
                    assert(k == ni);
                    assert(!skip);
                }
            }
        }
        i = i + 1;
    }
    proof {
        assert(names_of(names@).subrange(0, names@.len() as int) =~= names_of(names@));
        let want = match excluded {
            Some(x) => names_of(names@).to_set().remove(x@),
            None => names_of(names@).to_set(),
        };
        assert(targets(deliveries@).to_set() =~= want);
    }
    deliveries
}

/// One run of deliveries handed out in order: the run stops at the first
/// mailbox that refuses its message, reports that user, and skips the rest.
pub struct DeliveryRun {
    deliveries: Vec<Delivery>,
    sent: usize,
    refused: Option<AppError>,
}

impl DeliveryRun {
    /// The deliveries of the run, in order.
    pub closed spec fn planned(&self) -> Seq<Delivery> {
        self.deliveries@
    }

    /// How many deliveries their mailboxes took so far.
    pub closed spec fn delivered(&self) -> nat {
        self.sent as nat
    }

    /// The error of the refused delivery that ended the run, if any.
    pub closed spec fn refusal(&self) -> Option<AppError> {
        self.refused
    }

    #[verifier::type_invariant]
    closed spec fn within_plan(self) -> bool {
        self.sent <= self.deliveries@.len()
    }

    /// A run of `deliveries` before any is handed out.
    pub fn new(deliveries: Vec<Delivery>) -> (r: Self)
        ensures
            r.planned() == deliveries@,
            r.delivered() == 0,
            r.refusal() is None,
    {
        DeliveryRun { deliveries, sent: 0, refused: None }
    }

    /// The next delivery to hand out: the first one not yet taken, as long as
    /// no mailbox has refused; `None` once the run is over.
    pub fn next(&self) -> (r: Option<Delivery>)
        ensures
            match r {
                Some(d) => {
                    &&& self.refusal() is None
                    &&& self.delivered() < self.planned().len()
                    &&& d.target_id@ == self.planned()[self.delivered() as int].target_id@
                    &&& same_message(d.msg, self.planned()[self.delivered() as int].msg)
                },
                None => self.refusal() is Some || self.delivered() == self.planned().len(),
            },
    {
        proof {
            use_type_invariant(self);
        }
        if self.refused.is_some() || self.sent >= self.deliveries.len() {
            None
        } else {
            let d = &self.deliveries[self.sent];
            Some(Delivery { target_id: d.target_id.clone(), msg: copy_message(&d.msg) })
        }
    }

    /// Records whether the mailbox took the delivery that `next` gave. A
    /// refusal ends the run with that user's `failed_delivery` error.
    pub fn record(&mut self, accepted: bool)
        requires
            old(self).refusal() is None,
            old(self).delivered() < old(self).planned().len(),
        ensures
            final(self).planned() == old(self).planned(),
            accepted ==> final(self).delivered() == old(self).delivered() + 1 && final(self).refusal() is None,
            !accepted ==> final(self).delivered() == old(self).delivered() && final(self).refusal() == Some(
                AppError::SessionSendFailed {
                    user_id: old(self).planned()[old(self).delivered() as int].target_id,
                    source: SessionSendError,
                },
            ),
    {
        proof {
            use_type_invariant(&*self);
        }
        if accepted {
            let planned = self.deliveries.len();
            assert(self.sent < planned);
            self.sent = self.sent + 1;
        } else {
            let target = self.deliveries[self.sent].target_id.clone();
            self.refused = Some(failed_delivery(target));
        }
    }

    /// The result of the run: `Ok` if every delivery handed out was taken,
    /// else the error of the first refusal.
    pub fn finish(self) -> (r: Result<(), AppError>)
        ensures
            match self.refusal() {
                None => r is Ok,
                Some(e) => r == Err::<(), AppError>(e),
            },
    {
        match self.refused {
            None => Ok(()),
            Some(e) => Err(e),
        }
    }
}

} // verus!
