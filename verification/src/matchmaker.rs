use vstd::prelude::*;
use std::collections::VecDeque;
use crate::error::AppError;
use crate::messages::{ActorId, ClientMessage, Delivery, MatchmakerCommand};

verus! {

/// Two queued players paired for a game, in the order in which they queued.
#[derive(Debug)]
pub struct Match<T> {
    pub first: (ActorId, T),
    pub second: (ActorId, T),
}

/// Whether `i` is the first position in `queue` of a player named `id`.
pub open spec fn is_first_position<T>(queue: Seq<(String, T)>, id: Seq<char>, i: int) -> bool {
    &&& 0 <= i < queue.len()
    &&& queue[i].0@ == id
    &&& forall|j: int| 0 <= j < i ==> queue[j].0@ != id
}

/// `queue` without the first entry of the player named `id`, if there is one.
pub open spec fn without_first<T>(queue: Seq<(String, T)>, id: Seq<char>) -> Seq<(String, T)> {
    if exists|i: int| is_first_position(queue, id, i) {
        queue.remove(choose|i: int| is_first_position(queue, id, i))
    } else {
        queue
    }
}

/// The waiting line after `cmd` is admitted and before any pairing.
pub open spec fn admitted<T>(queue: Seq<(String, T)>, cmd: MatchmakerCommand<T>) -> Seq<(String, T)> {
    match cmd {
        MatchmakerCommand::JoinQueue { user_id, tx } => queue.push((user_id, tx)),
        MatchmakerCommand::LeaveQueue { user_id } => without_first(queue, user_id@),
    }
}

/// The players of `matches`, pair by pair, each pair first player first.
pub open spec fn matched_players<T>(matches: Seq<Match<T>>) -> Seq<(String, T)>
    decreases matches.len(),
{
    if matches.len() == 0 {
        Seq::empty()
    } else {
        matched_players(matches.drop_last()).push(matches.last().first).push(matches.last().second)
    }
}

/// The matchmaker's state: the players waiting for an opponent, first come
/// first served. At most one player waits at any time.
pub struct Matchmaker<T> {
    queue: VecDeque<(ActorId, T)>,
}

impl<T> View for Matchmaker<T> {
    type V = Seq<(String, T)>;

    closed spec fn view(&self) -> Seq<(String, T)> {
        self.queue@
    }
}

/// Position of the first entry of `id` in `queue`, if any.
fn position<T>(queue: &VecDeque<(ActorId, T)>, id: &String) -> (r: Option<usize>)
    ensures
        match r {
            Some(i) => is_first_position(queue@, id@, i as int),
            None => !exists|i: int| is_first_position(queue@, id@, i),
        },
{
    let mut i: usize = 0;
    while i < queue.len()
        invariant
            i <= queue@.len(),
            forall|j: int| 0 <= j < i ==> queue@[j].0@ != id@,
        decreases queue@.len() - i,
    {
        if queue[i].0.eq(id) {
            return Some(i);
        }
        i = i + 1;
    }
    None
}

impl<T> Matchmaker<T> {
    #[verifier::type_invariant]
    closed spec fn at_most_one_waits(self) -> bool {
        self.queue@.len() < 2
    }

    /// A matchmaker with nobody waiting.
    pub fn new() -> (r: Self)
        ensures
            r@ == Seq::<(String, T)>::empty(),
    {
        Matchmaker { queue: VecDeque::new() }
    }

    /// Admits `cmd` to the waiting line, then pairs waiting players from the
    /// front, two at a time, while two or more wait.
    pub fn handle_command(&mut self, cmd: MatchmakerCommand<T>) -> (matches: Vec<Match<T>>)
        ensures
            final(self)@.len() < 2,
            matched_players(matches@) + final(self)@ == admitted(old(self)@, cmd),
    {
        proof {
            use_type_invariant(&*self);
        }
        let mut queue: VecDeque<(ActorId, T)> = VecDeque::new();
        std::mem::swap(&mut queue, &mut self.queue);
        let ghost before = queue@;
        match cmd {
            MatchmakerCommand::JoinQueue { user_id, tx } => {
                queue.push_back((user_id, tx));
            },
            MatchmakerCommand::LeaveQueue { user_id } => {
                match position(&queue, &user_id) {
                    Some(pos) => {
                        proof {
                            assert(exists|i: int| is_first_position(before, user_id@, i));
                            let c = choose|i: int| is_first_position(before, user_id@, i);
                            assert(c == pos as int);
                        }
                        queue.remove(pos);
                    },
                    None => {},
                }
            },
        }
        let ghost line = queue@;
        assert(line == admitted(before, cmd));
        let mut matches: Vec<Match<T>> = Vec::new();
        assert(matched_players(matches@) + queue@ =~= line);
        while queue.len() >= 2
            invariant
                matched_players(matches@) + queue@ == line,
            decreases queue@.len(),
        {
            let ghost q = queue@;
            let first = match queue.pop_front() {
                Some(p) => p,
                None => { return matches; },
            };
            let second = match queue.pop_front() {
                Some(p) => p,
                None => { return matches; },
            };
            let ghost done = matches@;
            matches.push(Match { first, second });
            proof {
                assert(matches@.drop_last() =~= done);
                assert(q =~= seq![first, second] + queue@);
                assert(matched_players(matches@) + queue@ =~= matched_players(done) + q);
            }
        }
        self.queue = queue;
        matches
    }
}

/// The messages that send a matched pair to the room created for it: first
/// to the first player, then to the second, each naming the room. Where no
/// room could be created, nothing is sent.
pub fn match_notices<T>(m: &Match<T>, room: &Result<String, AppError>) -> (notices: Vec<Delivery>)
    ensures
        match room {
            Ok(room_id) => {
                &&& notices@.len() == 2
                &&& notices@[0].target_id@ == m.first.0@
                &&& notices@[1].target_id@ == m.second.0@
                &&& forall|i: int| 0 <= i < 2 ==> (#[trigger] notices@[i].msg matches ClientMessage::JoinRoom { room_id: r } && r@ == room_id@)
            },
            Err(_) => notices@.len() == 0,
        },
{
    match room {
        Ok(room_id) => vec![
            Delivery { target_id: m.first.0.clone(), msg: ClientMessage::JoinRoom { room_id: room_id.clone() } },
            Delivery { target_id: m.second.0.clone(), msg: ClientMessage::JoinRoom { room_id: room_id.clone() } },
        ],
        Err(_) => Vec::new(),
    }
}

/// Players are paired first come, first served: when a second player joins
/// the one who waits, the two are matched, the waiting one first, and nobody
/// is left waiting.
pub proof fn lemma_pairs_in_arrival_order<T>(
    waiting: (String, T),
    user_id: ActorId,
    tx: T,
    matches: Seq<Match<T>>,
    rest: Seq<(String, T)>,
)
    requires
        rest.len() < 2,
        matched_players(matches) + rest == admitted(
            seq![waiting],
            MatchmakerCommand::JoinQueue { user_id, tx },
        ),
    ensures
        matches.len() == 1,
        matches[0].first == waiting,
        matches[0].second == (user_id, tx),
        rest.len() == 0,
{
    let line = seq![waiting].push((user_id, tx));
    assert(line.len() == 2);
    lemma_matched_players_len(matches);
    assert((matched_players(matches) + rest).len() == 2 * matches.len() + rest.len());
    if matches.len() == 0 {
        assert(matched_players(matches) =~= Seq::<(String, T)>::empty());
        assert(rest =~= line);
    } else {
        assert(matches.len() == 1);
        assert(matched_players(matches.drop_last()) =~= Seq::<(String, T)>::empty());
        assert((matched_players(matches) + rest)[0] == line[0]);
        assert((matched_players(matches) + rest)[1] == line[1]);
    }
}

/// Each match holds two players.
pub proof fn lemma_matched_players_len<T>(matches: Seq<Match<T>>)
    ensures
        matched_players(matches).len() == 2 * matches.len(),
    decreases matches.len(),
{
    if matches.len() > 0 {
        lemma_matched_players_len(matches.drop_last());
    }
}

} // verus!
