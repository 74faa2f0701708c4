use vstd::prelude::*;
use crate::error::{AppError, SessionSendError};
use crate::messages::{ActorId, ClientMessage, ServerMessage};
use crate::registry::Registry;

verus! {

/// What the session manager does in answer to one request.
#[derive(Debug)]
pub enum SessionAction<R, C> {
    /// Send `result` on the connect reply channel `reply`.
    ReplyConnect { reply: R, actor_id: ActorId, result: Result<(), AppError> },
    /// The session of `actor_id` was removed; `total` sessions remain.
    Disconnected { actor_id: ActorId, total: usize },
    /// A disconnect for a user that had no session: nothing changed.
    Ignored { actor_id: ActorId },
    /// Hand `msg` to the mailbox of the connected user `target_id`.
    Deliver { target_id: ActorId, msg: ClientMessage },
    /// `target_id` has no session; the message is dropped.
    TargetNotFound { target_id: ActorId },
    /// Send `count`, the number of sessions, on `reply`.
    ReplyCount { reply: C, count: usize },
}

/// The sessions after `cmd` and the action that answers it, from the sessions
/// `sessions` before it.
pub open spec fn session_step<T, R, C>(
    sessions: Map<Seq<char>, T>,
    cmd: ServerMessage<T, R, C>,
) -> (Map<Seq<char>, T>, SessionAction<R, C>) {
    match cmd {
        ServerMessage::Connect { actor_id, tx, reply } => {
            if sessions.contains_key(actor_id@) {
                (
                    sessions,
                    SessionAction::ReplyConnect {
                        reply,
                        actor_id,
                        result: Err(AppError::DuplicateLogin { user_id: actor_id }),
                    },
                )
            } else {
                (
                    sessions.insert(actor_id@, tx),
                    SessionAction::ReplyConnect { reply, actor_id, result: Ok(()) },
                )
            }
        },
        ServerMessage::Disconnect { actor_id } => {
            if sessions.contains_key(actor_id@) {
                (
                    sessions.remove(actor_id@),
                    SessionAction::Disconnected {
                        actor_id,
                        total: sessions.remove(actor_id@).len() as usize,
                    },
                )
            } else {
                (sessions, SessionAction::Ignored { actor_id })
            }
        },
        ServerMessage::MessageTo { target_id, msg } => {
            if sessions.contains_key(target_id@) {
                (sessions, SessionAction::Deliver { target_id, msg })
            } else {
                (sessions, SessionAction::TargetNotFound { target_id })
            }
        },
        ServerMessage::GetOnlineCount { reply } => {
            (sessions, SessionAction::ReplyCount { reply, count: sessions.len() as usize })
        },
    }
}

/// The session manager's state: one client mailbox per connected user.
pub struct SessionManager<T> {
    sessions: Registry<T>,
}

impl<T> View for SessionManager<T> {
    type V = Map<Seq<char>, T>;

    closed spec fn view(&self) -> Map<Seq<char>, T> {
        self.sessions@
    }
}

impl<T> SessionManager<T> {
    /// A manager with no sessions.
    pub fn new() -> (r: Self)
        ensures
            r@ == Map::<Seq<char>, T>::empty(),
    {
        SessionManager { sessions: Registry::new() }
    }

    /// Applies one request to the sessions and says how to answer it.
    pub fn handle_message<R, C>(&mut self, cmd: ServerMessage<T, R, C>) -> (action: SessionAction<
        R,
        C,
    >)
        ensures
            (final(self)@, action) == session_step(old(self)@, cmd),
    {
        match cmd {
            ServerMessage::Connect { actor_id, tx, reply } => {
                if self.sessions.contains_key(&actor_id) {
                    let user_id = actor_id.clone();
                    SessionAction::ReplyConnect {
                        reply,
                        actor_id,
                        result: Err(AppError::DuplicateLogin { user_id }),
                    }
                } else {
                    let key = actor_id.clone();
                    self.sessions.insert(key, tx);
                    SessionAction::ReplyConnect { reply, actor_id, result: Ok(()) }
                }
            },
            ServerMessage::Disconnect { actor_id } => {
                match self.sessions.remove(&actor_id) {
                    Some(_) => {
                        let total = self.sessions.len();
                        SessionAction::Disconnected { actor_id, total }
                    },
                    None => SessionAction::Ignored { actor_id },
                }
            },
            ServerMessage::MessageTo { target_id, msg } => {
                if self.sessions.contains_key(&target_id) {
                    SessionAction::Deliver { target_id, msg }
                } else {
                    SessionAction::TargetNotFound { target_id }
                }
            },
            ServerMessage::GetOnlineCount { reply } => {
                let count = self.sessions.len();
                SessionAction::ReplyCount { reply, count }
            },
        }
    }

    /// The mailbox of `actor_id`, if it is connected.
    pub fn session(&self, actor_id: &String) -> (r: Option<&T>)
        ensures
            match r {
                Some(tx) => self@.contains_key(actor_id@) && *tx == self@[actor_id@],
                None => !self@.contains_key(actor_id@),
            },
    {
        self.sessions.get(actor_id)
    }

    /// The number of connected users.
    pub fn online_count(&self) -> (n: usize)
        ensures
            n == self@.len(),
    {
        self.sessions.len()
    }

    /// The requester of a connect went away before its answer `result` reached
    /// it: a session that was just opened for it is closed again.
    pub fn connect_reply_failed(&mut self, actor_id: &String, result: &Result<(), AppError>)
        ensures
            result is Ok ==> final(self)@ == old(self)@.remove(actor_id@),
            result is Err ==> final(self)@ == old(self)@,
    {
        if result.is_ok() {
            self.sessions.remove(actor_id);
        }
    }

    /// The mailbox of `target_id` refused a message: its stale session is
    /// dropped and the failure is reported.
    pub fn delivery_failed(&mut self, target_id: String) -> (e: AppError)
        ensures
            final(self)@ == old(self)@.remove(target_id@),
            e == (AppError::SessionSendFailed { user_id: target_id, source: SessionSendError }),
    {
        self.sessions.remove(&target_id);
        AppError::SessionSendFailed { user_id: target_id, source: SessionSendError }
    }
}

/// Connecting a user who has no session and then disconnecting it leaves the
/// sessions as they were.
pub proof fn lemma_connect_then_disconnect<T, R, C>(
    sessions: Map<Seq<char>, T>,
    actor_id: ActorId,
    tx: T,
    reply: R,
)
    requires
        !sessions.contains_key(actor_id@),
    ensures
        ({
            let after_connect = session_step(
                sessions,
                ServerMessage::<T, R, C>::Connect { actor_id, tx, reply },
            ).0;
            session_step(after_connect, ServerMessage::<T, R, C>::Disconnect { actor_id }).0
                == sessions
        }),
{
    let after_connect = sessions.insert(actor_id@, tx);
    assert(after_connect.remove(actor_id@) =~= sessions);
}

/// A user can hold one session only: once connected, a second connect under
/// the same id is refused with `DuplicateLogin` and changes nothing, whatever
/// mailbox it brings.
pub proof fn lemma_second_login_refused<T, R, C>(
    sessions: Map<Seq<char>, T>,
    actor_id: ActorId,
    first: T,
    second: T,
    reply1: R,
    reply2: R,
)
    ensures
        ({
            let after_first = session_step(
                sessions,
                ServerMessage::<T, R, C>::Connect { actor_id, tx: first, reply: reply1 },
            ).0;
            let (after_second, action) = session_step(
                after_first,
                ServerMessage::<T, R, C>::Connect { actor_id, tx: second, reply: reply2 },
            );
            &&& after_first.contains_key(actor_id@)
            &&& after_second == after_first
            &&& action == SessionAction::<R, C>::ReplyConnect {
                reply: reply2,
                actor_id,
                result: Err(AppError::DuplicateLogin { user_id: actor_id }),
            }
        }),
{
}

/// Requests other than connect and disconnect leave the sessions unchanged.
pub proof fn lemma_queries_keep_sessions<T, R, C>(
    sessions: Map<Seq<char>, T>,
    cmd: ServerMessage<T, R, C>,
)
    requires
        cmd is MessageTo || cmd is GetOnlineCount,
    ensures
        session_step(sessions, cmd).0 == sessions,
{
}

/// A session opened for a requester that went away before it heard the
/// answer is closed again by `connect_reply_failed`: nothing of it is left.
pub proof fn lemma_dropped_requester_leaves_no_session<T, R, C>(
    sessions: Map<Seq<char>, T>,
    actor_id: ActorId,
    tx: T,
    reply: R,
)
    requires
        !sessions.contains_key(actor_id@),
    ensures
        ({
            let (after, action) = session_step(
                sessions,
                ServerMessage::<T, R, C>::Connect { actor_id, tx, reply },
            );
            &&& action matches SessionAction::ReplyConnect { result: Ok(()), .. }
            &&& after.remove(actor_id@) == sessions
        }),
{
    assert(sessions.insert(actor_id@, tx).remove(actor_id@) =~= sessions);
}

/// Once a mailbox has refused a message and its session was dropped by
/// `delivery_failed`, further messages for that user are not delivered.
pub proof fn lemma_failed_mailbox_gets_nothing_more<T, R, C>(
    sessions: Map<Seq<char>, T>,
    target_id: ActorId,
    msg: ClientMessage,
)
    ensures
        session_step(sessions.remove(target_id@), ServerMessage::<T, R, C>::MessageTo { target_id, msg }).1
            == (SessionAction::<R, C>::TargetNotFound { target_id }),
{
}

/// A message for a connected user is handed to that user's mailbox, whatever
/// kind of message it is, and the sessions stay as they are.
pub proof fn lemma_message_to_connected_user_is_delivered<T, R, C>(
    sessions: Map<Seq<char>, T>,
    target_id: ActorId,
    msg: ClientMessage,
)
    requires
        sessions.contains_key(target_id@),
    ensures
        ({
            let (after, action) = session_step(
                sessions,
                ServerMessage::<T, R, C>::MessageTo { target_id, msg },
            );
            &&& after == sessions
            &&& action == (SessionAction::<R, C>::Deliver { target_id, msg })
        }),
{
}

/// The online count is the number of connected users.
pub proof fn lemma_online_count_is_number_of_sessions<T, R, C>(
    sessions: Map<Seq<char>, T>,
    reply: C,
)
    requires
        sessions.dom().finite(),
        sessions.len() <= usize::MAX,
    ensures
        ({
            let (after, action) = session_step(sessions, ServerMessage::<T, R, C>::GetOnlineCount { reply });
            &&& after == sessions
            &&& action matches SessionAction::ReplyCount { count, reply: r }
            &&& count as nat == sessions.dom().len()
            &&& r == reply
        }),
{
}

} // verus!
