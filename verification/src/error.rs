use vstd::prelude::*;
use crate::text::{decimal, decimal_chars, join2, join3};

verus! {

/// Result of the server's fallible operations.
pub type Result<T> = core::result::Result<T, AppError>;

/// A client mailbox could not take a message: its receiver is gone or the
/// channel is closed.
#[derive(Debug, Clone, Copy, PartialEq, Eq)]
pub struct SessionSendError;

impl SessionSendError {
    /// The description of this error.
    pub fn message(&self) -> (s: String)
        ensures
            s@ == "receiver dropped or channel closed"@,
    {
        String::from_str("receiver dropped or channel closed")
    }
}

/// Everything that can go wrong in the server, with the details that the
/// server reports. Underlying causes from sockets and the ticket store are
/// reported by the caller that saw them; these values carry the text only.
#[derive(Debug, Clone, PartialEq, Eq)]
pub enum AppError {
    Config { reason: String },
    Bind { addr: String },
    Serve,
    Redis { reason: String },
    SessionManager { reason: String },
    WebSocket { reason: String },
    UnknownSocketType { value: u8 },
    Utf8 { field: String },
    InvalidTicket,
    TicketLookupFailed { key: String },
    SessionSendFailed { user_id: String, source: SessionSendError },
    InvalidFrame { reason: String },
    DuplicateLogin { user_id: String },
    RoomManager { reason: String },
}

/// The description of `e`, as a log line shows it.
pub open spec fn error_message(e: AppError) -> Seq<char> {
    match e {
        AppError::Config { reason } => "configuration error: "@ + reason@,
        AppError::Bind { addr } => "failed to bind server socket at "@ + addr@,
        AppError::Serve => "server runtime error"@,
        AppError::Redis { reason } => "redis error: "@ + reason@,
        AppError::SessionManager { reason } => "SessionManager error: "@ + reason@,
        AppError::WebSocket { reason } => "websocket protocol error: "@ + reason@,
        AppError::UnknownSocketType { value } => "unknown socket type: "@ + decimal_chars(value as nat),
        AppError::Utf8 { field } => "utf-8 decode failed for field: "@ + field@,
        AppError::InvalidTicket => "ticket is invalid or expired"@,
        AppError::TicketLookupFailed { key } => "ticket lookup failed (key: "@ + key@ + ")"@,
        AppError::SessionSendFailed { user_id, .. } => "session channel full/closed for user_id="@ + user_id@,
        AppError::InvalidFrame { reason } => "invalid frame: "@ + reason@,
        AppError::DuplicateLogin { user_id } => "duplicate login for user_id="@ + user_id@,
        AppError::RoomManager { reason } => "room manager error: "@ + reason@,
    }
}

/// The code under which `e` is reported to the client.
pub open spec fn client_code(e: AppError) -> Seq<char> {
    match e {
        AppError::InvalidTicket => "AUTH_FAILED"@,
        AppError::UnknownSocketType { .. } => "BAD_REQUEST"@,
        AppError::Utf8 { .. } => "BAD_FORMAT"@,
        AppError::InvalidFrame { .. } => "BAD_REQUEST"@,
        AppError::DuplicateLogin { .. } => "ALREADY_CONNECTED"@,
        _ => "SERVER_ERROR"@,
    }
}

/// The text under which `e` is reported to the client; internal errors are
/// not described.
pub open spec fn client_text(e: AppError) -> Seq<char> {
    match e {
        AppError::InvalidTicket => "Invalid or expired ticket"@,
        AppError::UnknownSocketType { value } => "Unknown opcode: "@ + decimal_chars(value as nat),
        AppError::Utf8 { field } => "Invalid UTF-8 in "@ + field@,
        AppError::InvalidFrame { reason } => reason@,
        AppError::DuplicateLogin { .. } => "User is already connected"@,
        _ => "Internal server error"@,
    }
}

impl AppError {
    /// Code and text to send to the client for this error.
    pub fn to_client_message(&self) -> (r: (&'static str, String))
        ensures
            r.0@ == client_code(*self),
            r.1@ == client_text(*self),
    {
        match self {
            AppError::InvalidTicket => ("AUTH_FAILED", String::from_str("Invalid or expired ticket")),
            AppError::UnknownSocketType { value } => {
                let n = decimal(*value as u32);
                ("BAD_REQUEST", join2("Unknown opcode: ", n.as_str()))
            },
            AppError::Utf8 { field } => ("BAD_FORMAT", join2("Invalid UTF-8 in ", field.as_str())),
            AppError::InvalidFrame { reason } => ("BAD_REQUEST", reason.clone()),
            AppError::DuplicateLogin { .. } => (
                "ALREADY_CONNECTED",
                String::from_str("User is already connected"),
            ),
            _ => ("SERVER_ERROR", String::from_str("Internal server error")),
        }
    }

    /// The description of this error.
    pub fn to_message(&self) -> (s: String)
        ensures
            s@ == error_message(*self),
    {
        match self {
            AppError::Config { reason } => join2("configuration error: ", reason.as_str()),
            AppError::Bind { addr } => join2("failed to bind server socket at ", addr.as_str()),
            AppError::Serve => String::from_str("server runtime error"),
            AppError::Redis { reason } => join2("redis error: ", reason.as_str()),
            AppError::SessionManager { reason } => join2("SessionManager error: ", reason.as_str()),
            AppError::WebSocket { reason } => join2("websocket protocol error: ", reason.as_str()),
            AppError::UnknownSocketType { value } => {
                let n = decimal(*value as u32);
                join2("unknown socket type: ", n.as_str())
            },
            AppError::Utf8 { field } => join2("utf-8 decode failed for field: ", field.as_str()),
            AppError::InvalidTicket => String::from_str("ticket is invalid or expired"),
            AppError::TicketLookupFailed { key } => join3("ticket lookup failed (key: ", key.as_str(), ")"),
            AppError::SessionSendFailed { user_id, .. } => join2(
                "session channel full/closed for user_id=",
                user_id.as_str(),
            ),
            AppError::InvalidFrame { reason } => join2("invalid frame: ", reason.as_str()),
            AppError::DuplicateLogin { user_id } => join2("duplicate login for user_id=", user_id.as_str()),
            AppError::RoomManager { reason } => join2("room manager error: ", reason.as_str()),
        }
    }
}

} // verus!
