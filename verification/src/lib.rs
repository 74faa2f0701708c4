//! Verified core of a websocket game server: wire framing, error reporting,
//! and the decision logic of the session manager, room manager, rooms,
//! matchmaker and client connections.

pub mod client;
pub mod deliveries;
pub mod error;
pub mod matchmaker;
pub mod messages;
pub mod packet;
pub mod registry;
pub mod room_manager;
pub mod rooms;
pub mod session_manager;
pub mod shared_bytes;
pub mod text;

pub use error::{AppError, Result};
