//! The messages that a client and the server exchange over a websocket.

use vstd::prelude::*;

verus! {

/// What a client asks of the server.
#[derive(Clone, Debug, PartialEq, Eq)]
pub enum Command {
    SetUsername(String),
    EnterRoom(String),
}

/// What the server tells a client.
#[derive(Clone, Debug, PartialEq, Eq)]
pub enum Response {
    Error(String),
    UsernameUpdate { target: String, new: String },
}

} // verus!
