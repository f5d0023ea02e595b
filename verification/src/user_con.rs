//! A client's connection that keeps its user's name and room itself and
//! decides on websocket frames alone.

use vstd::prelude::*;

use crate::entropy::random_u32;
use crate::msg::Command;
use crate::room::RoomRequest;
use crate::text::{decimal, u32_decimal};
use crate::user::{is_number_name, questionable_json, reply_to_frame, Frame, Reply};

verus! {

/// The connection of a client: the user's name and the handle of the room
/// the user is in, if any.
pub struct UserCon<R> {
    user_name: String,
    room_handle: Option<R>,
}

impl<R> Default for UserCon<R> {
    /// A connection outside any room, named by a random number in decimal.
    fn default() -> (r: Self)
        ensures
            is_number_name(r.name()),
            r.room() is None,
    {
        let n = random_u32();
        UserCon::with_number(n)
    }
}

impl<R> UserCon<R> {
    /// A connection outside any room, named by `n` in decimal.
    pub fn with_number(n: u32) -> (r: Self)
        ensures
            r.name() == decimal(n as nat),
            r.room() is None,
    {
        UserCon { user_name: u32_decimal(n), room_handle: None }
    }

    /// The user's name.
    pub closed spec fn name(self) -> Seq<char> {
        self.user_name@
    }

    /// The room the user is in, if any.
    pub closed spec fn room(self) -> Option<R> {
        self.room_handle
    }

    /// The user's name.
    pub fn user_name(&self) -> (r: &String)
        ensures
            r@ == self.name(),
    {
        &self.user_name
    }

    /// The handle of the room the user is in, if any.
    pub fn room_handle(&self) -> (r: &Option<R>)
        ensures
            *r == self.room(),
    {
        &self.room_handle
    }

    /// Decides on a frame that is not a command: a ping is answered with a
    /// pong that carries the same bytes, text that is not a command with an
    /// error, and anything else with nothing. A command is no input here: the
    /// connection gives up on it after `apply` (see there).
    pub fn handle(&mut self, frame: Frame) -> (r: Option<Reply>)
        requires
            !(frame matches Frame::Text(Some(_))),
        ensures
            *final(self) == *old(self),
            match frame {
                Frame::Ping(m) => r == Some(Reply::Pong(m)),
                Frame::Text(None) => r matches Some(Reply::Respond(crate::msg::Response::Error(e)))
                    && e@ == questionable_json(),
                _ => r is None,
            },
    {
        reply_to_frame(frame)
    }

    /// Applies a command of the client, as the connection does before it
    /// gives up on the command: a new name is taken at once, and the room the
    /// user is in (if any) is to be told of it; entering a room does nothing.
    pub fn apply(&mut self, cmd: Command) -> (r: Option<RoomRequest>)
        ensures
            final(self).room() == old(self).room(),
            match cmd {
                Command::SetUsername(name) => {
                    &&& final(self).name() == name@
                    &&& if old(self).room() is Some {
                        r matches Some(RoomRequest::UpdateUsername { old: was, new })
                            && was@ == old(self).name() && new@ == name@
                    } else {
                        r is None
                    }
                },
                Command::EnterRoom(_) => *final(self) == *old(self) && r is None,
            },
    {
        match cmd {
            Command::SetUsername(uname) => {
                let notice = if self.room_handle.is_some() {
                    Some(RoomRequest::UpdateUsername { old: self.user_name.clone(), new: uname.clone() })
                } else {
                    None
                };
                self.user_name = uname;
                notice
            },
            Command::EnterRoom(_) => None,
        }
    }
}

} // verus!
