//! A client's connection: its user, and what the connection decides on each
//! websocket frame and each message it receives. The connection does not do
//! the sending itself: each decision names what is to be sent, and to whom.

use vstd::prelude::*;
use vstd::string::StringExecFns;

use crate::entropy::random_u32;
use crate::manager::ManagerRoomRequest;
use crate::msg::{Command, Response};
use crate::room::RoomRequest;
use crate::text::{decimal, u32_decimal};

verus! {

/// A user: its name, the room it is in (if any), and the registry of rooms,
/// each reached through a handle of type `R` or `M`.
#[derive(Clone)]
pub struct User<R, M> {
    user_name: String,
    room_handle: Option<R>,
    manager: M,
}

/// The connection of a client, serving its user.
pub struct UserCon<R, M>(pub User<R, M>);

/// A command from the client, passed on to its connection.
pub struct IncomingMessage(pub Command);

/// A response to the client, passed on to its connection.
pub struct OutgoingMessage(pub Response);

/// A change that a connection makes to its own user, once it is allowed to.
#[derive(Clone, Debug, PartialEq, Eq)]
pub enum UserMutator {
    Username(String),
}

/// A websocket frame from the client, after its text (if any) was read as
/// JSON: `Text(None)` is text that is not a command.
#[derive(Clone, Debug, PartialEq, Eq)]
pub enum Frame {
    Ping(Vec<u8>),
    Text(Option<Command>),
    Other,
}

/// A frame to send back to the client.
#[derive(Clone, Debug, PartialEq, Eq)]
pub enum Reply {
    Pong(Vec<u8>),
    Respond(Response),
}

/// A request that a connection makes of another party on its user's behalf.
pub enum UserAction<R> {
    /// To the registry of rooms.
    AskManager(ManagerRoomRequest<R>),
    /// To the room the user is in.
    AskRoom(RoomRequest),
}

/// The error text with which a frame that is not a command is answered.
pub open spec fn questionable_json() -> Seq<char> {
    "Received json of questionable quality."@
}

/// The answer to a frame of text that is not a command.
pub fn questionable_json_response() -> (r: Response)
    ensures
        r matches Response::Error(e) && e@ == questionable_json(),
{
    Response::Error(String::from_str("Received json of questionable quality."))
}

/// The answer, if any, to a frame from the client: a ping is answered with a
/// pong that carries the same bytes, text that is not a command with an
/// error, and anything else with nothing.
pub fn reply_to_frame(frame: Frame) -> (r: Option<Reply>)
    ensures
        match frame {
            Frame::Ping(m) => r == Some(Reply::Pong(m)),
            Frame::Text(None) => r matches Some(Reply::Respond(Response::Error(e))) && e@ == questionable_json(),
            _ => r is None,
        },
{
    match frame {
        Frame::Ping(m) => Some(Reply::Pong(m)),
        Frame::Text(None) => Some(Reply::Respond(questionable_json_response())),
        _ => None,
    }
}

/// The name that a rename request, once the room has answered, gives the
/// user: the new name if the room agreed, none otherwise.
pub open spec fn granted_name(approved: bool, request: RoomRequest) -> Option<Seq<char>> {
    match request {
        RoomRequest::UpdateUsername { old: _, new } => if approved {
            Some(new@)
        } else {
            None
        },
    }
}

/// A name of decimal digits, as a new user gets.
pub open spec fn is_number_name(name: Seq<char>) -> bool {
    exists|n: u32| name == decimal(n as nat)
}

impl<R, M> User<R, M> {
    /// The user's name.
    pub closed spec fn name(self) -> Seq<char> {
        self.user_name@
    }

    /// The room the user is in, if any.
    pub closed spec fn room(self) -> Option<R> {
        self.room_handle
    }

    /// The registry of rooms.
    pub closed spec fn manager(self) -> M {
        self.manager
    }

    /// A user outside any room, named by a random number in decimal.
    pub fn new(manager: M) -> (r: Self)
        ensures
            is_number_name(r.name()),
            r.room() is None,
            r.manager() == manager,
    {
        let n = random_u32();
        Self::with_number(n, manager)
    }

    /// A user outside any room, named by `n` in decimal.
    pub fn with_number(n: u32, manager: M) -> (r: Self)
        ensures
            r.name() == decimal(n as nat),
            r.room() is None,
            r.manager() == manager,
    {
        User { user_name: u32_decimal(n), room_handle: None, manager }
    }

    /// The user's name.
    pub fn user_name(&self) -> (r: &String)
        ensures
            r@ == self.name(),
    {
        &self.user_name
    }

    /// The handle of the room the user is in, if any.
    pub fn room_handle(&self) -> (r: &Option<R>)
        ensures
            *r == self.room(),
    {
        &self.room_handle
    }

    /// The handle of the registry of rooms.
    pub fn manager_handle(&self) -> (r: &M)
        ensures
            *r == self.manager(),
    {
        &self.manager
    }
}

impl<R, M> UserCon<R, M> {
    /// Decides on a command of the client. Entering a room asks the registry
    /// for the room of that id. A new name is taken at once outside a room;
    /// inside one, the room is asked first and the name stays as it is.
    pub fn on_incoming(&mut self, msg: IncomingMessage) -> (r: Option<UserAction<R>>)
        ensures
            final(self).0.room() == old(self).0.room(),
            final(self).0.manager() == old(self).0.manager(),
            match msg.0 {
                Command::EnterRoom(id) => {
                    &&& final(self).0.name() == old(self).0.name()
                    &&& r matches Some(UserAction::AskManager(ManagerRoomRequest::Query(q))) && q@ == id@
                },
                Command::SetUsername(name) => if old(self).0.room() is Some {
                    &&& final(self).0.name() == old(self).0.name()
                    &&& r matches Some(UserAction::AskRoom(RoomRequest::UpdateUsername { old: was, new }))
                        && was@ == old(self).0.name() && new@ == name@
                } else {
                    &&& final(self).0.name() == name@
                    &&& r is None
                },
            },
    {
        match msg.0 {
            Command::EnterRoom(room_id) => Some(UserAction::AskManager(ManagerRoomRequest::Query(room_id))),
            Command::SetUsername(uname) => {
                if self.0.room_handle.is_some() {
                    let old = self.0.user_name.clone();
                    Some(UserAction::AskRoom(RoomRequest::UpdateUsername { old, new: uname }))
                } else {
                    self.0.user_name = uname;
                    None
                }
            },
        }
    }

    /// Decides on the room's answer to a request to rename: once the room
    /// agrees, the user is to take the new name.
    pub fn on_rename_reply(approved: bool, request: RoomRequest) -> (r: Option<UserMutator>)
        ensures
            match r {
                Some(UserMutator::Username(n)) => granted_name(approved, request) == Some(n@),
                None => granted_name(approved, request) is None,
            },
            match request {
                RoomRequest::UpdateUsername { old, new } => if approved {
                    r == Some(UserMutator::Username(new))
                } else {
                    r is None
                },
            },
    {
        match request {
            RoomRequest::UpdateUsername { old: _, new } => if approved {
                Some(UserMutator::Username(new))
            } else {
                None
            },
        }
    }

    /// Applies a change to the user.
    pub fn on_mutator(&mut self, msg: UserMutator)
        ensures
            final(self).0.room() == old(self).0.room(),
            final(self).0.manager() == old(self).0.manager(),
            match msg {
                UserMutator::Username(name) => final(self).0.name() == name@,
            },
    {
        match msg {
            UserMutator::Username(uname) => self.0.user_name = uname,
        }
    }

    /// The response to send to the client.
    pub fn on_outgoing(msg: OutgoingMessage) -> (r: Response)
        ensures
            r == msg.0,
    {
        msg.0
    }
}

/// Inside a room, the name that the client asked for (which `on_incoming`
/// puts in its request to the room) is the one the user ends up with once the
/// room agrees, and the user keeps its name when the room refuses.
pub proof fn lemma_rename_in_room(asked: Seq<char>, request: RoomRequest)
    requires
        request matches RoomRequest::UpdateUsername { old: _, new } && new@ == asked,
    ensures
        granted_name(true, request) == Some(asked),
        granted_name(false, request) is None,
{
}

} // verus!
