use syncroom::manager::ManagerRoomRequest;
use syncroom::msg::{Command, Response};
use syncroom::room::RoomRequest;
use syncroom::user::{
    questionable_json_response, reply_to_frame, Frame, IncomingMessage, OutgoingMessage, Reply,
    User, UserAction, UserCon, UserMutator,
};
use syncroom::user_con::UserCon as EarlyCon;

const QUESTIONABLE: &str = "Received json of questionable quality.";

fn is_decimal(s: &str) -> bool {
    !s.is_empty()
        && s.chars().all(|c| c.is_ascii_digit())
        && (s == "0" || !s.starts_with('0'))
        && s.parse::<u32>().is_ok()
}

#[test]
fn new_user_has_a_number_name() {
    let u: User<u8, u16> = User::new(9);
    assert!(is_decimal(u.user_name()));
    assert_eq!(u.room_handle(), &None);
    assert_eq!(*u.manager_handle(), 9);
}

#[test]
fn ping_is_answered_with_pong() {
    assert_eq!(reply_to_frame(Frame::Ping(vec![1, 2, 3])), Some(Reply::Pong(vec![1, 2, 3])));
}

#[test]
fn bad_text_is_answered_with_error() {
    assert_eq!(
        reply_to_frame(Frame::Text(None)),
        Some(Reply::Respond(Response::Error(QUESTIONABLE.to_string())))
    );
    assert_eq!(questionable_json_response(), Response::Error(QUESTIONABLE.to_string()));
}

#[test]
fn commands_and_other_frames_get_no_reply() {
    assert_eq!(reply_to_frame(Frame::Text(Some(Command::EnterRoom("a".to_string())))), None);
    assert_eq!(reply_to_frame(Frame::Other), None);
}

#[test]
fn enter_room_asks_the_manager() {
    let mut con: UserCon<u8, u8> = UserCon(User::new(0));
    let before = con.0.user_name().clone();
    match con.on_incoming(IncomingMessage(Command::EnterRoom("apple-bear-cat".to_string()))) {
        Some(UserAction::AskManager(ManagerRoomRequest::Query(id))) => assert_eq!(id, "apple-bear-cat"),
        _ => panic!("expected a query to the manager"),
    }
    assert_eq!(con.0.user_name(), &before);
}

#[test]
fn set_username_outside_room_renames_at_once() {
    let mut con: UserCon<u8, u8> = UserCon(User::new(0));
    let r = con.on_incoming(IncomingMessage(Command::SetUsername("alice".to_string())));
    assert!(r.is_none());
    assert_eq!(con.0.user_name(), "alice");
}

#[test]
fn rename_reply_and_mutator() {
    let req = RoomRequest::UpdateUsername { old: "1".to_string(), new: "bob".to_string() };
    assert_eq!(
        UserCon::<u8, u8>::on_rename_reply(true, req.clone()),
        Some(UserMutator::Username("bob".to_string()))
    );
    assert_eq!(UserCon::<u8, u8>::on_rename_reply(false, req), None);
    let mut con: UserCon<u8, u8> = UserCon(User::new(0));
    con.on_mutator(UserMutator::Username("bob".to_string()));
    assert_eq!(con.0.user_name(), "bob");
}

#[test]
fn outgoing_passes_response() {
    let resp = Response::UsernameUpdate { target: "a".to_string(), new: "b".to_string() };
    assert_eq!(UserCon::<u8, u8>::on_outgoing(OutgoingMessage(resp.clone())), resp);
}

#[test]
fn early_connection_default_and_frames() {
    let mut con: EarlyCon<u8> = EarlyCon::default();
    assert!(is_decimal(con.user_name()));
    assert_eq!(con.room_handle(), &None);
    assert_eq!(con.handle(Frame::Ping(vec![4])), Some(Reply::Pong(vec![4])));
    assert_eq!(
        con.handle(Frame::Text(None)),
        Some(Reply::Respond(Response::Error(QUESTIONABLE.to_string())))
    );
    assert_eq!(con.handle(Frame::Other), None);
}

#[test]
fn early_connection_apply() {
    let mut con: EarlyCon<u8> = EarlyCon::default();
    assert_eq!(con.apply(Command::SetUsername("carol".to_string())), None);
    assert_eq!(con.user_name(), "carol");
    assert_eq!(con.apply(Command::EnterRoom("x".to_string())), None);
    assert_eq!(con.user_name(), "carol");
}

#[test]
fn user_with_number_is_named_in_decimal() {
    let u: User<u8, u16> = User::with_number(4096, 3);
    assert_eq!(u.user_name(), "4096");
    assert_eq!(u.room_handle(), &None);
    let z: User<u8, u16> = User::with_number(0, 3);
    assert_eq!(z.user_name(), "0");
}

#[test]
fn early_connection_with_number() {
    let con: EarlyCon<u8> = EarlyCon::with_number(u32::MAX);
    assert_eq!(con.user_name(), "4294967295");
    assert_eq!(con.room_handle(), &None);
}
