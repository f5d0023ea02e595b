use syncroom::room::{gen_id, id_from_words, Room, RoomRequest, StateUpdate};

const FIRST: &str = "https://www.youtube.com/watch?v=dQw4w9WgXcQ";

#[test]
fn new_room_is_paused_at_the_start() {
    let (room, rx) = Room::new("apple-bear-cat".to_string());
    assert_eq!(room.id(), "apple-bear-cat");
    assert_eq!(room.video_index(), 0);
    assert_eq!(room.playlist(), &vec![(FIRST.to_string(), 0u128)]);
    assert_eq!(room.playing_since(), 0);
    assert_eq!(room.paused_since(), Some(0));
    assert_eq!(room.pause_subtraction(), 0);
    assert!(room.members().is_empty());
    let _ = rx;
}

#[test]
fn new_room_from_string() {
    let (room, _rx) = Room::new(String::from("x"));
    assert_eq!(room.id(), "x");
}

#[test]
fn position_of_fresh_room_is_difference_of_readings() {
    let (room, _rx) = Room::new("r".to_string());
    assert_eq!(room.position_at(500, 500), Some(0));
    assert_eq!(room.position_at(700, 500), Some(200));
    assert_eq!(room.position_at(500, 700), None);
}

#[test]
fn play_counts_pause_as_not_played() {
    let (mut room, _rx) = Room::new("r".to_string());
    room.play_at(1_000);
    assert_eq!(room.paused_since(), None);
    assert_eq!(room.pause_subtraction(), 1_000);
    assert_eq!(room.position_at(1_500, 0), Some(500));
    assert_eq!(room.position_at(900, 0), None);
    room.play_at(5_000);
    assert_eq!(room.pause_subtraction(), 1_000);
}

#[test]
fn pause_changes_nothing() {
    let (mut room, _rx) = Room::new("r".to_string());
    room.pause();
    assert_eq!(room.paused_since(), Some(0));
    room.play_at(10);
    room.pause();
    assert_eq!(room.paused_since(), None);
    assert_eq!(room.pause_subtraction(), 10);
}

#[test]
fn next_moves_to_end_of_playlist_and_stops() {
    let (mut room, _rx) = Room::new("r".to_string());
    room.next_at(40);
    assert_eq!(room.video_index(), 1);
    assert_eq!(room.playing_since(), 40);
    assert_eq!(room.paused_since(), Some(0));
    room.next_at(90);
    assert_eq!(room.video_index(), 1);
    assert_eq!(room.playing_since(), 90);
}

#[test]
fn position_after_next_while_paused_is_undefined() {
    let (mut room, _rx) = Room::new("r".to_string());
    room.next_at(40);
    assert_eq!(room.position_at(100, 100), None);
}

#[test]
fn position_while_playing_after_next() {
    let (mut room, _rx) = Room::new("r".to_string());
    room.play_at(10);
    room.next_at(100);
    assert_eq!(room.position_at(150, 0), Some(40));
    assert_eq!(room.position_at(105, 0), None);
}

#[test]
fn clock_methods_run() {
    let (mut room, _rx) = Room::new("r".to_string());
    let _ = room.time();
    room.play();
    assert_eq!(room.paused_since(), None);
    assert!(room.time().is_some());
    room.next();
    assert_eq!(room.video_index(), 1);
}

#[test]
fn id_from_words_joins_with_hyphens() {
    let words = vec!["abandon".to_string(), "ability".to_string(), "able".to_string()];
    assert_eq!(id_from_words(&words, 2, 0, 1), "able-abandon-ability");
    assert_eq!(id_from_words(&words, 1, 1, 1), "ability-ability-ability");
}

#[test]
fn gen_id_uses_three_words() {
    let words = vec!["zoo".to_string()];
    assert_eq!(gen_id(&words), "zoo-zoo-zoo");
    let words = vec!["a".to_string(), "b".to_string()];
    let id = gen_id(&words);
    let parts: Vec<&str> = id.split('-').collect();
    assert_eq!(parts.len(), 3);
    assert!(parts.iter().all(|p| *p == "a" || *p == "b"));
}

#[test]
fn room_types_compare() {
    assert_eq!(StateUpdate::CurrentPosition, StateUpdate::CurrentPosition);
    let r = RoomRequest::UpdateUsername { old: "a".to_string(), new: "b".to_string() };
    assert_eq!(r.clone(), r);
}

#[test]
fn position_advances_while_playing_and_stands_while_paused() {
    let (mut paused, _rx) = Room::new("p".to_string());
    assert_eq!(paused.position_at(300, 300), paused.position_at(900, 900));
    paused.play_at(200);
    assert_eq!(paused.position_at(500, 0), Some(300));
    assert_eq!(paused.position_at(800, 0), Some(600));
}

#[test]
fn resuming_keeps_position() {
    let (mut room, _rx) = Room::new("q".to_string());
    let before = room.position_at(250, 250);
    room.play_at(250);
    assert_eq!(room.position_at(250, 0), before);
}
