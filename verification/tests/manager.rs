use syncroom::manager::{Manager, ManagerRoomRequest};

#[test]
fn query_on_empty_manager_finds_nothing() {
    let mut m: Manager<u32> = Manager::new();
    assert_eq!(m.handle(ManagerRoomRequest::Query("a".to_string())), None);
}

#[test]
fn create_answers_the_room_and_query_finds_it() {
    let mut m: Manager<u32> = Manager::default();
    assert_eq!(m.handle(ManagerRoomRequest::Create("apple-bear-cat".to_string(), 7)), Some(7));
    assert_eq!(m.handle(ManagerRoomRequest::Query("apple-bear-cat".to_string())), Some(7));
    assert_eq!(m.handle(ManagerRoomRequest::Query("apple-bear-cow".to_string())), None);
}

#[test]
fn create_replaces_the_room_under_an_id() {
    let mut m: Manager<u32> = Manager::new();
    m.handle(ManagerRoomRequest::Create("x".to_string(), 1));
    m.handle(ManagerRoomRequest::Create("y".to_string(), 2));
    assert_eq!(m.handle(ManagerRoomRequest::Create("x".to_string(), 3)), Some(3));
    assert_eq!(m.handle(ManagerRoomRequest::Query("x".to_string())), Some(3));
    assert_eq!(m.handle(ManagerRoomRequest::Query("y".to_string())), Some(2));
}

#[test]
fn delete_answers_the_room_and_forgets_it() {
    let mut m: Manager<u32> = Manager::new();
    m.handle(ManagerRoomRequest::Create("x".to_string(), 1));
    m.handle(ManagerRoomRequest::Create("y".to_string(), 2));
    assert_eq!(m.handle(ManagerRoomRequest::Delete("x".to_string())), Some(1));
    assert_eq!(m.handle(ManagerRoomRequest::Query("x".to_string())), None);
    assert_eq!(m.handle(ManagerRoomRequest::Query("y".to_string())), Some(2));
    assert_eq!(m.handle(ManagerRoomRequest::Delete("x".to_string())), None);
}

#[test]
fn query_answers_a_clone() {
    let mut m: Manager<String> = Manager::new();
    m.handle(ManagerRoomRequest::Create("k".to_string(), "addr".to_string()));
    assert_eq!(m.handle(ManagerRoomRequest::Query("k".to_string())), Some("addr".to_string()));
    assert_eq!(m.handle(ManagerRoomRequest::Query("k".to_string())), Some("addr".to_string()));
}
