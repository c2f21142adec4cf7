use arena_logic::player::{
    insert_mock_player, player_connected, player_disconnected, set_player_name, validate_name,
    Player, TableWrite,
};

fn row(identity: u64, player_id: u32, name: Option<&str>, online: bool, at: i64) -> Player<u64, i64> {
    Player {
        identity,
        player_id,
        username: name.map(|n| n.to_string()),
        online,
        last_connection: at,
    }
}

fn same(a: &Player<u64, i64>, b: &Player<u64, i64>) -> bool {
    a.identity == b.identity
        && a.player_id == b.player_id
        && a.username == b.username
        && a.online == b.online
        && a.last_connection == b.last_connection
}

#[test]
fn validate_name_refuses_empty_name() {
    assert_eq!(validate_name(&String::new()), Err("Name can't be empty".to_string()));
}

#[test]
fn validate_name_keeps_a_name() {
    assert_eq!(validate_name(&"Ada".to_string()), Ok("Ada".to_string()));
    assert_eq!(validate_name(&" ".to_string()), Ok(" ".to_string()));
}

#[test]
fn first_connection_inserts_a_fresh_row() {
    match player_connected(42u64, 1000i64, None) {
        TableWrite::Insert(p) => assert!(same(&p, &row(42, 0, None, true, 1000))),
        _ => panic!("expected an insert"),
    }
}

#[test]
fn known_player_connecting_is_marked_online() {
    let old = row(42, 7, Some("Ada"), false, 10);
    match player_connected(99u64, 2000i64, Some(old)) {
        TableWrite::Update(p) => assert!(same(&p, &row(42, 7, Some("Ada"), true, 2000))),
        _ => panic!("expected an update"),
    }
}

#[test]
fn known_player_disconnecting_is_marked_offline() {
    let old = row(42, 7, Some("Ada"), true, 10);
    match player_disconnected(3000i64, Some(old)) {
        TableWrite::Update(p) => assert!(same(&p, &row(42, 7, Some("Ada"), false, 3000))),
        _ => panic!("expected an update"),
    }
}

#[test]
fn unknown_player_disconnecting_writes_nothing() {
    assert!(matches!(player_disconnected::<u64, i64>(3000, None), TableWrite::Unchanged));
}

#[test]
fn set_player_name_refuses_empty_name_first() {
    let r = set_player_name::<u64, i64>(None, String::new());
    assert_eq!(r.err(), Some("Name can't be empty".to_string()));
    let r = set_player_name(Some(row(1, 1, None, true, 5)), String::new());
    assert_eq!(r.err(), Some("Name can't be empty".to_string()));
}

#[test]
fn set_player_name_refuses_unknown_player() {
    let r = set_player_name::<u64, i64>(None, "Ada".to_string());
    assert_eq!(r.err(), Some("Cannot set name for unknown player".to_string()));
}

#[test]
fn set_player_name_overwrites_only_the_name() {
    let r = set_player_name(Some(row(1, 4, Some("Old"), true, 5)), "New".to_string());
    match r {
        Ok(p) => assert!(same(&p, &row(1, 4, Some("New"), true, 5))),
        Err(e) => panic!("unexpected error {}", e),
    }
}

#[test]
fn insert_mock_player_builds_an_online_named_row() {
    let p = insert_mock_player(5u64, "Bot".to_string(), 77i64);
    assert!(same(&p, &row(5, 0, Some("Bot"), true, 77)));
}

#[test]
fn disconnect_after_connect_keeps_the_name() {
    let named = match set_player_name(Some(row(8, 3, None, false, 1)), "Eve".to_string()) {
        Ok(p) => p,
        Err(e) => panic!("unexpected error {}", e),
    };
    let online = match player_connected(8u64, 2i64, Some(named)) {
        TableWrite::Update(p) => p,
        _ => panic!("expected an update"),
    };
    match player_disconnected(3i64, Some(online)) {
        TableWrite::Update(p) => assert!(same(&p, &row(8, 3, Some("Eve"), false, 3))),
        _ => panic!("expected an update"),
    }
}

#[test]
fn reconnecting_twice_equals_connecting_once() {
    let once = match player_connected(8u64, 20i64, Some(row(8, 3, Some("Eve"), false, 1))) {
        TableWrite::Update(p) => p,
        _ => panic!("expected an update"),
    };
    let first = match player_connected(8u64, 10i64, Some(row(8, 3, Some("Eve"), false, 1))) {
        TableWrite::Update(p) => p,
        _ => panic!("expected an update"),
    };
    let twice = match player_connected(8u64, 20i64, Some(first)) {
        TableWrite::Update(p) => p,
        _ => panic!("expected an update"),
    };
    assert!(same(&once, &twice));
}
