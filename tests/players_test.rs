use roster::models::{CreatePlayerForm, CreateTeamForm, Player, PlayerWithTeam, Team, UpdatePlayerForm};
use roster::rest::{self, Body, ErrorData};
use roster::store::Store;

fn team(store: &mut Store, display_name: &str, abbreviation: &str) -> Team {
    store
        .create_team(CreateTeamForm {
            display_name: display_name.to_string(),
            abbreviation: abbreviation.to_string(),
        })
        .unwrap()
}

fn stored_player(store: &mut Store, first: &str, last: &str, team_id: Option<u128>) -> Player {
    store
        .create_player(CreatePlayerForm {
            first_name: first.to_string(),
            last_name: last.to_string(),
            team_id,
        })
        .unwrap()
}

fn is_success(status: u16) -> bool {
    (200..300).contains(&status)
}

#[test]
fn test_players_get_is_ok() {
    let store = Store::new();
    let r = rest::get_players(&store);
    assert!(is_success(r.status));
}

#[test]
fn test_players_get_returns_players() {
    let mut store = Store::new();
    let von = stored_player(&mut store, "Von", "Miller", None);
    let r = rest::get_players(&store);
    let Body::Players(result) = r.body else { panic!("expected players") };
    assert_eq!(result.len(), 1);
    assert_eq!(result[0], PlayerWithTeam { player: von.clone(), team: None });
    assert_eq!(result[0].player.first_name, "Von");
    assert_eq!(result[0].player.last_name, "Miller");
    assert!(result[0].team.is_none());
}

#[test]
fn test_get_players_is_ok() {
    let store = Store::new();
    let r = rest::get_players(&store);
    assert!(is_success(r.status));
}

#[test]
fn test_get_players_returns_players() {
    let mut store = Store::new();
    let von = stored_player(&mut store, "Von", "Miller", None);
    let r = rest::get_players(&store);
    let Body::Players(result) = r.body else { panic!("expected players") };
    assert!(!result.is_empty());
    let found = result.iter().find(|p| p.player.id == von.id).unwrap();
    assert_eq!(*found, PlayerWithTeam { player: von.clone(), team: None });
    assert_eq!(found.player.first_name, "Von");
    assert_eq!(found.player.last_name, "Miller");
}

#[test]
fn test_get_player_returns_player() {
    let mut store = Store::new();
    let browns = team(&mut store, "Cleveland Browns", "CLE");
    let ricky = stored_player(&mut store, "Ricky", "Seals-Jones", Some(browns.id));
    let r = rest::get_player(&store, ricky.id);
    assert!(is_success(r.status));
    let Body::PlayerWithTeam(result) = r.body else { panic!("expected a player") };
    assert_eq!(result, PlayerWithTeam { player: ricky.clone(), team: Some(browns.clone()) });
    let t = result.team.unwrap();
    assert_eq!(t.display_name, "Cleveland Browns");
    assert_eq!(t.abbreviation, "CLE");
    assert_eq!(result.player.last_name, "Seals-Jones");
}

#[test]
fn test_get_player_returns_404() {
    let store = Store::new();
    let r = rest::get_player(&store, random_id());
    assert!(r.status == 404);
}

#[test]
fn test_create_player_creates_player() {
    let mut store = Store::new();
    let packers = team(&mut store, "Green Bay Packers", "GB");
    let r = rest::create_player(
        &mut store,
        CreatePlayerForm {
            first_name: "Jace".to_string(),
            last_name: "Sternberger".to_string(),
            team_id: Some(packers.id),
        },
    );
    assert!(is_success(r.status));
    let players = store.list_players();
    assert!(!players.is_empty());
    assert!(players
        .iter()
        .any(|p| p.player.first_name == "Jace" && p.player.team_id == Some(packers.id)));
}

#[test]
fn test_create_player_throws_error_for_nonexistent_team() {
    let mut store = Store::new();
    let random_id = random_id();
    let r = rest::create_player(
        &mut store,
        CreatePlayerForm {
            first_name: "Jace".to_string(),
            last_name: "Sternberger".to_string(),
            team_id: Some(random_id),
        },
    );
    assert!(!is_success(r.status));
}

#[test]
fn test_create_player_creates_player_without_team() {
    let mut store = Store::new();
    let r = rest::create_player(
        &mut store,
        CreatePlayerForm {
            first_name: "Christine".to_string(),
            last_name: "Michael".to_string(),
            team_id: None,
        },
    );
    assert!(is_success(r.status));
    assert!(matches!(r.body, Body::Player(_)));
    let players = store.list_players();
    assert!(!players.is_empty());
    assert!(players
        .iter()
        .any(|p| p.player.first_name == "Christine" && p.player.team_id == None));
}

#[test]
fn test_update_player_updates_player() {
    let mut store = Store::new();
    let kyle = stored_player(&mut store, "Kyler", "Allen", None);
    let r = rest::update_player(
        &mut store,
        kyle.id,
        UpdatePlayerForm { first_name: "Kyle".to_string(), last_name: "Allen".to_string(), team_id: None },
    );
    assert!(is_success(r.status));
    let player = store.get_player(kyle.id).expect("Expected to find a player");
    assert_eq!(player.player.first_name, "Kyle".to_string());
}

#[test]
fn test_update_player_returns_404() {
    let mut store = Store::new();
    let r = rest::update_player(
        &mut store,
        random_id(),
        UpdatePlayerForm { first_name: "Kyle".to_string(), last_name: "Allen".to_string(), team_id: None },
    );
    assert_eq!(r.status, 404);
}

#[test]
fn test_update_player_can_set_team_to_null() {
    let mut store = Store::new();
    let browns = team(&mut store, "Cleveland Browns", "CLE");
    let johnny = stored_player(&mut store, "Johnny", "Manziel", Some(browns.id));
    let r = rest::update_player(
        &mut store,
        johnny.id,
        UpdatePlayerForm {
            first_name: "Johnny".to_string(),
            last_name: "Manziel".to_string(),
            team_id: None,
        },
    );
    assert!(is_success(r.status));
    let player = store.get_player(johnny.id).expect("Expected to find a player");
    assert_eq!(player.player.team_id, None);
}

#[test]
fn test_delete_player_deletes_player() {
    let mut store = Store::new();
    let christine = stored_player(&mut store, "Christine", "Michael", None);
    let r = rest::delete_player(&mut store, christine.id);
    assert!(is_success(r.status));
    assert!(matches!(store.get_player(christine.id), Err(roster::store::StoreError::NotFound)));
}

#[test]
fn delete_player_of_absent_id_succeeds() {
    let mut store = Store::new();
    let r = rest::delete_player(&mut store, random_id());
    assert_eq!(r.status, 204);
    assert!(matches!(r.body, Body::Empty));
}

#[test]
fn create_player_with_unknown_team_names_it_in_the_message() {
    let mut store = Store::new();
    let id: u128 = 0x67e5_5044_10b1_426f_9247_bb68_0e5f_e0c8;
    let r = rest::create_player(
        &mut store,
        CreatePlayerForm { first_name: "A".to_string(), last_name: "B".to_string(), team_id: Some(id) },
    );
    assert_eq!(r.status, 400);
    let Body::Error(e) = r.body else { panic!("expected an error body") };
    assert_eq!(e.message, "Team 67e55044-10b1-426f-9247-bb680e5fe0c8 not found");
    assert!(matches!(e.data, ErrorData::Null));
    assert!(store.list_players().is_empty());
}

#[test]
fn update_player_with_unknown_team_is_rejected() {
    let mut store = Store::new();
    let p = stored_player(&mut store, "Dak", "Prescott", None);
    let missing: u128 = 1;
    let r = rest::update_player(
        &mut store,
        p.id,
        UpdatePlayerForm { first_name: "Dak".to_string(), last_name: "P".to_string(), team_id: Some(missing) },
    );
    assert_eq!(r.status, 400);
    let Body::Error(e) = r.body else { panic!("expected an error body") };
    assert_eq!(e.message, "Team 00000000-0000-0000-0000-000000000001 not found");
    assert_eq!(store.get_player(p.id).unwrap().player.last_name, "Prescott");
}

#[test]
fn get_player_404_body() {
    let store = Store::new();
    let r = rest::get_player(&store, 7);
    let Body::Error(e) = r.body else { panic!("expected an error body") };
    assert_eq!(e.message, "Player not found");
    assert!(matches!(e.data, ErrorData::Null));
}

#[test]
fn malformed_body_is_a_400_with_the_reader_message() {
    let r = rest::malformed_body("missing field `first_name`".to_string());
    assert_eq!(r.status, 400);
    let Body::Error(e) = r.body else { panic!("expected an error body") };
    assert_eq!(e.message, "missing field `first_name`");
    assert!(matches!(e.data, ErrorData::Null));
}

fn random_id() -> u128 {
    uuid::Uuid::new_v4().as_u128()
}
