use roster::models::{CreatePlayerForm, CreateTeamForm, UpdatePlayerForm, UpdateTeamForm};
use roster::seeds;
use roster::store::{Store, StoreError};

fn form(first: &str, last: &str, team_id: Option<u128>) -> CreatePlayerForm {
    CreatePlayerForm { first_name: first.to_string(), last_name: last.to_string(), team_id }
}

#[test]
fn create_with_taken_id_is_a_duplicate_key_error() {
    let mut store = Store::new();
    store.create_player_with_id(5, form("Dak", "Prescott", None)).unwrap();
    let e = store.create_player_with_id(5, form("Amari", "Cooper", None)).unwrap_err();
    assert_eq!(e, StoreError::Other("duplicate key value violates unique constraint".to_string()));
    assert_eq!(store.get_player(5).unwrap().player.first_name, "Dak");
    let t = CreateTeamForm { display_name: "Dallas Cowboys".to_string(), abbreviation: "DAL".to_string() };
    store.create_team_with_id(9, t.clone()).unwrap();
    assert!(matches!(store.create_team_with_id(9, t), Err(StoreError::Other(_))));
}

#[test]
fn unknown_team_comes_before_taken_id() {
    let mut store = Store::new();
    store.create_player_with_id(5, form("Dak", "Prescott", None)).unwrap();
    let e = store.create_player_with_id(5, form("Amari", "Cooper", Some(77))).unwrap_err();
    assert_eq!(e, StoreError::ForeignKeyViolation);
}

#[test]
fn round_trip_of_created_rows() {
    let mut store = Store::new();
    let t = store
        .create_team(CreateTeamForm { display_name: "Dallas Cowboys".to_string(), abbreviation: "DAL".to_string() })
        .unwrap();
    let got = store.get_team(t.id).unwrap();
    assert_eq!((got.id, got.display_name.as_str(), got.abbreviation.as_str()), (t.id, "Dallas Cowboys", "DAL"));
    let p = store.create_player(form("Amari", "Cooper", Some(t.id))).unwrap();
    let got = store.get_player(p.id).unwrap();
    assert_eq!(got.player.id, p.id);
    assert_eq!(got.player.first_name, "Amari");
    assert_eq!(got.player.last_name, "Cooper");
    assert_eq!(got.player.team_id, Some(t.id));
    assert_eq!(got.team.unwrap().display_name, "Dallas Cowboys");
}

#[test]
fn fetched_player_has_a_team_only_when_it_names_one() {
    let mut store = Store::new();
    let t = store
        .create_team(CreateTeamForm { display_name: "Arizona Cardinals".to_string(), abbreviation: "ARI".to_string() })
        .unwrap();
    let with = store.create_player(form("Christian", "Kirk", Some(t.id))).unwrap();
    let without = store.create_player(form("Eddie", "Lacy", None)).unwrap();
    assert!(store.get_player(with.id).unwrap().team.is_some());
    assert!(store.get_player(without.id).unwrap().team.is_none());
}

#[test]
fn update_is_a_full_replace() {
    let mut store = Store::new();
    let t = store
        .create_team(CreateTeamForm { display_name: "Dallas Cowboys".to_string(), abbreviation: "DAL".to_string() })
        .unwrap();
    let p = store.create_player(form("Dak", "Prescott", Some(t.id))).unwrap();
    let u = store
        .update_player(p.id, UpdatePlayerForm { first_name: "D".to_string(), last_name: "P".to_string(), team_id: None })
        .unwrap();
    assert_eq!((u.first_name.as_str(), u.last_name.as_str(), u.team_id), ("D", "P", None));
    let got = store.get_player(p.id).unwrap();
    assert_eq!(got.player.team_id, None);
    assert!(got.team.is_none());
    // the team is free to go now
    assert_eq!(store.delete_team(t.id), Ok(()));
}

#[test]
fn update_and_delete_of_absent_rows_are_not_found() {
    let mut store = Store::new();
    let id = random_id();
    let up = UpdateTeamForm { display_name: "X".to_string(), abbreviation: "X".to_string() };
    assert_eq!(store.update_team(id, up).unwrap_err(), StoreError::NotFound);
    assert_eq!(store.delete_team(id), Err(StoreError::NotFound));
    assert_eq!(store.delete_player(id), Err(StoreError::NotFound));
    assert_eq!(store.get_team(id).unwrap_err(), StoreError::NotFound);
}

#[test]
fn list_holds_each_row_once() {
    let mut store = Store::new();
    for i in 0..4u128 {
        store.create_player_with_id(i, form("P", "Q", None)).unwrap();
    }
    store.delete_player(2).unwrap();
    let mut ids: Vec<u128> = store.list_players().iter().map(|p| p.player.id).collect();
    ids.sort();
    assert_eq!(ids, vec![0, 1, 3]);
}

#[test]
fn created_rows_get_random_uuids() {
    let mut store = Store::new();
    let a = store.create_player(form("A", "B", None)).unwrap().id;
    let b = store
        .create_team(CreateTeamForm { display_name: "T".to_string(), abbreviation: "T".to_string() })
        .unwrap()
        .id;
    assert_ne!(a, b);
    for id in [a, b] {
        assert_eq!(id & 0x0000_0000_0000_F000_C000_0000_0000_0000, 0x0000_0000_0000_4000_8000_0000_0000_0000);
    }
}

#[test]
fn seeding_stores_the_sample_rows() {
    let teams = seeds::get_teams();
    assert_eq!(teams.cardinals.abbreviation, "ARI");
    assert_eq!(teams.cowboys.display_name, "Dallas Cowboys");
    assert_eq!(teams.packers.abbreviation, "GB");
    let players = seeds::get_players(&teams);
    assert_eq!(players.len(), 5);
    assert_eq!(players[1].first_name, "Kyler");
    assert_eq!(players[1].team_id, Some(teams.cardinals.id));
    assert_eq!(players[4].team_id, None);
    let mut store = Store::new();
    seeds::seed(&mut store, &teams, &players).unwrap();
    assert_eq!(store.list_teams().len(), 3);
    let listed = store.list_players();
    assert_eq!(listed.len(), 5);
    let dak = listed.iter().find(|p| p.player.first_name == "Dak").unwrap();
    assert_eq!(dak.team.as_ref().unwrap().abbreviation, "DAL");
    // a second run stops at the first taken id
    assert!(matches!(seeds::seed(&mut store, &teams, &players), Err(StoreError::Other(_))));
}

fn random_id() -> u128 {
    uuid::Uuid::new_v4().as_u128()
}
