use roster::models::{CreatePlayerForm, CreateTeamForm, Team, UpdateTeamForm};
use roster::rest::{self, Body, ErrorData};
use roster::store::{Store, StoreError};

fn cardinals(store: &mut Store) -> Team {
    store
        .create_team(CreateTeamForm {
            display_name: "Arizona Cardinals".to_string(),
            abbreviation: "ARI".to_string(),
        })
        .unwrap()
}

fn is_success(status: u16) -> bool {
    (200..300).contains(&status)
}

#[test]
fn test_get_teams_returns_teams() {
    let mut store = Store::new();
    let t = cardinals(&mut store);
    let r = rest::get_teams(&store);
    let Body::Teams(result) = r.body else { panic!("expected teams") };
    assert!(!result.is_empty());
    assert_eq!(*result.iter().find(|x| x.id == t.id).unwrap(), t);
}

#[test]
fn test_get_team_returns_team() {
    let mut store = Store::new();
    let t = cardinals(&mut store);
    let r = rest::get_team(&store, t.id);
    let Body::Team(result) = r.body else { panic!("expected a team") };
    assert_eq!(result, t);
    assert_eq!(result.display_name, "Arizona Cardinals");
    assert_eq!(result.abbreviation, "ARI");
}

#[test]
fn test_get_team_returns_404() {
    let store = Store::new();
    let r = rest::get_team(&store, random_id());
    assert!(r.status == 404);
}

#[test]
fn test_create_team_creates_team() {
    let mut store = Store::new();
    let team_name = "Hawaii Hammerheads".to_string();
    let r = rest::create_team(
        &mut store,
        CreateTeamForm { display_name: team_name.clone(), abbreviation: "HI".to_string() },
    );
    assert!(is_success(r.status));
    let teams = store.list_teams();
    assert!(teams.iter().any(|t| t.display_name == team_name));
}

#[test]
fn test_update_team_updates_team() {
    let mut store = Store::new();
    let t = cardinals(&mut store);
    let team_name = "Phoenix Cardinals".to_string();
    let r = rest::update_team(
        &mut store,
        t.id,
        UpdateTeamForm { display_name: team_name.clone(), abbreviation: "ARI".to_string() },
    );
    assert!(is_success(r.status));
    let team = store.get_team(t.id).expect("Expected to find a team");
    assert_eq!(team.display_name, team_name);
}

#[test]
fn test_update_team_returns_404_when_team_not_found() {
    let mut store = Store::new();
    let r = rest::update_team(
        &mut store,
        random_id(),
        UpdateTeamForm { display_name: "This doesn't matter".to_string(), abbreviation: "TDM".to_string() },
    );
    assert_eq!(r.status, 404);
}

#[test]
fn test_delete_team_deletes_team() {
    let mut store = Store::new();
    let t = cardinals(&mut store);
    let r = rest::delete_team(&mut store, t.id);
    assert!(is_success(r.status));
    assert_eq!(store.get_team(t.id), Err(StoreError::NotFound));
}

#[test]
fn get_team_404_carries_the_id() {
    let store = Store::new();
    let r = rest::get_team(&store, 42);
    let Body::Error(e) = r.body else { panic!("expected an error body") };
    assert_eq!(e.message, "Team not found");
    assert!(matches!(e.data, ErrorData::Id(42)));
}

#[test]
fn delete_team_with_players_is_a_400_and_keeps_the_team() {
    let mut store = Store::new();
    let t = cardinals(&mut store);
    store
        .create_player(CreatePlayerForm {
            first_name: "Kyler".to_string(),
            last_name: "Murray".to_string(),
            team_id: Some(t.id),
        })
        .unwrap();
    let r = rest::delete_team(&mut store, t.id);
    assert_eq!(r.status, 400);
    let Body::Error(e) = r.body else { panic!("expected an error body") };
    assert_eq!(e.message, "Cannot delete team: players still exist in the team");
    assert!(matches!(e.data, ErrorData::Null));
    assert_eq!(store.get_team(t.id).unwrap().abbreviation, "ARI");
}

#[test]
fn delete_team_then_get_is_404() {
    let mut store = Store::new();
    let t = cardinals(&mut store);
    assert_eq!(rest::delete_team(&mut store, t.id).status, 204);
    assert_eq!(rest::get_team(&store, t.id).status, 404);
}

#[test]
fn delete_absent_team_succeeds() {
    let mut store = Store::new();
    let r = rest::delete_team(&mut store, 3);
    assert_eq!(r.status, 204);
    assert!(matches!(r.body, Body::Empty));
}

fn random_id() -> u128 {
    uuid::Uuid::new_v4().as_u128()
}
