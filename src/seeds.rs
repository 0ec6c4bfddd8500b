//! Sample rows: three teams and five players, four of them on a team.

use vstd::prelude::*;

use crate::ids::{fresh_id, Id};
use crate::models::{CreatePlayerForm, CreateTeamForm, Player, PlayerView, Team, TeamView};
use crate::store::{Store, StoreError};

verus! {

/// The sample teams.
#[derive(Debug, Clone)]
pub struct SeedTeams {
    pub cardinals: Team,
    pub cowboys: Team,
    pub packers: Team,
}

impl SeedTeams {
    /// The teams, in the order they are stored.
    pub open spec fn rows(self) -> Seq<TeamView> {
        seq![self.cardinals@, self.cowboys@, self.packers@]
    }
}

fn team(display_name: &str, abbreviation: &str) -> (r: Team)
    ensures
        r.display_name@ == display_name@,
        r.abbreviation@ == abbreviation@,
{
    Team {
        id: fresh_id(),
        display_name: String::from_str(display_name),
        abbreviation: String::from_str(abbreviation),
    }
}

/// The sample teams, each under a fresh random id.
pub fn get_teams() -> (r: SeedTeams)
    ensures
        r.cardinals.display_name@ == "Arizona Cardinals"@,
        r.cardinals.abbreviation@ == "ARI"@,
        r.cowboys.display_name@ == "Dallas Cowboys"@,
        r.cowboys.abbreviation@ == "DAL"@,
        r.packers.display_name@ == "Green Bay Packers"@,
        r.packers.abbreviation@ == "GB"@,
{
    SeedTeams {
        cardinals: team("Arizona Cardinals", "ARI"),
        cowboys: team("Dallas Cowboys", "DAL"),
        packers: team("Green Bay Packers", "GB"),
    }
}

/// The names and team of each sample player.
pub open spec fn seed_player(teams: SeedTeams, i: int) -> (Seq<char>, Seq<char>, Option<Id>) {
    if i == 0 {
        ("Christian"@, "Kirk"@, Some(teams.cardinals.id))
    } else if i == 1 {
        ("Kyler"@, "Murray"@, Some(teams.cardinals.id))
    } else if i == 2 {
        ("Dak"@, "Prescott"@, Some(teams.cowboys.id))
    } else if i == 3 {
        ("Amari"@, "Cooper"@, Some(teams.cowboys.id))
    } else {
        ("Eddie"@, "Lacy"@, None)
    }
}

fn player(first_name: &str, last_name: &str, team_id: Option<Id>) -> (r: Player)
    ensures
        r.first_name@ == first_name@,
        r.last_name@ == last_name@,
        r.team_id == team_id,
{
    Player {
        id: fresh_id(),
        first_name: String::from_str(first_name),
        last_name: String::from_str(last_name),
        team_id,
    }
}

/// The sample players, each under a fresh random id.
pub fn get_players(teams: &SeedTeams) -> (r: Vec<Player>)
    ensures
        r@.len() == 5,
        forall|i: int|
            0 <= i < 5 ==> (#[trigger] r@[i].first_name@, r@[i].last_name@, r@[i].team_id)
                == seed_player(*teams, i),
{
    let r = vec![
        player("Christian", "Kirk", Some(teams.cardinals.id)),
        player("Kyler", "Murray", Some(teams.cardinals.id)),
        player("Dak", "Prescott", Some(teams.cowboys.id)),
        player("Amari", "Cooper", Some(teams.cowboys.id)),
        player("Eddie", "Lacy", None),
    ];
    r
}

/// The sample rows fit together: the team ids differ, the player ids differ,
/// and each player names one of the teams or none.
pub open spec fn seedable(teams: SeedTeams, players: Seq<Player>) -> bool {
    &&& teams.cardinals.id != teams.cowboys.id
    &&& teams.cardinals.id != teams.packers.id
    &&& teams.cowboys.id != teams.packers.id
    &&& forall|i: int, j: int|
        #![trigger players[i], players[j]]
        0 <= i < j < players.len() ==> players[i].id != players[j].id
    &&& forall|i: int|
        0 <= i < players.len() ==> match #[trigger] players[i].team_id {
            Some(t) => t == teams.cardinals.id || t == teams.cowboys.id || t == teams.packers.id,
            None => true,
        }
}

/// Stores `teams`, then `players`, each under its own id, and stops at the
/// first failure. On success every given row is stored as given; into an
/// empty store, rows that fit together are always stored.
pub fn seed(store: &mut Store, teams: &SeedTeams, players: &Vec<Player>) -> (r: Result<(), StoreError>)
    requires
        old(store).wf(),
    ensures
        final(store).wf(),
        r is Ok ==> forall|i: int|
            0 <= i < 3 ==> final(store).teams().contains_key(#[trigger] teams.rows()[i].id)
                && final(store).teams()[teams.rows()[i].id] == teams.rows()[i],
        r is Ok ==> forall|i: int|
            0 <= i < players@.len() ==> final(store).players().contains_key(#[trigger] players@[i].id)
                && final(store).players()[players@[i].id] == players@[i]@,
        old(store).teams() == Map::<Id, TeamView>::empty() && old(store).players() == Map::<
            Id,
            PlayerView,
        >::empty() && seedable(*teams, players@) ==> r is Ok,
{
    let ghost fresh = old(store).teams() == Map::<Id, TeamView>::empty() && old(store).players()
        == Map::<Id, PlayerView>::empty() && seedable(*teams, players@);
    let t = &teams.cardinals;
    let a = store.create_team_with_id(
        t.id,
        CreateTeamForm { display_name: t.display_name.clone(), abbreviation: t.abbreviation.clone() },
    );
    if a.is_err() {
        return Err(a.unwrap_err());
    }
    let t = &teams.cowboys;
    let b = store.create_team_with_id(
        t.id,
        CreateTeamForm { display_name: t.display_name.clone(), abbreviation: t.abbreviation.clone() },
    );
    if b.is_err() {
        return Err(b.unwrap_err());
    }
    let t = &teams.packers;
    let c = store.create_team_with_id(
        t.id,
        CreateTeamForm { display_name: t.display_name.clone(), abbreviation: t.abbreviation.clone() },
    );
    if c.is_err() {
        return Err(c.unwrap_err());
    }
    assert(store.teams().contains_key(teams.rows()[0].id) && store.teams()[teams.rows()[0].id] == teams.rows()[0]);
    assert(store.teams().contains_key(teams.rows()[1].id) && store.teams()[teams.rows()[1].id] == teams.rows()[1]);
    assert(store.teams().contains_key(teams.rows()[2].id) && store.teams()[teams.rows()[2].id] == teams.rows()[2]);
    let mut i: usize = 0;
    while i < players.len()
        invariant
            store.wf(),
            i <= players@.len(),
            forall|k: int|
                0 <= k < 3 ==> store.teams().contains_key(#[trigger] teams.rows()[k].id)
                    && store.teams()[teams.rows()[k].id] == teams.rows()[k],
            forall|j: int|
                0 <= j < i ==> store.players().contains_key(#[trigger] players@[j].id)
                    && store.players()[players@[j].id] == players@[j]@,
            fresh == (old(store).teams() == Map::<Id, TeamView>::empty() && old(store).players()
                == Map::<Id, PlayerView>::empty() && seedable(*teams, players@)),
            fresh ==> forall|k: Id|
                #[trigger] store.players().contains_key(k) ==> exists|j: int|
                    0 <= j < i && players@[j].id == k,
        decreases players@.len() - i,
    {
        proof {
            if fresh {
                if store.players().contains_key(players@[i as int].id) {
                    let j = choose|j: int| 0 <= j < i && players@[j].id == players@[i as int].id;
                    assert(seedable(*teams, players@));
                    let pj = players@[j];
                    let pi = players@[i as int];
                    assert(pj.id != pi.id);
                }
                let t = players@[i as int].team_id;
                if let Some(tid) = t {
                    assert(tid == teams.rows()[0].id || tid == teams.rows()[1].id || tid
                        == teams.rows()[2].id);
                }
            }
        }
        let p = &players[i];
        let made = store.create_player_with_id(
            p.id,
            CreatePlayerForm {
                first_name: p.first_name.clone(),
                last_name: p.last_name.clone(),
                team_id: p.team_id,
            },
        );
        if made.is_err() {
            return Err(made.unwrap_err());
        }
        proof {
            if fresh {
                assert forall|k: Id| #[trigger] store.players().contains_key(k) implies exists|j: int|
                    0 <= j < i + 1 && players@[j].id == k by {
                    if k != players@[i as int].id {
                        let j = choose|j: int| 0 <= j < i && players@[j].id == k;
                    } else {
                        assert(players@[i as int].id == k);
                    }
                }
            }
        }
        i = i + 1;
    }
    Ok(())
}

} // verus!
