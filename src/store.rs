//! The entity store: a table of teams and a table of players, where a player's
//! `team_id` must name a stored team and a team cannot be deleted while a
//! player names it.

use vstd::prelude::*;

use crate::ids::{fresh_id, is_random_uuid, Id};
use crate::models::{
    CreatePlayerForm, CreateTeamForm, Player, PlayerView, PlayerWithTeam, PlayerWithTeamView, Team,
    TeamView, UpdatePlayerForm, UpdateTeamForm, team_view,
};
use crate::rows::{by_key, lemma_by_key_at, lemma_by_key_push, lemma_by_key_remove, lemma_by_key_update};

verus! {

/// Why a store operation failed.
#[derive(Debug, Clone, PartialEq, Eq)]
pub enum StoreError {
    /// No row has the given id.
    NotFound,
    /// A referential rule was broken: a player names a team that is not stored,
    /// or a team that players still name was to be deleted.
    ForeignKeyViolation,
    /// Any other failure, with its description.
    Other(String),
}

/// The description of the failure to store a row under an id already taken.
pub open spec fn duplicate_key_message() -> Seq<char> {
    "duplicate key value violates unique constraint"@
}

/// The failure to store a row under an id already taken.
pub open spec fn is_duplicate_key(e: StoreError) -> bool {
    e matches StoreError::Other(m) && m@ == duplicate_key_message()
}

/// The team that `team_id` names among `teams`, if it names one.
pub open spec fn team_of(teams: Map<Id, TeamView>, team_id: Option<Id>) -> Option<TeamView> {
    match team_id {
        Some(t) => if teams.contains_key(t) {
            Some(teams[t])
        } else {
            None
        },
        None => None,
    }
}

/// The persisted teams and players.
pub struct Store {
    teams: Vec<Team>,
    players: Vec<Player>,
}

impl Store {
    closed spec fn team_keys(self) -> Seq<Id> {
        self.teams@.map_values(|t: Team| t.id)
    }

    closed spec fn player_keys(self) -> Seq<Id> {
        self.players@.map_values(|p: Player| p.id)
    }

    /// The stored teams by id.
    pub closed spec fn teams(self) -> Map<Id, TeamView> {
        by_key(self.team_keys(), self.teams@.map_values(|t: Team| t@))
    }

    /// The stored players by id.
    pub closed spec fn players(self) -> Map<Id, PlayerView> {
        by_key(self.player_keys(), self.players@.map_values(|p: Player| p@))
    }

    /// Ids are unique in each table, and every player's `team_id` names a stored team.
    pub closed spec fn wf(self) -> bool {
        &&& self.team_keys().no_duplicates()
        &&& self.player_keys().no_duplicates()
        &&& forall|i: int|
            0 <= i < self.players@.len() ==> #[trigger] self.refers_to_stored(self.players@[i].team_id)
    }

    /// `team_id` is absent or names a stored team.
    pub open spec fn refers_to_stored(self, team_id: Option<Id>) -> bool {
        match team_id {
            Some(t) => self.teams().contains_key(t),
            None => true,
        }
    }

    /// Some stored player names the team `id`.
    pub open spec fn has_dependents(self, id: Id) -> bool {
        exists|k: Id| #[trigger]
            self.players().contains_key(k) && self.players()[k].team_id == Some(id)
    }

    /// Some stored team id has the bits of a random UUID, so a fresh random id may collide with it.
    pub open spec fn has_random_team_id(self) -> bool {
        exists|k: Id| #[trigger] self.teams().contains_key(k) && is_random_uuid(k)
    }

    /// Some stored player id has the bits of a random UUID, so a fresh random id may collide with it.
    pub open spec fn has_random_player_id(self) -> bool {
        exists|k: Id| #[trigger] self.players().contains_key(k) && is_random_uuid(k)
    }

    /// A player paired with the team it names.
    pub open spec fn joined(self, p: PlayerView) -> PlayerWithTeamView {
        PlayerWithTeamView { player: p, team: team_of(self.teams(), p.team_id) }
    }

    /// `r` holds each stored team once, in any order.
    pub open spec fn lists_teams(self, r: Seq<Team>) -> bool {
        &&& forall|i: int|
            0 <= i < r.len() ==> self.teams().contains_key(#[trigger] r[i].id) && self.teams()[r[i].id]
                == r[i]@
        &&& forall|k: Id|
            self.teams().contains_key(k) ==> exists|i: int| 0 <= i < r.len() && #[trigger] r[i].id == k
        &&& forall|i: int, j: int| 0 <= i < j < r.len() ==> r[i].id != r[j].id
    }

    /// `r` holds each stored player once, with the team it names, in any order.
    pub open spec fn lists_players(self, r: Seq<PlayerWithTeam>) -> bool {
        &&& forall|i: int|
            0 <= i < r.len() ==> self.players().contains_key(#[trigger] r[i].player.id) && r[i]@
                == self.joined(self.players()[r[i].player.id])
        &&& forall|k: Id|
            self.players().contains_key(k) ==> exists|i: int|
                0 <= i < r.len() && #[trigger] r[i].player.id == k
        &&& forall|i: int, j: int| 0 <= i < j < r.len() ==> r[i].player.id != r[j].player.id
    }

    /// Every stored player's `team_id` is absent or names a stored team.
    pub proof fn lemma_references_resolve(self)
        requires
            self.wf(),
        ensures
            forall|k: Id| #[trigger]
                self.players().contains_key(k) ==> self.refers_to_stored(self.players()[k].team_id),
    {
        assert forall|k: Id| #[trigger] self.players().contains_key(k) implies self.refers_to_stored(
            self.players()[k].team_id,
        ) by {
            let j = choose|j: int| 0 <= j < self.player_keys().len() && self.player_keys()[j] == k;
            self.lemma_player_at(j);
            assert(self.refers_to_stored(self.players@[j].team_id));
        }
    }

    /// An empty store.
    pub fn new() -> (r: Store)
        ensures
            r.wf(),
            r.teams() == Map::<Id, TeamView>::empty(),
            r.players() == Map::<Id, PlayerView>::empty(),
    {
        let r = Store { teams: Vec::new(), players: Vec::new() };
        assert(r.teams() =~= Map::<Id, TeamView>::empty());
        assert(r.players() =~= Map::<Id, PlayerView>::empty());
        r
    }

    proof fn lemma_team_at(self, i: int)
        requires
            self.wf(),
            0 <= i < self.teams@.len(),
        ensures
            self.teams().contains_key(self.teams@[i].id),
            self.teams()[self.teams@[i].id] == self.teams@[i]@,
    {
        lemma_by_key_at(self.team_keys(), self.teams@.map_values(|t: Team| t@), i);
    }

    proof fn lemma_player_at(self, i: int)
        requires
            self.wf(),
            0 <= i < self.players@.len(),
        ensures
            self.players().contains_key(self.players@[i].id),
            self.players()[self.players@[i].id] == self.players@[i]@,
    {
        lemma_by_key_at(self.player_keys(), self.players@.map_values(|p: Player| p@), i);
    }

    fn find_team(&self, id: Id) -> (r: Option<usize>)
        requires
            self.wf(),
        ensures
            match r {
                Some(i) => i < self.teams@.len() && self.teams@[i as int].id == id,
                None => !self.teams().contains_key(id),
            },
    {
        let mut i: usize = 0;
        while i < self.teams.len()
            invariant
                i <= self.teams@.len(),
                forall|j: int| 0 <= j < i ==> self.teams@[j].id != id,
            decreases self.teams@.len() - i,
        {
            if self.teams[i].id == id {
                return Some(i);
            }
            i = i + 1;
        }
        proof {
            if self.teams().contains_key(id) {
                let j = choose|j: int| 0 <= j < self.team_keys().len() && self.team_keys()[j] == id;
                assert(self.teams@[j].id == id);
            }
        }
        None
    }

    fn find_player(&self, id: Id) -> (r: Option<usize>)
        requires
            self.wf(),
        ensures
            match r {
                Some(i) => i < self.players@.len() && self.players@[i as int].id == id,
                None => !self.players().contains_key(id),
            },
    {
        let mut i: usize = 0;
        while i < self.players.len()
            invariant
                i <= self.players@.len(),
                forall|j: int| 0 <= j < i ==> self.players@[j].id != id,
            decreases self.players@.len() - i,
        {
            if self.players[i].id == id {
                return Some(i);
            }
            i = i + 1;
        }
        proof {
            if self.players().contains_key(id) {
                let j = choose|j: int|
                    0 <= j < self.player_keys().len() && self.player_keys()[j] == id;
                assert(self.players@[j].id == id);
            }
        }
        None
    }

    /// The team that `team_id` names, if it names a stored one.
    pub fn team_for(&self, team_id: Option<Id>) -> (r: Option<Team>)
        requires
            self.wf(),
        ensures
            team_view(r) == team_of(self.teams(), team_id),
    {
        match team_id {
            Some(t) => match self.find_team(t) {
                Some(i) => {
                    proof {
                        self.lemma_team_at(i as int);
                    }
                    Some(self.teams[i].copy())
                },
                None => None,
            },
            None => None,
        }
    }

    /// All teams, in no particular order.
    pub fn list_teams(&self) -> (r: Vec<Team>)
        requires
            self.wf(),
        ensures
            self.lists_teams(r@),
    {
        let mut r: Vec<Team> = Vec::new();
        let mut i: usize = 0;
        while i < self.teams.len()
            invariant
                self.wf(),
                i <= self.teams@.len(),
                r@.len() == i,
                forall|j: int| 0 <= j < i ==> #[trigger] r@[j]@ == self.teams@[j]@,
            decreases self.teams@.len() - i,
        {
            r.push(self.teams[i].copy());
            i = i + 1;
        }
        proof {
            assert forall|i: int|
                0 <= i < r@.len() implies self.teams().contains_key(#[trigger] r@[i].id)
                && self.teams()[r@[i].id] == r@[i]@ by {
                assert(r@[i]@ == self.teams@[i]@);
                self.lemma_team_at(i);
            }
            assert forall|k: Id| self.teams().contains_key(k) implies exists|i: int|
                0 <= i < r@.len() && #[trigger] r@[i].id == k by {
                let j = choose|j: int| 0 <= j < self.team_keys().len() && self.team_keys()[j] == k;
                assert(r@[j]@ == self.teams@[j]@);
            }
            assert forall|i: int, j: int| 0 <= i < j < r@.len() implies r@[i].id != r@[j].id by {
                assert(r@[i]@ == self.teams@[i]@);
                assert(r@[j]@ == self.teams@[j]@);
                assert(self.team_keys()[i] == self.teams@[i].id);
                assert(self.team_keys()[j] == self.teams@[j].id);
            }
        }
        r
    }

    /// The team with the given id.
    pub fn get_team(&self, id: Id) -> (r: Result<Team, StoreError>)
        requires
            self.wf(),
        ensures
            match r {
                Ok(t) => self.teams().contains_key(id) && t@ == self.teams()[id],
                Err(e) => !self.teams().contains_key(id) && e == StoreError::NotFound,
            },
    {
        match self.find_team(id) {
            Some(i) => {
                proof {
                    self.lemma_team_at(i as int);
                }
                Ok(self.teams[i].copy())
            },
            None => Err(StoreError::NotFound),
        }
    }

    /// Stores a new team under the given id.
    pub fn create_team_with_id(&mut self, id: Id, form: CreateTeamForm) -> (r: Result<Team, StoreError>)
        requires
            old(self).wf(),
        ensures
            final(self).wf(),
            final(self).players() == old(self).players(),
            old(self).teams().contains_key(id) ==> (r matches Err(e) && is_duplicate_key(e)
                && final(self).teams() == old(self).teams()),
            !old(self).teams().contains_key(id) ==> (r matches Ok(t) && t@ == (TeamView {
                id,
                display_name: form.display_name@,
                abbreviation: form.abbreviation@,
            }) && final(self).teams() == old(self).teams().insert(id, t@)),
    {
        match self.find_team(id) {
            Some(i) => {
                proof {
                    self.lemma_team_at(i as int);
                }
                Err(StoreError::Other(String::from_str("duplicate key value violates unique constraint")))
            },
            None => {
                let t = Team { id, display_name: form.display_name, abbreviation: form.abbreviation };
                self.teams.push(t.copy());
                proof {
                    let pre = *old(self);
                    assert(self.team_keys() =~= pre.team_keys().push(id));
                    assert(self.teams@.map_values(|t: Team| t@) =~= pre.teams@.map_values(
                        |t: Team| t@,
                    ).push(t@));
                    lemma_by_key_push(
                        pre.team_keys(),
                        pre.teams@.map_values(|t: Team| t@),
                        id,
                        t@,
                    );
                    assert(self.teams() == pre.teams().insert(id, t@));
                    assert forall|i: int| 0 <= i < self.players@.len() implies #[trigger] self.refers_to_stored(
                        self.players@[i].team_id,
                    ) by {
                        assert(pre.refers_to_stored(pre.players@[i].team_id));
                    }
                }
                Ok(t)
            },
        }
    }

    /// Stores a new team under a fresh random id.
    pub fn create_team(&mut self, form: CreateTeamForm) -> (r: Result<Team, StoreError>)
        requires
            old(self).wf(),
        ensures
            final(self).wf(),
            final(self).players() == old(self).players(),
            match r {
                Ok(t) => !old(self).teams().contains_key(t.id) && t.display_name@ == form.display_name@
                    && t.abbreviation@ == form.abbreviation@ && final(self).teams() == old(self).teams().insert(t.id, t@),
                Err(e) => is_duplicate_key(e) && final(self).teams() == old(self).teams(),
            },
            r is Err ==> old(self).has_random_team_id(),
    {
        let id = fresh_id();
        let r = self.create_team_with_id(id, form);
        proof {
            if r is Err {
                assert(old(self).teams().contains_key(id) && is_random_uuid(id));
            }
        }
        r
    }

    /// Replaces the name and abbreviation of the team with the given id.
    pub fn update_team(&mut self, id: Id, form: UpdateTeamForm) -> (r: Result<Team, StoreError>)
        requires
            old(self).wf(),
        ensures
            final(self).wf(),
            final(self).players() == old(self).players(),
            !old(self).teams().contains_key(id) ==> r == Err::<Team, StoreError>(StoreError::NotFound)
                && final(self).teams() == old(self).teams(),
            old(self).teams().contains_key(id) ==> (r matches Ok(t) && t@ == (TeamView {
                id,
                display_name: form.display_name@,
                abbreviation: form.abbreviation@,
            }) && final(self).teams() == old(self).teams().insert(id, t@)),
    {
        match self.find_team(id) {
            None => Err(StoreError::NotFound),
            Some(i) => {
                let t = Team { id, display_name: form.display_name, abbreviation: form.abbreviation };
                self.teams.set(i, t.copy());
                proof {
                    let pre = *old(self);
                    assert(self.team_keys() =~= pre.team_keys());
                    assert(self.teams@.map_values(|t: Team| t@) =~= pre.teams@.map_values(
                        |t: Team| t@,
                    ).update(i as int, t@));
                    lemma_by_key_update(
                        pre.team_keys(),
                        pre.teams@.map_values(|t: Team| t@),
                        i as int,
                        t@,
                    );
                    assert(pre.team_keys()[i as int] == id);
                    assert forall|j: int| 0 <= j < self.players@.len() implies #[trigger] self.refers_to_stored(
                        self.players@[j].team_id,
                    ) by {
                        assert(pre.refers_to_stored(pre.players@[j].team_id));
                    }
                }
                Ok(t)
            },
        }
    }

    /// Whether some stored player names the team `id`.
    fn team_has_players(&self, id: Id) -> (r: bool)
        requires
            self.wf(),
        ensures
            r == self.has_dependents(id),
    {
        let mut i: usize = 0;
        while i < self.players.len()
            invariant
                self.wf(),
                i <= self.players@.len(),
                forall|j: int| 0 <= j < i ==> self.players@[j].team_id != Some(id),
            decreases self.players@.len() - i,
        {
            if self.players[i].team_id == Some(id) {
                proof {
                    self.lemma_player_at(i as int);
                    assert(self.players().contains_key(self.players@[i as int].id));
                }
                return true;
            }
            i = i + 1;
        }
        proof {
            assert forall|k: Id| #[trigger] self.players().contains_key(k) implies self.players()[k].team_id
                != Some(id) by {
                let j = choose|j: int|
                    0 <= j < self.player_keys().len() && self.player_keys()[j] == k;
                self.lemma_player_at(j);
            }
        }
        false
    }

    /// Deletes the team with the given id, unless players still name it.
    pub fn delete_team(&mut self, id: Id) -> (r: Result<(), StoreError>)
        requires
            old(self).wf(),
        ensures
            final(self).wf(),
            final(self).players() == old(self).players(),
            !old(self).teams().contains_key(id) ==> r == Err::<(), StoreError>(StoreError::NotFound)
                && final(self).teams() == old(self).teams(),
            old(self).teams().contains_key(id) && old(self).has_dependents(id) ==> r == Err::<
                (),
                StoreError,
            >(StoreError::ForeignKeyViolation) && final(self).teams() == old(self).teams(),
            old(self).teams().contains_key(id) && !old(self).has_dependents(id) ==> r == Ok::<
                (),
                StoreError,
            >(()) && final(self).teams() == old(self).teams().remove(id),
    {
        match self.find_team(id) {
            None => Err(StoreError::NotFound),
            Some(i) => {
                proof {
                    self.lemma_team_at(i as int);
                }
                if self.team_has_players(id) {
                    return Err(StoreError::ForeignKeyViolation);
                }
                self.teams.remove(i);
                proof {
                    let pre = *old(self);
                    assert(self.team_keys() =~= pre.team_keys().remove(i as int));
                    assert(self.teams@.map_values(|t: Team| t@) =~= pre.teams@.map_values(
                        |t: Team| t@,
                    ).remove(i as int));
                    lemma_by_key_remove(pre.team_keys(), pre.teams@.map_values(|t: Team| t@), i as int);
                    assert(pre.team_keys()[i as int] == id);
                    assert forall|j: int| 0 <= j < self.players@.len() implies #[trigger] self.refers_to_stored(
                        self.players@[j].team_id,
                    ) by {
                        assert(pre.refers_to_stored(pre.players@[j].team_id));
                        pre.lemma_player_at(j);
                    }
                }
                Ok(())
            },
        }
    }

    /// Whether `team_id` is absent or names a stored team.
    fn team_ref_ok(&self, team_id: Option<Id>) -> (r: bool)
        requires
            self.wf(),
        ensures
            r == self.refers_to_stored(team_id),
    {
        match team_id {
            Some(t) => match self.find_team(t) {
                Some(i) => {
                    proof {
                        self.lemma_team_at(i as int);
                    }
                    true
                },
                None => false,
            },
            None => true,
        }
    }

    /// All players, each with the team it names, in no particular order.
    pub fn list_players(&self) -> (r: Vec<PlayerWithTeam>)
        requires
            self.wf(),
        ensures
            self.lists_players(r@),
    {
        let mut r: Vec<PlayerWithTeam> = Vec::new();
        let mut i: usize = 0;
        while i < self.players.len()
            invariant
                self.wf(),
                i <= self.players@.len(),
                r@.len() == i,
                forall|j: int| 0 <= j < i ==> #[trigger] r@[j]@ == self.joined(self.players@[j]@),
            decreases self.players@.len() - i,
        {
            let p = self.players[i].copy();
            let team = self.team_for(p.team_id);
            r.push(PlayerWithTeam { player: p, team });
            i = i + 1;
        }
        proof {
            assert forall|i: int|
                0 <= i < r@.len() implies self.players().contains_key(#[trigger] r@[i].player.id)
                && r@[i]@ == self.joined(self.players()[r@[i].player.id]) by {
                assert(r@[i]@ == self.joined(self.players@[i]@));
                self.lemma_player_at(i);
            }
            assert forall|k: Id| self.players().contains_key(k) implies exists|i: int|
                0 <= i < r@.len() && #[trigger] r@[i].player.id == k by {
                let j = choose|j: int|
                    0 <= j < self.player_keys().len() && self.player_keys()[j] == k;
                assert(r@[j]@ == self.joined(self.players@[j]@));
            }
            assert forall|i: int, j: int| 0 <= i < j < r@.len() implies r@[i].player.id
                != r@[j].player.id by {
                assert(r@[i]@ == self.joined(self.players@[i]@));
                assert(r@[j]@ == self.joined(self.players@[j]@));
                assert(self.player_keys()[i] == self.players@[i].id);
                assert(self.player_keys()[j] == self.players@[j].id);
            }
        }
        r
    }

    /// The player with the given id, with the team it names.
    pub fn get_player(&self, id: Id) -> (r: Result<PlayerWithTeam, StoreError>)
        requires
            self.wf(),
        ensures
            match r {
                Ok(pt) => self.players().contains_key(id) && pt@ == self.joined(self.players()[id]),
                Err(e) => !self.players().contains_key(id) && e == StoreError::NotFound,
            },
    {
        match self.find_player(id) {
            Some(i) => {
                proof {
                    self.lemma_player_at(i as int);
                }
                let p = self.players[i].copy();
                let team = self.team_for(p.team_id);
                Ok(PlayerWithTeam { player: p, team })
            },
            None => Err(StoreError::NotFound),
        }
    }

    /// Stores a new player under the given id; its `team_id`, if present, must name a stored team.
    pub fn create_player_with_id(&mut self, id: Id, form: CreatePlayerForm) -> (r: Result<
        Player,
        StoreError,
    >)
        requires
            old(self).wf(),
        ensures
            final(self).wf(),
            final(self).teams() == old(self).teams(),
            !old(self).refers_to_stored(form.team_id) ==> r == Err::<Player, StoreError>(
                StoreError::ForeignKeyViolation,
            ) && final(self).players() == old(self).players(),
            old(self).refers_to_stored(form.team_id) && old(self).players().contains_key(id) ==> (r matches Err(e)
                && is_duplicate_key(e) && final(self).players() == old(self).players()),
            !old(self).players().contains_key(id) && old(self).refers_to_stored(form.team_id) ==> (r matches Ok(p)
                && p@ == (PlayerView {
                id,
                first_name: form.first_name@,
                last_name: form.last_name@,
                team_id: form.team_id,
            }) && final(self).players() == old(self).players().insert(id, p@)),
    {
        if !self.team_ref_ok(form.team_id) {
            return Err(StoreError::ForeignKeyViolation);
        }
        match self.find_player(id) {
            Some(i) => {
                proof {
                    self.lemma_player_at(i as int);
                }
                return Err(
                    StoreError::Other(String::from_str("duplicate key value violates unique constraint")),
                );
            },
            None => {},
        }
        let p = Player {
            id,
            first_name: form.first_name,
            last_name: form.last_name,
            team_id: form.team_id,
        };
        self.players.push(p.copy());
        proof {
            let pre = *old(self);
            assert(self.player_keys() =~= pre.player_keys().push(id));
            assert(self.players@.map_values(|p: Player| p@) =~= pre.players@.map_values(
                |p: Player| p@,
            ).push(p@));
            lemma_by_key_push(pre.player_keys(), pre.players@.map_values(|p: Player| p@), id, p@);
            assert(self.teams() == pre.teams());
            assert forall|j: int| 0 <= j < self.players@.len() implies #[trigger] self.refers_to_stored(
                self.players@[j].team_id,
            ) by {
                if j < pre.players@.len() {
                    assert(pre.refers_to_stored(pre.players@[j].team_id));
                }
            }
        }
        Ok(p)
    }

    /// Stores a new player under a fresh random id; its `team_id`, if present,
    /// must name a stored team.
    pub fn create_player(&mut self, form: CreatePlayerForm) -> (r: Result<Player, StoreError>)
        requires
            old(self).wf(),
        ensures
            final(self).wf(),
            final(self).teams() == old(self).teams(),
            match r {
                Ok(p) => old(self).refers_to_stored(form.team_id) && !old(self).players().contains_key(p.id)
                    && p.first_name@ == form.first_name@ && p.last_name@ == form.last_name@
                    && p.team_id == form.team_id && final(self).players() == old(self).players().insert(
                    p.id,
                    p@,
                ),
                Err(e) => (if old(self).refers_to_stored(form.team_id) {
                    is_duplicate_key(e)
                } else {
                    e == StoreError::ForeignKeyViolation
                }) && final(self).players() == old(self).players(),
            },
            r is Err && old(self).refers_to_stored(form.team_id) ==> old(self).has_random_player_id(),
    {
        let id = fresh_id();
        let r = self.create_player_with_id(id, form);
        proof {
            if r is Err && old(self).refers_to_stored(form.team_id) {
                assert(old(self).players().contains_key(id) && is_random_uuid(id));
            }
        }
        r
    }

    /// Replaces all fields of the player with the given id but its id; an absent
    /// `team_id` clears the player's team.
    pub fn update_player(&mut self, id: Id, form: UpdatePlayerForm) -> (r: Result<Player, StoreError>)
        requires
            old(self).wf(),
        ensures
            final(self).wf(),
            final(self).teams() == old(self).teams(),
            !old(self).players().contains_key(id) ==> r == Err::<Player, StoreError>(StoreError::NotFound)
                && final(self).players() == old(self).players(),
            old(self).players().contains_key(id) && !old(self).refers_to_stored(form.team_id) ==> r
                == Err::<Player, StoreError>(StoreError::ForeignKeyViolation) && final(self).players()
                == old(self).players(),
            old(self).players().contains_key(id) && old(self).refers_to_stored(form.team_id) ==> (r matches Ok(p)
                && p@ == (PlayerView {
                id,
                first_name: form.first_name@,
                last_name: form.last_name@,
                team_id: form.team_id,
            }) && final(self).players() == old(self).players().insert(id, p@)),
    {
        let i = match self.find_player(id) {
            Some(i) => i,
            None => {
                return Err(StoreError::NotFound);
            },
        };
        proof {
            self.lemma_player_at(i as int);
        }
        if !self.team_ref_ok(form.team_id) {
            return Err(StoreError::ForeignKeyViolation);
        }
        let p = Player {
            id,
            first_name: form.first_name,
            last_name: form.last_name,
            team_id: form.team_id,
        };
        self.players.set(i, p.copy());
        proof {
            let pre = *old(self);
            assert(self.player_keys() =~= pre.player_keys());
            assert(self.players@.map_values(|p: Player| p@) =~= pre.players@.map_values(
                |p: Player| p@,
            ).update(i as int, p@));
            lemma_by_key_update(pre.player_keys(), pre.players@.map_values(|p: Player| p@), i as int, p@);
            assert(pre.player_keys()[i as int] == id);
            assert(self.teams() == pre.teams());
            assert forall|j: int| 0 <= j < self.players@.len() implies #[trigger] self.refers_to_stored(
                self.players@[j].team_id,
            ) by {
                if j != i {
                    assert(pre.refers_to_stored(pre.players@[j].team_id));
                }
            }
        }
        Ok(p)
    }

    /// Deletes the player with the given id.
    pub fn delete_player(&mut self, id: Id) -> (r: Result<(), StoreError>)
        requires
            old(self).wf(),
        ensures
            final(self).wf(),
            final(self).teams() == old(self).teams(),
            !old(self).players().contains_key(id) ==> r == Err::<(), StoreError>(StoreError::NotFound)
                && final(self).players() == old(self).players(),
            old(self).players().contains_key(id) ==> r == Ok::<(), StoreError>(()) && final(self).players() == old(self).players().remove(id),
    {
        match self.find_player(id) {
            None => Err(StoreError::NotFound),
            Some(i) => {
                self.players.remove(i);
                proof {
                    let pre = *old(self);
                    pre.lemma_player_at(i as int);
                    assert(self.player_keys() =~= pre.player_keys().remove(i as int));
                    assert(self.players@.map_values(|p: Player| p@) =~= pre.players@.map_values(
                        |p: Player| p@,
                    ).remove(i as int));
                    lemma_by_key_remove(
                        pre.player_keys(),
                        pre.players@.map_values(|p: Player| p@),
                        i as int,
                    );
                    assert(pre.player_keys()[i as int] == id);
                    assert(self.teams() == pre.teams());
                    assert forall|j: int| 0 <= j < self.players@.len() implies #[trigger] self.refers_to_stored(
                        self.players@[j].team_id,
                    ) by {
                        let j1 = if j < i { j } else { j + 1 };
                        assert(self.players@[j] == pre.players@[j1]);
                        assert(pre.refers_to_stored(pre.players@[j1].team_id));
                    }
                }
                Ok(())
            },
        }
    }
}

} // verus!
