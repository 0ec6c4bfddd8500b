//! The rows of the entity store, the forms that create and replace them, and
//! the player-with-team read model.

use vstd::prelude::*;

use crate::ids::Id;

verus! {

/// What a team row holds.
pub struct TeamView {
    pub id: Id,
    pub display_name: Seq<char>,
    pub abbreviation: Seq<char>,
}

/// What a player row holds; `team_id` is `None` for a player without a team.
pub struct PlayerView {
    pub id: Id,
    pub first_name: Seq<char>,
    pub last_name: Seq<char>,
    pub team_id: Option<Id>,
}

/// What a player read model holds.
pub struct PlayerWithTeamView {
    pub player: PlayerView,
    pub team: Option<TeamView>,
}

/// A team a player can be on.
#[derive(Debug, Clone)]
pub struct Team {
    pub id: Id,
    pub display_name: String,
    pub abbreviation: String,
}

impl View for Team {
    type V = TeamView;

    open spec fn view(&self) -> TeamView {
        TeamView { id: self.id, display_name: self.display_name@, abbreviation: self.abbreviation@ }
    }
}

impl Team {
    /// A field-by-field copy.
    pub fn copy(&self) -> (r: Team)
        ensures
            r@ == self@,
    {
        Team {
            id: self.id,
            display_name: self.display_name.clone(),
            abbreviation: self.abbreviation.clone(),
        }
    }
}

/// Teams are the same team when their ids are equal.
impl PartialEq for Team {
    fn eq(&self, other: &Team) -> (r: bool) {
        self.id == other.id
    }
}

impl vstd::std_specs::cmp::PartialEqSpecImpl for Team {
    open spec fn obeys_eq_spec() -> bool {
        true
    }

    open spec fn eq_spec(&self, other: &Team) -> bool {
        self.id == other.id
    }
}

/// A player row.
#[derive(Debug, Clone)]
pub struct Player {
    pub id: Id,
    pub first_name: String,
    pub last_name: String,
    pub team_id: Option<Id>,
}

impl View for Player {
    type V = PlayerView;

    open spec fn view(&self) -> PlayerView {
        PlayerView {
            id: self.id,
            first_name: self.first_name@,
            last_name: self.last_name@,
            team_id: self.team_id,
        }
    }
}

impl Player {
    /// A field-by-field copy.
    pub fn copy(&self) -> (r: Player)
        ensures
            r@ == self@,
    {
        Player {
            id: self.id,
            first_name: self.first_name.clone(),
            last_name: self.last_name.clone(),
            team_id: self.team_id,
        }
    }
}

/// Players are the same player when their ids are equal.
impl PartialEq for Player {
    fn eq(&self, other: &Player) -> (r: bool) {
        self.id == other.id
    }
}

impl vstd::std_specs::cmp::PartialEqSpecImpl for Player {
    open spec fn obeys_eq_spec() -> bool {
        true
    }

    open spec fn eq_spec(&self, other: &Player) -> bool {
        self.id == other.id
    }
}

/// The view of an optional team.
pub open spec fn team_view(t: Option<Team>) -> Option<TeamView> {
    match t {
        Some(t) => Some(t@),
        None => None,
    }
}

/// A player paired with the team that its `team_id` names, if any.
#[derive(Debug, Clone)]
pub struct PlayerWithTeam {
    pub player: Player,
    pub team: Option<Team>,
}

impl View for PlayerWithTeam {
    type V = PlayerWithTeamView;

    open spec fn view(&self) -> PlayerWithTeamView {
        PlayerWithTeamView { player: self.player@, team: team_view(self.team) }
    }
}

/// Equal when the players are the same and both have the same team or none.
impl PartialEq for PlayerWithTeam {
    fn eq(&self, other: &PlayerWithTeam) -> (r: bool) {
        let same_team = match (&self.team, &other.team) {
            (Some(a), Some(b)) => a.id == b.id,
            (None, None) => true,
            _ => false,
        };
        self.player.id == other.player.id && same_team
    }
}

impl vstd::std_specs::cmp::PartialEqSpecImpl for PlayerWithTeam {
    open spec fn obeys_eq_spec() -> bool {
        true
    }

    open spec fn eq_spec(&self, other: &PlayerWithTeam) -> bool {
        &&& self.player.id == other.player.id
        &&& match (self.team, other.team) {
            (Some(a), Some(b)) => a.id == b.id,
            (None, None) => true,
            _ => false,
        }
    }
}

/// The body of a create-player request; an absent `team_id` creates a player without a team.
#[derive(Debug, Clone)]
pub struct CreatePlayerForm {
    pub first_name: String,
    pub last_name: String,
    pub team_id: Option<Id>,
}

/// The body of an update-player request: it replaces all three fields, and an
/// absent `team_id` clears the player's team.
#[derive(Debug, Clone)]
pub struct UpdatePlayerForm {
    pub first_name: String,
    pub last_name: String,
    pub team_id: Option<Id>,
}

/// The body of a create-team request.
#[derive(Debug, Clone)]
pub struct CreateTeamForm {
    pub display_name: String,
    pub abbreviation: String,
}

/// The body of an update-team request: it replaces both fields.
#[derive(Debug, Clone)]
pub struct UpdateTeamForm {
    pub display_name: String,
    pub abbreviation: String,
}

} // verus!
