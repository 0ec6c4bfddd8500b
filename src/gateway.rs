//! The gateway's resolvers: which upstream call each GraphQL field makes, and
//! how the upstream rows become field values.

use vstd::prelude::*;

use crate::ids::{id_text, id_text_of, Id};
use crate::models::{Team, team_view};

verus! {

/// The gateway's settings.
#[derive(Debug, Clone)]
pub struct Config {
    /// The base URL of the REST service, without a trailing slash.
    pub players_api_host: String,
}

/// What every resolver of one request can read.
#[derive(Debug, Clone)]
pub struct Context {
    pub config: Config,
}

impl Context {
    pub fn new(config: Config) -> (r: Context)
        ensures
            r.config == config,
    {
        Context { config }
    }
}

/// An HTTP method of an upstream call.
#[derive(Debug, Clone, Copy, PartialEq, Eq)]
pub enum Method {
    Get,
    Post,
    Put,
    Delete,
}

/// A GraphQL field that the gateway resolves upstream, with the id it names.
#[derive(Debug, Clone, Copy, PartialEq, Eq)]
pub enum Field {
    Players,
    Player(Id),
    Teams,
    Team(Id),
    CreatePlayer,
    UpdatePlayer(Id),
    DeletePlayer(Id),
    CreateTeam,
    UpdateTeam(Id),
    DeleteTeam(Id),
}

pub open spec fn method_of(f: Field) -> Method {
    match f {
        Field::Players | Field::Player(_) | Field::Teams | Field::Team(_) => Method::Get,
        Field::CreatePlayer | Field::CreateTeam => Method::Post,
        Field::UpdatePlayer(_) | Field::UpdateTeam(_) => Method::Put,
        Field::DeletePlayer(_) | Field::DeleteTeam(_) => Method::Delete,
    }
}

/// The collection that a field reads or changes.
pub open spec fn collection_of(f: Field) -> Seq<char> {
    match f {
        Field::Players | Field::Player(_) | Field::CreatePlayer | Field::UpdatePlayer(_)
        | Field::DeletePlayer(_) => "/players"@,
        _ => "/teams"@,
    }
}

/// The id that a field names, if any.
pub open spec fn target_of(f: Field) -> Option<Id> {
    match f {
        Field::Player(id) | Field::Team(id) | Field::UpdatePlayer(id) | Field::DeletePlayer(id)
        | Field::UpdateTeam(id) | Field::DeleteTeam(id) => Some(id),
        _ => None,
    }
}

/// The path of a field's upstream call: its collection, then `/` and the id it names.
pub open spec fn path_of(f: Field) -> Seq<char> {
    collection_of(f) + match target_of(f) {
        Some(id) => "/"@ + id_text_of(id),
        None => Seq::<char>::empty(),
    }
}

/// The error of a field whose upstream exchange failed.
pub open spec fn failure_of(f: Field) -> Seq<char> {
    match f {
        Field::Players => "There was an error fetching the players"@,
        Field::Player(_) => "There was an error fetching the player"@,
        Field::Teams => "There was an error fetching the teams"@,
        Field::Team(_) => "There was an error fetching the team"@,
        Field::CreatePlayer => "There was an error creating the player"@,
        Field::UpdatePlayer(_) => "There was an error updating the player"@,
        Field::DeletePlayer(_) => "There was an error deleting the player"@,
        Field::CreateTeam => "There was an error creating the team"@,
        Field::UpdateTeam(_) => "There was an error updating the team"@,
        Field::DeleteTeam(_) => "There was an error deleting the team"@,
    }
}

/// One upstream call: method, full URL, and the error the field reports when
/// the exchange fails.
#[derive(Debug, Clone)]
pub struct UpstreamCall {
    pub method: Method,
    pub url: String,
    pub failure: String,
}

fn method(field: Field) -> (r: Method)
    ensures
        r == method_of(field),
{
    match field {
        Field::Players | Field::Player(_) | Field::Teams | Field::Team(_) => Method::Get,
        Field::CreatePlayer | Field::CreateTeam => Method::Post,
        Field::UpdatePlayer(_) | Field::UpdateTeam(_) => Method::Put,
        Field::DeletePlayer(_) | Field::DeleteTeam(_) => Method::Delete,
    }
}

fn collection(field: Field) -> (r: &'static str)
    ensures
        r@ == collection_of(field),
{
    match field {
        Field::Players | Field::Player(_) | Field::CreatePlayer | Field::UpdatePlayer(_)
        | Field::DeletePlayer(_) => "/players",
        _ => "/teams",
    }
}

fn target(field: Field) -> (r: Option<Id>)
    ensures
        r == target_of(field),
{
    match field {
        Field::Player(id) | Field::Team(id) | Field::UpdatePlayer(id) | Field::DeletePlayer(id)
        | Field::UpdateTeam(id) | Field::DeleteTeam(id) => Some(id),
        _ => None,
    }
}

fn failure(field: Field) -> (r: &'static str)
    ensures
        r@ == failure_of(field),
{
    match field {
        Field::Players => "There was an error fetching the players",
        Field::Player(_) => "There was an error fetching the player",
        Field::Teams => "There was an error fetching the teams",
        Field::Team(_) => "There was an error fetching the team",
        Field::CreatePlayer => "There was an error creating the player",
        Field::UpdatePlayer(_) => "There was an error updating the player",
        Field::DeletePlayer(_) => "There was an error deleting the player",
        Field::CreateTeam => "There was an error creating the team",
        Field::UpdateTeam(_) => "There was an error updating the team",
        Field::DeleteTeam(_) => "There was an error deleting the team",
    }
}

/// The one upstream call that resolves `field`.
pub fn upstream_call(ctx: &Context, field: Field) -> (r: UpstreamCall)
    ensures
        r.method == method_of(field),
        r.url@ == ctx.config.players_api_host@ + path_of(field),
        r.failure@ == failure_of(field),
{
    let mut url = ctx.config.players_api_host.clone();
    url.append(collection(field));
    match target(field) {
        Some(id) => {
            let id_part = id_text(id);
            url.append("/");
            url.append(id_part.as_str());
        },
        None => {},
    }
    proof {
        assert(url@ =~= ctx.config.players_api_host@ + path_of(field));
    }
    UpstreamCall { method: method(field), url, failure: String::from_str(failure(field)) }
}

/// A player as the gateway serves it: the upstream row and, when the
/// upstream embedded it, its team.
#[derive(Debug, Clone)]
pub struct Player {
    pub id: Id,
    pub first_name: String,
    pub last_name: String,
    pub team_id: Option<Id>,
    pub team: Option<Team>,
}

/// A player read from upstream, paired with its team.
#[derive(Debug, Clone)]
pub struct PlayerWithTeam {
    pub player: Player,
    pub team: Option<Team>,
}

/// `p` is the player of `row` with the team of `row` embedded.
pub open spec fn is_merged(p: Player, row: PlayerWithTeam) -> bool {
    &&& p.id == row.player.id
    &&& p.first_name@ == row.player.first_name@
    &&& p.last_name@ == row.player.last_name@
    &&& p.team_id == row.player.team_id
    &&& team_view(p.team) == team_view(row.team)
}

fn copy_team(t: &Option<Team>) -> (r: Option<Team>)
    ensures
        team_view(r) == team_view(*t),
{
    match t {
        Some(t) => Some(t.copy()),
        None => None,
    }
}

/// The player of `row` with the team of `row` embedded.
pub fn player(row: &PlayerWithTeam) -> (r: Player)
    ensures
        is_merged(r, *row),
{
    Player {
        id: row.player.id,
        first_name: row.player.first_name.clone(),
        last_name: row.player.last_name.clone(),
        team_id: row.player.team_id,
        team: copy_team(&row.team),
    }
}

/// Each player of `rows`, in order, with its team embedded.
pub fn players(rows: &Vec<PlayerWithTeam>) -> (r: Vec<Player>)
    ensures
        r@.len() == rows@.len(),
        forall|i: int| 0 <= i < r@.len() ==> is_merged(#[trigger] r@[i], rows@[i]),
{
    let mut r: Vec<Player> = Vec::new();
    let mut i: usize = 0;
    while i < rows.len()
        invariant
            i <= rows@.len(),
            r@.len() == i,
            forall|j: int| 0 <= j < i ==> is_merged(#[trigger] r@[j], rows@[j]),
        decreases rows@.len() - i,
    {
        r.push(player(&rows[i]));
        i = i + 1;
    }
    r
}

/// How the `team` field of a player resolves.
#[derive(Debug, Clone)]
pub enum TeamStep {
    /// Without another call: the embedded team, or none for a player without a team.
    Known(Option<Team>),
    /// By fetching the team with this id upstream.
    Fetch(Id),
}

impl Player {
    /// The embedded team when there is one; else a fetch of the team that
    /// `team_id` names; else no team.
    pub fn team(&self) -> (r: TeamStep)
        ensures
            self.team is Some ==> (r matches TeamStep::Known(t) && team_view(t) == team_view(self.team)),
            self.team is None ==> match self.team_id {
                Some(id) => r == TeamStep::Fetch(id),
                None => r matches TeamStep::Known(t) && t is None,
            },
    {
        match (&self.team, self.team_id) {
            (Some(t), _) => TeamStep::Known(Some(t.copy())),
            (None, Some(id)) => TeamStep::Fetch(id),
            (None, None) => TeamStep::Known(None),
        }
    }
}

/// The input of the `createPlayer` mutation.
#[derive(Debug, Clone)]
pub struct CreatePlayerInput {
    pub first_name: String,
    pub last_name: String,
    pub team_id: Option<Id>,
}

/// The result of the `createPlayer` mutation.
#[derive(Debug, Clone)]
pub struct CreatePlayerResponse {
    pub player: Player,
}

/// The input of the `updatePlayer` mutation; `id` goes in the path, the rest in the body.
#[derive(Debug, Clone)]
pub struct UpdatePlayerInput {
    pub id: Id,
    pub first_name: String,
    pub last_name: String,
    pub team_id: Option<Id>,
}

/// The result of the `updatePlayer` mutation.
#[derive(Debug, Clone)]
pub struct UpdatePlayerResponse {
    pub player: Player,
}

/// The input of the `deletePlayer` mutation.
#[derive(Debug, Clone, Copy)]
pub struct DeletePlayerInput {
    pub id: Id,
}

/// The result of the `deletePlayer` mutation.
#[derive(Debug, Clone, Copy)]
pub struct DeletePlayerResponse {
    pub success: bool,
}

/// The input of the `createTeam` mutation.
#[derive(Debug, Clone)]
pub struct CreateTeamInput {
    pub display_name: String,
    pub abbreviation: String,
}

/// The result of the `createTeam` mutation.
#[derive(Debug, Clone)]
pub struct CreateTeamResponse {
    pub team: Team,
}

/// The input of the `updateTeam` mutation; `id` goes in the path, the rest in the body.
#[derive(Debug, Clone)]
pub struct UpdateTeamInput {
    pub id: Id,
    pub display_name: String,
    pub abbreviation: String,
}

/// The result of the `updateTeam` mutation.
#[derive(Debug, Clone)]
pub struct UpdateTeamResponse {
    pub team: Team,
}

/// The input of the `deleteTeam` mutation.
#[derive(Debug, Clone, Copy)]
pub struct DeleteTeamInput {
    pub id: Id,
}

/// The result of the `deleteTeam` mutation.
#[derive(Debug, Clone, Copy)]
pub struct DeleteTeamResponse {
    pub success: bool,
}

} // verus!
