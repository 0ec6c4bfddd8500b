//! The REST layer: each handler runs one store operation and turns its outcome
//! into an HTTP status and a body.

use vstd::prelude::*;

use crate::ids::{id_text, id_text_of, Id};
use crate::models::{
    CreatePlayerForm, CreateTeamForm, Player, PlayerView, PlayerWithTeam, Team, TeamView,
    UpdatePlayerForm, UpdateTeamForm,
};
use crate::store::{Store, StoreError, duplicate_key_message};

verus! {

/// What an error body holds besides its message.
pub enum ErrorDataView {
    Null,
    Id(Id),
    Text(Seq<char>),
}

/// The `data` member of an error body.
#[derive(Debug, Clone)]
pub enum ErrorData {
    /// `null`.
    Null,
    /// The id that was looked up.
    Id(Id),
    /// The description of an internal failure.
    Text(String),
}

impl View for ErrorData {
    type V = ErrorDataView;

    open spec fn view(&self) -> ErrorDataView {
        match self {
            ErrorData::Null => ErrorDataView::Null,
            ErrorData::Id(id) => ErrorDataView::Id(*id),
            ErrorData::Text(t) => ErrorDataView::Text(t@),
        }
    }
}

/// What an error body holds.
pub struct JsonErrorView {
    pub message: Seq<char>,
    pub data: ErrorDataView,
}

/// The body of every error response: `{"message": ..., "data": ...}`.
#[derive(Debug, Clone)]
pub struct JsonError {
    pub message: String,
    pub data: ErrorData,
}

impl View for JsonError {
    type V = JsonErrorView;

    open spec fn view(&self) -> JsonErrorView {
        JsonErrorView { message: self.message@, data: self.data@ }
    }
}

/// The body of a response.
#[derive(Debug, Clone)]
pub enum Body {
    /// No body, as after a delete.
    Empty,
    Player(Player),
    PlayerWithTeam(PlayerWithTeam),
    Players(Vec<PlayerWithTeam>),
    Team(Team),
    Teams(Vec<Team>),
    Error(JsonError),
}

/// An HTTP status and a body.
#[derive(Debug, Clone)]
pub struct Response {
    pub status: u16,
    pub body: Body,
}

/// The message of a 404 for a player.
pub open spec fn player_not_found_message() -> Seq<char> {
    "Player not found"@
}

/// The message of a 404 for a team.
pub open spec fn team_not_found_message() -> Seq<char> {
    "Team not found"@
}

/// The message of every 500.
pub open spec fn internal_error_message() -> Seq<char> {
    "Something went wrong"@
}

/// The message of a refused team delete.
pub open spec fn team_has_players_message() -> Seq<char> {
    "Cannot delete team: players still exist in the team"@
}

/// The message for a player whose `team_id` names no stored team.
pub open spec fn missing_team_message(team_id: Option<Id>) -> Seq<char> {
    "Team "@ + match team_id {
        Some(t) => id_text_of(t),
        None => Seq::<char>::empty(),
    } + " not found"@
}

/// `r` is an error response with the given status, message and data.
pub open spec fn is_error(r: Response, status: u16, message: Seq<char>, data: ErrorDataView) -> bool {
    &&& r.status == status
    &&& r.body matches Body::Error(e) && e@ == (JsonErrorView { message, data })
}

/// `r` is a 500 response that describes an internal failure.
pub open spec fn is_internal_error(r: Response) -> bool {
    &&& r.status == 500
    &&& r.body matches Body::Error(e) && e.message@ == internal_error_message()
        && e.data is Text
}

/// `r` is the 500 for a row whose drawn id was already taken; its data is the store's description.
pub open spec fn is_duplicate_key_error(r: Response) -> bool {
    is_error(r, 500, internal_error_message(), ErrorDataView::Text(duplicate_key_message()))
}

/// `r` is a 200 response whose body is the player `p`.
pub open spec fn is_player(r: Response, p: PlayerView) -> bool {
    r.status == 200 && (r.body matches Body::Player(b) && b@ == p)
}

/// `r` is a 200 response whose body is the team `t`.
pub open spec fn is_team(r: Response, t: TeamView) -> bool {
    r.status == 200 && (r.body matches Body::Team(b) && b@ == t)
}

fn error_response(status: u16, message: &str, data: ErrorData) -> (r: Response)
    ensures
        is_error(r, status, message@, data@),
{
    Response { status, body: Body::Error(JsonError { message: String::from_str(message), data }) }
}

/// The text of a store failure.
fn describe(e: StoreError) -> (r: String)
    ensures
        e matches StoreError::Other(m) ==> r@ == m@,
{
    match e {
        StoreError::NotFound => String::from_str("Record not found"),
        StoreError::ForeignKeyViolation => String::from_str("violates foreign key constraint"),
        StoreError::Other(m) => m,
    }
}

/// The 500 response for a store failure; its data is the failure's text.
fn internal_error(e: StoreError) -> (r: Response)
    ensures
        is_internal_error(r),
        e matches StoreError::Other(m) ==> r.body matches Body::Error(b) && b.data@ == ErrorDataView::Text(m@),
{
    let text = describe(e);
    error_response(500, "Something went wrong", ErrorData::Text(text))
}

/// The message for a player whose `team_id` names no stored team.
fn missing_team_text(team_id: Option<Id>) -> (r: String)
    ensures
        r@ == missing_team_message(team_id),
{
    let mut r = String::from_str("Team ");
    match team_id {
        Some(t) => {
            let t_text = id_text(t);
            r.append(t_text.as_str());
        },
        None => {},
    }
    r.append(" not found");
    r
}

/// The 400 response for a request body that could not be read; the message is the reader's error.
pub fn malformed_body(error_text: String) -> (r: Response)
    ensures
        is_error(r, 400, error_text@, ErrorDataView::Null),
{
    Response { status: 400, body: Body::Error(JsonError { message: error_text, data: ErrorData::Null }) }
}

/// `GET /players`: every player with its team.
pub fn get_players(store: &Store) -> (r: Response)
    requires
        store.wf(),
    ensures
        r.status == 200,
        r.body matches Body::Players(v) && store.lists_players(v@),
{
    Response { status: 200, body: Body::Players(store.list_players()) }
}

/// What `get_player` answers.
pub open spec fn get_player_post(store: Store, id: Id, r: Response) -> bool {
    &&& store.players().contains_key(id) ==> r.status == 200 && (r.body matches Body::PlayerWithTeam(pt)
        && pt@ == store.joined(store.players()[id]))
    &&& !store.players().contains_key(id) ==> is_error(r, 404, player_not_found_message(), ErrorDataView::Null)
}

/// `GET /players/{id}`: the player with its team, or 404.
pub fn get_player(store: &Store, id: Id) -> (r: Response)
    requires
        store.wf(),
    ensures
        get_player_post(*store, id, r),
{
    match store.get_player(id) {
        Ok(pt) => Response { status: 200, body: Body::PlayerWithTeam(pt) },
        Err(_) => error_response(404, "Player not found", ErrorData::Null),
    }
}

/// What `create_player` answers and stores: 400 when `team_id` names no stored
/// team; else the new player, or a 500 when the drawn id was taken, which can
/// only be when some stored player id is a random UUID.
pub open spec fn create_player_post(pre: Store, form: CreatePlayerForm, r: Response, post: Store) -> bool {
    &&& post.wf()
    &&& post.teams() == pre.teams()
    &&& !pre.refers_to_stored(form.team_id) ==> is_error(r, 400, missing_team_message(form.team_id), ErrorDataView::Null)
        && post.players() == pre.players()
    &&& pre.refers_to_stored(form.team_id) ==> (r.body matches Body::Player(p) && r.status == 200
        && !pre.players().contains_key(p.id) && p@ == (PlayerView {
        id: p.id,
        first_name: form.first_name@,
        last_name: form.last_name@,
        team_id: form.team_id,
    }) && post.players() == pre.players().insert(p.id, p@)) || (is_duplicate_key_error(r)
        && post.players() == pre.players() && pre.has_random_player_id())
}

/// `POST /players`: stores a new player under a fresh id. 400 when `team_id`
/// names no stored team.
pub fn create_player(store: &mut Store, form: CreatePlayerForm) -> (r: Response)
    requires
        old(store).wf(),
    ensures
        create_player_post(*old(store), form, r, *final(store)),
{
    let message = missing_team_text(form.team_id);
    match store.create_player(form) {
        Ok(p) => Response { status: 200, body: Body::Player(p) },
        Err(StoreError::ForeignKeyViolation) => Response {
            status: 400,
            body: Body::Error(JsonError { message, data: ErrorData::Null }),
        },
        Err(e) => internal_error(e),
    }
}

/// What `update_player` answers and stores.
pub open spec fn update_player_post(pre: Store, id: Id, form: UpdatePlayerForm, r: Response, post: Store) -> bool {
    &&& post.wf()
    &&& post.teams() == pre.teams()
    &&& !pre.players().contains_key(id) ==> is_error(r, 404, player_not_found_message(), ErrorDataView::Null)
        && post.players() == pre.players()
    &&& pre.players().contains_key(id) && !pre.refers_to_stored(form.team_id) ==> is_error(
        r,
        400,
        missing_team_message(form.team_id),
        ErrorDataView::Null,
    ) && post.players() == pre.players()
    &&& pre.players().contains_key(id) && pre.refers_to_stored(form.team_id) ==> is_player(
        r,
        updated_player(id, form),
    ) && post.players() == pre.players().insert(id, updated_player(id, form))
}

/// The row that an update writes: every field replaced, `team_id` included.
pub open spec fn updated_player(id: Id, form: UpdatePlayerForm) -> PlayerView {
    PlayerView { id, first_name: form.first_name@, last_name: form.last_name@, team_id: form.team_id }
}

/// `PUT /players/{id}`: replaces the player's names and team; an absent
/// `team_id` clears its team. 404 when no such player, 400 when `team_id`
/// names no stored team.
pub fn update_player(store: &mut Store, id: Id, form: UpdatePlayerForm) -> (r: Response)
    requires
        old(store).wf(),
    ensures
        update_player_post(*old(store), id, form, r, *final(store)),
{
    let message = missing_team_text(form.team_id);
    match store.update_player(id, form) {
        Ok(p) => Response { status: 200, body: Body::Player(p) },
        Err(StoreError::NotFound) => error_response(404, "Player not found", ErrorData::Null),
        Err(StoreError::ForeignKeyViolation) => Response {
            status: 400,
            body: Body::Error(JsonError { message, data: ErrorData::Null }),
        },
        Err(e) => internal_error(e),
    }
}

/// `DELETE /players/{id}`: removes the player; deleting an absent id succeeds too.
pub fn delete_player(store: &mut Store, id: Id) -> (r: Response)
    requires
        old(store).wf(),
    ensures
        final(store).wf(),
        final(store).teams() == old(store).teams(),
        r.status == 204 && r.body is Empty,
        final(store).players() == old(store).players().remove(id),
{
    let _ = store.delete_player(id);
    proof {
        if !old(store).players().contains_key(id) {
            assert(old(store).players().remove(id) =~= old(store).players());
        }
    }
    Response { status: 204, body: Body::Empty }
}

/// `GET /teams`: every team.
pub fn get_teams(store: &Store) -> (r: Response)
    requires
        store.wf(),
    ensures
        r.status == 200,
        r.body matches Body::Teams(v) && store.lists_teams(v@),
{
    Response { status: 200, body: Body::Teams(store.list_teams()) }
}

/// What `get_team` answers.
pub open spec fn get_team_post(store: Store, id: Id, r: Response) -> bool {
    &&& store.teams().contains_key(id) ==> is_team(r, store.teams()[id])
    &&& !store.teams().contains_key(id) ==> is_error(r, 404, team_not_found_message(), ErrorDataView::Id(id))
}

/// `GET /teams/{id}`: the team, or 404 with the id as data.
pub fn get_team(store: &Store, id: Id) -> (r: Response)
    requires
        store.wf(),
    ensures
        get_team_post(*store, id, r),
{
    match store.get_team(id) {
        Ok(t) => Response { status: 200, body: Body::Team(t) },
        Err(_) => error_response(404, "Team not found", ErrorData::Id(id)),
    }
}

/// What `create_team` answers and stores: the new team, or a 500 when the drawn
/// id was taken, which can only be when some stored team id is a random UUID.
pub open spec fn create_team_post(pre: Store, form: CreateTeamForm, r: Response, post: Store) -> bool {
    &&& post.wf()
    &&& post.players() == pre.players()
    &&& (r.body matches Body::Team(t) && r.status == 200 && !pre.teams().contains_key(t.id) && t@ == (TeamView {
        id: t.id,
        display_name: form.display_name@,
        abbreviation: form.abbreviation@,
    }) && post.teams() == pre.teams().insert(t.id, t@)) || (is_duplicate_key_error(r) && post.teams()
        == pre.teams() && pre.has_random_team_id())
}

/// `POST /teams`: stores a new team under a fresh id.
pub fn create_team(store: &mut Store, form: CreateTeamForm) -> (r: Response)
    requires
        old(store).wf(),
    ensures
        create_team_post(*old(store), form, r, *final(store)),
{
    match store.create_team(form) {
        Ok(t) => Response { status: 200, body: Body::Team(t) },
        Err(e) => internal_error(e),
    }
}

/// `PUT /teams/{id}`: replaces the team's name and abbreviation, or 404 with
/// the id as data.
pub fn update_team(store: &mut Store, id: Id, form: UpdateTeamForm) -> (r: Response)
    requires
        old(store).wf(),
    ensures
        final(store).wf(),
        final(store).players() == old(store).players(),
        !old(store).teams().contains_key(id) ==> is_error(
            r,
            404,
            team_not_found_message(),
            ErrorDataView::Id(id),
        ) && final(store).teams() == old(store).teams(),
        old(store).teams().contains_key(id) ==> is_team(
            r,
            TeamView { id, display_name: form.display_name@, abbreviation: form.abbreviation@ },
        ) && final(store).teams() == old(store).teams().insert(
            id,
            TeamView { id, display_name: form.display_name@, abbreviation: form.abbreviation@ },
        ),
{
    match store.update_team(id, form) {
        Ok(t) => Response { status: 200, body: Body::Team(t) },
        Err(StoreError::NotFound) => error_response(404, "Team not found", ErrorData::Id(id)),
        Err(e) => internal_error(e),
    }
}

/// What `delete_team` answers and stores.
pub open spec fn delete_team_post(pre: Store, id: Id, r: Response, post: Store) -> bool {
    &&& post.wf()
    &&& post.players() == pre.players()
    &&& pre.teams().contains_key(id) && pre.has_dependents(id) ==> is_error(
        r,
        400,
        team_has_players_message(),
        ErrorDataView::Null,
    ) && post.teams() == pre.teams()
    &&& !(pre.teams().contains_key(id) && pre.has_dependents(id)) ==> r.status == 204 && r.body is Empty
        && post.teams() == pre.teams().remove(id)
}

/// `DELETE /teams/{id}`: removes the team; 400 while players still name it.
/// Deleting an absent id succeeds.
pub fn delete_team(store: &mut Store, id: Id) -> (r: Response)
    requires
        old(store).wf(),
    ensures
        delete_team_post(*old(store), id, r, *final(store)),
{
    let outcome = store.delete_team(id);
    proof {
        if !old(store).teams().contains_key(id) {
            assert(old(store).teams().remove(id) =~= old(store).teams());
        }
    }
    match outcome {
        Err(StoreError::ForeignKeyViolation) => error_response(
            400,
            "Cannot delete team: players still exist in the team",
            ErrorData::Null,
        ),
        _ => Response { status: 204, body: Body::Empty },
    }
}

} // verus!
