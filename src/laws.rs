//! Properties of the REST layer that hold across calls, proved from the
//! handlers' contracts.

use vstd::prelude::*;

use crate::ids::Id;
use crate::models::{CreatePlayerForm, CreateTeamForm, PlayerView, TeamView, UpdatePlayerForm};
use crate::rest::{
    Body, Response, create_player_post, create_team_post, delete_team_post, get_player_post,
    get_team_post, is_duplicate_key_error, is_team, update_player_post,
};
use crate::store::Store;
use crate::upstream::{Reply, handles_reply, upstream_message};

verus! {

/// Creating a player whose `team_id` names no stored team fails with a client
/// error, and no player is stored.
pub proof fn law_unknown_team_is_rejected(pre: Store, form: CreatePlayerForm, r: Response, post: Store)
    requires
        pre.wf(),
        create_player_post(pre, form, r, post),
        form.team_id matches Some(t) && !pre.teams().contains_key(t),
    ensures
        400 <= r.status < 500,
        post.players() == pre.players(),
{
}

/// Creating a player without a team succeeds and stores it with no team. The one
/// other outcome is a 500 that stores nothing, when the drawn id was taken; that
/// cannot happen while no stored player id is a random UUID, as in an empty table.
pub proof fn law_create_without_team(pre: Store, form: CreatePlayerForm, r: Response, post: Store)
    requires
        pre.wf(),
        create_player_post(pre, form, r, post),
        form.team_id is None,
    ensures
        r.status == 200 ==> (r.body matches Body::Player(p) && post.players().contains_key(p.id)
            && post.players()[p.id].team_id is None),
        r.status != 200 ==> is_duplicate_key_error(r) && post.players() == pre.players(),
        !pre.has_random_player_id() ==> r.status == 200,
{
}

/// Creating a team stores it with the given fields whenever no stored team id
/// is a random UUID, as in an empty table.
pub proof fn law_create_team_succeeds(pre: Store, form: CreateTeamForm, r: Response, post: Store)
    requires
        create_team_post(pre, form, r, post),
        !pre.has_random_team_id(),
    ensures
        r.status == 200,
        r.body matches Body::Team(t) && t.display_name@ == form.display_name@ && t.abbreviation@
            == form.abbreviation@ && post.teams() == pre.teams().insert(t.id, t@),
{
}

/// Fetching a player just created gives it with a team exactly when its
/// `team_id` was given and names a stored team.
pub proof fn law_created_player_team(
    pre: Store,
    form: CreatePlayerForm,
    r: Response,
    mid: Store,
    id: Id,
    fetched: Response,
)
    requires
        pre.wf(),
        create_player_post(pre, form, r, mid),
        r.body matches Body::Player(p) && p.id == id,
        get_player_post(mid, id, fetched),
    ensures
        fetched.status == 200,
        fetched.body matches Body::PlayerWithTeam(pt) && (pt.team is Some <==> (form.team_id matches Some(
            t,
        ) && pre.teams().contains_key(t))),
{
    assert(mid.players().contains_key(id));
}

/// Updating a player without a `team_id` clears its team, whatever it was.
pub proof fn law_update_clears_team(
    pre: Store,
    id: Id,
    form: UpdatePlayerForm,
    r: Response,
    post: Store,
)
    requires
        pre.wf(),
        update_player_post(pre, id, form, r, post),
        pre.players().contains_key(id),
        form.team_id is None,
    ensures
        r.status == 200,
        post.players().contains_key(id),
        post.players()[id].team_id is None,
{
}

/// Fetching an absent player is a 404, never a 500.
pub proof fn law_missing_player_not_found(store: Store, id: Id, r: Response)
    requires
        get_player_post(store, id, r),
        !store.players().contains_key(id),
    ensures
        r.status == 404,
{
}

/// Fetching an absent team is a 404, never a 500.
pub proof fn law_missing_team_not_found(store: Store, id: Id, r: Response)
    requires
        get_team_post(store, id, r),
        !store.teams().contains_key(id),
    ensures
        r.status == 404,
{
}

/// Deleting a team that a player names fails with a client error and keeps the team.
pub proof fn law_team_with_players_is_kept(pre: Store, id: Id, r: Response, post: Store)
    requires
        pre.wf(),
        delete_team_post(pre, id, r, post),
        pre.has_dependents(id),
    ensures
        400 <= r.status < 500,
        post.teams().contains_key(id),
        post.teams() == pre.teams(),
{
    pre.lemma_references_resolve();
    let k = choose|k: Id| #[trigger]
        pre.players().contains_key(k) && pre.players()[k].team_id == Some(id);
    assert(pre.refers_to_stored(pre.players()[k].team_id));
}

/// Deleting a team that no player names succeeds, and fetching it afterwards is a 404.
pub proof fn law_deleted_team_is_gone(
    pre: Store,
    id: Id,
    r: Response,
    mid: Store,
    fetched: Response,
)
    requires
        pre.wf(),
        !pre.has_dependents(id),
        delete_team_post(pre, id, r, mid),
        get_team_post(mid, id, fetched),
    ensures
        r.status == 204,
        fetched.status == 404,
{
}

/// A created team, fetched by its id, is the input with that id.
pub proof fn law_team_round_trip(
    pre: Store,
    form: CreateTeamForm,
    r: Response,
    mid: Store,
    id: Id,
    fetched: Response,
)
    requires
        create_team_post(pre, form, r, mid),
        r.body matches Body::Team(t) && t.id == id,
        get_team_post(mid, id, fetched),
    ensures
        is_team(
            fetched,
            TeamView { id, display_name: form.display_name@, abbreviation: form.abbreviation@ },
        ),
{
    assert(mid.teams().contains_key(id));
}

/// A created player, fetched by its id, is the input with that id.
pub proof fn law_player_round_trip(
    pre: Store,
    form: CreatePlayerForm,
    r: Response,
    mid: Store,
    id: Id,
    fetched: Response,
)
    requires
        pre.wf(),
        create_player_post(pre, form, r, mid),
        r.body matches Body::Player(p) && p.id == id,
        get_player_post(mid, id, fetched),
    ensures
        fetched.status == 200,
        fetched.body matches Body::PlayerWithTeam(pt) && pt.player@ == (PlayerView {
            id,
            first_name: form.first_name@,
            last_name: form.last_name@,
            team_id: form.team_id,
        }),
{
    assert(mid.players().contains_key(id));
}

/// Resolving a player that is not stored is a field error: the REST service
/// answers 404, and the gateway turns that reply into the message of its body.
pub proof fn law_missing_player_is_field_error(
    store: Store,
    id: Id,
    answer: Response,
    body: Vec<u8>,
    failure: Seq<char>,
    r: Result<Vec<u8>, String>,
)
    requires
        get_player_post(store, id, answer),
        !store.players().contains_key(id),
        handles_reply(Reply::Answered { status: answer.status, body }, failure, r),
    ensures
        r matches Err(m) && m@ == upstream_message(body@),
{
}

} // verus!
