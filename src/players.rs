use vstd::prelude::*;
use crate::db::{Category, Db};
use crate::errors::ServerError;
use crate::game_state::{Player, players_view};

verus! {

/// The free (unassigned) players of the match `label`, in insertion order.
pub fn get_free_players(db: &Db, label: &String) -> (r: Vec<Player>)
    ensures
        players_view(r@) == db@.listed(Category::Free, label@),
{
    db.list_players(Category::Free, label)
}

/// Inserts a player row and returns its new identifier. The write is
/// refused, and the store left as it was, once identifiers are exhausted.
pub fn insert_players(db: &mut Db, player: Player) -> (r: Result<u64, ServerError>)
    ensures
        old(db)@.wf() ==> final(db)@.wf(),
        r is Ok <==> old(db)@.players.len() < u64::MAX,
        r matches Ok(id) ==> id == old(db)@.players.len() + 1 && final(db)@ == old(db)@.with_player(
            player@,
        ),
        r matches Err(e) ==> e == ServerError::Persistence && final(db)@ == old(db)@,
{
    if db.player_count() as u64 == u64::MAX {
        return Err(ServerError::Persistence);
    }
    let id = db.push_player(player);
    proof {
        if old(db)@.wf() {
            assert forall|cat, i: int| 0 <= i < db@.table(cat).len() implies db@.refers(
                #[trigger] db@.table(cat)[i],
            ) by {
                assert(old(db)@.refers(old(db)@.table(cat)[i]));
            }
        }
    }
    Ok(id)
}

/// Appends a row that places `player_id` among the free players of the
/// match `label`. The row is not tested: the store stays well formed when
/// the match and the player are stored.
pub fn insert_free_players(db: &mut Db, label: String, player_id: u64)
    ensures
        final(db)@ == old(db)@.with_row(Category::Free, (label@, player_id)),
        old(db)@.wf() && old(db)@.refers((label@, player_id)) ==> final(db)@.wf(),
{
    db.push_row(Category::Free, label, player_id);
    proof {
        if old(db)@.wf() && old(db)@.refers((label@, player_id)) {
            crate::db::lemma_with_row_wf(old(db)@, Category::Free, (label@, player_id));
        }
    }
}

} // verus!
