use vstd::prelude::*;
use crate::db::{Category, Db};
use crate::game_state::{Player, players_view};

verus! {

/// The first team of the match `label`, in insertion order.
pub fn get_team_one(db: &Db, label: &String) -> (r: Vec<Player>)
    ensures
        players_view(r@) == db@.listed(Category::TeamOne, label@),
{
    db.list_players(Category::TeamOne, label)
}

/// The second team of the match `label`, in insertion order.
pub fn get_team_two(db: &Db, label: &String) -> (r: Vec<Player>)
    ensures
        players_view(r@) == db@.listed(Category::TeamTwo, label@),
{
    db.list_players(Category::TeamTwo, label)
}

/// Appends a row that places `player_id` in the first team of the match
/// `label`. The row is not tested: the store stays well formed when the
/// match and the player are stored.
pub fn insert_team_one(db: &mut Db, label: String, player_id: u64)
    ensures
        final(db)@ == old(db)@.with_row(Category::TeamOne, (label@, player_id)),
        old(db)@.wf() && old(db)@.refers((label@, player_id)) ==> final(db)@.wf(),
{
    db.push_row(Category::TeamOne, label, player_id);
    proof {
        if old(db)@.wf() && old(db)@.refers((label@, player_id)) {
            crate::db::lemma_with_row_wf(old(db)@, Category::TeamOne, (label@, player_id));
        }
    }
}

/// Appends a row that places `player_id` in the second team of the match
/// `label`. The row is not tested: the store stays well formed when the
/// match and the player are stored.
pub fn insert_team_two(db: &mut Db, label: String, player_id: u64)
    ensures
        final(db)@ == old(db)@.with_row(Category::TeamTwo, (label@, player_id)),
        old(db)@.wf() && old(db)@.refers((label@, player_id)) ==> final(db)@.wf(),
{
    db.push_row(Category::TeamTwo, label, player_id);
    proof {
        if old(db)@.wf() && old(db)@.refers((label@, player_id)) {
            crate::db::lemma_with_row_wf(old(db)@, Category::TeamTwo, (label@, player_id));
        }
    }
}

} // verus!
