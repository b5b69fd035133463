use vstd::prelude::*;
use crate::db::{Category, Db, DbView, RowView};
use crate::errors::ServerError;
use crate::game_state::{Match, MatchEgg, MatchEggView, MatchView, Player, PlayerView, players_view};
use crate::label::{generate_label, is_label};
use crate::{players, teams};

verus! {

/// The relation rows that place `n` players, given identifiers `base + 1`,
/// `base + 2`, ..., under `label`.
pub open spec fn new_rows(label: Seq<char>, base: nat, n: nat) -> Seq<RowView> {
    Seq::new(n, |i: int| (label, (base + i + 1) as u64))
}

/// The store after the players `ps` are inserted in order, each followed by
/// its row in the table of `cat` under `label`.
pub open spec fn with_roster(d: DbView, cat: Category, label: Seq<char>, ps: Seq<PlayerView>) -> DbView {
    DbView { players: d.players + ps, ..d }.with_table(
        cat,
        d.table(cat) + new_rows(label, d.players.len(), ps.len()),
    )
}

/// Whether the player table has identifiers left for every submitted player.
pub open spec fn has_room(d: DbView, egg: MatchEggView) -> bool {
    d.players.len() + egg.players.len() + egg.team_1.len() + egg.team_2.len() <= u64::MAX
}

/// The store after the match `label` is created from `egg`: the match row,
/// then the free players, the first team and the second team, each player
/// inserted before the row that places it.
pub open spec fn created(d: DbView, label: Seq<char>, egg: MatchEggView) -> DbView {
    let d0 = d.with_match(label);
    let d1 = with_roster(d0, Category::Free, label, egg.players);
    let d2 = with_roster(d1, Category::TeamOne, label, egg.team_1);
    with_roster(d2, Category::TeamTwo, label, egg.team_2)
}

/// The view that a successful creation answers with: the submitted rosters
/// under the new label.
pub open spec fn echoed(label: Seq<char>, egg: MatchEggView) -> MatchView {
    MatchView { label, players: egg.players, team_1: egg.team_1, team_2: egg.team_2 }
}

/// The match `label` as the store holds it, or `None` if no such match row
/// is stored.
pub open spec fn read_match(d: DbView, label: Seq<char>) -> Option<MatchView> {
    if d.has_match(label) {
        Some(
            MatchView {
                label,
                players: d.listed(Category::Free, label),
                team_1: d.listed(Category::TeamOne, label),
                team_2: d.listed(Category::TeamTwo, label),
            },
        )
    } else {
        None
    }
}

/// Inserts each player of `ps` and places it in the table of `cat`.
fn insert_roster(db: &mut Db, cat: Category, label: &String, ps: &Vec<Player>) -> (r: Result<(), ServerError>)
    requires
        old(db)@.wf(),
        old(db)@.has_match(label@),
        old(db)@.players.len() + ps@.len() <= u64::MAX,
    ensures
        r is Ok,
        final(db)@.wf(),
        final(db)@.matches == old(db)@.matches,
        final(db)@ == with_roster(old(db)@, cat, label@, players_view(ps@)),
{
    let ghost d0 = db@;
    let ghost all = players_view(ps@);
    let mut i: usize = 0;
    proof {
        assert(db@ =~= with_roster(d0, cat, label@, all.subrange(0, 0)));
    }
    while i < ps.len()
        invariant
            i <= ps@.len(),
            all == players_view(ps@),
            d0.has_match(label@),
            d0.players.len() + ps@.len() <= u64::MAX,
            db@.wf(),
            db@ == with_roster(d0, cat, label@, all.subrange(0, i as int)),
        decreases ps.len() - i,
    {
        let ghost before = db@;
        let p = ps[i].clone();
        let id = match players::insert_players(db, p) {
            Ok(id) => id,
            Err(e) => return Err(e),
        };
        proof {
            assert(db@.has_match(label@)) by {
                assert(d0.matches == db@.matches);
            }
        }
        match cat {
            Category::Free => players::insert_free_players(db, label.clone(), id),
            Category::TeamOne => teams::insert_team_one(db, label.clone(), id),
            Category::TeamTwo => teams::insert_team_two(db, label.clone(), id),
        }
        proof {
            let next = with_roster(d0, cat, label@, all.subrange(0, i + 1));
            assert(next.players =~= before.players.push(all[i as int]));
            assert(next.table(cat) =~= before.table(cat).push((label@, id)));
            assert(db@ =~= next);
        }
        i = i + 1;
    }
    proof {
        assert(all.subrange(0, ps@.len() as int) =~= all);
    }
    Ok(())
}

/// Creates the match `label` from the roster `match_egg` and answers with
/// that roster under the label. The label must be new and the player table
/// must have room for every player; otherwise nothing is written.
///
/// The creation is all or nothing: both conditions are tested before the
/// first write, and no later write can fail, so the store never holds a
/// match with only part of its players, nor a row whose match or player is
/// missing.
pub fn create_match(db: &mut Db, label: String, match_egg: MatchEgg) -> (r: Result<Match, ServerError>)
    requires
        old(db)@.wf(),
    ensures
        final(db)@.wf(),
        r is Ok <==> !old(db)@.has_match(label@) && has_room(old(db)@, match_egg@),
        r matches Ok(m) ==> m@ == echoed(label@, match_egg@) && final(db)@ == created(
            old(db)@,
            label@,
            match_egg@,
        ),
        r matches Err(e) ==> e == ServerError::Persistence && final(db)@ == old(db)@,
{
    let n = db.player_count() as u64;
    let a = match_egg.players.len() as u64;
    let b = match_egg.team_1.len() as u64;
    let c = match_egg.team_2.len() as u64;
    if a > u64::MAX - n || b > u64::MAX - (n + a) || c > u64::MAX - (n + a + b) {
        return Err(ServerError::Persistence);
    }
    match crate::matches::insert_match(db, label.clone()) {
        Ok(()) => {},
        Err(e) => return Err(e),
    }
    proof {
        assert(db@.matches[db@.matches.len() - 1] == label@);
    }
    match insert_roster(db, Category::Free, &label, &match_egg.players) {
        Ok(()) => {},
        Err(e) => return Err(e),
    }
    match insert_roster(db, Category::TeamOne, &label, &match_egg.team_1) {
        Ok(()) => {},
        Err(e) => return Err(e),
    }
    match insert_roster(db, Category::TeamTwo, &label, &match_egg.team_2) {
        Ok(()) => {},
        Err(e) => return Err(e),
    }
    Ok(Match { label, players: match_egg.players, team_1: match_egg.team_1, team_2: match_egg.team_2 })
}

/// Creates a match from the roster `match_egg` under a freshly drawn label.
/// A drawn label that is already taken is not drawn again: the creation is
/// refused and nothing is written.
pub fn save_state(db: &mut Db, match_egg: MatchEgg) -> (r: Result<Match, ServerError>)
    requires
        old(db)@.wf(),
    ensures
        final(db)@.wf(),
        r matches Ok(m) ==> {
            &&& is_label(m.label@)
            &&& !old(db)@.has_match(m.label@)
            &&& m@ == echoed(m.label@, match_egg@)
            &&& final(db)@ == created(old(db)@, m.label@, match_egg@)
        },
        r matches Err(e) ==> {
            &&& e == ServerError::Persistence
            &&& final(db)@ == old(db)@
            &&& !has_room(old(db)@, match_egg@) || exists|l: Seq<char>| is_label(l) && old(db)@.has_match(l)
        },
{
    let label = generate_label();
    create_match(db, label, match_egg)
}

/// Reads the match `label` back from the store: its three rosters, each in
/// insertion order. An unknown label fails with `NotFound`.
pub fn get_match(db: &Db, label: String) -> (r: Result<Match, ServerError>)
    ensures
        r is Ok <==> db@.has_match(label@),
        r matches Ok(m) ==> read_match(db@, label@) == Some(m@),
        r matches Err(e) ==> e == ServerError::NotFound && read_match(db@, label@) is None,
{
    if crate::matches::get_match(db, &label).is_none() {
        return Err(ServerError::NotFound);
    }
    let free_players = players::get_free_players(db, &label);
    let team_1 = teams::get_team_one(db, &label);
    let team_2 = teams::get_team_two(db, &label);
    Ok(Match { label, players: free_players, team_1, team_2 })
}

} // verus!
