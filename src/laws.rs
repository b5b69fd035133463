use vstd::prelude::*;
use crate::db::{Category, DbView, RowView, joined};
use crate::game_state::{MatchEggView, MatchView, PlayerView};
use crate::match_resource::{created, echoed, has_room, new_rows, read_match};

verus! {

/// Joining a concatenation of tables joins each part in turn.
pub proof fn lemma_joined_concat(
    players: Seq<PlayerView>,
    a: Seq<RowView>,
    b: Seq<RowView>,
    label: Seq<char>,
)
    ensures
        joined(players, a + b, label) == joined(players, a, label) + joined(players, b, label),
    decreases b.len(),
{
    if b.len() == 0 {
        assert(a + b =~= a);
        assert(joined(players, a, label) + joined(players, b, label) =~= joined(players, a, label));
    } else {
        assert((a + b).drop_last() =~= a + b.drop_last());
        lemma_joined_concat(players, a, b.drop_last(), label);
        assert((a + b).last() == b.last());
        let ja = joined(players, a, label);
        let jb = joined(players, b.drop_last(), label);
        let row = b.last();
        if row.0 == label && 1 <= row.1 <= players.len() {
            assert(ja + jb.push(players[row.1 - 1]) =~= (ja + jb).push(players[row.1 - 1]));
        }
    }
}

/// A table with no row under `label` lists nobody under it.
pub proof fn lemma_joined_absent(players: Seq<PlayerView>, rows: Seq<RowView>, label: Seq<char>)
    requires
        forall|i: int| 0 <= i < rows.len() ==> (#[trigger] rows[i]).0 != label,
    ensures
        joined(players, rows, label) == Seq::<PlayerView>::empty(),
    decreases rows.len(),
{
    if rows.len() > 0 {
        assert(rows.last() == rows[rows.len() - 1]);
        lemma_joined_absent(players, rows.drop_last(), label);
    }
}

/// The rows made for a roster list exactly the players they were made for.
pub proof fn lemma_joined_new_rows(players: Seq<PlayerView>, label: Seq<char>, base: nat, n: nat)
    requires
        base + n <= players.len(),
        base + n <= u64::MAX,
    ensures
        joined(players, new_rows(label, base, n), label) == players.subrange(
            base as int,
            (base + n) as int,
        ),
    decreases n,
{
    if n == 0 {
        assert(players.subrange(base as int, base as int) =~= Seq::<PlayerView>::empty());
    } else {
        let m = (n - 1) as nat;
        assert(new_rows(label, base, n).drop_last() =~= new_rows(label, base, m));
        lemma_joined_new_rows(players, label, base, m);
        assert(players.subrange(base as int, (base + n) as int) =~= players.subrange(
            base as int,
            (base + m) as int,
        ).push(players[(base + n) - 1]));
    }
}

/// In a well-formed store, a label that has no match row has no relation
/// row either.
pub proof fn lemma_unknown_label_has_no_rows(d: DbView, cat: Category, label: Seq<char>)
    requires
        d.wf(),
        !d.has_match(label),
    ensures
        forall|i: int| 0 <= i < d.table(cat).len() ==> (#[trigger] d.table(cat)[i]).0 != label,
{
    assert forall|i: int| 0 <= i < d.table(cat).len() implies (#[trigger] d.table(cat)[i]).0
        != label by {
        assert(d.refers(d.table(cat)[i]));
    }
}

/// One roster of a new match, read back from the store after the creation.
proof fn lemma_roster_read_back(
    d: DbView,
    label: Seq<char>,
    egg: MatchEggView,
    cat: Category,
    base: nat,
    ps: Seq<PlayerView>,
)
    requires
        d.wf(),
        !d.has_match(label),
        has_room(d, egg),
        created(d, label, egg).table(cat) == d.table(cat) + new_rows(label, base, ps.len()),
        base + ps.len() <= created(d, label, egg).players.len(),
        created(d, label, egg).players.subrange(base as int, (base + ps.len()) as int) == ps,
    ensures
        created(d, label, egg).listed(cat, label) == ps,
{
    let e = created(d, label, egg);
    lemma_unknown_label_has_no_rows(d, cat, label);
    lemma_joined_concat(e.players, d.table(cat), new_rows(label, base, ps.len()), label);
    lemma_joined_absent(e.players, d.table(cat), label);
    lemma_joined_new_rows(e.players, label, base, ps.len());
    assert(Seq::<PlayerView>::empty() + ps =~= ps);
}

/// Round trip: once the match `label` is created from `egg` in a
/// well-formed store where the label was new, reading `label` gives back
/// exactly the submitted rosters, each in its submitted order.
pub proof fn lemma_round_trip(d: DbView, label: Seq<char>, egg: MatchEggView)
    requires
        d.wf(),
        !d.has_match(label),
        has_room(d, egg),
    ensures
        read_match(created(d, label, egg), label) == Some(echoed(label, egg)),
{
    let e = created(d, label, egg);
    let n0 = d.players.len();
    let nf = egg.players.len();
    let n1 = egg.team_1.len();
    let n2 = egg.team_2.len();
    assert(e.players =~= d.players + egg.players + egg.team_1 + egg.team_2);
    assert(e.matches == d.matches.push(label));
    assert(e.matches[e.matches.len() - 1] == label);
    assert(e.players.subrange(n0 as int, (n0 + nf) as int) =~= egg.players);
    assert(e.players.subrange((n0 + nf) as int, (n0 + nf + n1) as int) =~= egg.team_1);
    assert(e.players.subrange((n0 + nf + n1) as int, (n0 + nf + n1 + n2) as int) =~= egg.team_2);
    lemma_roster_read_back(d, label, egg, Category::Free, n0, egg.players);
    lemma_roster_read_back(d, label, egg, Category::TeamOne, (n0 + nf) as nat, egg.team_1);
    lemma_roster_read_back(d, label, egg, Category::TeamTwo, (n0 + nf + n1) as nat, egg.team_2);
}

/// Not found: in the empty store no label is found, and creating one match
/// does not make any other unknown label found.
pub proof fn lemma_unissued_label_not_found(d: DbView, label: Seq<char>, egg: MatchEggView, other: Seq<char>)
    requires
        other != label,
        !d.has_match(other),
    ensures
        read_match(DbView::empty(), other) is None,
        read_match(created(d, label, egg), other) is None,
{
    let e = created(d, label, egg);
    assert(e.matches == d.matches.push(label));
    if e.matches.contains(other) {
        let j = choose|j: int| 0 <= j < e.matches.len() && e.matches[j] == other;
        assert(j < d.matches.len());
        assert(d.matches[j] == other);
    }
}

/// Category isolation: a player submitted in the first team, and in no
/// other roster of the same match, is listed neither among the free players
/// nor in the second team when the match is read back.
pub proof fn lemma_category_isolation(d: DbView, label: Seq<char>, egg: MatchEggView, p: PlayerView)
    requires
        d.wf(),
        !d.has_match(label),
        has_room(d, egg),
        egg.team_1.contains(p),
        !egg.players.contains(p),
        !egg.team_2.contains(p),
    ensures
        read_match(created(d, label, egg), label) matches Some(v) && v.team_1.contains(p)
            && !v.players.contains(p) && !v.team_2.contains(p),
{
    lemma_round_trip(d, label, egg);
}

/// Identical reads: a store answers every read of a label with one and the
/// same view.
pub proof fn lemma_identical_reads(d: DbView, label: Seq<char>, a: MatchView, b: MatchView)
    requires
        read_match(d, label) == Some(a),
        read_match(d, label) == Some(b),
    ensures
        a == b,
{
}

/// Extending the player table does not change a join whose rows all point
/// into the old table.
pub proof fn lemma_joined_extend(players: Seq<PlayerView>, more: Seq<PlayerView>, rows: Seq<RowView>, label: Seq<char>)
    requires
        forall|i: int| 0 <= i < rows.len() ==> 1 <= (#[trigger] rows[i]).1 <= players.len(),
    ensures
        joined(players + more, rows, label) == joined(players, rows, label),
    decreases rows.len(),
{
    if rows.len() > 0 {
        assert(rows.last() == rows[rows.len() - 1]);
        lemma_joined_extend(players, more, rows.drop_last(), label);
        let row = rows.last();
        assert((players + more)[row.1 - 1] == players[row.1 - 1]);
    }
}

/// A stored roster is not changed by the creation of another match.
proof fn lemma_roster_kept(d: DbView, label: Seq<char>, egg: MatchEggView, other: Seq<char>, cat: Category, base: nat, n: nat)
    requires
        d.wf(),
        other != label,
        created(d, label, egg).table(cat) == d.table(cat) + new_rows(label, base, n),
        created(d, label, egg).players == d.players + (egg.players + egg.team_1 + egg.team_2),
    ensures
        created(d, label, egg).listed(cat, other) == d.listed(cat, other),
{
    let e = created(d, label, egg);
    let fresh = new_rows(label, base, n);
    lemma_joined_concat(e.players, d.table(cat), fresh, other);
    assert forall|i: int| 0 <= i < fresh.len() implies (#[trigger] fresh[i]).0 != other by {}
    lemma_joined_absent(e.players, fresh, other);
    assert forall|i: int| 0 <= i < d.table(cat).len() implies 1 <= (#[trigger] d.table(cat)[i]).1
        <= d.players.len() by {
        assert(d.refers(d.table(cat)[i]));
    }
    lemma_joined_extend(d.players, egg.players + egg.team_1 + egg.team_2, d.table(cat), other);
    assert(joined(e.players, d.table(cat), other) + Seq::<PlayerView>::empty() =~= joined(
        e.players,
        d.table(cat),
        other,
    ));
}

/// Stable reads: creating a new match leaves the view of every match that
/// was already stored exactly as it was.
pub proof fn lemma_creation_keeps_other_matches(d: DbView, label: Seq<char>, egg: MatchEggView, other: Seq<char>)
    requires
        d.wf(),
        !d.has_match(label),
        d.has_match(other),
    ensures
        read_match(created(d, label, egg), other) == read_match(d, other),
{
    let e = created(d, label, egg);
    let n0 = d.players.len();
    let nf = egg.players.len();
    let n1 = egg.team_1.len();
    assert(e.players =~= d.players + (egg.players + egg.team_1 + egg.team_2));
    assert(e.matches == d.matches.push(label));
    let j = choose|j: int| 0 <= j < d.matches.len() && d.matches[j] == other;
    assert(e.matches[j] == other);
    lemma_roster_kept(d, label, egg, other, Category::Free, n0, nf);
    lemma_roster_kept(d, label, egg, other, Category::TeamOne, (n0 + nf) as nat, n1);
    lemma_roster_kept(d, label, egg, other, Category::TeamTwo, (n0 + nf + n1) as nat, egg.team_2.len());
}

/// Empty roster: a match created from three empty lists in a well-formed
/// store where its label is new is read back with three empty lists.
pub proof fn lemma_empty_roster(d: DbView, label: Seq<char>)
    requires
        d.wf(),
        !d.has_match(label),
    ensures
        has_room(d, MatchEggView { players: Seq::empty(), team_1: Seq::empty(), team_2: Seq::empty() }),
        read_match(
            created(d, label, MatchEggView { players: Seq::empty(), team_1: Seq::empty(), team_2: Seq::empty() }),
            label,
        ) == Some(MatchView { label, players: Seq::empty(), team_1: Seq::empty(), team_2: Seq::empty() }),
{
    let egg = MatchEggView { players: Seq::empty(), team_1: Seq::empty(), team_2: Seq::empty() };
    lemma_round_trip(d, label, egg);
}

} // verus!
