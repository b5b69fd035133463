use vstd::prelude::*;
use crate::game_state::{Player, PlayerView, players_view};

verus! {

/// The relation tables that place a player in a match, one per roster.
#[derive(Debug, Clone, Copy, PartialEq, Eq, Structural)]
pub enum Category {
    Free,
    TeamOne,
    TeamTwo,
}

/// A row of a relation table: a match label and a player identifier.
#[derive(Debug)]
pub struct Association {
    pub match_label: String,
    pub player_id: u64,
}

/// The view of a relation row.
pub type RowView = (Seq<char>, u64);

/// The view of a relation table, row by row.
pub open spec fn rows_view(s: Seq<Association>) -> Seq<RowView> {
    s.map_values(|a: Association| (a.match_label@, a.player_id))
}

#[verifier::ext_equal]
/// The four tables as mathematical values. The player with identifier `k`
/// is `players[k - 1]`: identifiers are assigned 1, 2, 3, ... in order.
pub ghost struct DbView {
    pub matches: Seq<Seq<char>>,
    pub players: Seq<PlayerView>,
    pub free_players: Seq<RowView>,
    pub team_1: Seq<RowView>,
    pub team_2: Seq<RowView>,
}

/// The players that the rows of `rows` with label `label` point to, in row
/// order; a row whose identifier names no player is skipped, as in an inner
/// join.
pub open spec fn joined(players: Seq<PlayerView>, rows: Seq<RowView>, label: Seq<char>) -> Seq<
    PlayerView,
>
    decreases rows.len(),
{
    if rows.len() == 0 {
        Seq::empty()
    } else {
        let prev = joined(players, rows.drop_last(), label);
        let row = rows.last();
        if row.0 == label && 1 <= row.1 <= players.len() {
            prev.push(players[row.1 - 1])
        } else {
            prev
        }
    }
}

impl DbView {
    pub open spec fn empty() -> DbView {
        DbView {
            matches: Seq::empty(),
            players: Seq::empty(),
            free_players: Seq::empty(),
            team_1: Seq::empty(),
            team_2: Seq::empty(),
        }
    }

    pub open spec fn table(self, cat: Category) -> Seq<RowView> {
        match cat {
            Category::Free => self.free_players,
            Category::TeamOne => self.team_1,
            Category::TeamTwo => self.team_2,
        }
    }

    pub open spec fn with_table(self, cat: Category, t: Seq<RowView>) -> DbView {
        match cat {
            Category::Free => DbView { free_players: t, ..self },
            Category::TeamOne => DbView { team_1: t, ..self },
            Category::TeamTwo => DbView { team_2: t, ..self },
        }
    }

    pub open spec fn has_match(self, label: Seq<char>) -> bool {
        self.matches.contains(label)
    }

    /// Whether a row points to a stored match and a stored player.
    pub open spec fn refers(self, row: RowView) -> bool {
        self.has_match(row.0) && 1 <= row.1 <= self.players.len()
    }

    /// No two match rows share a label, every relation row refers to a
    /// stored match and a stored player, and every player identifier fits in
    /// a `u64`.
    pub open spec fn wf(self) -> bool {
        &&& forall|i: int, j: int|
            0 <= i < j < self.matches.len() ==> self.matches[i] != self.matches[j]
        &&& self.players.len() <= u64::MAX
        &&& forall|cat: Category, i: int|
            0 <= i < self.table(cat).len() ==> self.refers(#[trigger] self.table(cat)[i])
    }

    /// The players listed under `label` in the table of `cat`.
    pub open spec fn listed(self, cat: Category, label: Seq<char>) -> Seq<PlayerView> {
        joined(self.players, self.table(cat), label)
    }

    pub open spec fn with_match(self, label: Seq<char>) -> DbView {
        DbView { matches: self.matches.push(label), ..self }
    }

    pub open spec fn with_player(self, p: PlayerView) -> DbView {
        DbView { players: self.players.push(p), ..self }
    }

    pub open spec fn with_row(self, cat: Category, row: RowView) -> DbView {
        self.with_table(cat, self.table(cat).push(row))
    }
}

/// Appending a row that refers to stored entries keeps the store well formed.
pub proof fn lemma_with_row_wf(d: DbView, cat: Category, row: RowView)
    requires
        d.wf(),
        d.refers(row),
    ensures
        d.with_row(cat, row).wf(),
{
    let e = d.with_row(cat, row);
    assert forall|c: Category, i: int| 0 <= i < e.table(c).len() implies e.refers(
        #[trigger] e.table(c)[i],
    ) by {
        if c == cat && i == d.table(cat).len() {
        } else {
            assert(e.table(c)[i] == d.table(c)[i]);
        }
    }
}

/// The four tables of the store, kept in memory: matches, players, and the
/// three relation tables that place players in matches. The relation tables
/// do not test their rows themselves: the functions that insert a row ask
/// the caller for a stored match and a stored player.
pub struct Db {
    matches: Vec<String>,
    players: Vec<Player>,
    free_players: Vec<Association>,
    team_1: Vec<Association>,
    team_2: Vec<Association>,
}

impl View for Db {
    type V = DbView;

    closed spec fn view(&self) -> DbView {
        DbView {
            matches: self.matches@.map_values(|s: String| s@),
            players: players_view(self.players@),
            free_players: rows_view(self.free_players@),
            team_1: rows_view(self.team_1@),
            team_2: rows_view(self.team_2@),
        }
    }
}

impl Db {
    /// A store with four empty tables.
    pub fn new() -> (r: Db)
        ensures
            r@ == DbView::empty(),
            r@.wf(),
    {
        let r = Db {
            matches: Vec::new(),
            players: Vec::new(),
            free_players: Vec::new(),
            team_1: Vec::new(),
            team_2: Vec::new(),
        };
        proof {
            assert(r@.matches =~= Seq::empty());
            assert(r@.players =~= Seq::empty());
            assert(r@.free_players =~= Seq::empty());
            assert(r@.team_1 =~= Seq::empty());
            assert(r@.team_2 =~= Seq::empty());
        }
        r
    }

    /// Number of rows in the player table.
    pub fn player_count(&self) -> (n: usize)
        ensures
            n == self@.players.len(),
    {
        self.players.len()
    }

    /// Whether a match row with this label is stored.
    pub fn has_match(&self, label: &String) -> (b: bool)
        ensures
            b == self@.has_match(label@),
    {
        let mut i: usize = 0;
        while i < self.matches.len()
            invariant
                i <= self.matches@.len(),
                forall|j: int| 0 <= j < i ==> self.matches@[j]@ != label@,
            decreases self.matches.len() - i,
        {
            if self.matches[i] == *label {
                proof {
                    assert(self@.matches[i as int] == label@);
                }
                return true;
            }
            i = i + 1;
        }
        proof {
            if self@.matches.contains(label@) {
                let j = choose|j: int| 0 <= j < self@.matches.len() && self@.matches[j] == label@;
                assert(self.matches@[j]@ == label@);
            }
        }
        false
    }

    /// Appends a row to the match table.
    pub(crate) fn push_match(&mut self, label: String)
        ensures
            final(self)@ == old(self)@.with_match(label@),
    {
        self.matches.push(label);
        proof {
            assert(self@.matches =~= old(self)@.matches.push(label@));
        }
    }

    /// Appends a row to the player table and returns the identifier it was
    /// given: one more than the number of rows before.
    pub(crate) fn push_player(&mut self, player: Player) -> (id: u64)
        requires
            old(self)@.players.len() < u64::MAX,
        ensures
            id == old(self)@.players.len() + 1,
            final(self)@ == old(self)@.with_player(player@),
    {
        self.players.push(player);
        proof {
            assert(self@.players =~= old(self)@.players.push(player@));
        }
        self.players.len() as u64
    }

    /// Appends a row to the relation table of `cat`.
    pub(crate) fn push_row(&mut self, cat: Category, label: String, player_id: u64)
        ensures
            final(self)@ == old(self)@.with_row(cat, (label@, player_id)),
    {
        let row = Association { match_label: label, player_id };
        match cat {
            Category::Free => {
                self.free_players.push(row);
                proof {
                    assert(self@.free_players =~= old(self)@.free_players.push((label@, player_id)));
                }
            },
            Category::TeamOne => {
                self.team_1.push(row);
                proof {
                    assert(self@.team_1 =~= old(self)@.team_1.push((label@, player_id)));
                }
            },
            Category::TeamTwo => {
                self.team_2.push(row);
                proof {
                    assert(self@.team_2 =~= old(self)@.team_2.push((label@, player_id)));
                }
            },
        }
    }

    fn rows_of(&self, cat: Category) -> (t: &Vec<Association>)
        ensures
            rows_view(t@) == self@.table(cat),
    {
        match cat {
            Category::Free => &self.free_players,
            Category::TeamOne => &self.team_1,
            Category::TeamTwo => &self.team_2,
        }
    }

    /// The players that the table of `cat` lists under `label`, in the order
    /// in which their rows were inserted.
    pub fn list_players(&self, cat: Category, label: &String) -> (r: Vec<Player>)
        ensures
            players_view(r@) == self@.listed(cat, label@),
    {
        let rows = self.rows_of(cat);
        let mut r: Vec<Player> = Vec::new();
        let mut i: usize = 0;
        while i < rows.len()
            invariant
                i <= rows@.len(),
                rows_view(rows@) == self@.table(cat),
                players_view(r@) == joined(self@.players, rows_view(rows@).subrange(0, i as int), label@),
            decreases rows.len() - i,
        {
            let row = &rows[i];
            let ghost prefix = rows_view(rows@).subrange(0, i as int);
            proof {
                assert(rows_view(rows@).subrange(0, i + 1).drop_last() =~= prefix);
            }
            if row.match_label == *label && 1 <= row.player_id && row.player_id <= self.players.len() as u64 {
                let k = (row.player_id - 1) as usize;
                let p = self.players[k].clone();
                let ghost before = r@;
                r.push(p);
                proof {
                    assert(players_view(r@) =~= players_view(before).push(p@));
                }
            }
            i = i + 1;
        }
        proof {
            assert(rows_view(rows@).subrange(0, rows@.len() as int) =~= rows_view(rows@));
        }
        r
    }
}

} // verus!
