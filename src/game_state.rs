use vstd::prelude::*;

verus! {

/// A player as it is submitted and stored: name, rating and optional avatar.
#[derive(Debug)]
pub struct Player {
    pub name: String,
    pub elo: i32,
    pub avatar: Option<String>,
}

/// The mathematical value of a `Player`.
pub ghost struct PlayerView {
    pub name: Seq<char>,
    pub elo: i32,
    pub avatar: Option<Seq<char>>,
}

impl View for Player {
    type V = PlayerView;

    open spec fn view(&self) -> PlayerView {
        PlayerView {
            name: self.name@,
            elo: self.elo,
            avatar: match self.avatar {
                Some(a) => Some(a@),
                None => None,
            },
        }
    }
}

impl Clone for Player {
    fn clone(&self) -> (r: Self)
        ensures
            r == *self,
    {
        let avatar = match &self.avatar {
            Some(a) => Some(a.clone()),
            None => None,
        };
        Player { name: self.name.clone(), elo: self.elo, avatar }
    }
}

/// The views of a sequence of players, in order.
pub open spec fn players_view(s: Seq<Player>) -> Seq<PlayerView> {
    s.map_values(|p: Player| p@)
}

/// Copies a list of players, keeping their order.
pub fn clone_players(v: &Vec<Player>) -> (r: Vec<Player>)
    ensures
        r@ == v@,
{
    let mut r: Vec<Player> = Vec::new();
    let mut i: usize = 0;
    while i < v.len()
        invariant
            i <= v.len(),
            r@ == v@.subrange(0, i as int),
        decreases v.len() - i,
    {
        r.push(v[i].clone());
        i = i + 1;
        proof {
            assert(r@ =~= v@.subrange(0, i as int));
        }
    }
    proof {
        assert(r@ =~= v@);
    }
    r
}

/// A match as clients see it: its label and the three rosters.
#[derive(Debug)]
pub struct Match {
    pub label: String,
    pub players: Vec<Player>,
    pub team_1: Vec<Player>,
    pub team_2: Vec<Player>,
}

/// The mathematical value of a `Match`.
pub ghost struct MatchView {
    pub label: Seq<char>,
    pub players: Seq<PlayerView>,
    pub team_1: Seq<PlayerView>,
    pub team_2: Seq<PlayerView>,
}

impl View for Match {
    type V = MatchView;

    open spec fn view(&self) -> MatchView {
        MatchView {
            label: self.label@,
            players: players_view(self.players@),
            team_1: players_view(self.team_1@),
            team_2: players_view(self.team_2@),
        }
    }
}

/// The row of the match table: a label alone.
#[derive(Debug)]
pub struct MatchLabel {
    pub label: String,
}

/// A roster submitted for a new match: free players and the two teams.
#[derive(Debug)]
pub struct MatchEgg {
    pub players: Vec<Player>,
    pub team_1: Vec<Player>,
    pub team_2: Vec<Player>,
}

/// The mathematical value of a `MatchEgg`.
pub ghost struct MatchEggView {
    pub players: Seq<PlayerView>,
    pub team_1: Seq<PlayerView>,
    pub team_2: Seq<PlayerView>,
}

impl View for MatchEgg {
    type V = MatchEggView;

    open spec fn view(&self) -> MatchEggView {
        MatchEggView {
            players: players_view(self.players@),
            team_1: players_view(self.team_1@),
            team_2: players_view(self.team_2@),
        }
    }
}

} // verus!
