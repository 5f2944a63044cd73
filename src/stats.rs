use vstd::prelude::*;
use crate::model::{GameView, JeuVideo};

verus! {

/// Totals over a collection of records. The average score is
/// `score_total / nb_scores`, and is absent when `nb_scores` is zero.
#[derive(Debug)]
pub struct GameStats {
    pub total_jeux: usize,
    pub temps_total_centiemes: i128,
    pub jeux_termines: usize,
    pub score_total: i128,
    pub nb_scores: usize,
}

/// Sum of the play times, in hundredths of an hour; a record without one adds nothing.
pub open spec fn hours_sum(s: Seq<GameView>) -> int
    decreases s.len(),
{
    if s.len() == 0 {
        0
    } else {
        hours_sum(s.drop_last()) + match s.last().temps_jeu_centiemes {
            Some(h) => h as int,
            None => 0,
        }
    }
}

/// Number of records marked as completed.
pub open spec fn completed_count(s: Seq<GameView>) -> int
    decreases s.len(),
{
    if s.len() == 0 {
        0
    } else {
        completed_count(s.drop_last()) + if s.last().termine {
            1int
        } else {
            0int
        }
    }
}

/// Sum of the review scores that are present.
pub open spec fn score_sum(s: Seq<GameView>) -> int
    decreases s.len(),
{
    if s.len() == 0 {
        0
    } else {
        score_sum(s.drop_last()) + match s.last().metacritic_score {
            Some(v) => v as int,
            None => 0,
        }
    }
}

/// Number of records that carry a review score.
pub open spec fn scored_count(s: Seq<GameView>) -> int
    decreases s.len(),
{
    if s.len() == 0 {
        0
    } else {
        scored_count(s.drop_last()) + if s.last().metacritic_score is Some {
            1int
        } else {
            0int
        }
    }
}

impl GameStats {
    /// The totals describe exactly the records of `s`.
    pub open spec fn describes(&self, s: Seq<GameView>) -> bool {
        &&& self.total_jeux == s.len()
        &&& self.temps_total_centiemes == hours_sum(s)
        &&& self.jeux_termines == completed_count(s)
        &&& self.score_total == score_sum(s)
        &&& self.nb_scores == scored_count(s)
    }

    /// Whether an average score exists: some record carries a score.
    pub fn has_average(&self) -> (r: bool)
        ensures
            r == (self.nb_scores > 0),
    {
        self.nb_scores > 0
    }
}

proof fn lemma_counts_bounded(s: Seq<GameView>)
    ensures
        0 <= completed_count(s) <= s.len(),
        0 <= scored_count(s) <= s.len(),
        -(s.len() as int) * 0x8000_0000_0000_0000 <= hours_sum(s) <= (s.len() as int)
            * 0x8000_0000_0000_0000,
        -(s.len() as int) * 0x8000_0000 <= score_sum(s) <= (s.len() as int) * 0x8000_0000,
    decreases s.len(),
{
    if s.len() > 0 {
        lemma_counts_bounded(s.drop_last());
    }
}

/// Computes the totals over a collection of records.
pub fn compute_stats(games: &Vec<JeuVideo>) -> (r: GameStats)
    ensures
        r.describes(games@.map_values(|g: JeuVideo| g@)),
{
    let ghost all = games@.map_values(|g: JeuVideo| g@);
    let mut hours: i128 = 0;
    let mut done: usize = 0;
    let mut scores: i128 = 0;
    let mut scored: usize = 0;
    let mut i: usize = 0;
    while i < games.len()
        invariant
            0 <= i <= games.len(),
            all == games@.map_values(|g: JeuVideo| g@),
            hours == hours_sum(all.subrange(0, i as int)),
            done == completed_count(all.subrange(0, i as int)),
            scores == score_sum(all.subrange(0, i as int)),
            scored == scored_count(all.subrange(0, i as int)),
        decreases games.len() - i,
    {
        let ghost pre = all.subrange(0, i as int);
        let ghost next = all.subrange(0, i + 1);
        proof {
            assert(next.drop_last() =~= pre);
            assert(next.last() == games@[i as int]@);
            lemma_counts_bounded(pre);
            assert(i < usize::MAX);
        }
        let g = &games[i];
        match g.temps_jeu_centiemes {
            Some(h) => {
                hours = hours + h as i128;
            },
            None => {},
        }
        if g.termine {
            done = done + 1;
        }
        match g.metacritic_score {
            Some(v) => {
                scores = scores + v as i128;
                scored = scored + 1;
            },
            None => {},
        }
        i = i + 1;
    }
    assert(all.subrange(0, games.len() as int) =~= all);
    GameStats {
        total_jeux: games.len(),
        temps_total_centiemes: hours,
        jeux_termines: done,
        score_total: scores,
        nb_scores: scored,
    }
}

/// An empty collection has every total at zero and no average score.
pub proof fn law_stats_of_empty(st: GameStats)
    requires
        st.describes(Seq::empty()),
    ensures
        st.total_jeux == 0,
        st.temps_total_centiemes == 0,
        st.jeux_termines == 0,
        st.nb_scores == 0,
{
}

} // verus!
