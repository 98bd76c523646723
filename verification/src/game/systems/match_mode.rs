//! Round and score bookkeeping of the team bot match.
//!
//! Round flow: Warmup (freeze, countdown) → Live → RoundOver (banner, pause)
//! → next round in Warmup. The first team to `rounds_to_win` wins the match;
//! the scores then reset. Timers, positions and combat stay with the engine,
//! which reports their outcomes here.

use crate::game::systems::buy_menu::{ROUND_LOSS_REWARD, ROUND_WIN_REWARD};
use crate::game::team::Team;
use crate::text::{decimal, pad_left, pad_right, push_decimal_right, push_str_left};
use vstd::string::StringExecFns;
use vstd::prelude::*;

verus! {

/// Row index of the human player in `MatchState::stats`.
pub const PLAYER_STAT: usize = 0;

#[derive(Debug, Clone, Copy, PartialEq, Eq, Structural)]
pub enum RoundPhase {
    Warmup,
    Live,
    RoundOver { winner: Team },
}

/// One scoreboard row.
#[derive(Debug, Clone)]
pub struct StatEntry {
    pub name: String,
    pub team: Team,
    pub kills: u32,
    pub deaths: u32,
}

/// Where the C4 objective stands within the current round.
#[derive(Debug, Clone, Copy, PartialEq, Eq, Structural)]
pub enum BombStatus {
    Idle,
    Planted,
    /// Exploded or defused this round.
    Resolved,
}

/// What the end of a round announces.
#[derive(Debug, Clone, Copy, PartialEq, Eq, Structural)]
pub enum Announcement {
    /// Alpha reached the rounds needed; carries the final score.
    MatchWon(u32, u32),
    /// Bravo reached the rounds needed; carries the final score.
    MatchLost(u32, u32),
    RoundWon,
    RoundLost,
}

/// Result of scoring a round: the player's money reward and the banner.
#[derive(Debug, Clone, Copy, PartialEq, Eq, Structural)]
pub struct RoundAward {
    pub reward: u32,
    pub announcement: Announcement,
}

/// Match-wide round and score state.
#[derive(Debug)]
pub struct MatchState {
    pub phase: RoundPhase,
    pub score_alpha: u32,
    pub score_bravo: u32,
    pub rounds_to_win: u32,
    pub round_number: u32,
    /// True while the player is dead and spectating until the round ends.
    pub player_spectating: bool,
    pub bomb: BombStatus,
    /// Scoreboard rows; index 0 is the player.
    pub stats: Vec<StatEntry>,
}

/// The winner of a round given who is still standing: a wiped Bravo side
/// loses; a wiped Alpha side (player included) loses unless the bomb is
/// planted, in which case the fuse decides.
pub open spec fn spec_round_winner(alpha_bots_alive: u32, bravo_alive: u32, player_alive: bool, bomb_planted: bool) -> Option<Team> {
    if bravo_alive == 0 {
        Some(Team::Alpha)
    } else if alpha_bots_alive == 0 && !player_alive && !bomb_planted {
        Some(Team::Bravo)
    } else {
        None
    }
}

pub fn round_winner(alpha_bots_alive: u32, bravo_alive: u32, player_alive: bool, bomb_planted: bool) -> (w: Option<Team>)
    ensures
        w == spec_round_winner(alpha_bots_alive, bravo_alive, player_alive, bomb_planted),
{
    if bravo_alive == 0 {
        Some(Team::Alpha)
    } else if alpha_bots_alive == 0 && !player_alive && !bomb_planted {
        Some(Team::Bravo)
    } else {
        None
    }
}

/// Scores after `winner` takes a round.
pub open spec fn scored(a: u32, b: u32, winner: Team) -> (int, int) {
    match winner {
        Team::Alpha => (a + 1, b as int),
        Team::Bravo => (a as int, b + 1),
    }
}

/// The award for a round won by `winner` that left the score at (`a`, `b`).
pub open spec fn award_for(a: u32, b: u32, needed: u32, winner: Team) -> RoundAward {
    RoundAward {
        reward: match winner {
            Team::Alpha => ROUND_WIN_REWARD,
            Team::Bravo => ROUND_LOSS_REWARD,
        },
        announcement: if a >= needed {
            Announcement::MatchWon(a, b)
        } else if b >= needed {
            Announcement::MatchLost(a, b)
        } else {
            match winner {
                Team::Alpha => Announcement::RoundWon,
                Team::Bravo => Announcement::RoundLost,
            }
        },
    }
}

impl MatchState {
    /// Scores never pass the target, and outside the round-over banner
    /// neither side has reached it yet.
    pub open spec fn wf(&self) -> bool {
        &&& self.rounds_to_win >= 1
        &&& self.score_alpha <= self.rounds_to_win
        &&& self.score_bravo <= self.rounds_to_win
        &&& !(self.phase is RoundOver) ==> self.score_alpha < self.rounds_to_win && self.score_bravo < self.rounds_to_win
    }

    pub fn new(rounds_to_win: u32, stats: Vec<StatEntry>) -> (m: Self)
        ensures
            m.wf(),
            m.phase == RoundPhase::Warmup,
            m.score_alpha == 0,
            m.score_bravo == 0,
            m.rounds_to_win == if rounds_to_win >= 1 { rounds_to_win } else { 1 },
            m.round_number == 1,
            !m.player_spectating,
            m.bomb == BombStatus::Idle,
            m.stats@ == stats@,
    {
        MatchState {
            phase: RoundPhase::Warmup,
            score_alpha: 0,
            score_bravo: 0,
            rounds_to_win: if rounds_to_win >= 1 { rounds_to_win } else { 1 },
            round_number: 1,
            player_spectating: false,
            bomb: BombStatus::Idle,
            stats,
        }
    }

    /// Warmup is over: the round goes live.
    pub fn start_live(&mut self)
        requires
            old(self).wf(),
        ensures
            final(self).wf(),
            final(self).phase == (if old(self).phase == RoundPhase::Warmup { RoundPhase::Live } else { old(self).phase }),
            final(self).score_alpha == old(self).score_alpha,
            final(self).score_bravo == old(self).score_bravo,
            final(self).rounds_to_win == old(self).rounds_to_win,
            final(self).round_number == old(self).round_number,
            final(self).player_spectating == old(self).player_spectating,
            final(self).bomb == old(self).bomb,
            final(self).stats@ == old(self).stats@,
    {
        if self.phase == RoundPhase::Warmup {
            self.phase = RoundPhase::Live;
        }
    }

    /// Score the round for `winner` and report the reward and banner. A round
    /// that is already over is not scored twice (`None`, nothing changes).
    pub fn award_round(&mut self, winner: Team) -> (r: Option<RoundAward>)
        requires
            old(self).wf(),
        ensures
            final(self).wf(),
            final(self).rounds_to_win == old(self).rounds_to_win,
            final(self).round_number == old(self).round_number,
            final(self).player_spectating == old(self).player_spectating,
            final(self).bomb == old(self).bomb,
            final(self).stats@ == old(self).stats@,
            old(self).phase is RoundOver ==> {
                &&& r is None
                &&& final(self).phase == old(self).phase
                &&& final(self).score_alpha == old(self).score_alpha
                &&& final(self).score_bravo == old(self).score_bravo
            },
            !(old(self).phase is RoundOver) ==> {
                let (a, b) = scored(old(self).score_alpha, old(self).score_bravo, winner);
                &&& final(self).phase == RoundPhase::RoundOver { winner }
                &&& final(self).score_alpha == a
                &&& final(self).score_bravo == b
                &&& r == Some(award_for(a as u32, b as u32, old(self).rounds_to_win, winner))
            },
    {
        if let RoundPhase::RoundOver { .. } = self.phase {
            return None;
        }
        match winner {
            Team::Alpha => self.score_alpha = self.score_alpha + 1,
            Team::Bravo => self.score_bravo = self.score_bravo + 1,
        }
        self.phase = RoundPhase::RoundOver { winner };
        let (a, b, needed) = (self.score_alpha, self.score_bravo, self.rounds_to_win);
        let reward = match winner {
            Team::Alpha => ROUND_WIN_REWARD,
            Team::Bravo => ROUND_LOSS_REWARD,
        };
        let announcement = if a >= needed {
            Announcement::MatchWon(a, b)
        } else if b >= needed {
            Announcement::MatchLost(a, b)
        } else {
            match winner {
                Team::Alpha => Announcement::RoundWon,
                Team::Bravo => Announcement::RoundLost,
            }
        };
        Some(RoundAward { reward, announcement })
    }

    /// Whether the series is decided (one side reached the target).
    pub open spec fn spec_series_over(&self) -> bool {
        self.score_alpha >= self.rounds_to_win || self.score_bravo >= self.rounds_to_win
    }

    /// Reset for the next round: the objective clears, the player is back in
    /// play, and after a decided series the scores start over at round 1.
    pub fn start_next_round(&mut self)
        requires
            old(self).wf(),
            old(self).round_number < u32::MAX,
        ensures
            final(self).wf(),
            final(self).phase == RoundPhase::Warmup,
            final(self).bomb == BombStatus::Idle,
            !final(self).player_spectating,
            final(self).rounds_to_win == old(self).rounds_to_win,
            final(self).stats@ == old(self).stats@,
            old(self).spec_series_over() ==> {
                &&& final(self).score_alpha == 0
                &&& final(self).score_bravo == 0
                &&& final(self).round_number == 1
            },
            !old(self).spec_series_over() ==> {
                &&& final(self).score_alpha == old(self).score_alpha
                &&& final(self).score_bravo == old(self).score_bravo
                &&& final(self).round_number == old(self).round_number + 1
            },
    {
        self.bomb = BombStatus::Idle;
        if self.score_alpha >= self.rounds_to_win || self.score_bravo >= self.rounds_to_win {
            self.score_alpha = 0;
            self.score_bravo = 0;
            self.round_number = 0;
        }
        self.round_number = self.round_number + 1;
        self.phase = RoundPhase::Warmup;
        self.player_spectating = false;
    }

    /// The bomb has been planted (only an idle objective can be planted).
    pub fn plant_bomb(&mut self) -> (planted: bool)
        ensures
            planted == (old(self).bomb == BombStatus::Idle && !old(self).player_spectating),
            final(self).bomb == (if planted { BombStatus::Planted } else { old(self).bomb }),
            final(self).phase == old(self).phase,
            final(self).score_alpha == old(self).score_alpha,
            final(self).score_bravo == old(self).score_bravo,
            final(self).rounds_to_win == old(self).rounds_to_win,
            final(self).round_number == old(self).round_number,
            final(self).player_spectating == old(self).player_spectating,
            final(self).stats@ == old(self).stats@,
    {
        if self.bomb == BombStatus::Idle && !self.player_spectating {
            self.bomb = BombStatus::Planted;
            true
        } else {
            false
        }
    }

    /// A planted bomb was defused (Bravo takes the round) or exploded (Alpha
    /// takes it). Without a planted bomb nothing happens.
    pub fn resolve_bomb(&mut self, defused: bool) -> (r: Option<RoundAward>)
        requires
            old(self).wf(),
        ensures
            final(self).wf(),
            old(self).bomb != BombStatus::Planted ==> r is None && final(self).bomb == old(self).bomb
                && final(self).phase == old(self).phase
                && final(self).score_alpha == old(self).score_alpha
                && final(self).score_bravo == old(self).score_bravo,
            old(self).bomb == BombStatus::Planted ==> {
                let winner = if defused { Team::Bravo } else { Team::Alpha };
                &&& final(self).bomb == BombStatus::Resolved
                &&& !(old(self).phase is RoundOver) ==> {
                    let (a, b) = scored(old(self).score_alpha, old(self).score_bravo, winner);
                    &&& final(self).phase == RoundPhase::RoundOver { winner }
                    &&& final(self).score_alpha == a
                    &&& final(self).score_bravo == b
                    &&& r == Some(award_for(a as u32, b as u32, old(self).rounds_to_win, winner))
                }
                &&& old(self).phase is RoundOver ==> r is None && final(self).phase == old(self).phase
                    && final(self).score_alpha == old(self).score_alpha
                    && final(self).score_bravo == old(self).score_bravo
            },
            final(self).rounds_to_win == old(self).rounds_to_win,
            final(self).round_number == old(self).round_number,
            final(self).player_spectating == old(self).player_spectating,
            final(self).stats@ == old(self).stats@,
    {
        if self.bomb != BombStatus::Planted {
            return None;
        }
        self.bomb = BombStatus::Resolved;
        self.award_round(if defused { Team::Bravo } else { Team::Alpha })
    }
}

/// Bots may only move while a round is live; without a match they always may.
pub fn movement_allowed(state: Option<&MatchState>) -> (b: bool)
    ensures
        b == match state {
            Some(s) => s.phase == RoundPhase::Live,
            None => true,
        },
{
    match state {
        Some(s) => s.phase == RoundPhase::Live,
        None => true,
    }
}

/// `stats` with one more kill on row `row`, when the row exists.
pub open spec fn add_kill(stats: Seq<StatEntry>, row: int) -> Seq<StatEntry> {
    if 0 <= row < stats.len() {
        stats.update(row, StatEntry { kills: (stats[row].kills + 1) as u32, ..stats[row] })
    } else {
        stats
    }
}

/// `stats` with one more death on row `row`, when the row exists.
pub open spec fn add_death(stats: Seq<StatEntry>, row: int) -> Seq<StatEntry> {
    if 0 <= row < stats.len() {
        stats.update(row, StatEntry { deaths: (stats[row].deaths + 1) as u32, ..stats[row] })
    } else {
        stats
    }
}

/// Row `row`, if it exists, can take one more kill.
pub open spec fn kill_countable(stats: Seq<StatEntry>, row: int) -> bool {
    0 <= row < stats.len() ==> stats[row].kills < u32::MAX
}

/// Row `row`, if it exists, can take one more death.
pub open spec fn death_countable(stats: Seq<StatEntry>, row: int) -> bool {
    0 <= row < stats.len() ==> stats[row].deaths < u32::MAX
}

fn bump_kills(stats: &mut Vec<StatEntry>, row: usize)
    requires
        kill_countable(old(stats)@, row as int),
    ensures
        final(stats)@ == add_kill(old(stats)@, row as int),
{
    if row < stats.len() {
        let k = stats[row].kills;
        stats[row].kills = k + 1;
        assert(final(stats)@ =~= add_kill(old(stats)@, row as int));
    }
}

fn bump_deaths(stats: &mut Vec<StatEntry>, row: usize)
    requires
        death_countable(old(stats)@, row as int),
    ensures
        final(stats)@ == add_death(old(stats)@, row as int),
{
    if row < stats.len() {
        let d = stats[row].deaths;
        stats[row].deaths = d + 1;
        assert(final(stats)@ =~= add_death(old(stats)@, row as int));
    }
}

impl MatchState {
    /// A bot killed another bot: credit the shooter's row with a kill and the
    /// victim's row (if known) with a death.
    pub fn record_bot_kill(&mut self, shooter: usize, victim: Option<usize>)
        requires
            kill_countable(old(self).stats@, shooter as int),
            victim matches Some(v) ==> death_countable(old(self).stats@, v as int),
        ensures
            final(self).stats@ == match victim {
                Some(v) => add_death(add_kill(old(self).stats@, shooter as int), v as int),
                None => add_kill(old(self).stats@, shooter as int),
            },
            final(self).phase == old(self).phase,
            final(self).score_alpha == old(self).score_alpha,
            final(self).score_bravo == old(self).score_bravo,
            final(self).rounds_to_win == old(self).rounds_to_win,
            final(self).round_number == old(self).round_number,
            final(self).player_spectating == old(self).player_spectating,
            final(self).bomb == old(self).bomb,
    {
        bump_kills(&mut self.stats, shooter);
        if let Some(v) = victim {
            bump_deaths(&mut self.stats, v);
        }
    }

    /// The player died. The first death of a round puts the player into
    /// spectating, adds a death to the player's row and a kill to the
    /// shooter's row (unless the player is the shooter); a later report in the
    /// same round changes nothing. Returns whether this death was new.
    pub fn record_player_death(&mut self, shooter: usize) -> (new_death: bool)
        requires
            death_countable(old(self).stats@, PLAYER_STAT as int),
            kill_countable(old(self).stats@, shooter as int),
        ensures
            new_death == !old(self).player_spectating,
            final(self).player_spectating,
            final(self).stats@ == if new_death {
                if shooter != PLAYER_STAT {
                    add_kill(add_death(old(self).stats@, PLAYER_STAT as int), shooter as int)
                } else {
                    add_death(old(self).stats@, PLAYER_STAT as int)
                }
            } else {
                old(self).stats@
            },
            final(self).phase == old(self).phase,
            final(self).score_alpha == old(self).score_alpha,
            final(self).score_bravo == old(self).score_bravo,
            final(self).rounds_to_win == old(self).rounds_to_win,
            final(self).round_number == old(self).round_number,
            final(self).bomb == old(self).bomb,
    {
        if self.player_spectating {
            return false;
        }
        self.player_spectating = true;
        bump_deaths(&mut self.stats, PLAYER_STAT);
        if shooter != PLAYER_STAT {
            bump_kills(&mut self.stats, shooter);
        }
        true
    }
}

/// Scoreboard order: more kills first, then fewer deaths, then row order.
pub open spec fn ranks_before(stats: Seq<StatEntry>, i: int, j: int) -> bool {
    ||| stats[i].kills > stats[j].kills
    ||| (stats[i].kills == stats[j].kills && stats[i].deaths < stats[j].deaths)
    ||| (stats[i].kills == stats[j].kills && stats[i].deaths == stats[j].deaths && i < j)
}

/// Scoreboard order is transitive.
pub proof fn lemma_ranks_transitive(stats: Seq<StatEntry>, i: int, j: int, k: int)
    requires
        ranks_before(stats, i, j),
        ranks_before(stats, j, k),
    ensures
        ranks_before(stats, i, k),
{
}

/// Of two different rows exactly one ranks before the other.
pub proof fn lemma_ranks_total(stats: Seq<StatEntry>, i: int, j: int)
    requires
        i != j,
    ensures
        ranks_before(stats, i, j) != ranks_before(stats, j, i),
{
}

/// `order` lists every row of `stats` exactly once, in scoreboard order.
pub open spec fn is_scoreboard_order(stats: Seq<StatEntry>, order: Seq<usize>) -> bool {
    &&& order.len() == stats.len()
    &&& forall|k: int| 0 <= k < order.len() ==> #[trigger] order[k] < stats.len()
    &&& forall|a: int, b: int| 0 <= a < b < order.len() ==> order[a] != order[b]
    &&& forall|a: int, b: int| 0 <= a < b < order.len() ==> ranks_before(stats, #[trigger] order[a] as int, #[trigger] order[b] as int)
}

fn ranks_before_exec(stats: &Vec<StatEntry>, i: usize, j: usize) -> (b: bool)
    requires
        i < stats@.len(),
        j < stats@.len(),
    ensures
        b == ranks_before(stats@, i as int, j as int),
{
    let (a, c) = (&stats[i], &stats[j]);
    a.kills > c.kills || (a.kills == c.kills && a.deaths < c.deaths) || (a.kills == c.kills && a.deaths == c.deaths && i < j)
}

impl MatchState {
    /// Row indices of the scoreboard, sorted by kills (ties: fewer deaths
    /// first, then row order).
    pub fn scoreboard_order(&self) -> (order: Vec<usize>)
        ensures
            is_scoreboard_order(self.stats@, order@),
    {
        let n = self.stats.len();
        let mut order: Vec<usize> = Vec::new();
        let mut i: usize = 0;
        while i < n
            invariant
                n == self.stats@.len(),
                i <= n,
                order@.len() == i,
                forall|k: int| 0 <= k < order@.len() ==> #[trigger] order@[k] < i,
                forall|a: int, b: int| 0 <= a < b < order@.len() ==> order@[a] != order@[b],
                forall|a: int, b: int| 0 <= a < b < order@.len() ==> ranks_before(self.stats@, #[trigger] order@[a] as int, #[trigger] order@[b] as int),
            decreases n - i,
        {
            let mut p: usize = 0;
            while p < order.len() && !ranks_before_exec(&self.stats, i, order[p])
                invariant
                    n == self.stats@.len(),
                    i < n,
                    p <= order@.len(),
                    forall|k: int| 0 <= k < order@.len() ==> #[trigger] order@[k] < i,
                    forall|q: int| 0 <= q < p ==> !ranks_before(self.stats@, i as int, #[trigger] order@[q] as int),
                decreases order@.len() - p,
            {
                p = p + 1;
            }
            let ghost before = order@;
            proof {
                assert forall|q: int| 0 <= q < p implies ranks_before(self.stats@, #[trigger] before[q] as int, i as int) by {
                    lemma_ranks_total(self.stats@, before[q] as int, i as int);
                }
                if p < before.len() {
                    assert(ranks_before(self.stats@, i as int, before[p as int] as int));
                    assert forall|q: int| p <= q < before.len() implies ranks_before(self.stats@, i as int, #[trigger] before[q] as int) by {
                        if q > p {
                            assert(ranks_before(self.stats@, before[p as int] as int, before[q] as int));
                            lemma_ranks_transitive(self.stats@, i as int, before[p as int] as int, before[q] as int);
                        }
                    }
                }
            }
            order.insert(p, i);
            proof {
                assert(order@ =~= before.subrange(0, p as int).push(i).add(before.subrange(p as int, before.len() as int)));
                assert forall|k: int| 0 <= k < order@.len() implies #[trigger] order@[k] < i + 1 by {
                    if k < p { assert(order@[k] == before[k]); } else if k > p { assert(order@[k] == before[k - 1]); }
                }
                assert forall|a: int, b: int| 0 <= a < b < order@.len() implies order@[a] != order@[b] by {
                    if a < p && b < p {
                        assert(order@[a] == before[a] && order@[b] == before[b]);
                    } else if a < p && b == p {
                        assert(order@[a] == before[a]);
                    } else if a < p && b > p {
                        assert(order@[a] == before[a] && order@[b] == before[b - 1]);
                    } else if a == p {
                        assert(order@[b] == before[b - 1]);
                    } else {
                        assert(order@[a] == before[a - 1] && order@[b] == before[b - 1]);
                    }
                }
                assert forall|a: int, b: int| 0 <= a < b < order@.len() implies ranks_before(self.stats@, #[trigger] order@[a] as int, #[trigger] order@[b] as int) by {
                    if a < p && b < p {
                        assert(order@[a] == before[a] && order@[b] == before[b]);
                    } else if a < p && b == p {
                        assert(order@[a] == before[a]);
                    } else if a < p && b > p {
                        assert(order@[a] == before[a] && order@[b] == before[b - 1]);
                        lemma_ranks_transitive(self.stats@, before[a] as int, i as int, before[b - 1] as int);
                    } else if a == p {
                        assert(order@[b] == before[b - 1]);
                    } else {
                        assert(order@[a] == before[a - 1] && order@[b] == before[b - 1]);
                    }
                }
            }
            i = i + 1;
        }
        order
    }
}

/// Side tag of a scoreboard row.
pub open spec fn side_tag(team: Team) -> Seq<char> {
    match team {
        Team::Alpha => "[我方]"@,
        Team::Bravo => "[敌方]"@,
    }
}

/// One scoreboard line: side tag, name padded to 14 characters, kills and
/// deaths right-aligned in two columns.
pub open spec fn scoreboard_line(entry: StatEntry) -> Seq<char> {
    side_tag(entry.team) + "  "@ + pad_right(entry.name@, 14) + "  击杀 "@ + pad_left(decimal(entry.kills as nat), 2)
        + "   死亡 "@ + pad_left(decimal(entry.deaths as nat), 2)
}

/// Names short enough to be measured in `usize`.
pub open spec fn names_measurable(stats: Seq<StatEntry>) -> bool {
    forall|i: int| 0 <= i < stats.len() ==> (#[trigger] stats[i]).name@.len() <= usize::MAX
}

impl MatchState {
    /// Scoreboard lines in scoreboard order.
    pub fn scoreboard_lines(&self) -> (lines: Vec<String>)
        requires
            names_measurable(self.stats@),
        ensures
            exists|order: Seq<usize>| {
                &&& is_scoreboard_order(self.stats@, order)
                &&& lines@.len() == order.len()
                &&& forall|k: int| 0 <= k < order.len() ==> #[trigger] lines@[k]@ == scoreboard_line(self.stats@[order[k] as int])
            },
    {
        let order = self.scoreboard_order();
        let mut lines: Vec<String> = Vec::new();
        let mut k: usize = 0;
        while k < order.len()
            invariant
                is_scoreboard_order(self.stats@, order@),
                names_measurable(self.stats@),
                k <= order@.len(),
                lines@.len() == k,
                forall|j: int| 0 <= j < k ==> #[trigger] lines@[j]@ == scoreboard_line(self.stats@[order@[j] as int]),
            decreases order@.len() - k,
        {
            let entry = &self.stats[order[k]];
            let mut line = String::new();
            line.append(match entry.team {
                Team::Alpha => "[我方]",
                Team::Bravo => "[敌方]",
            });
            line.append("  ");
            push_str_left(&mut line, entry.name.as_str(), 14);
            line.append("  击杀 ");
            push_decimal_right(&mut line, entry.kills, 2);
            line.append("   死亡 ");
            push_decimal_right(&mut line, entry.deaths, 2);
            assert(line@ =~= scoreboard_line(*entry));
            lines.push(line);
            k = k + 1;
        }
        lines
    }
}

/// Countdown or progress shown next to the phase on the HUD, already rounded
/// by the engine's timers.
#[derive(Debug, Clone, Copy, PartialEq, Eq, Structural)]
pub enum BombHud {
    Hidden,
    /// Defusers are on the bomb; percent done.
    Defusing(u32),
    /// Seconds left on the fuse.
    Fuse(u32),
    /// The player is planting; percent done.
    Planting(u32),
}

/// Phase part of the HUD status line.
pub open spec fn phase_text(phase: RoundPhase, warmup_seconds: u32) -> Seq<char> {
    match phase {
        RoundPhase::Warmup => "准备  "@ + decimal(warmup_seconds as nat) + "s"@,
        RoundPhase::Live => "交战中"@,
        RoundPhase::RoundOver { winner } => match winner {
            Team::Alpha => "本回合胜利！"@,
            Team::Bravo => "本回合失守"@,
        },
    }
}

/// Bomb part of the HUD status line.
pub open spec fn bomb_text(bomb: BombHud) -> Seq<char> {
    match bomb {
        BombHud::Hidden => Seq::empty(),
        BombHud::Defusing(p) => " · C4 拆除中 "@ + decimal(p as nat) + "%"@,
        BombHud::Fuse(t) => " · C4 引爆 "@ + decimal(t as nat) + "s"@,
        BombHud::Planting(p) => " · 安装中 "@ + decimal(p as nat) + "%"@,
    }
}

/// The HUD status line: round number, score, phase, bomb state.
pub open spec fn hud_text(m: &MatchState, warmup_seconds: u32, bomb: BombHud) -> Seq<char> {
    "第 "@ + decimal(m.round_number as nat) + " 回合 · 我方 "@ + decimal(m.score_alpha as nat) + " : "@
        + decimal(m.score_bravo as nat) + " 敌方 · "@ + phase_text(m.phase, warmup_seconds) + bomb_text(bomb)
}

impl MatchState {
    /// Status line for the HUD scoreboard. `warmup_seconds` is the warmup
    /// countdown rounded up; `bomb` the objective readout.
    pub fn hud_line(&self, warmup_seconds: u32, bomb: BombHud) -> (line: String)
        ensures
            line@ == hud_text(self, warmup_seconds, bomb),
    {
        let mut line = String::new();
        line.append("第 ");
        crate::text::push_decimal(&mut line, self.round_number as u64);
        line.append(" 回合 · 我方 ");
        crate::text::push_decimal(&mut line, self.score_alpha as u64);
        line.append(" : ");
        crate::text::push_decimal(&mut line, self.score_bravo as u64);
        line.append(" 敌方 · ");
        match self.phase {
            RoundPhase::Warmup => {
                line.append("准备  ");
                crate::text::push_decimal(&mut line, warmup_seconds as u64);
                line.append("s");
            },
            RoundPhase::Live => line.append("交战中"),
            RoundPhase::RoundOver { winner } => match winner {
                Team::Alpha => line.append("本回合胜利！"),
                Team::Bravo => line.append("本回合失守"),
            },
        }
        match bomb {
            BombHud::Hidden => {},
            BombHud::Defusing(p) => {
                line.append(" · C4 拆除中 ");
                crate::text::push_decimal(&mut line, p as u64);
                line.append("%");
            },
            BombHud::Fuse(t) => {
                line.append(" · C4 引爆 ");
                crate::text::push_decimal(&mut line, t as u64);
                line.append("s");
            },
            BombHud::Planting(p) => {
                line.append(" · 安装中 ");
                crate::text::push_decimal(&mut line, p as u64);
                line.append("%");
            },
        }
        assert(line@ =~= hud_text(self, warmup_seconds, bomb));
        line
    }
}

/// Scoreboard rows of a fresh match: the player ("你"), then the teammates
/// ("队友 1", ...), then the opponents ("敌方 1", ...), all at zero.
pub open spec fn roster_row(teammates: int, row: int) -> (Seq<char>, Team) {
    if row == 0 {
        ("你"@, Team::Alpha)
    } else if row <= teammates {
        ("队友 "@ + decimal(row as nat), Team::Alpha)
    } else {
        ("敌方 "@ + decimal((row - teammates) as nat), Team::Bravo)
    }
}

pub fn match_roster(teammates: u32, opponents: u32) -> (stats: Vec<StatEntry>)
    requires
        teammates as int + opponents as int + 1 <= u32::MAX,
    ensures
        stats@.len() == 1 + teammates + opponents,
        forall|row: int| 0 <= row < stats@.len() ==> {
            &&& (#[trigger] stats@[row]).name@ == roster_row(teammates as int, row).0
            &&& stats@[row].team == roster_row(teammates as int, row).1
            &&& stats@[row].kills == 0
            &&& stats@[row].deaths == 0
        },
{
    let mut stats: Vec<StatEntry> = Vec::new();
    stats.push(StatEntry { name: String::from_str("你"), team: Team::Alpha, kills: 0, deaths: 0 });
    let mut i: u32 = 1;
    while i <= teammates
        invariant
            1 <= i <= teammates + 1,
            teammates as int + opponents as int + 1 <= u32::MAX,
            stats@.len() == i,
            forall|row: int| 0 <= row < stats@.len() ==> {
                &&& (#[trigger] stats@[row]).name@ == roster_row(teammates as int, row).0
                &&& stats@[row].team == roster_row(teammates as int, row).1
                &&& stats@[row].kills == 0
                &&& stats@[row].deaths == 0
            },
        decreases teammates + 1 - i,
    {
        let mut name = String::from_str("队友 ");
        crate::text::push_decimal(&mut name, i as u64);
        stats.push(StatEntry { name, team: Team::Alpha, kills: 0, deaths: 0 });
        i = i + 1;
    }
    let mut j: u32 = 1;
    while j <= opponents
        invariant
            1 <= j <= opponents + 1,
            teammates as int + opponents as int + 1 <= u32::MAX,
            stats@.len() == teammates + j,
            forall|row: int| 0 <= row < stats@.len() ==> {
                &&& (#[trigger] stats@[row]).name@ == roster_row(teammates as int, row).0
                &&& stats@[row].team == roster_row(teammates as int, row).1
                &&& stats@[row].kills == 0
                &&& stats@[row].deaths == 0
            },
        decreases opponents + 1 - j,
    {
        let mut name = String::from_str("敌方 ");
        crate::text::push_decimal(&mut name, j as u64);
        stats.push(StatEntry { name, team: Team::Bravo, kills: 0, deaths: 0 });
        j = j + 1;
    }
    stats
}

/// Why a scene's match block cannot start a match.
#[derive(Debug, Clone, Copy, PartialEq, Eq, Structural)]
pub enum MatchRefusal {
    /// The bot mesh is not declared by the scene.
    UnknownMesh,
    /// A team material is not declared by the scene.
    MissingTeamMaterial,
    /// A team has no spawn points.
    MissingSpawns,
}

/// Whether a match block can start, and if so its roster size: the first
/// team-A spawn is the player's, the other spawns are bots.
pub open spec fn spec_match_roster_size(
    mesh_known: bool,
    team_a_material_known: bool,
    team_b_material_known: bool,
    team_a_spawns: usize,
    team_b_spawns: usize,
) -> Result<(u32, u32), MatchRefusal> {
    if !mesh_known {
        Err(MatchRefusal::UnknownMesh)
    } else if !team_a_material_known || !team_b_material_known {
        Err(MatchRefusal::MissingTeamMaterial)
    } else if team_a_spawns == 0 || team_b_spawns == 0 {
        Err(MatchRefusal::MissingSpawns)
    } else {
        Ok(((team_a_spawns - 1) as u32, team_b_spawns as u32))
    }
}

/// Decide whether a match block starts; on success the (teammates,
/// opponents) bot counts for [`match_roster`].
pub fn match_roster_size(
    mesh_known: bool,
    team_a_material_known: bool,
    team_b_material_known: bool,
    team_a_spawns: usize,
    team_b_spawns: usize,
) -> (r: Result<(u32, u32), MatchRefusal>)
    requires
        team_a_spawns + team_b_spawns <= u32::MAX,
    ensures
        r == spec_match_roster_size(mesh_known, team_a_material_known, team_b_material_known, team_a_spawns, team_b_spawns),
        r matches Ok((t, o)) ==> t + o + 1 <= u32::MAX,
{
    if !mesh_known {
        Err(MatchRefusal::UnknownMesh)
    } else if !team_a_material_known || !team_b_material_known {
        Err(MatchRefusal::MissingTeamMaterial)
    } else if team_a_spawns == 0 || team_b_spawns == 0 {
        Err(MatchRefusal::MissingSpawns)
    } else {
        Ok(((team_a_spawns - 1) as u32, team_b_spawns as u32))
    }
}

} // verus!
