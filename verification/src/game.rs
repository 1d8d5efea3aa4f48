//! The parts of a game-state snapshot that this crate's own logic reads,
//! as plain values.
//!
//! A live packet carries a fixed bank of player slots of which only the
//! first `num_cars` are in use; [`LiveDataPacket::cars`] yields exactly
//! those, and [`LiveDataPacket::match_score`] folds their goals into a
//! per-team score. The external interface does not report team scores
//! itself, so they are computed (approximately) by adding up each player's
//! own goals.

use vstd::prelude::*;

verus! {

/// One player's scoreboard line.
#[derive(Clone, Copy, Debug, PartialEq, Eq, Structural)]
pub struct ScoreInfo {
    pub score: i32,
    pub goals: i32,
    pub own_goals: i32,
    pub assists: i32,
    pub saves: i32,
    pub shots: i32,
    pub demolitions: i32,
}

/// Per-team facts of a game snapshot.
#[derive(Clone, Copy, Debug, PartialEq, Eq, Structural)]
pub struct TeamInfo {
    pub team_index: i32,
    /// Number of goals scored.
    pub score: i32,
}

/// What one player slot of a live packet holds that this crate reads: the
/// player's team and scoreboard line.
#[derive(Clone, Copy, Debug, PartialEq, Eq, Structural)]
pub struct PlayerEntry {
    /// 0 for blue, 1 for orange.
    pub team: i32,
    pub score: ScoreInfo,
}

/// A live game-state packet: a bank of player slots, the first `num_cars`
/// of which are in use.
#[derive(Clone, Debug)]
pub struct LiveDataPacket {
    pub game_cars: Vec<PlayerEntry>,
    pub num_cars: usize,
}

/// The goals scored by players of `team`, summed over `cars`.
pub open spec fn team_goals(cars: Seq<PlayerEntry>, team: int) -> int
    decreases cars.len(),
{
    if cars.len() == 0 {
        0
    } else {
        team_goals(cars.drop_last(), team) + if cars.last().team == team {
            cars.last().score.goals as int
        } else {
            0
        }
    }
}

/// With no negative goal counts, the sum over a prefix is at least zero and
/// at most the sum over the whole.
proof fn lemma_team_goals_prefix(cars: Seq<PlayerEntry>, team: int, m: int)
    requires
        0 <= m <= cars.len(),
        forall|i: int| 0 <= i < cars.len() ==> (#[trigger] cars[i]).score.goals >= 0,
    ensures
        0 <= team_goals(cars.take(m), team) <= team_goals(cars, team),
    decreases cars.len(),
{
    if cars.len() == 0 {
        assert(cars.take(m) =~= cars);
    } else {
        let head = cars.drop_last();
        assert(forall|i: int| 0 <= i < head.len() ==> #[trigger] head[i] == cars[i]);
        if m == cars.len() {
            assert(cars.take(m) =~= cars);
            lemma_team_goals_prefix(head, team, head.len() as int);
        } else {
            assert(cars.take(m) =~= head.take(m));
            lemma_team_goals_prefix(head, team, m);
        }
    }
}

impl LiveDataPacket {
    /// The packet's slot bank is at least `num_cars` long, each live slot
    /// names one of the two teams, and no live slot reports negative goals.
    pub open spec fn wf(&self) -> bool {
        &&& self.num_cars <= self.game_cars.len()
        &&& forall|i: int|
            0 <= i < self.num_cars ==> 0 <= (#[trigger] self.game_cars@[i]).team <= 1
        &&& forall|i: int| 0 <= i < self.num_cars ==> (#[trigger] self.game_cars@[i]).score.goals >= 0
    }

    /// The players actually in the match: the first `num_cars` slots.
    pub open spec fn live_cars(&self) -> Seq<PlayerEntry> {
        self.game_cars@.take(self.num_cars as int)
    }

    /// Builds a packet whose live slots are exactly `game_cars`.
    pub fn new(game_cars: Vec<PlayerEntry>) -> (r: LiveDataPacket)
        requires
            forall|i: int| 0 <= i < game_cars@.len() ==> 0 <= (#[trigger] game_cars@[i]).team <= 1,
            forall|i: int|
                0 <= i < game_cars@.len() ==> (#[trigger] game_cars@[i]).score.goals >= 0,
        ensures
            r.wf(),
            r.live_cars() == game_cars@,
    {
        let num_cars = game_cars.len();
        let r = LiveDataPacket { game_cars, num_cars };
        proof {
            assert(r.live_cars() =~= r.game_cars@);
        }
        r
    }

    /// The [`PlayerEntry`] of each player in the match, in slot order.
    pub fn cars(&self) -> (r: Vec<PlayerEntry>)
        requires
            self.num_cars <= self.game_cars.len(),
        ensures
            r@ == self.live_cars(),
    {
        let mut r: Vec<PlayerEntry> = Vec::new();
        let mut i: usize = 0;
        while i < self.num_cars
            invariant
                i <= self.num_cars <= self.game_cars.len(),
                r@ =~= self.game_cars@.take(i as int),
            decreases self.num_cars - i,
        {
            r.push(self.game_cars[i]);
            i = i + 1;
        }
        proof {
            assert(r@ =~= self.live_cars());
        }
        r
    }

    /// The scores of the blue and orange teams, in that order, computed by
    /// adding up the goals of each team's players.
    pub fn match_score(&self) -> (r: [i32; 2])
        requires
            self.wf(),
            team_goals(self.live_cars(), 0) <= i32::MAX,
            team_goals(self.live_cars(), 1) <= i32::MAX,
        ensures
            r@[0] == team_goals(self.live_cars(), 0),
            r@[1] == team_goals(self.live_cars(), 1),
    {
        let mut blue: i32 = 0;
        let mut orange: i32 = 0;
        let mut i: usize = 0;
        while i < self.num_cars
            invariant
                self.wf(),
                team_goals(self.live_cars(), 0) <= i32::MAX,
                team_goals(self.live_cars(), 1) <= i32::MAX,
                i <= self.num_cars,
                blue == team_goals(self.live_cars().take(i as int), 0),
                orange == team_goals(self.live_cars().take(i as int), 1),
            decreases self.num_cars - i,
        {
            proof {
                let live = self.live_cars();
                assert(forall|k: int|
                    0 <= k < live.len() ==> (#[trigger] live[k]).score.goals >= 0);
                assert(live.take(i + 1).drop_last() =~= live.take(i as int));
                assert(live.take(i + 1).last() == live[i as int]);
                assert(live[i as int] == self.game_cars@[i as int]);
                lemma_team_goals_prefix(live, 0, i + 1);
                lemma_team_goals_prefix(live, 1, i + 1);
                assert(live.take(live.len() as int) =~= live);
            }
            let car = self.game_cars[i];
            if car.team == 0 {
                blue = blue + car.score.goals;
            } else {
                orange = orange + car.score.goals;
            }
            i = i + 1;
        }
        proof {
            assert(self.live_cars().take(i as int) =~= self.live_cars());
        }
        [blue, orange]
    }
}

/// How many consecutive round-active snapshots must be seen before a match
/// counts as started: a few stray snapshots from a previous game can arrive
/// while the next one is loading, so the flag must stabilise first.
pub const ROUND_ACTIVE_STABLE_TICKS: u64 = 5;

/// Decides when a match has started, from the round-active flag of each
/// successive snapshot: the flag must hold over
/// [`ROUND_ACTIVE_STABLE_TICKS`] consecutive snapshots; any inactive
/// snapshot starts the count over.
pub struct RoundActiveGate {
    count: u64,
}

impl RoundActiveGate {
    /// How many consecutive round-active snapshots have been seen, counting
    /// no further than [`ROUND_ACTIVE_STABLE_TICKS`].
    pub closed spec fn streak(&self) -> u64 {
        self.count
    }

    /// A gate that has seen nothing yet.
    pub fn new() -> (r: RoundActiveGate)
        ensures
            r.streak() == 0,
    {
        RoundActiveGate { count: 0 }
    }

    /// Feeds one snapshot's round-active flag; returns whether the match
    /// now counts as started.
    pub fn observe(&mut self, is_round_active: bool) -> (started: bool)
        ensures
            final(self).streak() == (if is_round_active {
                if old(self).streak() < ROUND_ACTIVE_STABLE_TICKS {
                    old(self).streak() + 1
                } else {
                    old(self).streak() as int
                }
            } else {
                0
            }),
            started == (final(self).streak() >= ROUND_ACTIVE_STABLE_TICKS),
    {
        if is_round_active {
            if self.count < ROUND_ACTIVE_STABLE_TICKS {
                self.count = self.count + 1;
            }
        } else {
            self.count = 0;
        }
        self.count >= ROUND_ACTIVE_STABLE_TICKS
    }
}

} // verus!
