use vstd::prelude::*;
use crate::level::{Level, LevelData, LevelStat, Trigger};

verus! {

/// Past this many scores of a level, the oldest is dropped when one is added.
pub const MAX_SCORES: usize = 10000;

/// The result of one play of a level.
#[derive(Clone, Copy, Debug, PartialEq, Eq, Structural)]
pub struct LevelScore {
    /// When the play ended, in milliseconds since the Unix epoch.
    pub time: u64,
    /// How long the play lasted, in milliseconds.
    pub playtime: u64,
    pub coins: u32,
    pub kills: u32,
    pub total_damage: u64,
    pub total_damage_received: u64,
}

impl LevelScore {
    pub fn new(time: u64, playtime: u64, coins: u32, kills: u32, total_damage: u64, total_damage_received: u64) -> (r: LevelScore)
        ensures
            r == (LevelScore { time, playtime, coins, kills, total_damage, total_damage_received }),
    {
        LevelScore { time, playtime, coins, kills, total_damage, total_damage_received }
    }
}

/// The scores kept for one level, oldest first.
#[derive(Clone, Debug)]
pub struct LevelScores {
    pub level: Level,
    pub entries: Vec<LevelScore>,
}

/// Everything kept across plays: per-level statistics and score history.
#[derive(Clone, Debug)]
pub struct PersistentLevelData {
    pub stats: Vec<LevelStat>,
    pub scores: Vec<LevelScores>,
}

/// `l` occurs at index `j` of `stats`, and nowhere before.
pub open spec fn stat_index(stats: Seq<LevelStat>, l: Level) -> int {
    choose|j: int| 0 <= j < stats.len() && stats[j].level == l
}

/// The score list after adding `s`: the oldest entry goes once there are more than
/// `MAX_SCORES`.
pub open spec fn with_score(entries: Seq<LevelScore>, s: LevelScore) -> Seq<LevelScore> {
    if entries.len() > MAX_SCORES {
        entries.drop_first().push(s)
    } else {
        entries.push(s)
    }
}

/// What [`PersistentLevelData::record`] does, from `o` to `n`.
pub open spec fn recorded(o: PersistentLevelData, n: PersistentLevelData, level: Level, deaths: u32, score: LevelScore) -> bool {
    &&& (exists|j: int| 0 <= j < o.stats@.len() && o.stats@[j].level == level) ==> ({
        let j = stat_index(o.stats@, level);
        n.stats@ == o.stats@.update(
            j,
            LevelStat {
                plays: (o.stats@[j].plays + 1) as u32,
                deaths: (o.stats@[j].deaths + deaths) as u32,
                level,
            },
        )
    })
    &&& !(exists|j: int| 0 <= j < o.stats@.len() && o.stats@[j].level == level)
        ==> n.stats@ == o.stats@.push(LevelStat { level, plays: 1, deaths })
    &&& n.scores@.len() == o.scores@.len() || n.scores@.len() == o.scores@.len() + 1
    &&& forall|k: int|
        0 <= k < o.scores@.len() && o.scores@[k].level != level ==> #[trigger] n.scores@[k]
            == o.scores@[k]
    &&& forall|k: int|
        0 <= k < o.scores@.len() && o.scores@[k].level == level ==> #[trigger] n.scores@[k].level
            == level && n.scores@[k].entries@ == with_score(o.scores@[k].entries@, score)
    &&& (forall|k: int| 0 <= k < o.scores@.len() ==> o.scores@[k].level != level) ==> n.scores@.len()
        == o.scores@.len() + 1 && n.scores@.last().level == level && n.scores@.last().entries@
        == seq![score]
}

impl PersistentLevelData {
    /// At most one statistic and one score list per level.
    pub open spec fn wf(&self) -> bool {
        &&& forall|i: int, j: int|
            0 <= i < j < self.stats@.len() ==> #[trigger] self.stats@[i].level != #[trigger] self.stats@[j].level
        &&& forall|i: int, j: int|
            0 <= i < j < self.scores@.len() ==> #[trigger] self.scores@[i].level != #[trigger] self.scores@[j].level
    }

    pub fn new() -> (r: PersistentLevelData)
        ensures
            r.wf(),
            r.stats@.len() == 0 && r.scores@.len() == 0,
    {
        PersistentLevelData { stats: Vec::new(), scores: Vec::new() }
    }

    fn find_stat(&self, level: Level) -> (r: Option<usize>)
        ensures
            r.is_some() ==> r.unwrap() < self.stats@.len() && self.stats@[r.unwrap() as int].level == level,
            r.is_none() ==> forall|j: int| 0 <= j < self.stats@.len() ==> self.stats@[j].level != level,
    {
        let mut i: usize = 0;
        while i < self.stats.len()
            invariant
                0 <= i <= self.stats@.len(),
                forall|j: int| 0 <= j < i ==> self.stats@[j].level != level,
            decreases self.stats@.len() - i,
        {
            if self.stats[i].level == level {
                return Some(i);
            }
            i = i + 1;
        }
        None
    }

    fn find_scores(&self, level: Level) -> (r: Option<usize>)
        ensures
            r.is_some() ==> r.unwrap() < self.scores@.len() && self.scores@[r.unwrap() as int].level == level,
            r.is_none() ==> forall|j: int| 0 <= j < self.scores@.len() ==> self.scores@[j].level != level,
    {
        let mut i: usize = 0;
        while i < self.scores.len()
            invariant
                0 <= i <= self.scores@.len(),
                forall|j: int| 0 <= j < i ==> self.scores@[j].level != level,
            decreases self.scores@.len() - i,
        {
            if self.scores[i].level == level {
                return Some(i);
            }
            i = i + 1;
        }
        None
    }

    /// Records one play of `level`: its statistic counts one more play and `deaths`
    /// more deaths (a fresh statistic is added for a level seen the first time), and
    /// `score` joins the level's score list, which drops its oldest entry once it
    /// holds more than `MAX_SCORES`.
    pub fn record(&mut self, level: Level, deaths: u32, score: LevelScore)
        requires
            old(self).wf(),
            forall|j: int|
                0 <= j < old(self).stats@.len() && old(self).stats@[j].level == level ==> old(self).stats@[j].plays
                    < u32::MAX && old(self).stats@[j].deaths + deaths <= u32::MAX,
        ensures
            final(self).wf(),
            recorded(*old(self), *final(self), level, deaths, score),
    {
        match self.find_stat(level) {
            Some(j) => {
                let mut st = self.stats[j];
                proof {
                    assert(stat_index(old(self).stats@, level) == j as int) by {
                        let c = stat_index(old(self).stats@, level);
                        assert(old(self).stats@[c].level == level);
                        if c != j as int {
                            if c < j as int {
                                assert(old(self).stats@[c].level != old(self).stats@[j as int].level);
                            } else {
                                assert(old(self).stats@[j as int].level != old(self).stats@[c].level);
                            }
                        }
                    }
                }
                st.update(deaths);
                self.stats.set(j, st);
            },
            None => {
                let mut st = LevelStat::new(level);
                st.update(deaths);
                self.stats.push(st);
            },
        }
        let ghost mid_stats = self.stats@;
        assert forall|a: int, b: int| 0 <= a < b < self.stats@.len() implies #[trigger] self.stats@[a].level
            != #[trigger] self.stats@[b].level by {
            if b < old(self).stats@.len() {
                assert(old(self).stats@[a].level != old(self).stats@[b].level);
            }
        }
        match self.find_scores(level) {
            Some(j) => {
                let mut entry = self.scores.remove(j);
                if entry.entries.len() > MAX_SCORES {
                    entry.entries.remove(0);
                }
                entry.entries.push(score);
                proof {
                    let e0 = old(self).scores@[j as int].entries@;
                    if e0.len() > MAX_SCORES {
                        assert(entry.entries@ =~= e0.drop_first().push(score));
                    }
                }
                self.scores.insert(j, entry);
                proof {
                    assert forall|a: int, b: int| 0 <= a < b < self.scores@.len() implies #[trigger] self.scores@[a].level
                        != #[trigger] self.scores@[b].level by {
                        assert(old(self).scores@[a].level != old(self).scores@[b].level);
                    }
                    assert forall|k: int| 0 <= k < old(self).scores@.len() && old(self).scores@[k].level != level implies #[trigger] self.scores@[k]
                        == old(self).scores@[k] by {
                        assert(k != j as int);
                    }
                    assert forall|k: int| 0 <= k < old(self).scores@.len() && old(self).scores@[k].level == level implies #[trigger] self.scores@[k].level
                        == level && self.scores@[k].entries@ == with_score(old(self).scores@[k].entries@, score) by {
                        if k != j as int {
                            if k < j as int {
                                assert(old(self).scores@[k].level != old(self).scores@[j as int].level);
                            } else {
                                assert(old(self).scores@[j as int].level != old(self).scores@[k].level);
                            }
                        }
                    }
                }
            },
            None => {
                let mut entries: Vec<LevelScore> = Vec::new();
                entries.push(score);
                self.scores.push(LevelScores { level, entries });
                proof {
                    assert forall|a: int, b: int| 0 <= a < b < self.scores@.len() implies #[trigger] self.scores@[a].level
                        != #[trigger] self.scores@[b].level by {
                        if b < old(self).scores@.len() {
                            assert(old(self).scores@[a].level != old(self).scores@[b].level);
                        }
                    }
                }
            },
        }
    }
}

impl LevelData {
    /// Records the end of this level in `data`: one play, a death if the game-over
    /// flag is set, and a score with the player's totals, the wall-clock `time` and
    /// the time played up to `now` (0 if `now` lies before the start).
    pub fn save(&self, data: &mut PersistentLevelData, now: u64, time: u64)
        requires
            old(data).wf(),
            self.level is Some,
            forall|j: int|
                0 <= j < old(data).stats@.len() && old(data).stats@[j].level == self.level->Some_0 ==> old(data).stats@[j].plays
                    < u32::MAX && old(data).stats@[j].deaths < u32::MAX,
        ensures
            final(data).wf(),
            recorded(
                *old(data),
                *final(data),
                self.level->Some_0,
                if self.triggers@.contains(Trigger::GameOver) { 1 } else { 0 },
                LevelScore {
                    time,
                    playtime: if now >= self.start_time { (now - self.start_time) as u64 } else { 0 },
                    coins: self.player.coins,
                    kills: self.player.kills,
                    total_damage: self.player.total_damage,
                    total_damage_received: self.player.total_damage_received,
                },
            ),
    {
        let level = match self.level {
            Some(l) => l,
            None => Level::Level0,
        };
        let deaths: u32 = if self.trigger_active(Trigger::GameOver) {
            1
        } else {
            0
        };
        let playtime = if now >= self.start_time {
            now - self.start_time
        } else {
            0
        };
        let p = &self.player;
        let score = LevelScore::new(time, playtime, p.coins, p.kills, p.total_damage, p.total_damage_received);
        data.record(level, deaths, score);
    }
}

} // verus!
