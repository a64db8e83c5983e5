//! The wave scheduler: a script of enemies and delays, a cursor into it and
//! a countdown to the next spawn.

use crate::enemies::{
    enemy_implementation, enemy_stats, lane_position, spawn_enemy, spawn_position, spawned_enemy,
    Enemies, Enemy, LANE_COUNT,
};
use crate::lanes::LanePicker;
use crate::registry::with_added;
use crate::timer::Countdown;
use vstd::prelude::*;

verus! {

/// Asks for an enemy of a kind on a lane.
#[derive(Clone, Copy, Debug, PartialEq, Eq, Structural)]
pub struct SpawnRequest {
    pub kind: Enemies,
    pub lane: usize,
}

/// A wave scheduler. `script` lists the enemies of the wave, each with the
/// delay in nanoseconds that follows its spawn; `index` is the cursor: the
/// number of enemies spawned so far; `timer` counts down to the next spawn.
/// A scheduler whose cursor has reached the end of its script is exhausted.
#[derive(Clone, Debug)]
pub struct SpawnTimer {
    pub timer: Countdown,
    pub index: usize,
    pub script: Vec<(Enemies, u64)>,
}

impl SpawnTimer {
    /// Whether every step of the script has been spawned.
    pub open spec fn exhausted(&self) -> bool {
        self.index >= self.script@.len()
    }

    /// Whether a tick of `delta` nanoseconds spawns an enemy.
    pub open spec fn fires(&self, delta: u64) -> bool {
        !self.exhausted() && self.timer.ticked(delta).finished
    }

    /// The countdown after a tick of `delta` nanoseconds: untouched on an
    /// exhausted scheduler; else ticked once, and set to the delay of the
    /// step that was spawned if one was.
    pub open spec fn timer_after(&self, delta: u64) -> Countdown {
        if self.exhausted() {
            self.timer
        } else if self.fires(delta) {
            Countdown { duration: self.script@[self.index as int].1, ..self.timer.ticked(delta) }
        } else {
            self.timer.ticked(delta)
        }
    }

    /// The cursor after a tick of `delta` nanoseconds.
    pub open spec fn index_after(&self, delta: u64) -> int {
        if self.fires(delta) {
            self.index + 1
        } else {
            self.index as int
        }
    }

    /// What a tick of `delta` nanoseconds asks for, with `lane` as the lane
    /// picked for it.
    pub open spec fn request(&self, delta: u64, lane: usize) -> Option<SpawnRequest> {
        if self.fires(delta) {
            Some(SpawnRequest { kind: self.script@[self.index as int].0, lane })
        } else {
            None
        }
    }

    /// The scheduler after a tick of `delta` nanoseconds.
    pub open spec fn advanced(&self, delta: u64) -> SpawnTimer {
        SpawnTimer {
            timer: self.timer_after(delta),
            index: self.index_after(delta) as usize,
            script: self.script,
        }
    }

    /// The scheduler after one tick for each of `deltas`, first to last.
    pub open spec fn advanced_through(&self, deltas: Seq<u64>) -> SpawnTimer
        decreases deltas.len(),
    {
        if deltas.len() == 0 {
            *self
        } else {
            self.advanced_through(deltas.drop_last()).advanced(deltas.last())
        }
    }

    /// The scheduler at the start of `script`: the cursor on the first step,
    /// the countdown fresh and as long as the delay of the first step, or
    /// zero for an empty script.
    pub open spec fn started(script: Vec<(Enemies, u64)>) -> SpawnTimer {
        SpawnTimer {
            timer: Countdown {
                duration: if script@.len() > 0 {
                    script@[0].1
                } else {
                    0
                },
                elapsed: 0,
                finished: false,
            },
            index: 0,
            script,
        }
    }

    /// A scheduler at the start of `script`. The first countdown runs for
    /// the delay of the first step; an empty script gives an exhausted
    /// scheduler.
    pub fn new(script: Vec<(Enemies, u64)>) -> (timer: SpawnTimer)
        ensures
            timer == Self::started(script),
    {
        let first: u64 = if script.len() > 0 {
            script[0].1
        } else {
            0
        };
        SpawnTimer { timer: Countdown::repeating(first), index: 0, script }
    }

    /// Whether every step of the script has been spawned.
    pub fn is_exhausted(&self) -> (done: bool)
        ensures
            done == self.exhausted(),
    {
        self.index >= self.script.len()
    }

    /// Advances the scheduler by `delta` nanoseconds. An exhausted scheduler
    /// does nothing. Else the countdown is ticked once; where it expires,
    /// the step under the cursor is asked for on `lane`, the countdown is set
    /// to that step's delay and the cursor moves on. At most one enemy is
    /// asked for, however long `delta` is.
    pub fn advance(&mut self, delta: u64, lane: usize) -> (request: Option<SpawnRequest>)
        ensures
            *final(self) == old(self).advanced(delta),
            request == old(self).request(delta, lane),
    {
        if self.index >= self.script.len() {
            return None;
        }
        self.timer.tick(delta);
        if self.timer.finished() {
            let step = self.script[self.index];
            self.timer.set_duration(step.1);
            self.index = self.index + 1;
            Some(SpawnRequest { kind: step.0, lane })
        } else {
            None
        }
    }
}

/// A tick never moves the cursor back, and on an exhausted scheduler it
/// changes nothing and asks for nothing.
pub proof fn lemma_cursor_moves_forward(timer: SpawnTimer, delta: u64, lane: usize)
    ensures
        timer.advanced(delta).index >= timer.index,
        timer.exhausted() ==> timer.advanced(delta) == timer && timer.request(delta, lane) is None,
        timer.exhausted() ==> timer.advanced(delta).exhausted(),
{
    assert(timer.script.len() == timer.script@.len());
}

/// Over any run of ticks the cursor never moves back, and a scheduler that is
/// exhausted stays as it is for good.
pub proof fn lemma_cursor_over_ticks(timer: SpawnTimer, deltas: Seq<u64>)
    ensures
        timer.advanced_through(deltas).index >= timer.index,
        timer.advanced_through(deltas).script == timer.script,
        timer.exhausted() ==> timer.advanced_through(deltas) == timer,
    decreases deltas.len(),
{
    if deltas.len() > 0 {
        lemma_cursor_over_ticks(timer, deltas.drop_last());
        lemma_cursor_moves_forward(timer.advanced_through(deltas.drop_last()), deltas.last(), 0);
    }
}

/// The enemies after the first `n` of `timers` have been ticked by `delta`
/// nanoseconds, one after the other, each with its lane of `lanes`: each
/// request adds the enemy of its kind, with the stats of the catalog, at the
/// spawn edge of its lane.
pub open spec fn enemies_after_spawns(
    timers: Seq<SpawnTimer>,
    delta: u64,
    lanes: Seq<usize>,
    enemies: Seq<Option<Enemy>>,
    n: nat,
) -> Seq<Option<Enemy>>
    decreases n,
{
    if n == 0 {
        enemies
    } else {
        let before = enemies_after_spawns(timers, delta, lanes, enemies, (n - 1) as nat);
        match timers[n - 1].request(delta, lanes[n - 1]) {
            Some(request) => with_added(
                before,
                spawned_enemy(lane_position(request.lane as int), enemy_stats(request.kind)),
            ),
            None => before,
        }
    }
}

/// Whether `lanes` holds one spawn lane for each of `count` schedulers.
pub open spec fn lanes_for(lanes: Seq<usize>, count: nat) -> bool {
    lanes.len() == count && forall|i: int| 0 <= i < lanes.len() ==> lanes[i] < LANE_COUNT
}

/// Ticks every scheduler by `delta` nanoseconds and spawns what they ask for,
/// the enemy of scheduler number `i` on lane `lanes[i]`.
pub fn run_spawn_timers(
    timers: &mut Vec<SpawnTimer>,
    delta: u64,
    lanes: &Vec<usize>,
    enemies: &mut Vec<Option<Enemy>>,
)
    requires
        lanes_for(lanes@, old(timers)@.len()),
    ensures
        final(timers)@.len() == old(timers)@.len(),
        forall|i: int|
            0 <= i < old(timers)@.len() ==> final(timers)@[i] == (#[trigger] old(timers)@[i]).advanced(
                delta,
            ),
        final(enemies)@ == enemies_after_spawns(
            old(timers)@,
            delta,
            lanes@,
            old(enemies)@,
            old(timers)@.len(),
        ),
{
    let ghost timers_before = timers@;
    let ghost enemies_before = enemies@;
    let mut i: usize = 0;
    while i < timers.len()
        invariant
            i <= timers.len(),
            timers@.len() == timers_before.len(),
            lanes_for(lanes@, timers_before.len()),
            forall|j: int| 0 <= j < i ==> timers@[j] == (#[trigger] timers_before[j]).advanced(delta),
            forall|j: int| i <= j < timers@.len() ==> timers@[j] == timers_before[j],
            enemies@ == enemies_after_spawns(timers_before, delta, lanes@, enemies_before, i as nat),
        decreases timers.len() - i,
    {
        let lane = lanes[i];
        let request = timers[i].advance(delta, lane);
        match request {
            Some(request) => {
                let stats = enemy_implementation(request.kind);
                let y = spawn_position(request.lane);
                let _ = spawn_enemy(enemies, y, stats);
            },
            None => {},
        }
        i += 1;
    }
}

/// Ticks every scheduler by `delta` nanoseconds and spawns what they ask for,
/// each enemy on a lane drawn from `picker`. Whatever lanes are drawn, the
/// outcome is that of `run_spawn_timers` on them.
pub fn update_spawn_timer(
    timers: &mut Vec<SpawnTimer>,
    delta: u64,
    picker: &mut LanePicker,
    enemies: &mut Vec<Option<Enemy>>,
)
    ensures
        final(timers)@.len() == old(timers)@.len(),
        forall|i: int|
            0 <= i < old(timers)@.len() ==> final(timers)@[i] == (#[trigger] old(timers)@[i]).advanced(
                delta,
            ),
        exists|lanes: Seq<usize>|
            lanes_for(lanes, old(timers)@.len()) && final(enemies)@ == #[trigger] enemies_after_spawns(
                old(timers)@,
                delta,
                lanes,
                old(enemies)@,
                old(timers)@.len(),
            ),
{
    let lanes = picker.pick_many(timers.len());
    run_spawn_timers(timers, delta, &lanes, enemies);
}

/// Where every scheduler is exhausted, a tick spawns nothing, whatever the
/// lanes.
pub proof fn lemma_exhausted_spawn_nothing(
    timers: Seq<SpawnTimer>,
    delta: u64,
    lanes: Seq<usize>,
    enemies: Seq<Option<Enemy>>,
    n: nat,
)
    requires
        n <= timers.len(),
        forall|i: int| 0 <= i < timers.len() ==> (#[trigger] timers[i]).exhausted(),
    ensures
        enemies_after_spawns(timers, delta, lanes, enemies, n) == enemies,
    decreases n,
{
    if n > 0 {
        lemma_exhausted_spawn_nothing(timers, delta, lanes, enemies, (n - 1) as nat);
        assert(timers[n - 1].exhausted());
    }
}

/// The script of the first wave: 22 enemies, each with the delay in nanoseconds
/// that follows its spawn.
pub open spec fn wave_1_script() -> Seq<(Enemies, u64)> {
    seq![
        (Enemies::Basic, 45_000_000_000u64),
        (Enemies::Basic, 25_000_000_000u64),
        (Enemies::Basic, 15_000_000_000u64),
        (Enemies::Basic, 10_000_000_000u64),
        (Enemies::Basic, 5_000_000_000u64),
        (Enemies::BasicHighHealth, 20_000_000_000u64),
        (Enemies::FastBasic, 15_000_000_000u64),
        (Enemies::BasicHighHealth, 15_000_000_000u64),
        (Enemies::Basic, 5_000_000_000u64),
        (Enemies::Basic, 300_000_000u64),
        (Enemies::Basic, 300_000_000u64),
        (Enemies::Basic, 300_000_000u64),
        (Enemies::BasicHighHealth, 20_000_000_000u64),
        (Enemies::FastBasic, 3_000_000_000u64),
        (Enemies::Basic, 0u64),
        (Enemies::Basic, 0u64),
        (Enemies::Basic, 0u64),
        (Enemies::Basic, 0u64),
        (Enemies::BasicHighHealth, 0u64),
        (Enemies::BasicHighHealth, 0u64),
        (Enemies::FastBasic, 0u64),
        (Enemies::FastBasic, 0u64),
    ]
}

/// The script of the first wave: 22 enemies, each with the delay in nanoseconds
/// that follows its spawn.
pub fn wave_1() -> (script: Vec<(Enemies, u64)>)
    ensures
        script@ == wave_1_script(),
{
    let mut script: Vec<(Enemies, u64)> = Vec::new();
    script.push((Enemies::Basic, 45_000_000_000));
    script.push((Enemies::Basic, 25_000_000_000));
    script.push((Enemies::Basic, 15_000_000_000));
    script.push((Enemies::Basic, 10_000_000_000));
    script.push((Enemies::Basic, 5_000_000_000));
    script.push((Enemies::BasicHighHealth, 20_000_000_000));
    script.push((Enemies::FastBasic, 15_000_000_000));
    script.push((Enemies::BasicHighHealth, 15_000_000_000));
    script.push((Enemies::Basic, 5_000_000_000));
    script.push((Enemies::Basic, 300_000_000));
    script.push((Enemies::Basic, 300_000_000));
    script.push((Enemies::Basic, 300_000_000));
    script.push((Enemies::BasicHighHealth, 20_000_000_000));
    script.push((Enemies::FastBasic, 3_000_000_000));
    script.push((Enemies::Basic, 0));
    script.push((Enemies::Basic, 0));
    script.push((Enemies::Basic, 0));
    script.push((Enemies::Basic, 0));
    script.push((Enemies::BasicHighHealth, 0));
    script.push((Enemies::BasicHighHealth, 0));
    script.push((Enemies::FastBasic, 0));
    script.push((Enemies::FastBasic, 0));
    assert(script@ =~= wave_1_script());
    script
}

/// A short script of ten enemies in quick succession, for trying things out.
pub open spec fn test_wave_script() -> Seq<(Enemies, u64)> {
    seq![
        (Enemies::Basic, 0u64),
        (Enemies::Basic, 100_000_000u64),
        (Enemies::Basic, 100_000_000u64),
        (Enemies::Basic, 100_000_000u64),
        (Enemies::Basic, 100_000_000u64),
        (Enemies::Basic, 100_000_000u64),
        (Enemies::Basic, 100_000_000u64),
        (Enemies::Basic, 100_000_000u64),
        (Enemies::BasicHighHealth, 100_000_000u64),
        (Enemies::FastBasic, 100_000_000u64),
    ]
}

/// A short script of ten enemies in quick succession, for trying things out.
pub fn test_wave() -> (script: Vec<(Enemies, u64)>)
    ensures
        script@ == test_wave_script(),
{
    let mut script: Vec<(Enemies, u64)> = Vec::new();
    script.push((Enemies::Basic, 0));
    script.push((Enemies::Basic, 100_000_000));
    script.push((Enemies::Basic, 100_000_000));
    script.push((Enemies::Basic, 100_000_000));
    script.push((Enemies::Basic, 100_000_000));
    script.push((Enemies::Basic, 100_000_000));
    script.push((Enemies::Basic, 100_000_000));
    script.push((Enemies::Basic, 100_000_000));
    script.push((Enemies::BasicHighHealth, 100_000_000));
    script.push((Enemies::FastBasic, 100_000_000));
    assert(script@ =~= test_wave_script());
    script
}

} // verus!
