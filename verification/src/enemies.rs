//! Enemies: their kinds and stats, their spawn at the edge of the playfield,
//! their walk along a lane and their removal.

use crate::board::{clamp_i64, clamp_to_i64, WorldPos, GRID_Y_SPACING};
use crate::registry::{add_slot, first_free, with_added};
use vstd::prelude::*;

verus! {

/// World x at which enemies enter the playfield (500 world units).
pub const SPAWN_X: i64 = 500_000_000_000;

/// Number of lanes that an enemy can be spawned on.
pub const LANE_COUNT: usize = 7;

/// Horizontal distance below which an enemy and a tower of one lane touch
/// (30 world units).
pub const MELEE_RANGE: i64 = 30_000_000_000;

/// Hit points of an enemy.
#[derive(Clone, Copy, Debug, PartialEq, Eq, Structural)]
pub struct EnemyHealth {
    pub health: i32,
}

/// Walking speed of an enemy, in world units per second.
#[derive(Clone, Copy, Debug, PartialEq, Eq, Structural)]
pub struct Walking {
    pub speed: i32,
}

/// Contact damage of an enemy, and whether it touched a tower in the last
/// melee pass.
#[derive(Clone, Copy, Debug, PartialEq, Eq, Structural)]
pub struct Damage {
    pub damage: i32,
    pub colliding: bool,
}

/// The stats that an enemy starts with.
#[derive(Clone, Copy, Debug, PartialEq, Eq, Structural)]
pub struct BasicEnemy {
    pub health: EnemyHealth,
    pub walking: Walking,
    pub damage: Damage,
}

/// The kinds of enemy.
#[derive(Clone, Copy, Debug, PartialEq, Eq, Hash, Structural)]
pub enum Enemies {
    Basic,
    BasicHighHealth,
    FastBasic,
}

/// A live enemy.
#[derive(Clone, Copy, Debug, PartialEq, Eq, Structural)]
pub struct Enemy {
    pub position: WorldPos,
    pub health: EnemyHealth,
    pub walking: Walking,
    pub damage: Damage,
}

/// The catalog of enemy kinds.
pub open spec fn enemy_stats(kind: Enemies) -> BasicEnemy {
    match kind {
        Enemies::Basic => BasicEnemy {
            health: EnemyHealth { health: 100 },
            walking: Walking { speed: 15 },
            damage: Damage { damage: 10, colliding: false },
        },
        Enemies::BasicHighHealth => BasicEnemy {
            health: EnemyHealth { health: 300 },
            walking: Walking { speed: 15 },
            damage: Damage { damage: 10, colliding: false },
        },
        Enemies::FastBasic => BasicEnemy {
            health: EnemyHealth { health: 100 },
            walking: Walking { speed: 35 },
            damage: Damage { damage: 10, colliding: false },
        },
    }
}

/// Looks `kind` up in the catalog of enemy kinds.
pub fn enemy_implementation(kind: Enemies) -> (stats: BasicEnemy)
    ensures
        stats == enemy_stats(kind),
{
    let (health, speed): (i32, i32) = match kind {
        Enemies::Basic => (100, 15),
        Enemies::BasicHighHealth => (300, 15),
        Enemies::FastBasic => (100, 35),
    };
    BasicEnemy {
        health: EnemyHealth { health },
        walking: Walking { speed },
        damage: Damage { damage: 10, colliding: false },
    }
}

/// The lower edge of lane number `lane`, in world y.
pub open spec fn lane_position(lane: int) -> i64 {
    if lane == 0 {
        -80_000_000_000i64
    } else if lane == 1 {
        -160_000_000_000i64
    } else if lane == 2 {
        -240_000_000_000i64
    } else if lane == 3 {
        -320_000_000_000i64
    } else if lane == 4 {
        0
    } else if lane == 5 {
        80_000_000_000
    } else {
        160_000_000_000
    }
}

/// The lower edge of lane number `lane`, in world y.
pub fn spawn_position(lane: usize) -> (y: i64)
    requires
        lane < LANE_COUNT,
    ensures
        y == lane_position(lane as int),
{
    if lane == 0 {
        -80_000_000_000
    } else if lane == 1 {
        -160_000_000_000
    } else if lane == 2 {
        -240_000_000_000
    } else if lane == 3 {
        -320_000_000_000
    } else if lane == 4 {
        0
    } else if lane == 5 {
        80_000_000_000
    } else {
        160_000_000_000
    }
}

/// The enemy that `spawn_enemy` creates: at the spawn edge, on the middle
/// line of the lane whose lower edge is `y`, with the stats `enemy`.
pub open spec fn spawned_enemy(y: i64, enemy: BasicEnemy) -> Enemy {
    Enemy {
        position: WorldPos { x: SPAWN_X, y: clamp_i64(y + GRID_Y_SPACING / 2) },
        health: enemy.health,
        walking: enemy.walking,
        damage: enemy.damage,
    }
}

/// Adds an enemy with the stats `enemy` at the spawn edge of the lane whose
/// lower edge is `y`, and returns its handle.
pub fn spawn_enemy(enemies: &mut Vec<Option<Enemy>>, y: i64, enemy: BasicEnemy) -> (handle: usize)
    ensures
        handle == first_free(old(enemies)@),
        final(enemies)@ == with_added(old(enemies)@, spawned_enemy(y, enemy)),
{
    let middle = clamp_to_i64(y as i128 + (GRID_Y_SPACING / 2) as i128);
    let spawned = Enemy {
        position: WorldPos { x: SPAWN_X, y: middle },
        health: enemy.health,
        walking: enemy.walking,
        damage: enemy.damage,
    };
    add_slot(enemies, spawned)
}

/// The distance that something of speed `speed`, in world units per second,
/// covers in `delta` nanoseconds, in position units.
pub fn distance_covered(speed: i32, delta: u64) -> (d: i128)
    ensures
        d == speed * delta,
        -0x8000_0000_0000_0000_0000_0000 <= d <= 0x8000_0000_0000_0000_0000_0000,
{
    assert(-0x8000_0000_0000_0000_0000_0000 <= speed * delta <= 0x8000_0000_0000_0000_0000_0000)
        by (nonlinear_arith)
        requires
            -0x8000_0000 <= speed <= 0x8000_0000,
            0 <= delta <= 0x1_0000_0000_0000_0000,
    ;
    speed as i128 * delta as i128
}

/// An enemy after `delta` nanoseconds of walking: one that touches a tower
/// stays, any other moves towards lower x by its speed times the time.
pub open spec fn walked(enemy: Enemy, delta: u64) -> Enemy {
    if enemy.damage.colliding {
        enemy
    } else {
        Enemy {
            position: WorldPos {
                x: clamp_i64(enemy.position.x - enemy.walking.speed * delta),
                y: enemy.position.y,
            },
            ..enemy
        }
    }
}

/// The enemies after `delta` nanoseconds of walking.
pub open spec fn all_walked(enemies: Seq<Option<Enemy>>, delta: u64) -> Seq<Option<Enemy>> {
    Seq::new(
        enemies.len(),
        |i: int|
            match enemies[i] {
                Some(enemy) => Some(walked(enemy, delta)),
                None => None,
            },
    )
}

/// Moves every enemy that touches no tower by `delta` nanoseconds of walking.
pub fn walk_enemies(enemies: &mut Vec<Option<Enemy>>, delta: u64)
    ensures
        final(enemies)@ == all_walked(old(enemies)@, delta),
{
    let ghost before = enemies@;
    let mut i: usize = 0;
    while i < enemies.len()
        invariant
            i <= enemies.len(),
            enemies.len() == before.len(),
            forall|j: int| 0 <= j < i ==> enemies@[j] == all_walked(before, delta)[j],
            forall|j: int| i <= j < enemies.len() ==> enemies@[j] == before[j],
        decreases enemies.len() - i,
    {
        if let Some(enemy) = enemies[i] {
            if !enemy.damage.colliding {
                let step = distance_covered(enemy.walking.speed, delta);
                let x = clamp_to_i64(enemy.position.x as i128 - step);
                let moved = Enemy { position: WorldPos { x, y: enemy.position.y }, ..enemy };
                enemies.set(i, Some(moved));
            }
        }
        i += 1;
    }
    assert(enemies@ =~= all_walked(before, delta));
}

/// The enemies without those whose health is zero or less.
pub open spec fn living_enemies(enemies: Seq<Option<Enemy>>) -> Seq<Option<Enemy>> {
    Seq::new(
        enemies.len(),
        |i: int|
            match enemies[i] {
                Some(enemy) if enemy.health.health > 0 => Some(enemy),
                _ => None,
            },
    )
}

/// Removes every enemy whose health is zero or less.
pub fn check_enemy_health(enemies: &mut Vec<Option<Enemy>>)
    ensures
        final(enemies)@ == living_enemies(old(enemies)@),
{
    let ghost before = enemies@;
    let mut i: usize = 0;
    while i < enemies.len()
        invariant
            i <= enemies.len(),
            enemies.len() == before.len(),
            forall|j: int| 0 <= j < i ==> enemies@[j] == living_enemies(before)[j],
            forall|j: int| i <= j < enemies.len() ==> enemies@[j] == before[j],
        decreases enemies.len() - i,
    {
        if let Some(enemy) = enemies[i] {
            if enemy.health.health <= 0 {
                enemies.set(i, None);
            }
        }
        i += 1;
    }
    assert(enemies@ =~= living_enemies(before));
}

} // verus!
