//! Projectiles: the shots that shooting towers fire, their flight and their
//! end beyond the playfield.

use crate::board::{clamp_i64, clamp_to_i64, WorldPos};
use crate::enemies::{distance_covered, Enemy};
use crate::registry::{add_slot, with_added};
use crate::towers::{PlacedTower, Projectile, ProjectileTower, Shot, SimpleProjectileBundle, TowerBundle};
use vstd::prelude::*;

verus! {

/// World x beyond which a projectile has left the playfield (550 world
/// units).
pub const PROJECTILE_BOUND: i64 = 550_000_000_000;

/// Whether some enemy walks in the lane at `y`.
pub open spec fn enemy_in_lane(enemies: Seq<Option<Enemy>>, y: i64) -> bool {
    exists|i: int|
        0 <= i < enemies.len() && (#[trigger] enemies[i]) is Some && enemies[i]->0.position.y == y
}

/// The tower in `slot` once the countdown to its next shot, if it is a
/// shooting tower, has been ticked by `delta` nanoseconds.
pub open spec fn with_shoot_timer_ticked(slot: Option<PlacedTower>, delta: u64) -> Option<
    PlacedTower,
> {
    match slot {
        Some(tower) => match tower.bundle {
            TowerBundle::SimpleProjectile(bundle) => Some(
                PlacedTower {
                    bundle: TowerBundle::SimpleProjectile(
                        SimpleProjectileBundle {
                            projectile_tower: ProjectileTower {
                                shoot_timer: bundle.projectile_tower.shoot_timer.ticked(delta),
                                ..bundle.projectile_tower
                            },
                            ..bundle
                        },
                    ),
                    ..tower
                },
            ),
            _ => slot,
        },
        None => None,
    }
}

/// The projectile that the tower in `slot` fires in a tick of `delta`
/// nanoseconds: a shooting tower fires where its countdown expires and an
/// enemy walks in its lane. The projectile starts at the tower, with the
/// speed and damage that the tower gives it.
pub open spec fn shot_fired(slot: Option<PlacedTower>, enemies: Seq<Option<Enemy>>, delta: u64) -> Option<
    Shot,
> {
    match slot {
        Some(tower) => match tower.bundle {
            TowerBundle::SimpleProjectile(bundle) => if bundle.projectile_tower.shoot_timer.ticked(
                delta,
            ).finished && enemy_in_lane(enemies, tower.position.y) {
                Some(
                    Shot {
                        position: tower.position,
                        projectile: Projectile {
                            speed: bundle.projectile_tower.speed,
                            damage: bundle.projectile_tower.damage,
                        },
                    },
                )
            } else {
                None
            },
            _ => None,
        },
        None => None,
    }
}

/// The towers after a volley: every shooting tower has its countdown ticked,
/// whether it fired or not.
pub open spec fn towers_after_volley(towers: Seq<Option<PlacedTower>>, delta: u64) -> Seq<
    Option<PlacedTower>,
> {
    Seq::new(towers.len(), |i: int| with_shoot_timer_ticked(towers[i], delta))
}

/// The projectiles after the first `n` towers have had their turn to fire,
/// in the order of their handles.
pub open spec fn projectiles_after_volley(
    towers: Seq<Option<PlacedTower>>,
    enemies: Seq<Option<Enemy>>,
    delta: u64,
    projectiles: Seq<Option<Shot>>,
    n: nat,
) -> Seq<Option<Shot>>
    decreases n,
{
    if n == 0 {
        projectiles
    } else {
        let before = projectiles_after_volley(towers, enemies, delta, projectiles, (n - 1) as nat);
        match shot_fired(towers[n - 1], enemies, delta) {
            Some(shot) => with_added(before, shot),
            None => before,
        }
    }
}

/// Whether some enemy walks in the lane at `y`.
fn is_enemy_in_lane(enemies: &Vec<Option<Enemy>>, y: i64) -> (present: bool)
    ensures
        present == enemy_in_lane(enemies@, y),
{
    let mut i: usize = 0;
    while i < enemies.len()
        invariant
            i <= enemies.len(),
            forall|k: int|
                0 <= k < i && (#[trigger] enemies@[k]) is Some ==> enemies@[k]->0.position.y != y,
        decreases enemies.len() - i,
    {
        if let Some(enemy) = enemies[i] {
            if enemy.position.y == y {
                return true;
            }
        }
        i += 1;
    }
    false
}

/// Gives every shooting tower its turn to fire. The countdown of each is
/// ticked by `delta` nanoseconds; where it expires and an enemy walks in the
/// tower's lane, a projectile is added at the tower's position. A countdown
/// that expires with no enemy in the lane is spent all the same.
pub fn shoot_projectiles(
    delta: u64,
    towers: &mut Vec<Option<PlacedTower>>,
    enemies: &Vec<Option<Enemy>>,
    projectiles: &mut Vec<Option<Shot>>,
)
    ensures
        final(towers)@ == towers_after_volley(old(towers)@, delta),
        final(projectiles)@ == projectiles_after_volley(
            old(towers)@,
            enemies@,
            delta,
            old(projectiles)@,
            old(towers)@.len(),
        ),
{
    let ghost towers_before = towers@;
    let ghost shots_before = projectiles@;
    let mut i: usize = 0;
    while i < towers.len()
        invariant
            i <= towers.len(),
            towers@.len() == towers_before.len(),
            forall|k: int| 0 <= k < i ==> towers@[k] == towers_after_volley(towers_before, delta)[k],
            forall|k: int| i <= k < towers@.len() ==> towers@[k] == towers_before[k],
            projectiles@ == projectiles_after_volley(
                towers_before,
                enemies@,
                delta,
                shots_before,
                i as nat,
            ),
        decreases towers.len() - i,
    {
        if let Some(tower) = towers[i] {
            if let TowerBundle::SimpleProjectile(bundle) = tower.bundle {
                let mut shooter = bundle.projectile_tower;
                shooter.shoot_timer.tick(delta);
                let enemy_present = is_enemy_in_lane(enemies, tower.position.y);
                if shooter.shoot_timer.finished() && enemy_present {
                    let shot = Shot {
                        position: tower.position,
                        projectile: Projectile { speed: shooter.speed, damage: shooter.damage },
                    };
                    let _ = add_slot(projectiles, shot);
                }
                towers.set(
                    i,
                    Some(
                        PlacedTower {
                            bundle: TowerBundle::SimpleProjectile(
                                SimpleProjectileBundle { projectile_tower: shooter, ..bundle },
                            ),
                            ..tower
                        },
                    ),
                );
            }
        }
        i += 1;
    }
    assert(towers@ =~= towers_after_volley(towers_before, delta));
}

/// A projectile after `delta` nanoseconds of flight towards higher x.
pub open spec fn flown(shot: Shot, delta: u64) -> Shot {
    Shot {
        position: WorldPos {
            x: clamp_i64(shot.position.x + shot.projectile.speed * delta),
            y: shot.position.y,
        },
        ..shot
    }
}

/// The projectiles after `delta` nanoseconds of flight.
pub open spec fn all_flown(projectiles: Seq<Option<Shot>>, delta: u64) -> Seq<Option<Shot>> {
    Seq::new(
        projectiles.len(),
        |i: int|
            match projectiles[i] {
                Some(shot) => Some(flown(shot, delta)),
                None => None,
            },
    )
}

/// Moves every projectile by `delta` nanoseconds of flight.
pub fn move_projectiles(projectiles: &mut Vec<Option<Shot>>, delta: u64)
    ensures
        final(projectiles)@ == all_flown(old(projectiles)@, delta),
{
    let ghost before = projectiles@;
    let mut i: usize = 0;
    while i < projectiles.len()
        invariant
            i <= projectiles.len(),
            projectiles@.len() == before.len(),
            forall|k: int| 0 <= k < i ==> projectiles@[k] == all_flown(before, delta)[k],
            forall|k: int| i <= k < projectiles@.len() ==> projectiles@[k] == before[k],
        decreases projectiles.len() - i,
    {
        if let Some(shot) = projectiles[i] {
            let step = distance_covered(shot.projectile.speed, delta);
            let x = clamp_to_i64(shot.position.x as i128 + step);
            projectiles.set(i, Some(Shot { position: WorldPos { x, y: shot.position.y }, ..shot }));
        }
        i += 1;
    }
    assert(projectiles@ =~= all_flown(before, delta));
}

/// The projectiles without those that have left the playfield.
pub open spec fn projectiles_in_bounds(projectiles: Seq<Option<Shot>>) -> Seq<Option<Shot>> {
    Seq::new(
        projectiles.len(),
        |i: int|
            match projectiles[i] {
                Some(shot) if shot.position.x <= PROJECTILE_BOUND => Some(shot),
                _ => None,
            },
    )
}

/// Removes every projectile that has flown beyond the bound of the
/// playfield.
pub fn despawn_out_of_bound_projectile(projectiles: &mut Vec<Option<Shot>>)
    ensures
        final(projectiles)@ == projectiles_in_bounds(old(projectiles)@),
{
    let ghost before = projectiles@;
    let mut i: usize = 0;
    while i < projectiles.len()
        invariant
            i <= projectiles.len(),
            projectiles@.len() == before.len(),
            forall|k: int| 0 <= k < i ==> projectiles@[k] == projectiles_in_bounds(before)[k],
            forall|k: int| i <= k < projectiles@.len() ==> projectiles@[k] == before[k],
        decreases projectiles.len() - i,
    {
        if let Some(shot) = projectiles[i] {
            if shot.position.x > PROJECTILE_BOUND {
                projectiles.set(i, None);
            }
        }
        i += 1;
    }
    assert(projectiles@ =~= projectiles_in_bounds(before));
}

} // verus!
