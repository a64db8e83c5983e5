use lane_defense::board::{generate_board, WorldPos, UNIT};
use lane_defense::combat::{
    check_tower_health, clamp_to_i32, enemies_damage_towers, is_in_range,
    projectile_damage_enemies, PROJECTILE_RANGE,
};
use lane_defense::enemies::{walk_enemies, Damage, Enemy, EnemyHealth, Walking, MELEE_RANGE};
use lane_defense::towers::{
    attempt_place, tower_implementation, BuyableTower, Money, PlacedTower, Projectile, Shot,
    Tower,
};

fn enemy(x: i64, y: i64, health: i32, damage: i32) -> Enemy {
    Enemy {
        position: WorldPos { x, y },
        health: EnemyHealth { health },
        walking: Walking { speed: 15 },
        damage: Damage { damage, colliding: false },
    }
}

fn tower(x: i64, y: i64, health: i32) -> PlacedTower {
    PlacedTower {
        position: WorldPos { x, y },
        bundle: tower_implementation(Tower::Money).having_health(health),
    }
}

fn shot(x: i64, y: i64, damage: i32) -> Shot {
    Shot { position: WorldPos { x, y }, projectile: Projectile { speed: 200, damage } }
}

#[test]
fn ranges() {
    assert_eq!(MELEE_RANGE, 30 * UNIT);
    assert_eq!(PROJECTILE_RANGE, 10 * UNIT);
}

#[test]
fn in_range_needs_the_same_lane_and_a_smaller_distance() {
    let a = WorldPos { x: 100, y: 7 };
    assert!(is_in_range(a, WorldPos { x: 109, y: 7 }, 10));
    assert!(is_in_range(a, WorldPos { x: 91, y: 7 }, 10));
    assert!(is_in_range(a, a, 1));
    assert!(!is_in_range(a, WorldPos { x: 110, y: 7 }, 10));
    assert!(!is_in_range(a, WorldPos { x: 90, y: 7 }, 10));
    assert!(!is_in_range(a, WorldPos { x: 100, y: 8 }, 10));
    assert!(!is_in_range(a, a, 0));
    assert!(!is_in_range(a, a, -5));
    let far_left = WorldPos { x: i64::MIN, y: 0 };
    let far_right = WorldPos { x: i64::MAX, y: 0 };
    assert!(!is_in_range(far_left, far_right, i64::MAX));
    assert!(!is_in_range(far_right, far_left, i64::MAX));
}

#[test]
fn clamp_to_i32_keeps_what_fits() {
    assert_eq!(clamp_to_i32(0), 0);
    assert_eq!(clamp_to_i32(-7), -7);
    assert_eq!(clamp_to_i32(i32::MAX as i128), i32::MAX);
    assert_eq!(clamp_to_i32(i32::MAX as i128 + 1), i32::MAX);
    assert_eq!(clamp_to_i32(i32::MIN as i128 - 1), i32::MIN);
    assert_eq!(clamp_to_i32(i128::MAX), i32::MAX);
    assert_eq!(clamp_to_i32(i128::MIN), i32::MIN);
}

#[test]
fn enemy_in_melee_range_damages_the_tower_and_stops() {
    let mut enemies = vec![Some(enemy(60 * UNIT, 40 * UNIT, 100, 10))];
    let mut towers = vec![Some(tower(40 * UNIT, 40 * UNIT, 50))];
    enemies_damage_towers(&mut enemies, &mut towers);
    assert_eq!(towers, vec![Some(tower(40 * UNIT, 40 * UNIT, 40))]);
    let mut stopped = enemy(60 * UNIT, 40 * UNIT, 100, 10);
    stopped.damage.colliding = true;
    assert_eq!(enemies, vec![Some(stopped)]);
    walk_enemies(&mut enemies, 1_000_000_000);
    assert_eq!(enemies, vec![Some(stopped)]);
}

#[test]
fn melee_range_is_exclusive_and_lane_bound() {
    let mut enemies = vec![
        Some(enemy(70 * UNIT, 40 * UNIT, 100, 10)),
        Some(enemy(70 * UNIT - 1, 120 * UNIT, 100, 10)),
        Some(enemy(10 * UNIT + 1, 40 * UNIT, 100, 7)),
        Some(enemy(10 * UNIT, 40 * UNIT, 100, 10)),
        None,
    ];
    let mut towers = vec![Some(tower(40 * UNIT, 40 * UNIT, 50)), None];
    enemies_damage_towers(&mut enemies, &mut towers);
    assert_eq!(towers, vec![Some(tower(40 * UNIT, 40 * UNIT, 43)), None]);
    let flags: Vec<Option<bool>> =
        enemies.iter().map(|slot| slot.map(|e| e.damage.colliding)).collect();
    assert_eq!(flags, vec![Some(false), Some(false), Some(true), Some(false), None]);
}

#[test]
fn melee_resets_the_colliding_flag() {
    let mut walker = enemy(400 * UNIT, 40 * UNIT, 100, 10);
    walker.damage.colliding = true;
    let mut enemies = vec![Some(walker)];
    let mut towers = vec![Some(tower(40 * UNIT, 40 * UNIT, 50))];
    enemies_damage_towers(&mut enemies, &mut towers);
    assert_eq!(enemies, vec![Some(enemy(400 * UNIT, 40 * UNIT, 100, 10))]);
    assert_eq!(towers, vec![Some(tower(40 * UNIT, 40 * UNIT, 50))]);
    let mut alone = vec![Some(walker)];
    let mut none: Vec<Option<PlacedTower>> = Vec::new();
    enemies_damage_towers(&mut alone, &mut none);
    assert_eq!(alone, vec![Some(enemy(400 * UNIT, 40 * UNIT, 100, 10))]);
}

#[test]
fn every_tower_in_range_is_damaged_by_every_enemy_in_range() {
    let mut enemies = vec![
        Some(enemy(50 * UNIT, 0, 100, 10)),
        Some(enemy(55 * UNIT, 0, 100, 3)),
    ];
    let mut towers = vec![
        Some(tower(40 * UNIT, 0, 50)),
        Some(tower(70 * UNIT, 0, 50)),
        Some(tower(84 * UNIT, 0, 50)),
    ];
    enemies_damage_towers(&mut enemies, &mut towers);
    assert_eq!(
        towers,
        vec![
            Some(tower(40 * UNIT, 0, 37)),
            Some(tower(70 * UNIT, 0, 37)),
            Some(tower(84 * UNIT, 0, 47)),
        ]
    );
    assert!(enemies.iter().all(|slot| slot.unwrap().damage.colliding));
}

#[test]
fn melee_keeps_a_destroyed_tower_until_the_purge() {
    let mut enemies = vec![Some(enemy(50 * UNIT, 0, 100, 60)), Some(enemy(50 * UNIT, 0, 100, 60))];
    let mut towers = vec![Some(tower(40 * UNIT, 0, 50))];
    enemies_damage_towers(&mut enemies, &mut towers);
    assert_eq!(towers, vec![Some(tower(40 * UNIT, 0, -70))]);
}

#[test]
fn melee_damage_is_clamped_to_the_health_range() {
    let mut enemies = vec![
        Some(enemy(50 * UNIT, 0, 100, i32::MAX)),
        Some(enemy(50 * UNIT, 0, 100, i32::MAX)),
        Some(enemy(50 * UNIT, 0, 100, i32::MAX)),
    ];
    let mut towers = vec![Some(tower(40 * UNIT, 0, 50))];
    enemies_damage_towers(&mut enemies, &mut towers);
    assert_eq!(towers, vec![Some(tower(40 * UNIT, 0, i32::MIN))]);
    let mut healers = vec![Some(enemy(50 * UNIT, 0, 100, i32::MIN)), Some(enemy(50 * UNIT, 0, 100, -5))];
    let mut hurt = vec![Some(tower(40 * UNIT, 0, 50))];
    enemies_damage_towers(&mut healers, &mut hurt);
    assert_eq!(hurt, vec![Some(tower(40 * UNIT, 0, i32::MAX))]);
}

#[test]
fn projectile_in_range_damages_the_enemy_and_is_removed() {
    let mut projectiles = vec![Some(shot(95 * UNIT, 40 * UNIT, 20))];
    let mut enemies = vec![Some(enemy(100 * UNIT, 40 * UNIT, 100, 10))];
    projectile_damage_enemies(&mut projectiles, &mut enemies);
    assert_eq!(projectiles, vec![None]);
    assert_eq!(enemies, vec![Some(enemy(100 * UNIT, 40 * UNIT, 80, 10))]);
}

#[test]
fn projectile_out_of_range_or_lane_flies_on() {
    let mut projectiles = vec![
        Some(shot(90 * UNIT, 40 * UNIT, 20)),
        Some(shot(110 * UNIT, 40 * UNIT, 20)),
        Some(shot(100 * UNIT, 120 * UNIT, 20)),
        None,
    ];
    let before = projectiles.clone();
    let mut enemies = vec![Some(enemy(100 * UNIT, 40 * UNIT, 100, 10))];
    projectile_damage_enemies(&mut projectiles, &mut enemies);
    assert_eq!(projectiles, before);
    assert_eq!(enemies, vec![Some(enemy(100 * UNIT, 40 * UNIT, 100, 10))]);
}

#[test]
fn projectile_hits_only_the_first_enemy_in_range() {
    let mut projectiles = vec![Some(shot(100 * UNIT, 0, 20))];
    let mut enemies = vec![
        Some(enemy(200 * UNIT, 0, 100, 10)),
        None,
        Some(enemy(105 * UNIT, 0, 100, 10)),
        Some(enemy(100 * UNIT, 0, 100, 10)),
    ];
    projectile_damage_enemies(&mut projectiles, &mut enemies);
    assert_eq!(projectiles, vec![None]);
    assert_eq!(
        enemies,
        vec![
            Some(enemy(200 * UNIT, 0, 100, 10)),
            None,
            Some(enemy(105 * UNIT, 0, 80, 10)),
            Some(enemy(100 * UNIT, 0, 100, 10)),
        ]
    );
}

#[test]
fn second_projectile_does_not_hit_a_destroyed_enemy() {
    let mut projectiles = vec![Some(shot(100 * UNIT, 0, 20)), Some(shot(101 * UNIT, 0, 20))];
    let mut enemies = vec![Some(enemy(102 * UNIT, 0, 20, 10))];
    projectile_damage_enemies(&mut projectiles, &mut enemies);
    assert_eq!(enemies, vec![Some(enemy(102 * UNIT, 0, 0, 10))]);
    assert_eq!(projectiles, vec![None, Some(shot(101 * UNIT, 0, 20))]);
}

#[test]
fn second_projectile_goes_on_to_the_next_living_enemy() {
    let mut projectiles = vec![
        Some(shot(100 * UNIT, 0, 30)),
        Some(shot(100 * UNIT, 0, 30)),
        Some(shot(100 * UNIT, 0, 30)),
    ];
    let mut enemies = vec![Some(enemy(102 * UNIT, 0, 25, 10)), Some(enemy(98 * UNIT, 0, 100, 10))];
    projectile_damage_enemies(&mut projectiles, &mut enemies);
    assert_eq!(
        enemies,
        vec![Some(enemy(102 * UNIT, 0, -5, 10)), Some(enemy(98 * UNIT, 0, 40, 10))]
    );
    assert_eq!(projectiles, vec![None, None, None]);
}

#[test]
fn projectile_damage_is_clamped_to_the_health_range() {
    let mut projectiles = vec![Some(shot(0, 0, i32::MAX)), Some(shot(0, 0, i32::MIN))];
    let mut enemies = vec![Some(enemy(0, 0, 1, 10)), Some(enemy(0, 0, 5, 10))];
    projectile_damage_enemies(&mut projectiles, &mut enemies);
    assert_eq!(enemies, vec![Some(enemy(0, 0, 1 - i32::MAX, 10)), Some(enemy(0, 0, i32::MAX, 10))]);
    assert_eq!(projectiles, vec![None, None]);
}

#[test]
fn destroyed_towers_are_removed_and_their_cells_cleared() {
    let mut board = generate_board();
    let mut money = Money(1_000);
    let mut towers = Vec::new();
    let kind = BuyableTower { cost: 100, tower_type: Tower::Money };
    for coord in [(0, 0), (1, 0), (2, 0), (-7, -4)] {
        attempt_place(&mut board, &mut money, &mut towers, coord, &kind).unwrap();
    }
    towers[1] = towers[1].map(|t| PlacedTower { bundle: t.bundle.having_health(0), ..t });
    towers[3] = towers[3].map(|t| PlacedTower { bundle: t.bundle.having_health(-9), ..t });
    towers[2] = towers[2].map(|t| PlacedTower { bundle: t.bundle.having_health(1), ..t });
    let survivor = towers[0];
    let scratched = towers[2];
    check_tower_health(&mut towers, &mut board);
    assert_eq!(towers, vec![survivor, None, scratched, None]);
    assert_eq!(board.occupant((0, 0)), Ok(Some(0)));
    assert_eq!(board.occupant((1, 0)), Ok(None));
    assert_eq!(board.occupant((2, 0)), Ok(Some(2)));
    assert_eq!(board.occupant((-7, -4)), Ok(None));
    let again = attempt_place(&mut board, &mut money, &mut towers, (1, 0), &kind);
    assert_eq!(again.map(|placed| placed.0), Ok(1));
    assert_eq!(board.occupant((1, 0)), Ok(Some(1)));
}

#[test]
fn purging_towers_off_the_board_leaves_the_board_alone() {
    let mut board = generate_board();
    board.place((0, 0), 7).unwrap();
    let mut towers = vec![Some(tower(5_000 * UNIT, 40 * UNIT, 0)), Some(tower(900 * UNIT, 0, 5))];
    check_tower_health(&mut towers, &mut board);
    assert_eq!(towers, vec![None, Some(tower(900 * UNIT, 0, 5))]);
    assert_eq!(board.occupant((0, 0)), Ok(Some(7)));
}

#[test]
fn purge_removes_dead_enemies_and_towers_and_clears_their_cells() {
    let mut board = generate_board();
    let mut money = Money(1_000);
    let mut towers = Vec::new();
    let kind = BuyableTower { cost: 100, tower_type: Tower::NormalProjectile };
    attempt_place(&mut board, &mut money, &mut towers, (3, -2), &kind).unwrap();
    attempt_place(&mut board, &mut money, &mut towers, (4, -2), &kind).unwrap();
    towers[0] = towers[0].map(|t| PlacedTower { bundle: t.bundle.having_health(-1), ..t });
    let standing = towers[1];
    let mut enemies = vec![Some(enemy(0, 0, 0, 10)), Some(enemy(0, 0, 3, 10)), None];
    lane_defense::combat::purge_dead(&mut enemies, &mut towers, &mut board);
    assert_eq!(enemies, vec![None, Some(enemy(0, 0, 3, 10)), None]);
    assert_eq!(towers, vec![None, standing]);
    assert_eq!(board.is_occupied((3, -2)), Ok(false));
    assert_eq!(board.occupant((4, -2)), Ok(Some(1)));
}
