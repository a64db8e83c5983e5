use lane_defense::board::{WorldPos, UNIT};
use lane_defense::enemies::{
    check_enemy_health, distance_covered, enemy_implementation, spawn_enemy, spawn_position,
    walk_enemies, BasicEnemy, Damage, Enemies, Enemy, EnemyHealth, Walking, LANE_COUNT,
    MELEE_RANGE, SPAWN_X,
};

fn enemy_at(x: i64, y: i64, health: i32, speed: i32, colliding: bool) -> Enemy {
    Enemy {
        position: WorldPos { x, y },
        health: EnemyHealth { health },
        walking: Walking { speed },
        damage: Damage { damage: 10, colliding },
    }
}

#[test]
fn enemy_catalog() {
    assert_eq!(
        enemy_implementation(Enemies::Basic),
        BasicEnemy {
            health: EnemyHealth { health: 100 },
            walking: Walking { speed: 15 },
            damage: Damage { damage: 10, colliding: false },
        }
    );
    assert_eq!(
        enemy_implementation(Enemies::BasicHighHealth),
        BasicEnemy {
            health: EnemyHealth { health: 300 },
            walking: Walking { speed: 15 },
            damage: Damage { damage: 10, colliding: false },
        }
    );
    assert_eq!(
        enemy_implementation(Enemies::FastBasic),
        BasicEnemy {
            health: EnemyHealth { health: 100 },
            walking: Walking { speed: 35 },
            damage: Damage { damage: 10, colliding: false },
        }
    );
}

#[test]
fn enemy_constants() {
    assert_eq!(SPAWN_X, 500 * UNIT);
    assert_eq!(LANE_COUNT, 7);
    assert_eq!(MELEE_RANGE, 30 * UNIT);
}

#[test]
fn spawn_positions_of_the_seven_lanes() {
    let expected = [-80, -160, -240, -320, 0, 80, 160];
    for lane in 0..7 {
        assert_eq!(spawn_position(lane), expected[lane] * UNIT);
    }
}

#[test]
fn spawn_enemy_puts_it_at_the_spawn_edge_in_the_middle_of_the_lane() {
    let mut enemies = Vec::new();
    let handle = spawn_enemy(&mut enemies, -80 * UNIT, enemy_implementation(Enemies::Basic));
    assert_eq!(handle, 0);
    assert_eq!(enemies, vec![Some(enemy_at(500 * UNIT, -40 * UNIT, 100, 15, false))]);
}

#[test]
fn spawn_enemy_clamps_the_lane_position() {
    let mut enemies = Vec::new();
    spawn_enemy(&mut enemies, i64::MAX, enemy_implementation(Enemies::FastBasic));
    assert_eq!(enemies, vec![Some(enemy_at(500 * UNIT, i64::MAX, 100, 35, false))]);
}

#[test]
fn spawn_enemy_takes_the_first_free_slot() {
    let other = enemy_at(1, 2, 3, 4, false);
    let mut enemies = vec![Some(other), None, Some(other), None];
    let handle = spawn_enemy(&mut enemies, 0, enemy_implementation(Enemies::BasicHighHealth));
    assert_eq!(handle, 1);
    let spawned = enemy_at(500 * UNIT, 40 * UNIT, 300, 15, false);
    assert_eq!(enemies, vec![Some(other), Some(spawned), Some(other), None]);
    let next = spawn_enemy(&mut enemies, 0, enemy_implementation(Enemies::BasicHighHealth));
    assert_eq!(next, 3);
    let last = spawn_enemy(&mut enemies, 0, enemy_implementation(Enemies::BasicHighHealth));
    assert_eq!(last, 4);
    assert_eq!(enemies.len(), 5);
}

#[test]
fn distance_covered_is_speed_times_time() {
    assert_eq!(distance_covered(15, 16_000_000), 240_000_000);
    assert_eq!(distance_covered(-3, 5), -15);
    assert_eq!(distance_covered(0, u64::MAX), 0);
    assert_eq!(distance_covered(i32::MIN, u64::MAX), i32::MIN as i128 * u64::MAX as i128);
    assert_eq!(distance_covered(i32::MAX, u64::MAX), i32::MAX as i128 * u64::MAX as i128);
}

#[test]
fn walking_moves_towards_lower_x_by_speed_times_time() {
    let mut enemies = vec![Some(enemy_at(500 * UNIT, 40 * UNIT, 100, 15, false)), None];
    walk_enemies(&mut enemies, 1_000_000_000);
    assert_eq!(enemies, vec![Some(enemy_at(485 * UNIT, 40 * UNIT, 100, 15, false)), None]);
    walk_enemies(&mut enemies, 16_000_000);
    assert_eq!(
        enemies,
        vec![Some(enemy_at(485 * UNIT - 240_000_000, 40 * UNIT, 100, 15, false)), None]
    );
    walk_enemies(&mut enemies, 0);
    assert_eq!(
        enemies,
        vec![Some(enemy_at(485 * UNIT - 240_000_000, 40 * UNIT, 100, 15, false)), None]
    );
}

#[test]
fn colliding_enemy_does_not_walk() {
    let mut enemies = vec![
        Some(enemy_at(100 * UNIT, 40 * UNIT, 100, 15, true)),
        Some(enemy_at(100 * UNIT, 40 * UNIT, 100, 35, false)),
    ];
    walk_enemies(&mut enemies, 2_000_000_000);
    assert_eq!(
        enemies,
        vec![
            Some(enemy_at(100 * UNIT, 40 * UNIT, 100, 15, true)),
            Some(enemy_at(30 * UNIT, 40 * UNIT, 100, 35, false)),
        ]
    );
}

#[test]
fn walking_stops_at_the_ends_of_the_number_range() {
    let mut enemies = vec![
        Some(enemy_at(i64::MIN + 5, 0, 100, 15, false)),
        Some(enemy_at(i64::MAX - 5, 0, 100, -15, false)),
        Some(enemy_at(0, 0, 100, i32::MAX, false)),
    ];
    walk_enemies(&mut enemies, u64::MAX);
    assert_eq!(
        enemies,
        vec![
            Some(enemy_at(i64::MIN, 0, 100, 15, false)),
            Some(enemy_at(i64::MAX, 0, 100, -15, false)),
            Some(enemy_at(i64::MIN, 0, 100, i32::MAX, false)),
        ]
    );
}

#[test]
fn enemies_with_no_health_left_are_removed() {
    let mut enemies = vec![
        Some(enemy_at(1, 1, 1, 15, false)),
        Some(enemy_at(2, 2, 0, 15, false)),
        None,
        Some(enemy_at(3, 3, -20, 15, true)),
        Some(enemy_at(4, 4, i32::MIN, 15, false)),
        Some(enemy_at(5, 5, i32::MAX, 15, false)),
    ];
    check_enemy_health(&mut enemies);
    assert_eq!(
        enemies,
        vec![
            Some(enemy_at(1, 1, 1, 15, false)),
            None,
            None,
            None,
            None,
            Some(enemy_at(5, 5, i32::MAX, 15, false)),
        ]
    );
}

#[test]
fn walking_and_purging_an_empty_registry_does_nothing() {
    let mut enemies: Vec<Option<Enemy>> = Vec::new();
    walk_enemies(&mut enemies, 5);
    check_enemy_health(&mut enemies);
    assert!(enemies.is_empty());
}
