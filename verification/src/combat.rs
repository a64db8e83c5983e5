//! Combat: enemies that touch towers, projectiles that hit enemies, and the
//! removal of towers that were destroyed.

use crate::board::{covers_board, on_board, world_to_grid, Board, WorldPos};
use crate::enemies::{
    check_enemy_health, living_enemies, Damage, Enemy, EnemyHealth, MELEE_RANGE,
};
use crate::towers::{board_matches_towers, PlacedTower, Shot};
use vstd::prelude::*;

verus! {

/// Horizontal distance below which a projectile hits an enemy of its lane
/// (10 world units).
pub const PROJECTILE_RANGE: i64 = 10_000_000_000;

/// How far apart `a` and `b` are.
pub open spec fn distance(a: int, b: int) -> int {
    if a >= b {
        a - b
    } else {
        b - a
    }
}

/// Whether `a` and `b` lie in one lane, at the same y, and less than `range`
/// apart in x.
pub open spec fn in_range(a: WorldPos, b: WorldPos, range: i64) -> bool {
    a.y == b.y && distance(a.x as int, b.x as int) < range
}

/// `v` brought into the range of `i32`.
pub open spec fn clamp_i32(v: int) -> i32 {
    if v < i32::MIN {
        i32::MIN
    } else if v > i32::MAX {
        i32::MAX
    } else {
        v as i32
    }
}

/// Whether `a` and `b` lie in one lane and less than `range` apart.
pub fn is_in_range(a: WorldPos, b: WorldPos, range: i64) -> (near: bool)
    ensures
        near == in_range(a, b, range),
{
    if a.y != b.y {
        return false;
    }
    let gap: i128 = if a.x >= b.x {
        a.x as i128 - b.x as i128
    } else {
        b.x as i128 - a.x as i128
    };
    gap < range as i128
}

/// Brings a wide integer into the range of `i32`.
pub fn clamp_to_i32(v: i128) -> (r: i32)
    ensures
        r == clamp_i32(v as int),
{
    if v < i32::MIN as i128 {
        i32::MIN
    } else if v > i32::MAX as i128 {
        i32::MAX
    } else {
        v as i32
    }
}

/// Whether some tower stands in melee range of `enemy`.
pub open spec fn touches_a_tower(enemy: WorldPos, towers: Seq<Option<PlacedTower>>) -> bool {
    exists|j: int|
        0 <= j < towers.len() && (#[trigger] towers[j]) is Some && in_range(
            enemy,
            towers[j]->0.position,
            MELEE_RANGE,
        )
}

/// The contact damage that `enemy` deals to a tower at `tower`.
pub open spec fn contact_damage(enemy: Option<Enemy>, tower: WorldPos) -> int {
    match enemy {
        Some(e) if in_range(e.position, tower, MELEE_RANGE) => e.damage.damage as int,
        _ => 0,
    }
}

/// The sum of the contact damage of all enemies in melee range of a tower at
/// `tower`.
pub open spec fn melee_damage(enemies: Seq<Option<Enemy>>, tower: WorldPos) -> int
    decreases enemies.len(),
{
    if enemies.len() == 0 {
        0
    } else {
        melee_damage(enemies.drop_last(), tower) + contact_damage(enemies.last(), tower)
    }
}

/// The enemies after a melee pass: each is marked as colliding exactly if a
/// tower stands in its melee range.
pub open spec fn enemies_after_melee(
    enemies: Seq<Option<Enemy>>,
    towers: Seq<Option<PlacedTower>>,
) -> Seq<Option<Enemy>> {
    Seq::new(
        enemies.len(),
        |i: int|
            match enemies[i] {
                Some(enemy) => Some(
                    Enemy {
                        damage: Damage {
                            colliding: touches_a_tower(enemy.position, towers),
                            ..enemy.damage
                        },
                        ..enemy
                    },
                ),
                None => None,
            },
    )
}

/// The towers after a melee pass: each has lost the contact damage of every
/// enemy in its melee range.
pub open spec fn towers_after_melee(
    enemies: Seq<Option<Enemy>>,
    towers: Seq<Option<PlacedTower>>,
) -> Seq<Option<PlacedTower>> {
    Seq::new(
        towers.len(),
        |j: int|
            match towers[j] {
                Some(tower) => Some(
                    PlacedTower {
                        bundle: tower.bundle.with_health(
                            clamp_i32(tower.bundle.health() - melee_damage(enemies, tower.position)),
                        ),
                        ..tower
                    },
                ),
                None => None,
            },
    )
}

/// Whether some tower stands in melee range of `enemy`.
fn enemy_touches_a_tower(enemy: WorldPos, towers: &Vec<Option<PlacedTower>>) -> (touches: bool)
    ensures
        touches == touches_a_tower(enemy, towers@),
{
    let mut j: usize = 0;
    while j < towers.len()
        invariant
            j <= towers.len(),
            forall|k: int|
                0 <= k < j && (#[trigger] towers@[k]) is Some ==> !in_range(
                    enemy,
                    towers@[k]->0.position,
                    MELEE_RANGE,
                ),
        decreases towers.len() - j,
    {
        if let Some(tower) = towers[j] {
            if is_in_range(enemy, tower.position, MELEE_RANGE) {
                return true;
            }
        }
        j += 1;
    }
    false
}

/// The sum of the contact damage of all enemies in melee range of a tower at
/// `tower`.
fn total_melee_damage(enemies: &Vec<Option<Enemy>>, tower: WorldPos) -> (total: i128)
    ensures
        total == melee_damage(enemies@, tower),
        -0x8000_0000 * enemies.len() <= total <= 0x8000_0000 * enemies.len(),
{
    let mut total: i128 = 0;
    let mut i: usize = 0;
    while i < enemies.len()
        invariant
            i <= enemies.len(),
            total == melee_damage(enemies@.take(i as int), tower),
            -0x8000_0000 * i <= total <= 0x8000_0000 * i,
        decreases enemies.len() - i,
    {
        proof {
            assert(enemies@.take(i + 1).drop_last() =~= enemies@.take(i as int));
        }
        if let Some(enemy) = enemies[i] {
            if is_in_range(enemy.position, tower, MELEE_RANGE) {
                total = total + enemy.damage.damage as i128;
            }
        }
        i += 1;
    }
    proof {
        assert(enemies@.take(enemies.len() as int) =~= enemies@);
    }
    total
}

/// The melee pass. Every enemy is marked as colliding exactly if a tower
/// stands in its melee range, and every tower loses the contact damage of
/// every enemy in its melee range. Nothing is removed: a tower that falls to
/// zero health or below stays until it is purged.
pub fn enemies_damage_towers(
    enemies: &mut Vec<Option<Enemy>>,
    towers: &mut Vec<Option<PlacedTower>>,
)
    ensures
        final(enemies)@ == enemies_after_melee(old(enemies)@, old(towers)@),
        final(towers)@ == towers_after_melee(old(enemies)@, old(towers)@),
{
    let ghost enemies_before = enemies@;
    let ghost towers_before = towers@;
    let mut j: usize = 0;
    while j < towers.len()
        invariant
            j <= towers.len(),
            enemies@ == enemies_before,
            towers@.len() == towers_before.len(),
            forall|k: int|
                0 <= k < j ==> towers@[k] == towers_after_melee(enemies_before, towers_before)[k],
            forall|k: int| j <= k < towers@.len() ==> towers@[k] == towers_before[k],
        decreases towers.len() - j,
    {
        if let Some(tower) = towers[j] {
            let damage = total_melee_damage(enemies, tower.position);
            let health = clamp_to_i32(tower.bundle.health_points() as i128 - damage);
            towers.set(j, Some(PlacedTower { bundle: tower.bundle.having_health(health), ..tower }));
        }
        j += 1;
    }
    let mut i: usize = 0;
    while i < enemies.len()
        invariant
            i <= enemies.len(),
            enemies@.len() == enemies_before.len(),
            towers@ =~= towers_after_melee(enemies_before, towers_before),
            forall|k: int|
                0 <= k < i ==> enemies@[k] == enemies_after_melee(enemies_before, towers_before)[k],
            forall|k: int| i <= k < enemies@.len() ==> enemies@[k] == enemies_before[k],
        decreases enemies.len() - i,
    {
        if let Some(enemy) = enemies[i] {
            let touches = enemy_touches_a_tower(enemy.position, towers);
            proof {
                lemma_melee_keeps_positions(enemies_before, towers_before, enemy.position);
            }
            enemies.set(
                i,
                Some(Enemy { damage: Damage { colliding: touches, ..enemy.damage }, ..enemy }),
            );
        }
        i += 1;
    }
    assert(enemies@ =~= enemies_after_melee(enemies_before, towers_before));
}

/// The melee pass moves no tower, so that an enemy touches a tower after it
/// exactly if it did before.
pub proof fn lemma_melee_keeps_positions(
    enemies: Seq<Option<Enemy>>,
    towers: Seq<Option<PlacedTower>>,
    enemy: WorldPos,
)
    ensures
        touches_a_tower(enemy, towers_after_melee(enemies, towers)) == touches_a_tower(enemy, towers),
{
    let after = towers_after_melee(enemies, towers);
    if touches_a_tower(enemy, towers) {
        let j = choose|j: int|
            0 <= j < towers.len() && (#[trigger] towers[j]) is Some && in_range(
                enemy,
                towers[j]->0.position,
                MELEE_RANGE,
            );
        assert(after[j] is Some && in_range(enemy, after[j]->0.position, MELEE_RANGE));
    }
    if touches_a_tower(enemy, after) {
        let j = choose|j: int|
            0 <= j < after.len() && (#[trigger] after[j]) is Some && in_range(
                enemy,
                after[j]->0.position,
                MELEE_RANGE,
            );
        assert(towers[j] is Some && in_range(enemy, towers[j]->0.position, MELEE_RANGE));
    }
}

/// Whether the projectile `shot` can hit what is in the slot `enemy`: a
/// living enemy of its lane within projectile range. An enemy whose health is
/// zero or less is hit no more.
pub open spec fn can_hit(shot: Shot, enemy: Option<Enemy>) -> bool {
    &&& enemy is Some
    &&& enemy->0.health.health > 0
    &&& in_range(shot.position, enemy->0.position, PROJECTILE_RANGE)
}

/// Whether `k` is the handle of the first enemy that `shot` can hit, or the
/// number of slots where it can hit none.
pub open spec fn is_first_target(shot: Shot, enemies: Seq<Option<Enemy>>, k: int) -> bool {
    &&& 0 <= k <= enemies.len()
    &&& forall|j: int| 0 <= j < k ==> !can_hit(shot, #[trigger] enemies[j])
    &&& k < enemies.len() ==> can_hit(shot, enemies[k])
}

/// The handle of the first enemy that `shot` can hit, or the number of slots
/// where it can hit none.
pub open spec fn first_target(shot: Shot, enemies: Seq<Option<Enemy>>) -> int {
    choose|k: int| is_first_target(shot, enemies, k)
}

/// Exactly one number is the first target of a projectile.
pub proof fn lemma_first_target_is_unique(shot: Shot, enemies: Seq<Option<Enemy>>, k: int)
    requires
        is_first_target(shot, enemies, k),
    ensures
        first_target(shot, enemies) == k,
{
    let c = first_target(shot, enemies);
    assert(is_first_target(shot, enemies, c));
    if c < k {
        assert(!can_hit(shot, enemies[c]));
    }
    if k < c {
        assert(!can_hit(shot, enemies[k]));
    }
}

/// An enemy that has taken `damage`.
pub open spec fn hit(enemy: Enemy, damage: i32) -> Enemy {
    Enemy { health: EnemyHealth { health: clamp_i32(enemy.health.health - damage) }, ..enemy }
}

/// The enemies after the projectile in `slot`, if there is one, has hit its
/// first target, if it has one.
pub open spec fn enemies_after_shot(slot: Option<Shot>, enemies: Seq<Option<Enemy>>) -> Seq<
    Option<Enemy>,
> {
    match slot {
        Some(shot) => {
            let k = first_target(shot, enemies);
            if k < enemies.len() {
                enemies.update(k, Some(hit(enemies[k]->0, shot.projectile.damage)))
            } else {
                enemies
            }
        },
        None => enemies,
    }
}

/// The enemies after the first `n` projectiles have hit, one after the
/// other in the order of their handles.
pub open spec fn enemies_after_shots(
    projectiles: Seq<Option<Shot>>,
    enemies: Seq<Option<Enemy>>,
    n: nat,
) -> Seq<Option<Enemy>>
    decreases n,
{
    if n == 0 {
        enemies
    } else {
        enemies_after_shot(
            projectiles[n - 1],
            enemies_after_shots(projectiles, enemies, (n - 1) as nat),
        )
    }
}

/// The projectiles after the ranged pass: one that found a target is gone.
pub open spec fn projectiles_after_shots(
    projectiles: Seq<Option<Shot>>,
    enemies: Seq<Option<Enemy>>,
) -> Seq<Option<Shot>> {
    Seq::new(
        projectiles.len(),
        |i: int|
            {
                let targets = enemies_after_shots(projectiles, enemies, i as nat);
                match projectiles[i] {
                    Some(shot) if first_target(shot, targets) < targets.len() => None,
                    slot => slot,
                }
            },
    )
}

/// The handle of the first enemy that `shot` can hit, or the number of slots
/// where it can hit none.
fn find_first_target(shot: Shot, enemies: &Vec<Option<Enemy>>) -> (k: usize)
    ensures
        k == first_target(shot, enemies@),
        k <= enemies.len(),
        k < enemies.len() ==> can_hit(shot, enemies@[k as int]),
{
    let mut k: usize = 0;
    while k < enemies.len()
        invariant
            k <= enemies.len(),
            forall|j: int| 0 <= j < k ==> !can_hit(shot, #[trigger] enemies@[j]),
        decreases enemies.len() - k,
    {
        if let Some(enemy) = enemies[k] {
            if enemy.health.health > 0 && is_in_range(shot.position, enemy.position, PROJECTILE_RANGE) {
                proof {
                    lemma_first_target_is_unique(shot, enemies@, k as int);
                }
                return k;
            }
        }
        k += 1;
    }
    proof {
        lemma_first_target_is_unique(shot, enemies@, k as int);
    }
    k
}

/// The ranged pass. The projectiles are taken in the order of their handles.
/// Each hits the first living enemy of its lane within projectile range, if
/// there is one: the enemy loses the projectile's damage and the projectile
/// is removed. A projectile hits one enemy at most, and an enemy whose health
/// has fallen to zero or below is hit no more. No enemy is removed.
pub fn projectile_damage_enemies(
    projectiles: &mut Vec<Option<Shot>>,
    enemies: &mut Vec<Option<Enemy>>,
)
    ensures
        final(projectiles)@ == projectiles_after_shots(old(projectiles)@, old(enemies)@),
        final(enemies)@ == enemies_after_shots(
            old(projectiles)@,
            old(enemies)@,
            old(projectiles)@.len(),
        ),
{
    let ghost shots_before = projectiles@;
    let ghost enemies_before = enemies@;
    let mut i: usize = 0;
    while i < projectiles.len()
        invariant
            i <= projectiles.len(),
            projectiles@.len() == shots_before.len(),
            enemies@ == enemies_after_shots(shots_before, enemies_before, i as nat),
            forall|k: int|
                0 <= k < i ==> projectiles@[k] == projectiles_after_shots(
                    shots_before,
                    enemies_before,
                )[k],
            forall|k: int| i <= k < projectiles@.len() ==> projectiles@[k] == shots_before[k],
        decreases projectiles.len() - i,
    {
        if let Some(shot) = projectiles[i] {
            let k = find_first_target(shot, enemies);
            if k < enemies.len() {
                if let Some(enemy) = enemies[k] {
                    let health = clamp_to_i32(
                        enemy.health.health as i128 - shot.projectile.damage as i128,
                    );
                    enemies.set(k, Some(Enemy { health: EnemyHealth { health }, ..enemy }));
                    projectiles.set(i, None);
                }
            }
        }
        i += 1;
    }
    assert(projectiles@ =~= projectiles_after_shots(shots_before, enemies_before));
}

/// Whether a tower that was destroyed, one with health of zero or less,
/// stands on the cell `coord`.
pub open spec fn is_ruin(towers: Seq<Option<PlacedTower>>, coord: (i32, i32)) -> bool {
    exists|h: int|
        0 <= h < towers.len() && (#[trigger] towers[h]) is Some && towers[h]->0.bundle.health() <= 0
            && world_to_grid(towers[h]->0.position) == coord
}

/// The towers without those whose health is zero or less.
pub open spec fn standing_towers(towers: Seq<Option<PlacedTower>>) -> Seq<Option<PlacedTower>> {
    Seq::new(
        towers.len(),
        |h: int|
            match towers[h] {
                Some(tower) if tower.bundle.health() > 0 => Some(tower),
                _ => None,
            },
    )
}

/// The grid once the cells of all destroyed towers have been cleared.
pub open spec fn cells_without_ruins(
    cells: Map<(i32, i32), Option<usize>>,
    towers: Seq<Option<PlacedTower>>,
) -> Map<(i32, i32), Option<usize>> {
    Map::new(
        |coord: (i32, i32)| cells.dom().contains(coord),
        |coord: (i32, i32)|
            if on_board(coord) && is_ruin(towers, coord) {
                None
            } else {
                cells[coord]
            },
    )
}

/// Removes every tower whose health is zero or less and clears its cell of
/// the board. Where the board and the registry agreed before, they agree
/// after: no cell names a tower that is gone.
pub fn check_tower_health(towers: &mut Vec<Option<PlacedTower>>, board: &mut Board)
    requires
        old(board).wf(),
    ensures
        final(board).wf(),
        final(towers)@ == standing_towers(old(towers)@),
        final(board)@ == cells_without_ruins(old(board)@, old(towers)@),
        board_matches_towers(old(board)@, old(towers)@) ==> board_matches_towers(
            final(board)@,
            final(towers)@,
        ),
{
    let ghost towers_before = towers@;
    let ghost cells_before = board@;
    proof {
        board.lemma_covers_board();
    }
    let mut h: usize = 0;
    while h < towers.len()
        invariant
            h <= towers.len(),
            board.wf(),
            covers_board(cells_before),
            covers_board(board@),
            towers@.len() == towers_before.len(),
            forall|k: int| 0 <= k < h ==> towers@[k] == standing_towers(towers_before)[k],
            forall|k: int| h <= k < towers@.len() ==> towers@[k] == towers_before[k],
            forall|coord: (i32, i32)|
                on_board(coord) ==> (#[trigger] board@[coord]) == (if is_ruin(
                    towers_before.take(h as int),
                    coord,
                ) {
                    None
                } else {
                    cells_before[coord]
                }),
        decreases towers.len() - h,
    {
        let ghost cells_now = board@;
        if let Some(tower) = towers[h] {
            if tower.bundle.health_points() <= 0 {
                let coord = crate::board::convert_world_to_grid(tower.position);
                board.clear(coord);
                towers.set(h, None);
            }
        }
        proof {
            board.lemma_covers_board();
            let shorter = towers_before.take(h as int);
            let longer = towers_before.take(h + 1);
            assert forall|coord: (i32, i32)| on_board(coord) implies (#[trigger] board@[coord]) == (
            if is_ruin(longer, coord) {
                None
            } else {
                cells_before[coord]
            }) by {
                let falls_here = towers_before[h as int] is Some
                    && towers_before[h as int]->0.bundle.health() <= 0 && world_to_grid(
                    towers_before[h as int]->0.position,
                ) == coord;
                if is_ruin(shorter, coord) {
                    let w = choose|w: int|
                        0 <= w < shorter.len() && (#[trigger] shorter[w]) is Some
                            && shorter[w]->0.bundle.health() <= 0 && world_to_grid(
                            shorter[w]->0.position,
                        ) == coord;
                    assert(longer[w] is Some);
                    assert(is_ruin(longer, coord));
                }
                if falls_here {
                    assert(longer[h as int] is Some);
                    assert(is_ruin(longer, coord));
                }
                if is_ruin(longer, coord) && !falls_here {
                    let w = choose|w: int|
                        0 <= w < longer.len() && (#[trigger] longer[w]) is Some
                            && longer[w]->0.bundle.health() <= 0 && world_to_grid(
                            longer[w]->0.position,
                        ) == coord;
                    assert(w < h);
                    assert(shorter[w] is Some);
                    assert(is_ruin(shorter, coord));
                }
            }
        }
        h += 1;
    }
    proof {
        assert(towers_before.take(towers_before.len() as int) =~= towers_before);
        let cleared = cells_without_ruins(cells_before, towers_before);
        assert forall|coord: (i32, i32)| #[trigger]
            board@.dom().contains(coord) == cleared.dom().contains(coord) by {}
        assert(board@.dom() =~= cleared.dom());
        assert forall|coord: (i32, i32)| #[trigger] board@.dom().contains(coord) implies board@[coord]
            == cleared[coord] by {
            assert(on_board(coord));
        }
        assert(board@ =~= cleared);
        assert(towers@ =~= standing_towers(towers_before));
        assert(old(towers).len() == towers_before.len());
        if board_matches_towers(cells_before, towers_before) {
            lemma_purge_keeps_match(cells_before, towers_before);
        }
    }
}

/// Removing the destroyed towers and clearing their cells leaves the board
/// and the registry in agreement.
pub proof fn lemma_purge_keeps_match(
    cells: Map<(i32, i32), Option<usize>>,
    towers: Seq<Option<PlacedTower>>,
)
    requires
        covers_board(cells),
        board_matches_towers(cells, towers),
        towers.len() <= usize::MAX,
    ensures
        board_matches_towers(cells_without_ruins(cells, towers), standing_towers(towers)),
{
    let cells2 = cells_without_ruins(cells, towers);
    let towers2 = standing_towers(towers);
    assert forall|coord: (i32, i32)| on_board(coord) && (#[trigger] cells2[coord]) is Some implies {
        let handle = cells2[coord]->0 as int;
        &&& handle < towers2.len()
        &&& towers2[handle] is Some
        &&& world_to_grid(towers2[handle]->0.position) == coord
    } by {
        assert(!is_ruin(towers, coord));
        assert(cells[coord] is Some);
        let handle = cells[coord]->0 as int;
        assert(towers[handle] is Some);
    }
    assert forall|handle: int|
        0 <= handle < towers2.len() && (#[trigger] towers2[handle]) is Some implies {
        let coord = world_to_grid(towers2[handle]->0.position);
        &&& on_board(coord)
        &&& cells2[coord] == Some(handle as usize)
    } by {
        assert(towers[handle] is Some);
        let coord = world_to_grid(towers[handle]->0.position);
        if is_ruin(towers, coord) {
            let w = choose|w: int|
                0 <= w < towers.len() && (#[trigger] towers[w]) is Some
                    && towers[w]->0.bundle.health() <= 0 && world_to_grid(towers[w]->0.position)
                    == coord;
            assert(cells[coord] == Some(w as usize));
            assert(cells[coord] == Some(handle as usize));
            assert(w == handle);
        }
    }
}

/// The purge at the end of a tick's combat: removes every enemy and every
/// tower whose health is zero or less, and clears the cells of the towers
/// that it removes.
pub fn purge_dead(
    enemies: &mut Vec<Option<Enemy>>,
    towers: &mut Vec<Option<PlacedTower>>,
    board: &mut Board,
)
    requires
        old(board).wf(),
    ensures
        final(board).wf(),
        final(enemies)@ == living_enemies(old(enemies)@),
        final(towers)@ == standing_towers(old(towers)@),
        final(board)@ == cells_without_ruins(old(board)@, old(towers)@),
        board_matches_towers(old(board)@, old(towers)@) ==> board_matches_towers(
            final(board)@,
            final(towers)@,
        ),
{
    check_enemy_health(enemies);
    check_tower_health(towers, board);
}

/// After the purge nothing with health of zero or less is left: no such
/// enemy, no such tower, and every cell on which such a tower stood is
/// empty.
pub proof fn lemma_purge_leaves_no_dead(
    cells: Map<(i32, i32), Option<usize>>,
    enemies: Seq<Option<Enemy>>,
    towers: Seq<Option<PlacedTower>>,
)
    ensures
        forall|i: int|
            0 <= i < enemies.len() && (#[trigger] enemies[i]) is Some && enemies[i]->0.health.health
                <= 0 ==> living_enemies(enemies)[i] is None,
        forall|h: int|
            0 <= h < towers.len() && (#[trigger] towers[h]) is Some && towers[h]->0.bundle.health()
                <= 0 ==> standing_towers(towers)[h] is None,
        forall|coord: (i32, i32)|
            cells.dom().contains(coord) && on_board(coord) && is_ruin(towers, coord)
                ==> (#[trigger] cells_without_ruins(cells, towers)[coord]) is None,
{
}

} // verus!
