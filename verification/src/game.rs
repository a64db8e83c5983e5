//! The simulation: the board, the balance, the live entities and the wave
//! schedulers, advanced tick by tick in a fixed order.

use crate::board::{covers_board, generate_board, on_board, world_to_grid, Board, WorldPos};
use crate::combat::{
    cells_without_ruins, enemies_after_melee, enemies_after_shots, enemies_damage_towers,
    projectile_damage_enemies, projectiles_after_shots, purge_dead, standing_towers,
    towers_after_melee,
};
use crate::economy::{capped_balance, total_gain, towers_after_gains, update_money};
use crate::enemies::{all_walked, living_enemies, walk_enemies, Enemies, Enemy};
use crate::error::GameError;
use crate::lanes::LanePicker;
use crate::projectiles::{
    all_flown, despawn_out_of_bound_projectile, move_projectiles, projectiles_after_volley,
    projectiles_in_bounds, shoot_projectiles, towers_after_volley,
};
use crate::towers::{
    attempt_place, board_matches_towers, mouse_action, placement_check, select_tower,
    setup_tower_costs, spawn_tower_at_mouse, tower_costs, BuyableTower, Money, MoneyUpdated,
    MouseAction, PlacedTower, SelectableTowers, Shot,
};
use crate::waves::{enemies_after_spawns, lanes_for, run_spawn_timers, SpawnTimer};
use vstd::prelude::*;

verus! {

/// What a simulation holds, as plain mathematical values.
pub struct SimulationState {
    /// The occupant of each cell of the board.
    pub cells: Map<(i32, i32), Option<usize>>,
    /// The balance.
    pub balance: u32,
    /// The towers on offer.
    pub possible_towers: Seq<BuyableTower>,
    /// The tower that the player has selected.
    pub selected_tower: Option<BuyableTower>,
    /// The slots of the enemy registry.
    pub enemies: Seq<Option<Enemy>>,
    /// The slots of the tower registry.
    pub towers: Seq<Option<PlacedTower>>,
    /// The slots of the projectile registry.
    pub projectiles: Seq<Option<Shot>>,
    /// The wave schedulers.
    pub spawn_timers: Seq<SpawnTimer>,
}

/// The schedulers after a tick of `delta` nanoseconds.
pub open spec fn timers_after_tick(timers: Seq<SpawnTimer>, delta: u64) -> Seq<SpawnTimer> {
    Seq::new(timers.len(), |i: int| timers[i].advanced(delta))
}

/// The simulation after one tick of `delta` nanoseconds, in which the
/// scheduler number `i` spawns on lane `lanes[i]`. The steps of a tick, in
/// their order: the wave schedulers spawn enemies; the shooting towers fire;
/// enemies walk and projectiles fly; enemies damage the towers they touch;
/// projectiles hit enemies; what was destroyed or has left the playfield is
/// removed, and the cells of destroyed towers are cleared; the money towers
/// that are left pay.
pub open spec fn after_tick(s: SimulationState, delta: u64, lanes: Seq<usize>) -> SimulationState {
    let spawned = enemies_after_spawns(s.spawn_timers, delta, lanes, s.enemies, s.spawn_timers.len());
    let armed = towers_after_volley(s.towers, delta);
    let fired = projectiles_after_volley(s.towers, spawned, delta, s.projectiles, s.towers.len());
    let walked = all_walked(spawned, delta);
    let flown = all_flown(fired, delta);
    let blocked = enemies_after_melee(walked, armed);
    let battered = towers_after_melee(walked, armed);
    let spent = projectiles_after_shots(flown, blocked);
    let wounded = enemies_after_shots(flown, blocked, flown.len());
    let standing = standing_towers(battered);
    SimulationState {
        cells: cells_without_ruins(s.cells, battered),
        balance: capped_balance(s.balance as int, total_gain(standing, delta)) as u32,
        possible_towers: s.possible_towers,
        selected_tower: s.selected_tower,
        enemies: living_enemies(wounded),
        towers: towers_after_gains(standing, delta),
        projectiles: projectiles_in_bounds(spent),
        spawn_timers: timers_after_tick(s.spawn_timers, delta),
    }
}

/// Whether two tower registries have towers in the same slots at the same
/// positions.
pub open spec fn same_sites(a: Seq<Option<PlacedTower>>, b: Seq<Option<PlacedTower>>) -> bool {
    &&& a.len() == b.len()
    &&& forall|h: int|
        0 <= h < a.len() ==> (#[trigger] a[h] is Some <==> b[h] is Some) && (a[h] is Some
            ==> a[h]->0.position == b[h]->0.position)
}

/// Whether the board and the registry agree depends only on where the towers
/// stand.
pub proof fn lemma_match_follows_sites(
    cells: Map<(i32, i32), Option<usize>>,
    a: Seq<Option<PlacedTower>>,
    b: Seq<Option<PlacedTower>>,
)
    requires
        board_matches_towers(cells, a),
        same_sites(a, b),
    ensures
        board_matches_towers(cells, b),
{
    assert forall|coord: (i32, i32)| on_board(coord) && (#[trigger] cells[coord]) is Some implies {
        let handle = cells[coord]->0 as int;
        &&& handle < b.len()
        &&& b[handle] is Some
        &&& world_to_grid(b[handle]->0.position) == coord
    } by {
        let handle = cells[coord]->0 as int;
        assert(a[handle] is Some);
    }
    assert forall|handle: int| 0 <= handle < b.len() && (#[trigger] b[handle]) is Some implies {
        let coord = world_to_grid(b[handle]->0.position);
        &&& on_board(coord)
        &&& cells[coord] == Some(handle as usize)
    } by {
        assert(a[handle] is Some);
    }
}

/// The simulation of one game.
pub struct Simulation {
    board: Board,
    money: Money,
    selectable_towers: SelectableTowers,
    enemies: Vec<Option<Enemy>>,
    towers: Vec<Option<PlacedTower>>,
    projectiles: Vec<Option<Shot>>,
    spawn_timers: Vec<SpawnTimer>,
}

impl View for Simulation {
    type V = SimulationState;

    closed spec fn view(&self) -> SimulationState {
        SimulationState {
            cells: self.board@,
            balance: self.money.0,
            possible_towers: self.selectable_towers.possible_towers@,
            selected_tower: self.selectable_towers.selected_tower,
            enemies: self.enemies@,
            towers: self.towers@,
            projectiles: self.projectiles@,
            spawn_timers: self.spawn_timers@,
        }
    }
}

impl Simulation {
    /// The board and the tower registry agree: every occupied cell names a
    /// live tower that stands on it, and every live tower stands on a cell of
    /// the board that names it.
    pub closed spec fn wf(&self) -> bool {
        self.board.wf() && board_matches_towers(self.board@, self.towers@)
    }

    /// In a well-formed simulation the board has an entry for each of its
    /// cells and agrees with the tower registry.
    pub proof fn lemma_wf(&self)
        requires
            self.wf(),
        ensures
            covers_board(self@.cells),
            board_matches_towers(self@.cells, self@.towers),
    {
        self.board.lemma_covers_board();
    }

    /// A simulation with an empty board, the balance `money`, the catalog's
    /// towers on offer and none selected, no entities and no wave.
    pub fn new(money: u32) -> (sim: Simulation)
        ensures
            sim.wf(),
            sim@.balance == money,
            sim@.possible_towers == tower_costs(),
            sim@.selected_tower is None,
            sim@.enemies.len() == 0,
            sim@.towers.len() == 0,
            sim@.projectiles.len() == 0,
            sim@.spawn_timers.len() == 0,
            forall|coord: (i32, i32)| on_board(coord) ==> sim@.cells[coord] is None,
    {
        Simulation {
            board: generate_board(),
            money: Money(money),
            selectable_towers: SelectableTowers {
                possible_towers: setup_tower_costs(),
                selected_tower: None,
            },
            enemies: Vec::new(),
            towers: Vec::new(),
            projectiles: Vec::new(),
            spawn_timers: Vec::new(),
        }
    }

    /// Starts a wave: adds a scheduler at the start of `script`. Schedulers
    /// that run already go on as they are.
    pub fn start_wave(&mut self, script: Vec<(Enemies, u64)>)
        requires
            old(self).wf(),
        ensures
            final(self).wf(),
            final(self)@ == (SimulationState {
                spawn_timers: old(self)@.spawn_timers.push(SpawnTimer::started(script)),
                ..old(self)@
            }),
    {
        let timer = SpawnTimer::new(script);
        self.spawn_timers.push(timer);
    }

    /// The balance.
    pub fn balance(&self) -> (balance: u32)
        ensures
            balance == self@.balance,
    {
        self.money.0
    }

    /// The board.
    pub fn board(&self) -> (board: &Board)
        ensures
            board@ == self@.cells,
            self.wf() ==> board.wf(),
    {
        &self.board
    }

    /// The slots of the enemy registry; an enemy's handle is the number of
    /// its slot.
    pub fn enemies(&self) -> (enemies: &Vec<Option<Enemy>>)
        ensures
            enemies@ == self@.enemies,
    {
        &self.enemies
    }

    /// The slots of the tower registry.
    pub fn towers(&self) -> (towers: &Vec<Option<PlacedTower>>)
        ensures
            towers@ == self@.towers,
    {
        &self.towers
    }

    /// The slots of the projectile registry.
    pub fn projectiles(&self) -> (projectiles: &Vec<Option<Shot>>)
        ensures
            projectiles@ == self@.projectiles,
    {
        &self.projectiles
    }

    /// The wave schedulers.
    pub fn spawn_timers(&self) -> (timers: &Vec<SpawnTimer>)
        ensures
            timers@ == self@.spawn_timers,
    {
        &self.spawn_timers
    }

    /// The towers on offer and the one that is selected.
    pub fn selectable_towers(&self) -> (selectable: &SelectableTowers)
        ensures
            selectable.possible_towers@ == self@.possible_towers,
            selectable.selected_tower == self@.selected_tower,
    {
        &self.selectable_towers
    }

    /// Selects the tower on offer under number `index`, counted from zero.
    /// Where there is none the selection stays and the request is refused.
    pub fn select_tower(&mut self, index: usize) -> (r: Result<(), GameError>)
        requires
            old(self).wf(),
        ensures
            final(self).wf(),
            index < old(self)@.possible_towers.len() ==> r == Ok::<(), GameError>(()) && final(self)@
                == (SimulationState {
                selected_tower: Some(old(self)@.possible_towers[index as int]),
                ..old(self)@
            }),
            index >= old(self)@.possible_towers.len() ==> r == Err::<(), GameError>(
                GameError::UnknownKind,
            ) && final(self)@ == old(self)@,
    {
        select_tower(&mut self.selectable_towers, index)
    }

    /// Buys `tower` and places it on `coord`, all or nothing. The placement
    /// is refused for a coordinate off the board, else for an occupied cell,
    /// else for a price above the balance; a refusal changes nothing. Else
    /// the price is taken off the balance, the tower is added at the centre
    /// of the cell, and the cell names it. Returns the tower's handle and the
    /// new balance.
    pub fn attempt_place(&mut self, coord: (i32, i32), tower: &BuyableTower) -> (r: Result<
        (usize, MoneyUpdated),
        GameError,
    >)
        requires
            old(self).wf(),
        ensures
            final(self).wf(),
            match placement_check(old(self)@.cells, old(self)@.balance, coord, tower.cost) {
                Err(e) => r == Err::<(usize, MoneyUpdated), GameError>(e) && final(self)@ == old(
                    self,
                )@,
                Ok(_) => r is Ok && final(self)@ == (SimulationState {
                    cells: old(self)@.cells.insert(coord, Some(r->Ok_0.0)),
                    balance: (old(self)@.balance - tower.cost) as u32,
                    towers: crate::registry::with_added(
                        old(self)@.towers,
                        crate::towers::placed_tower(
                            crate::board::grid_to_world(coord),
                            tower.tower_type,
                        ),
                    ),
                    ..old(self)@
                }) && r->Ok_0.0 == crate::registry::first_free(old(self)@.towers) && r->Ok_0.1.new_value
                    == final(self)@.balance,
            },
    {
        proof {
            crate::registry::lemma_first_free_exists(self.towers@);
            assert(self.towers.len() == self.towers@.len());
        }
        attempt_place(&mut self.board, &mut self.money, &mut self.towers, coord, tower)
    }

    /// Buys `tower` and places it on the cell under the world position
    /// `world_position`, as `attempt_place` does on that cell.
    pub fn submit_placement_intent(&mut self, tower: &BuyableTower, world_position: WorldPos) -> (r:
        Result<(usize, MoneyUpdated), GameError>)
        requires
            old(self).wf(),
        ensures
            final(self).wf(),
            match placement_check(
                old(self)@.cells,
                old(self)@.balance,
                world_to_grid(world_position),
                tower.cost,
            ) {
                Err(e) => r == Err::<(usize, MoneyUpdated), GameError>(e) && final(self)@ == old(
                    self,
                )@,
                Ok(_) => r is Ok && final(self)@ == (SimulationState {
                    cells: old(self)@.cells.insert(world_to_grid(world_position), Some(r->Ok_0.0)),
                    balance: (old(self)@.balance - tower.cost) as u32,
                    towers: crate::registry::with_added(
                        old(self)@.towers,
                        crate::towers::placed_tower(
                            crate::board::grid_to_world(world_to_grid(world_position)),
                            tower.tower_type,
                        ),
                    ),
                    ..old(self)@
                }) && r->Ok_0.0 == crate::registry::first_free(old(self)@.towers) && r->Ok_0.1.new_value
                    == final(self)@.balance,
            },
    {
        let coord = crate::board::convert_world_to_grid(world_position);
        self.attempt_place(coord, tower)
    }

    /// Handles the mouse over the board, for the tower that is selected:
    /// see `spawn_tower_at_mouse`.
    pub fn spawn_tower_at_mouse(&mut self, cursor: WorldPos, pressed: bool) -> (action: MouseAction)
        requires
            old(self).wf(),
        ensures
            final(self).wf(),
            action == mouse_action(
                old(self)@.cells,
                old(self)@.balance,
                old(self)@.towers,
                old(self)@.selected_tower,
                cursor,
                pressed,
            ),
            match action {
                MouseAction::Placed { handle, money } => final(self)@ == (SimulationState {
                    cells: old(self)@.cells.insert(world_to_grid(cursor), Some(handle)),
                    balance: money.new_value,
                    towers: crate::registry::with_added(
                        old(self)@.towers,
                        crate::towers::placed_tower(
                            crate::board::grid_to_world(world_to_grid(cursor)),
                            old(self)@.selected_tower->0.tower_type,
                        ),
                    ),
                    ..old(self)@
                }),
                _ => final(self)@ == old(self)@,
            },
    {
        spawn_tower_at_mouse(
            &mut self.board,
            &mut self.money,
            &mut self.towers,
            &self.selectable_towers,
            cursor,
            pressed,
        )
    }

    /// Advances the simulation by one tick of `delta` nanoseconds, in which
    /// the scheduler number `i` spawns on lane `lanes[i]`. Returns the new
    /// balance where a money tower paid.
    pub fn tick_with_lanes(&mut self, delta: u64, lanes: &Vec<usize>) -> (updated: Option<
        MoneyUpdated,
    >)
        requires
            old(self).wf(),
            lanes_for(lanes@, old(self)@.spawn_timers.len()),
        ensures
            final(self).wf(),
            final(self)@ == after_tick(old(self)@, delta, lanes@),
            updated is Some ==> updated->0.new_value == final(self)@.balance,
    {
        let ghost start = self@;
        let ghost armed = towers_after_volley(start.towers, delta);
        run_spawn_timers(&mut self.spawn_timers, delta, lanes, &mut self.enemies);
        shoot_projectiles(delta, &mut self.towers, &self.enemies, &mut self.projectiles);
        walk_enemies(&mut self.enemies, delta);
        move_projectiles(&mut self.projectiles, delta);
        let ghost walked = self.enemies@;
        enemies_damage_towers(&mut self.enemies, &mut self.towers);
        let ghost battered = self.towers@;
        proof {
            assert(same_sites(start.towers, armed));
            lemma_match_follows_sites(start.cells, start.towers, armed);
            assert(same_sites(armed, battered));
            lemma_match_follows_sites(start.cells, armed, battered);
        }
        projectile_damage_enemies(&mut self.projectiles, &mut self.enemies);
        purge_dead(&mut self.enemies, &mut self.towers, &mut self.board);
        despawn_out_of_bound_projectile(&mut self.projectiles);
        let ghost standing = self.towers@;
        let updated = update_money(&mut self.money, delta, &mut self.towers);
        proof {
            assert(same_sites(standing, self.towers@));
            lemma_match_follows_sites(self.board@, standing, self.towers@);
            assert(self.spawn_timers@ =~= timers_after_tick(start.spawn_timers, delta));
        }
        updated
    }

    /// Advances the simulation by one tick of `delta` nanoseconds, with the
    /// spawn lanes drawn from `picker`. Whatever lanes are drawn, the outcome
    /// is that of `tick_with_lanes` on them.
    pub fn tick(&mut self, delta: u64, picker: &mut LanePicker) -> (updated: Option<MoneyUpdated>)
        requires
            old(self).wf(),
        ensures
            final(self).wf(),
            exists|lanes: Seq<usize>|
                lanes_for(lanes, old(self)@.spawn_timers.len()) && final(self)@ == #[trigger] after_tick(
                    old(self)@,
                    delta,
                    lanes,
                ),
            updated is Some ==> updated->0.new_value == final(self)@.balance,
    {
        let lanes = picker.pick_many(self.spawn_timers.len());
        self.tick_with_lanes(delta, &lanes)
    }
}

/// The simulation `s` without its wave schedulers.
pub open spec fn without_waves(s: SimulationState) -> SimulationState {
    SimulationState { spawn_timers: Seq::empty(), ..s }
}

/// A tick in which every scheduler is exhausted spawns nothing and leaves the
/// schedulers as they are, whatever the lanes: the balance, the board and the
/// entities come out as they would without any scheduler.
pub proof fn lemma_exhausted_waves_spawn_nothing(s: SimulationState, delta: u64, lanes: Seq<usize>)
    requires
        forall|i: int| 0 <= i < s.spawn_timers.len() ==> (#[trigger] s.spawn_timers[i]).exhausted(),
    ensures
        enemies_after_spawns(s.spawn_timers, delta, lanes, s.enemies, s.spawn_timers.len())
            == s.enemies,
        after_tick(s, delta, lanes) == (SimulationState {
            spawn_timers: s.spawn_timers,
            ..after_tick(without_waves(s), delta, Seq::empty())
        }),
{
    crate::waves::lemma_exhausted_spawn_nothing(
        s.spawn_timers,
        delta,
        lanes,
        s.enemies,
        s.spawn_timers.len(),
    );
    assert forall|i: int| 0 <= i < s.spawn_timers.len() implies timers_after_tick(
        s.spawn_timers,
        delta,
    )[i] == s.spawn_timers[i] by {
        crate::waves::lemma_cursor_moves_forward(s.spawn_timers[i], delta, 0);
    }
    assert(timers_after_tick(s.spawn_timers, delta) =~= s.spawn_timers);
}

/// After a tick no enemy and no tower with health of zero or less is left,
/// and no cell of the board names a tower that is gone.
pub proof fn lemma_tick_leaves_no_dead(s: SimulationState, delta: u64, lanes: Seq<usize>)
    ensures
        forall|i: int|
            0 <= i < after_tick(s, delta, lanes).enemies.len() && (#[trigger] after_tick(
                s,
                delta,
                lanes,
            ).enemies[i]) is Some ==> after_tick(s, delta, lanes).enemies[i]->0.health.health > 0,
        forall|h: int|
            0 <= h < after_tick(s, delta, lanes).towers.len() && (#[trigger] after_tick(
                s,
                delta,
                lanes,
            ).towers[h]) is Some ==> after_tick(s, delta, lanes).towers[h]->0.bundle.health() > 0,
{
}

} // verus!
