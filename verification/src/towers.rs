//! Towers: their kinds and stats, the balance that pays for them, and their
//! placement on the board.

use crate::board::{
    convert_grid_to_world, convert_world_to_grid, covers_board, grid_to_world,
    lemma_grid_round_trip, on_board, world_to_grid, Board, WorldPos,
};
use crate::error::GameError;
use crate::registry::{add_slot, first_free, lemma_first_free_exists, with_added};
use crate::timer::Countdown;
use vstd::prelude::*;

verus! {

/// The balance of in-game currency.
#[derive(Clone, Copy, Debug, PartialEq, Eq, Structural)]
pub struct Money(pub u32);

/// Tells observers the balance after a change.
#[derive(Clone, Copy, Debug, PartialEq, Eq, Structural)]
pub struct MoneyUpdated {
    pub new_value: u32,
}

/// Hit points of a tower.
#[derive(Clone, Copy, Debug, PartialEq, Eq, Structural)]
pub struct Health {
    pub health: i32,
}

/// What a money tower earns, and the countdown to its next gain.
#[derive(Clone, Copy, Debug, PartialEq, Eq, Structural)]
pub struct MoneyGain {
    pub money: u32,
    pub gaintimer: Countdown,
}

/// Speed, in world units per second, and damage of the projectiles that a
/// shooting tower fires, and the countdown to its next shot.
#[derive(Clone, Copy, Debug, PartialEq, Eq, Structural)]
pub struct ProjectileTower {
    pub speed: i32,
    pub damage: i32,
    pub shoot_timer: Countdown,
}

/// Speed, in world units per second, and damage of a projectile in flight.
#[derive(Clone, Copy, Debug, PartialEq, Eq, Structural)]
pub struct Projectile {
    pub speed: i32,
    pub damage: i32,
}

/// The parts of a money tower.
#[derive(Clone, Copy, Debug, PartialEq, Eq, Structural)]
pub struct MoneyBundle {
    pub money_tower: MoneyGain,
    pub health: Health,
}

/// The parts of a shooting tower.
#[derive(Clone, Copy, Debug, PartialEq, Eq, Structural)]
pub struct SimpleProjectileBundle {
    pub projectile_tower: ProjectileTower,
    pub health: Health,
}

/// The parts of a tower, by its kind.
#[derive(Clone, Copy, Debug, PartialEq, Eq, Structural)]
pub enum TowerBundle {
    Money(MoneyBundle),
    SimpleProjectile(SimpleProjectileBundle),
}

/// The kinds of tower.
#[derive(Clone, Copy, Debug, PartialEq, Eq, Hash, Structural)]
pub enum Tower {
    Money,
    NormalProjectile,
}

/// A tower kind on offer, with its price.
#[derive(Clone, Copy, Debug, PartialEq, Eq, Structural)]
pub struct BuyableTower {
    pub cost: u32,
    pub tower_type: Tower,
}

/// The towers on offer and the one that the player has selected.
#[derive(Clone, Debug)]
pub struct SelectableTowers {
    pub possible_towers: Vec<BuyableTower>,
    pub selected_tower: Option<BuyableTower>,
}

/// A tower standing on the board.
#[derive(Clone, Copy, Debug, PartialEq, Eq, Structural)]
pub struct PlacedTower {
    pub position: WorldPos,
    pub bundle: TowerBundle,
}

/// A projectile in flight.
#[derive(Clone, Copy, Debug, PartialEq, Eq, Structural)]
pub struct Shot {
    pub position: WorldPos,
    pub projectile: Projectile,
}

/// What a move of the mouse over the board led to.
#[derive(Clone, Copy, Debug, PartialEq, Eq, Structural)]
pub enum MouseAction {
    /// No tower kind is selected.
    Idle,
    /// No tower can be placed under the cursor.
    Rejected(GameError),
    /// A tower of this kind could be placed here.
    Preview { position: WorldPos, tower_type: Tower },
    /// A tower was bought and placed.
    Placed { handle: usize, money: MoneyUpdated },
}

/// A change asked of the balance.
#[derive(Clone, Copy, Debug, PartialEq, Eq, Structural)]
pub enum LedgerEntry {
    /// Adds an amount; the balance stops at the largest `u32`.
    Credit(u32),
    /// Takes an amount off, unless the balance is smaller.
    Debit(u32),
}

/// The balance after one entry.
pub open spec fn balance_after(balance: int, entry: LedgerEntry) -> int {
    match entry {
        LedgerEntry::Credit(amount) => if balance + amount > u32::MAX {
            u32::MAX as int
        } else {
            balance + amount
        },
        LedgerEntry::Debit(cost) => if cost <= balance {
            balance - cost
        } else {
            balance
        },
    }
}

/// The balance after a run of entries, first to last.
pub open spec fn balance_after_all(balance: int, entries: Seq<LedgerEntry>) -> int
    decreases entries.len(),
{
    if entries.len() == 0 {
        balance
    } else {
        balance_after(balance_after_all(balance, entries.drop_last()), entries.last())
    }
}

/// No run of credits and debits takes a balance below zero.
pub proof fn lemma_balance_never_negative(balance: int, entries: Seq<LedgerEntry>)
    requires
        0 <= balance,
    ensures
        0 <= balance_after_all(balance, entries),
    decreases entries.len(),
{
    if entries.len() > 0 {
        lemma_balance_never_negative(balance, entries.drop_last());
    }
}

impl Money {
    /// Adds `amount` to the balance, which stops at the largest `u32`.
    pub fn credit(&mut self, amount: u32)
        ensures
            final(self).0 == balance_after(old(self).0 as int, LedgerEntry::Credit(amount)),
    {
        self.0 = self.0.saturating_add(amount);
    }

    /// Takes `cost` off the balance, or refuses where the balance is smaller.
    pub fn debit(&mut self, cost: u32) -> (r: Result<(), GameError>)
        ensures
            final(self).0 == balance_after(old(self).0 as int, LedgerEntry::Debit(cost)),
            cost <= old(self).0 ==> r == Ok::<(), GameError>(()),
            cost > old(self).0 ==> r == Err::<(), GameError>(GameError::InsufficientFunds),
    {
        if cost > self.0 {
            Err(GameError::InsufficientFunds)
        } else {
            self.0 = self.0 - cost;
            Ok(())
        }
    }
}

/// The catalog of tower kinds.
pub open spec fn tower_bundle(kind: Tower) -> TowerBundle {
    match kind {
        Tower::Money => TowerBundle::Money(
            MoneyBundle {
                money_tower: MoneyGain {
                    money: 50,
                    gaintimer: Countdown { duration: 15_000_000_000, elapsed: 0, finished: false },
                },
                health: Health { health: 50 },
            },
        ),
        Tower::NormalProjectile => TowerBundle::SimpleProjectile(
            SimpleProjectileBundle {
                projectile_tower: ProjectileTower {
                    speed: 200,
                    damage: 20,
                    shoot_timer: Countdown { duration: 5_000_000_000, elapsed: 0, finished: false },
                },
                health: Health { health: 50 },
            },
        ),
    }
}

/// Looks `kind` up in the catalog of tower kinds.
pub fn tower_implementation(kind: Tower) -> (bundle: TowerBundle)
    ensures
        bundle == tower_bundle(kind),
{
    match kind {
        Tower::Money => TowerBundle::Money(
            MoneyBundle {
                money_tower: MoneyGain { money: 50, gaintimer: Countdown::from_seconds(15) },
                health: Health { health: 50 },
            },
        ),
        Tower::NormalProjectile => TowerBundle::SimpleProjectile(
            SimpleProjectileBundle {
                projectile_tower: ProjectileTower {
                    speed: 200,
                    damage: 20,
                    shoot_timer: Countdown::from_seconds(5),
                },
                health: Health { health: 50 },
            },
        ),
    }
}

/// The towers on offer: a money tower for 100 and a shooting tower for 200.
pub open spec fn tower_costs() -> Seq<BuyableTower> {
    seq![
        BuyableTower { cost: 100, tower_type: Tower::Money },
        BuyableTower { cost: 200, tower_type: Tower::NormalProjectile },
    ]
}

/// The towers on offer.
pub fn setup_tower_costs() -> (towers: Vec<BuyableTower>)
    ensures
        towers@ == tower_costs(),
{
    let mut towers: Vec<BuyableTower> = Vec::new();
    towers.push(BuyableTower { cost: 100, tower_type: Tower::Money });
    towers.push(BuyableTower { cost: 200, tower_type: Tower::NormalProjectile });
    assert(towers@ =~= tower_costs());
    towers
}

/// Selects the tower on offer under number `index`, counted from zero. Where
/// there is none the selection stays and the request is refused.
pub fn select_tower(selectable_towers: &mut SelectableTowers, index: usize) -> (r: Result<
    (),
    GameError,
>)
    ensures
        final(selectable_towers).possible_towers == old(selectable_towers).possible_towers,
        index < old(selectable_towers).possible_towers.len() ==> r == Ok::<(), GameError>(())
            && final(selectable_towers).selected_tower == Some(
            old(selectable_towers).possible_towers[index as int],
        ),
        index >= old(selectable_towers).possible_towers.len() ==> r == Err::<(), GameError>(
            GameError::UnknownKind,
        ) && final(selectable_towers).selected_tower == old(selectable_towers).selected_tower,
{
    if index < selectable_towers.possible_towers.len() {
        selectable_towers.selected_tower = Some(selectable_towers.possible_towers[index]);
        Ok(())
    } else {
        Err(GameError::UnknownKind)
    }
}

/// The tower that `spawn_tower` creates.
pub open spec fn placed_tower(spawn_pos: WorldPos, kind: Tower) -> PlacedTower {
    PlacedTower { position: spawn_pos, bundle: tower_bundle(kind) }
}

/// Adds a tower of the kind of `tower_cost`, with the stats of the catalog,
/// at `spawn_pos`, and returns its handle.
pub fn spawn_tower(
    towers: &mut Vec<Option<PlacedTower>>,
    spawn_pos: WorldPos,
    tower_cost: &BuyableTower,
) -> (handle: usize)
    ensures
        handle == first_free(old(towers)@),
        final(towers)@ == with_added(old(towers)@, placed_tower(spawn_pos, tower_cost.tower_type)),
{
    let bundle = tower_implementation(tower_cost.tower_type);
    add_slot(towers, PlacedTower { position: spawn_pos, bundle })
}

/// Whether the board and the tower registry agree: every occupied cell names
/// a live tower that stands on it, and every live tower stands on a cell of
/// the board that names it. No two towers then share a cell.
pub open spec fn board_matches_towers(
    cells: Map<(i32, i32), Option<usize>>,
    towers: Seq<Option<PlacedTower>>,
) -> bool {
    &&& forall|coord: (i32, i32)|
        on_board(coord) && (#[trigger] cells[coord]) is Some ==> {
            let handle = cells[coord]->0 as int;
            &&& handle < towers.len()
            &&& towers[handle] is Some
            &&& world_to_grid(towers[handle]->0.position) == coord
        }
    &&& forall|handle: int|
        0 <= handle < towers.len() && (#[trigger] towers[handle]) is Some ==> {
            let coord = world_to_grid(towers[handle]->0.position);
            &&& on_board(coord)
            &&& cells[coord] == Some(handle as usize)
        }
}

/// Where the board and the registry agree, no two towers stand on one cell.
pub proof fn lemma_towers_stand_apart(
    cells: Map<(i32, i32), Option<usize>>,
    towers: Seq<Option<PlacedTower>>,
    a: int,
    b: int,
)
    requires
        board_matches_towers(cells, towers),
        towers.len() <= usize::MAX,
        0 <= a < towers.len(),
        0 <= b < towers.len(),
        a != b,
        towers[a] is Some,
        towers[b] is Some,
    ensures
        world_to_grid(towers[a]->0.position) != world_to_grid(towers[b]->0.position),
{
    let coord = world_to_grid(towers[a]->0.position);
    assert(cells[coord] == Some(a as usize));
}

/// Whether a tower that costs `cost` may be placed on `coord`, and if not,
/// why not. The first reason that applies is given: the coordinate, then the
/// cell, then the price.
pub open spec fn placement_check(
    cells: Map<(i32, i32), Option<usize>>,
    balance: u32,
    coord: (i32, i32),
    cost: u32,
) -> Result<(), GameError> {
    if !on_board(coord) {
        Err(GameError::OutOfBounds)
    } else if cells[coord] is Some {
        Err(GameError::CellOccupied)
    } else if cost > balance {
        Err(GameError::InsufficientFunds)
    } else {
        Ok(())
    }
}

/// A placement off the board is refused as out of bounds, whatever the
/// balance and the price.
pub proof fn lemma_placement_off_board_is_refused(
    cells: Map<(i32, i32), Option<usize>>,
    balance: u32,
    coord: (i32, i32),
    cost: u32,
)
    requires
        !on_board(coord),
    ensures
        placement_check(cells, balance, coord, cost) == Err::<(), GameError>(GameError::OutOfBounds),
{
}

/// A placement at a price above the balance is always refused; on a free
/// cell of the board it is refused for insufficient funds.
pub proof fn lemma_unaffordable_placement_is_refused(
    cells: Map<(i32, i32), Option<usize>>,
    balance: u32,
    coord: (i32, i32),
    cost: u32,
)
    requires
        cost > balance,
    ensures
        placement_check(cells, balance, coord, cost) is Err,
        on_board(coord) && cells[coord] is None ==> placement_check(cells, balance, coord, cost)
            == Err::<(), GameError>(GameError::InsufficientFunds),
{
}

/// Checks whether `tower` may be placed on `coord`, and changes nothing.
pub fn validate_placement(board: &Board, money: &Money, coord: (i32, i32), tower: &BuyableTower) -> (r:
    Result<(), GameError>)
    requires
        board.wf(),
    ensures
        r == placement_check(board@, money.0, coord, tower.cost),
{
    match board.is_occupied(coord) {
        Err(e) => Err(e),
        Ok(true) => Err(GameError::CellOccupied),
        Ok(false) => {
            if tower.cost > money.0 {
                Err(GameError::InsufficientFunds)
            } else {
                Ok(())
            }
        },
    }
}

/// Buys `tower` and places it on `coord`, all or nothing: where the
/// placement is refused, the board, the balance and the towers stay as they
/// were; else the price is taken off the balance, the tower is added at the
/// centre of the cell, and the cell names it. Returns the tower's handle and
/// the new balance.
pub fn attempt_place(
    board: &mut Board,
    money: &mut Money,
    towers: &mut Vec<Option<PlacedTower>>,
    coord: (i32, i32),
    tower: &BuyableTower,
) -> (r: Result<(usize, MoneyUpdated), GameError>)
    requires
        old(board).wf(),
    ensures
        final(board).wf(),
        match placement_check(old(board)@, old(money).0, coord, tower.cost) {
            Err(e) => {
                &&& r == Err::<(usize, MoneyUpdated), GameError>(e)
                &&& final(board)@ == old(board)@
                &&& *final(money) == *old(money)
                &&& *final(towers) == *old(towers)
            },
            Ok(_) => {
                let handle = first_free(old(towers)@) as usize;
                let balance = (old(money).0 - tower.cost) as u32;
                &&& r == Ok::<(usize, MoneyUpdated), GameError>((handle, MoneyUpdated { new_value: balance }))
                &&& final(money).0 == balance
                &&& final(towers)@ == with_added(
                    old(towers)@,
                    placed_tower(grid_to_world(coord), tower.tower_type),
                )
                &&& final(board)@ == old(board)@.insert(coord, Some(handle))
            },
        },
        board_matches_towers(old(board)@, old(towers)@) ==> board_matches_towers(
            final(board)@,
            final(towers)@,
        ),
{
    match validate_placement(board, money, coord, tower) {
        Err(e) => Err(e),
        Ok(_) => {
            money.0 = money.0 - tower.cost;
            let spawn_pos = convert_grid_to_world(coord);
            let handle = spawn_tower(towers, spawn_pos, tower);
            let _ = board.place(coord, handle);
            proof {
                lemma_grid_round_trip(coord);
                lemma_first_free_exists(old(towers)@);
                old(board).lemma_covers_board();
                assert(old(towers).len() == old(towers)@.len());
                if board_matches_towers(old(board)@, old(towers)@) {
                    lemma_placement_keeps_match(
                        old(board)@,
                        old(towers)@,
                        coord,
                        placed_tower(spawn_pos, tower.tower_type),
                    );
                }
            }
            Ok((handle, MoneyUpdated { new_value: money.0 }))
        },
    }
}

/// A tower added at the centre of a free cell, and named by that cell, leaves
/// the board and the registry in agreement.
pub proof fn lemma_placement_keeps_match(
    cells: Map<(i32, i32), Option<usize>>,
    towers: Seq<Option<PlacedTower>>,
    coord: (i32, i32),
    tower: PlacedTower,
)
    requires
        covers_board(cells),
        board_matches_towers(cells, towers),
        towers.len() <= usize::MAX,
        on_board(coord),
        cells[coord] is None,
        world_to_grid(tower.position) == coord,
    ensures
        board_matches_towers(
            cells.insert(coord, Some(first_free(towers) as usize)),
            with_added(towers, tower),
        ),
{
    lemma_first_free_exists(towers);
    let handle = first_free(towers);
    let cells2 = cells.insert(coord, Some(handle as usize));
    let towers2 = with_added(towers, tower);
    assert forall|c: (i32, i32)| on_board(c) && (#[trigger] cells2[c]) is Some implies {
        let h = cells2[c]->0 as int;
        &&& h < towers2.len()
        &&& towers2[h] is Some
        &&& world_to_grid(towers2[h]->0.position) == c
    } by {
        if c != coord {
            assert(cells[c] is Some);
            let h = cells[c]->0 as int;
            assert(towers[h] is Some);
            assert(h != handle);
        }
    }
    assert forall|h: int| 0 <= h < towers2.len() && (#[trigger] towers2[h]) is Some implies {
        let c = world_to_grid(towers2[h]->0.position);
        &&& on_board(c)
        &&& cells2[c] == Some(h as usize)
    } by {
        if h != handle {
            assert(towers[h] is Some);
        }
    }
}

/// What `spawn_tower_at_mouse` does for a selection, a cursor position and a
/// mouse button, on a board `cells`, a balance and a tower registry.
pub open spec fn mouse_action(
    cells: Map<(i32, i32), Option<usize>>,
    balance: u32,
    towers: Seq<Option<PlacedTower>>,
    selected: Option<BuyableTower>,
    cursor: WorldPos,
    pressed: bool,
) -> MouseAction {
    match selected {
        None => MouseAction::Idle,
        Some(tower) => {
            let coord = world_to_grid(cursor);
            match placement_check(cells, balance, coord, tower.cost) {
                Err(e) => MouseAction::Rejected(e),
                Ok(_) => if pressed {
                    MouseAction::Placed {
                        handle: first_free(towers) as usize,
                        money: MoneyUpdated { new_value: (balance - tower.cost) as u32 },
                    }
                } else {
                    MouseAction::Preview { position: grid_to_world(coord), tower_type: tower.tower_type }
                },
            }
        },
    }
}

/// Handles the mouse over the board. With a tower kind selected, the cell
/// under `cursor` is checked for a placement of that kind. Where the check
/// passes, a pressed button buys and places the tower, and a released one
/// says where its preview belongs. Only a placement changes anything.
pub fn spawn_tower_at_mouse(
    board: &mut Board,
    money: &mut Money,
    towers: &mut Vec<Option<PlacedTower>>,
    selected_tower: &SelectableTowers,
    cursor: WorldPos,
    pressed: bool,
) -> (action: MouseAction)
    requires
        old(board).wf(),
    ensures
        final(board).wf(),
        action == mouse_action(
            old(board)@,
            old(money).0,
            old(towers)@,
            selected_tower.selected_tower,
            cursor,
            pressed,
        ),
        match action {
            MouseAction::Placed { handle, money: updated } => {
                &&& final(money).0 == updated.new_value
                &&& final(towers)@ == with_added(
                    old(towers)@,
                    placed_tower(
                        grid_to_world(world_to_grid(cursor)),
                        selected_tower.selected_tower->0.tower_type,
                    ),
                )
                &&& final(board)@ == old(board)@.insert(world_to_grid(cursor), Some(handle))
            },
            _ => {
                &&& final(board)@ == old(board)@
                &&& *final(money) == *old(money)
                &&& *final(towers) == *old(towers)
            },
        },
        board_matches_towers(old(board)@, old(towers)@) ==> board_matches_towers(
            final(board)@,
            final(towers)@,
        ),
{
    match selected_tower.selected_tower {
        None => MouseAction::Idle,
        Some(tower_cost) => {
            let grid_pos = convert_world_to_grid(cursor);
            if pressed {
                match attempt_place(board, money, towers, grid_pos, &tower_cost) {
                    Err(e) => MouseAction::Rejected(e),
                    Ok((handle, updated)) => MouseAction::Placed { handle, money: updated },
                }
            } else {
                match validate_placement(board, money, grid_pos, &tower_cost) {
                    Err(e) => MouseAction::Rejected(e),
                    Ok(_) => MouseAction::Preview {
                        position: convert_grid_to_world(grid_pos),
                        tower_type: tower_cost.tower_type,
                    },
                }
            }
        },
    }
}

impl TowerBundle {
    /// The hit points of the tower.
    pub open spec fn health(self) -> i32 {
        match self {
            TowerBundle::Money(bundle) => bundle.health.health,
            TowerBundle::SimpleProjectile(bundle) => bundle.health.health,
        }
    }

    /// The same tower with `health` hit points.
    pub open spec fn with_health(self, health: i32) -> TowerBundle {
        match self {
            TowerBundle::Money(bundle) => TowerBundle::Money(
                MoneyBundle { health: Health { health }, ..bundle },
            ),
            TowerBundle::SimpleProjectile(bundle) => TowerBundle::SimpleProjectile(
                SimpleProjectileBundle { health: Health { health }, ..bundle },
            ),
        }
    }

    /// The hit points of the tower.
    pub fn health_points(&self) -> (health: i32)
        ensures
            health == self.health(),
    {
        match self {
            TowerBundle::Money(bundle) => bundle.health.health,
            TowerBundle::SimpleProjectile(bundle) => bundle.health.health,
        }
    }

    /// The same tower with `health` hit points.
    pub fn having_health(self, health: i32) -> (bundle: TowerBundle)
        ensures
            bundle == self.with_health(health),
    {
        match self {
            TowerBundle::Money(bundle) => TowerBundle::Money(
                MoneyBundle { health: Health { health }, ..bundle },
            ),
            TowerBundle::SimpleProjectile(bundle) => TowerBundle::SimpleProjectile(
                SimpleProjectileBundle { health: Health { health }, ..bundle },
            ),
        }
    }
}

} // verus!
