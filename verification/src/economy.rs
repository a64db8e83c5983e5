//! The income of money towers.

use crate::towers::{Money, MoneyBundle, MoneyGain, MoneyUpdated, PlacedTower, TowerBundle};
use vstd::prelude::*;

verus! {

/// Whether the tower in `slot` is a money tower whose countdown expires in a
/// tick of `delta` nanoseconds.
pub open spec fn pays(slot: Option<PlacedTower>, delta: u64) -> bool {
    match slot {
        Some(tower) => match tower.bundle {
            TowerBundle::Money(bundle) => bundle.money_tower.gaintimer.ticked(delta).finished,
            _ => false,
        },
        None => false,
    }
}

/// What the tower in `slot` earns in a tick of `delta` nanoseconds: its gain
/// where it pays, once however long the tick is, and nothing else.
pub open spec fn gain_of(slot: Option<PlacedTower>, delta: u64) -> int {
    if pays(slot, delta) {
        slot->0.bundle->Money_0.money_tower.money as int
    } else {
        0
    }
}

/// What all towers together earn in a tick of `delta` nanoseconds.
pub open spec fn total_gain(towers: Seq<Option<PlacedTower>>, delta: u64) -> int
    decreases towers.len(),
{
    if towers.len() == 0 {
        0
    } else {
        total_gain(towers.drop_last(), delta) + gain_of(towers.last(), delta)
    }
}

/// Whether some tower pays in a tick of `delta` nanoseconds.
pub open spec fn any_pays(towers: Seq<Option<PlacedTower>>, delta: u64) -> bool {
    exists|i: int| 0 <= i < towers.len() && pays(#[trigger] towers[i], delta)
}

/// The balance `balance` with `gain` added, stopping at the largest `u32`.
pub open spec fn capped_balance(balance: int, gain: int) -> int {
    if balance + gain > u32::MAX {
        u32::MAX as int
    } else {
        balance + gain
    }
}

/// The tower in `slot` once the countdown to its next gain, if it is a money
/// tower, has been ticked by `delta` nanoseconds.
pub open spec fn with_gain_timer_ticked(slot: Option<PlacedTower>, delta: u64) -> Option<
    PlacedTower,
> {
    match slot {
        Some(tower) => match tower.bundle {
            TowerBundle::Money(bundle) => Some(
                PlacedTower {
                    bundle: TowerBundle::Money(
                        MoneyBundle {
                            money_tower: MoneyGain {
                                gaintimer: bundle.money_tower.gaintimer.ticked(delta),
                                ..bundle.money_tower
                            },
                            ..bundle
                        },
                    ),
                    ..tower
                },
            ),
            _ => slot,
        },
        None => None,
    }
}

/// The towers after the income of a tick: every money tower has its
/// countdown ticked.
pub open spec fn towers_after_gains(towers: Seq<Option<PlacedTower>>, delta: u64) -> Seq<
    Option<PlacedTower>,
> {
    Seq::new(towers.len(), |i: int| with_gain_timer_ticked(towers[i], delta))
}

/// No gain is negative, so that the total never is.
pub proof fn lemma_total_gain_is_natural(towers: Seq<Option<PlacedTower>>, delta: u64)
    ensures
        0 <= total_gain(towers, delta),
    decreases towers.len(),
{
    if towers.len() > 0 {
        lemma_total_gain_is_natural(towers.drop_last(), delta);
    }
}

/// Collects the income of a tick of `delta` nanoseconds. The countdown of
/// every money tower is ticked; each tower whose countdown expires adds its
/// gain to the balance, once, however long the tick is. The balance stops at
/// the largest `u32`. Returns the new balance where a tower paid.
pub fn update_money(money: &mut Money, delta: u64, towers: &mut Vec<Option<PlacedTower>>) -> (updated:
    Option<MoneyUpdated>)
    ensures
        final(towers)@ == towers_after_gains(old(towers)@, delta),
        final(money).0 == capped_balance(old(money).0 as int, total_gain(old(towers)@, delta)),
        any_pays(old(towers)@, delta) ==> updated == Some(
            MoneyUpdated { new_value: final(money).0 },
        ),
        !any_pays(old(towers)@, delta) ==> updated is None,
{
    let ghost before = towers@;
    let ghost balance = money.0;
    let mut updated: Option<MoneyUpdated> = None;
    let mut i: usize = 0;
    while i < towers.len()
        invariant
            i <= towers.len(),
            towers@.len() == before.len(),
            forall|k: int| 0 <= k < i ==> towers@[k] == towers_after_gains(before, delta)[k],
            forall|k: int| i <= k < towers@.len() ==> towers@[k] == before[k],
            0 <= total_gain(before.take(i as int), delta),
            money.0 == capped_balance(balance as int, total_gain(before.take(i as int), delta)),
            updated is Some ==> any_pays(before.take(i as int), delta) && updated == Some(
                MoneyUpdated { new_value: money.0 },
            ),
            updated is None ==> forall|k: int| 0 <= k < i ==> !pays(#[trigger] before[k], delta),
        decreases towers.len() - i,
    {
        proof {
            assert(before.take(i + 1).drop_last() =~= before.take(i as int));
            lemma_total_gain_is_natural(before.take(i + 1), delta);
        }
        if let Some(tower) = towers[i] {
            if let TowerBundle::Money(bundle) = tower.bundle {
                let mut generator = bundle.money_tower;
                generator.gaintimer.tick(delta);
                if generator.gaintimer.finished() {
                    money.credit(generator.money);
                    updated = Some(MoneyUpdated { new_value: money.0 });
                    proof {
                        assert(pays(before.take(i + 1)[i as int], delta));
                    }
                }
                towers.set(
                    i,
                    Some(
                        PlacedTower {
                            bundle: TowerBundle::Money(MoneyBundle { money_tower: generator, ..bundle }),
                            ..tower
                        },
                    ),
                );
            }
        }
        proof {
            if updated is Some && !pays(before[i as int], delta) {
                let w = choose|w: int|
                    0 <= w < before.take(i as int).len() && pays(
                        #[trigger] before.take(i as int)[w],
                        delta,
                    );
                assert(pays(before.take(i + 1)[w], delta));
            }
        }
        i += 1;
    }
    proof {
        assert(before.take(before.len() as int) =~= before);
        assert(towers@ =~= towers_after_gains(before, delta));
    }
    updated
}

} // verus!
