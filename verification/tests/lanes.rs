use lane_defense::lanes::LanePicker;

#[test]
fn picked_lanes_are_below_seven() {
    let mut picker = LanePicker::seeded(7);
    for _ in 0..1_000 {
        assert!(picker.pick() < 7);
    }
    let mut system = LanePicker::from_thread_rng();
    for _ in 0..1_000 {
        assert!(system.pick() < 7);
    }
}

#[test]
fn every_lane_is_picked_sooner_or_later() {
    let mut picker = LanePicker::seeded(1);
    let mut seen = [false; 7];
    for _ in 0..1_000 {
        seen[picker.pick()] = true;
    }
    assert_eq!(seen, [true; 7]);
}

#[test]
fn same_seed_same_lanes() {
    let mut a = LanePicker::seeded(42);
    let mut b = LanePicker::seeded(42);
    assert_eq!(a.pick_many(200), b.pick_many(200));
    let mut c = LanePicker::seeded(42);
    let mut d = LanePicker::seeded(43);
    assert_ne!(c.pick_many(200), d.pick_many(200));
}

#[test]
fn pick_many_gives_the_number_asked_for() {
    let mut picker = LanePicker::seeded(3);
    assert_eq!(picker.pick_many(0), Vec::<usize>::new());
    let lanes = picker.pick_many(25);
    assert_eq!(lanes.len(), 25);
    assert!(lanes.iter().all(|lane| *lane < 7));
}
