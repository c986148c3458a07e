use ant_colony::hunger::Hunger;
use ant_colony::hunger::DEFAULT_HUNGER_MAX;
use ant_colony::hunger::HUNGER_UNITS_PER_POINT;

fn hunger_of(value: u64, max: u64, rate: u64) -> Hunger {
    Hunger::from_parts(value, max, rate).expect("a hunger within its capacity")
}

#[test]
fn default_hunger_is_sated_with_a_hundred_points() {
    let hunger = Hunger::default();
    assert_eq!(hunger.value(), 0);
    assert_eq!(hunger.max(), 100 * HUNGER_UNITS_PER_POINT);
    assert_eq!(hunger.max(), DEFAULT_HUNGER_MAX);
    assert_eq!(hunger.rate(), HUNGER_UNITS_PER_POINT);
    assert!(hunger.is_full());
}

#[test]
fn default_hunger_starves_after_a_hundred_ticks() {
    let mut hunger = Hunger::default();
    for _ in 0..99 {
        hunger.tick();
    }
    assert!(!hunger.is_starved());
    assert_eq!(hunger.value(), 99 * HUNGER_UNITS_PER_POINT);
    hunger.tick();
    assert!(hunger.is_starved());
    assert_eq!(hunger.value(), hunger.max());
}

#[test]
fn new_hunger_spreads_its_capacity_over_the_starving_time() {
    let hunger = Hunger::new(10);
    assert_eq!(hunger.value(), 0);
    assert_eq!(hunger.max(), 100_000_000_000);
    assert_eq!(hunger.rate(), 1_000_000_000);

    let day = Hunger::new(86_400);
    assert_eq!(day.rate(), 115_740);

    let long = Hunger::new(isize::MAX);
    assert_eq!(long.rate(), 0);
}

#[test]
fn new_hunger_with_no_time_starves_on_the_first_tick() {
    let mut hunger = Hunger::new(0);
    assert_eq!(hunger.rate(), hunger.max());
    assert!(!hunger.is_starved());
    hunger.tick();
    assert!(hunger.is_starved());
}

#[test]
fn new_hunger_with_negative_time_never_grows() {
    let mut hunger = Hunger::new(-5);
    assert_eq!(hunger.rate(), 0);
    for _ in 0..1_000 {
        hunger.tick();
    }
    assert_eq!(hunger.value(), 0);
    assert!(hunger.is_full());
}

#[test]
fn from_parts_refuses_what_breaks_the_clamp() {
    assert!(Hunger::from_parts(0, 0, 1).is_none());
    assert!(Hunger::from_parts(101, 100, 1).is_none());
    assert!(Hunger::from_parts(100, 100, 1).is_some());
    assert!(Hunger::from_parts(0, 1, 0).is_some());
    let hunger = hunger_of(40, 100, 3);
    assert_eq!((hunger.value(), hunger.max(), hunger.rate()), (40, 100, 3));
}

#[test]
fn tiers_change_at_quarters_of_capacity() {
    let at = |value: u64| hunger_of(value, 100, 1);
    assert!(at(0).is_full());
    assert!(at(24).is_full());
    assert!(!at(24).is_peckish());
    assert!(at(25).is_peckish());
    assert!(!at(25).is_full());
    assert!(!at(49).is_hungry());
    assert!(at(50).is_hungry());
    assert!(!at(74).is_starving());
    assert!(at(75).is_starving());
    assert!(!at(99).is_starved());
    assert!(at(100).is_starved());
    assert!(at(100).is_starving() && at(100).is_hungry() && at(100).is_peckish());
}

#[test]
fn tiers_are_exact_where_capacity_is_no_multiple_of_four() {
    // A quarter of 10 is 2.5: 2 is below it and 3 is above.
    assert!(hunger_of(2, 10, 1).is_full());
    assert!(hunger_of(3, 10, 1).is_peckish());
    // Three quarters of 10 is 7.5.
    assert!(!hunger_of(7, 10, 1).is_starving());
    assert!(hunger_of(8, 10, 1).is_starving());
    // The greatest capacity does not overflow the comparison.
    assert!(hunger_of(u64::MAX, u64::MAX, 1).is_starved());
    assert!(hunger_of(u64::MAX / 2, u64::MAX, 1).is_peckish());
    assert!(!hunger_of(u64::MAX / 2, u64::MAX, 1).is_hungry());
}

#[test]
fn tick_stops_at_capacity() {
    let mut hunger = hunger_of(95, 100, 10);
    hunger.tick();
    assert_eq!(hunger.value(), 100);
    hunger.tick();
    assert_eq!(hunger.value(), 100);

    let mut wide = hunger_of(u64::MAX - 1, u64::MAX, u64::MAX);
    wide.tick();
    assert_eq!(wide.value(), u64::MAX);
}

#[test]
fn portion_is_a_fifth_of_capacity_or_all_there_is() {
    assert_eq!(hunger_of(40, 100, 1).portion(), 20);
    assert_eq!(hunger_of(7, 100, 1).portion(), 7);
    assert_eq!(hunger_of(20, 100, 1).portion(), 20);
    assert_eq!(hunger_of(0, 100, 1).portion(), 0);
    // A fifth of 103 is rounded down to a whole unit.
    assert_eq!(hunger_of(103, 103, 1).portion(), 20);
}

#[test]
fn decrease_and_increase_stay_within_bounds() {
    let mut hunger = hunger_of(40, 100, 1);
    hunger.decrease(15);
    assert_eq!(hunger.value(), 25);
    hunger.decrease(30);
    assert_eq!(hunger.value(), 0);
    hunger.increase(60);
    assert_eq!(hunger.value(), 60);
    hunger.increase(u64::MAX);
    assert_eq!(hunger.value(), 100);
    assert_eq!(hunger.max(), 100);
    assert_eq!(hunger.rate(), 1);
}

#[test]
fn reset_sates_completely() {
    let mut hunger = hunger_of(88, 100, 2);
    hunger.reset();
    assert_eq!(hunger.value(), 0);
    assert_eq!(hunger.max(), 100);
    assert_eq!(hunger.rate(), 2);
}

#[test]
fn hunger_stays_clamped_over_random_sequences() {
    let mut seed: u64 = 0x2545_F491_4F6C_DD1D;
    let mut next = move || {
        seed ^= seed << 13;
        seed ^= seed >> 7;
        seed ^= seed << 17;
        seed
    };
    for _ in 0..200 {
        let max = next() % 1_000 + 1;
        let value = next() % (max + 1);
        let rate = next() % 50;
        let mut hunger = hunger_of(value, max, rate);
        for _ in 0..200 {
            match next() % 5 {
                0 => hunger.tick(),
                1 => hunger.decrease(next() % 300),
                2 => hunger.increase(next() % 300),
                3 => {
                    let portion = hunger.portion();
                    hunger.decrease(portion);
                }
                _ => hunger.tick(),
            }
            assert!(hunger.value() <= hunger.max());
            assert_eq!(hunger.max(), max);
            assert_eq!(hunger.is_full(), !hunger.is_peckish());
        }
    }
}
