use ant_colony::ant::Angle;
use ant_colony::ant::Ant;
use ant_colony::ant::AntInventory;
use ant_colony::ant::AntOrientation;
use ant_colony::ant::AntRole;
use ant_colony::ant::Entity;
use ant_colony::ant::Facing;
use ant_colony::hunger::Hunger;
use ant_colony::position::Position;
use ant_colony::regurgitation::ants_regurgitate;
use ant_colony::regurgitation::apply_transfers;
use ant_colony::regurgitation::find_donor;
use ant_colony::regurgitation::propose_transfers;
use ant_colony::regurgitation::Transfer;

fn ready_ant(x: isize, y: isize, facing: Facing, role: AntRole, value: u64) -> Ant {
    let hunger = Hunger::from_parts(value, 100, 1).expect("a hunger within its capacity");
    let mut ant =
        Ant::new(Position::new(x, y), AntOrientation::new(facing, Angle::Zero), role, hunger);
    ant.initiative.refresh();
    ant
}

fn values(ants: &[Ant]) -> Vec<u64> {
    ants.iter().map(|ant| ant.hunger.value()).collect()
}

fn able(ants: &[Ant]) -> Vec<bool> {
    ants.iter().map(|ant| ant.can_act()).collect()
}

#[test]
fn donor_with_forty_hands_twenty_to_a_starving_candidate() {
    // The candidate looks right at the donor, who looks back.
    let candidate = ready_ant(0, 0, Facing::Right, AntRole::Worker, 75);
    let donor = ready_ant(1, 0, Facing::Left, AntRole::Worker, 40);
    let mut ants = vec![candidate, donor];

    let transfers = propose_transfers(&ants);
    assert_eq!(transfers, vec![Transfer { from: 1, to: 0, amount: 20 }]);

    ants_regurgitate(&mut ants);
    assert_eq!(ants[1].hunger.value(), 20);
    assert_eq!(ants[0].hunger.value(), 95);
    assert_eq!(able(&ants), vec![false, false]);
}

#[test]
fn transfer_conserves_the_hunger_of_the_pair() {
    for (candidate_value, donor_value) in [(75, 40), (80, 24), (50, 0), (77, 10), (60, 19)] {
        let candidate = ready_ant(3, 3, Facing::Left, AntRole::Queen, candidate_value);
        let donor = ready_ant(3, 3, Facing::Left, AntRole::Worker, donor_value);
        let mut ants = vec![candidate, donor];
        ants_regurgitate(&mut ants);
        assert_eq!(ants[0].hunger.value() + ants[1].hunger.value(), candidate_value + donor_value);
        assert_eq!(ants[1].hunger.value(), donor_value - donor_value.min(20));
        assert_eq!(able(&ants), vec![false, false]);
    }
}

#[test]
fn candidate_without_room_is_filled_to_capacity() {
    // The queen has room for ten only: she stops at capacity and the rest is lost.
    let queen = ready_ant(0, 0, Facing::Right, AntRole::Queen, 90);
    let donor = ready_ant(0, 0, Facing::Right, AntRole::Worker, 40);
    let mut ants = vec![queen, donor];
    ants_regurgitate(&mut ants);
    assert_eq!(values(&ants), vec![100, 20]);
    assert_eq!(able(&ants), vec![false, false]);
}

#[test]
fn of_three_ants_on_one_cell_only_one_pair_transfers() {
    let mut ants = vec![
        ready_ant(2, 2, Facing::Right, AntRole::Queen, 60),
        ready_ant(2, 2, Facing::Right, AntRole::Queen, 60),
        ready_ant(2, 2, Facing::Right, AntRole::Queen, 60),
    ];
    // Each of the three asks the first other ant on its cell.
    assert_eq!(
        propose_transfers(&ants),
        vec![
            Transfer { from: 1, to: 0, amount: 20 },
            Transfer { from: 0, to: 1, amount: 20 },
            Transfer { from: 0, to: 2, amount: 20 },
        ]
    );
    ants_regurgitate(&mut ants);
    // Only the first pair goes through; the third ant is as it was.
    assert_eq!(values(&ants), vec![80, 40, 60]);
    assert_eq!(able(&ants), vec![false, false, true]);
}

#[test]
fn no_ant_takes_part_in_two_transfers_of_one_pass() {
    let mut seed: u64 = 0x9E37_79B9_7F4A_7C15;
    let mut next = move || {
        seed ^= seed << 13;
        seed ^= seed >> 7;
        seed ^= seed << 17;
        seed
    };
    for _ in 0..100 {
        let count = (next() % 8 + 2) as usize;
        let mut ants = Vec::new();
        for _ in 0..count {
            let facing = if next() % 2 == 0 { Facing::Left } else { Facing::Right };
            let role = if next() % 4 == 0 { AntRole::Queen } else { AntRole::Worker };
            let mut ant = ready_ant((next() % 3) as isize, 0, facing, role, next() % 101);
            if next() % 5 == 0 {
                ant.initiative.consume();
            }
            ants.push(ant);
        }
        let before = ants.clone();
        let total_before: u64 = values(&before).iter().sum();
        ants_regurgitate(&mut ants);
        let mut changed = 0;
        for (old, new) in before.iter().zip(ants.iter()) {
            assert!(new.hunger.value() <= new.hunger.max());
            if old.hunger.value() != new.hunger.value() || old.can_act() != new.can_act() {
                // Whoever was touched could act before and cannot act now.
                assert!(old.can_act());
                assert!(!new.can_act());
                changed += 1;
            }
        }
        // Ants are touched in pairs.
        assert_eq!(changed % 2, 0);
        let total_after: u64 = values(&ants).iter().sum();
        assert!(total_after <= total_before);
    }
}

#[test]
fn face_off_needs_both_ants_to_look_at_each_other() {
    let candidate = ready_ant(0, 0, Facing::Right, AntRole::Queen, 60);
    let turned_away = ready_ant(1, 0, Facing::Right, AntRole::Worker, 10);
    let ants = vec![candidate, turned_away];
    assert_eq!(find_donor(&ants, 0), None);
    assert!(propose_transfers(&ants).is_empty());

    let facing_back = ready_ant(1, 0, Facing::Left, AntRole::Worker, 10);
    let ants = vec![candidate, facing_back];
    assert_eq!(find_donor(&ants, 0), Some(1));

    let too_far = ready_ant(2, 0, Facing::Left, AntRole::Worker, 10);
    let ants = vec![candidate, too_far];
    assert_eq!(find_donor(&ants, 0), None);
}

#[test]
fn donor_must_be_able_and_empty_handed() {
    let candidate = ready_ant(0, 0, Facing::Right, AntRole::Queen, 60);
    let mut spent = ready_ant(0, 0, Facing::Right, AntRole::Worker, 10);
    spent.initiative.consume();
    let mut laden = ready_ant(0, 0, Facing::Right, AntRole::Worker, 10);
    laden.inventory = AntInventory(Some(Entity(9)));
    let mut dead = ready_ant(0, 0, Facing::Right, AntRole::Worker, 10);
    dead.die();
    let free = ready_ant(0, 0, Facing::Right, AntRole::Worker, 10);
    let ants = vec![candidate, spent, laden, dead, free];
    assert_eq!(find_donor(&ants, 0), Some(4));
    assert_eq!(propose_transfers(&ants), vec![Transfer { from: 4, to: 0, amount: 10 }]);
}

#[test]
fn candidate_must_be_able_peckish_and_empty_handed() {
    let donor = ready_ant(0, 0, Facing::Right, AntRole::Worker, 0);
    let sated_queen = ready_ant(0, 0, Facing::Right, AntRole::Queen, 24);
    assert!(propose_transfers(&[sated_queen, donor].to_vec()).is_empty());

    let mut laden_queen = ready_ant(0, 0, Facing::Right, AntRole::Queen, 90);
    laden_queen.inventory = AntInventory(Some(Entity(1)));
    assert!(propose_transfers(&[laden_queen, donor].to_vec()).is_empty());

    let mut spent_queen = ready_ant(0, 0, Facing::Right, AntRole::Queen, 90);
    spent_queen.initiative.consume();
    assert!(propose_transfers(&[spent_queen, donor].to_vec()).is_empty());

    let peckish_queen = ready_ant(0, 0, Facing::Right, AntRole::Queen, 25);
    assert_eq!(
        propose_transfers(&[peckish_queen, donor].to_vec()),
        vec![Transfer { from: 1, to: 0, amount: 0 }]
    );
}

#[test]
fn who_may_receive_depends_on_role_and_tiers() {
    let proposes = |role, candidate_value, donor_value| {
        let ants = vec![
            ready_ant(0, 0, Facing::Right, role, candidate_value),
            ready_ant(0, 0, Facing::Right, AntRole::Worker, donor_value),
        ];
        propose_transfers(&ants).iter().any(|transfer| transfer.to == 0)
    };
    // A queen is fed by anyone.
    assert!(proposes(AntRole::Queen, 30, 99));
    // A starving worker is fed by a donor that is not hungry.
    assert!(proposes(AntRole::Worker, 75, 49));
    assert!(!proposes(AntRole::Worker, 75, 50));
    // A hungry worker is fed only by a donor that is full.
    assert!(proposes(AntRole::Worker, 50, 24));
    assert!(!proposes(AntRole::Worker, 50, 25));
    // A worker that is only peckish is not fed.
    assert!(!proposes(AntRole::Worker, 49, 0));
}

#[test]
fn first_donor_in_order_is_asked_and_no_other() {
    // The first ant on the cell is hungry itself, so the starving worker gets nothing,
    // although a full one stands behind it.
    let ants = vec![
        ready_ant(0, 0, Facing::Right, AntRole::Worker, 80),
        ready_ant(0, 0, Facing::Right, AntRole::Worker, 60),
        ready_ant(0, 0, Facing::Right, AntRole::Worker, 0),
    ];
    assert_eq!(find_donor(&ants, 0), Some(1));
    let transfers = propose_transfers(&ants);
    assert!(transfers.iter().all(|transfer| transfer.to != 0));
    // The hungry one in the middle asks the first, who is no donor for it, being hungry.
    assert_eq!(find_donor(&ants, 1), Some(0));
    assert!(transfers.is_empty());
}

#[test]
fn apply_skips_a_transfer_whose_ant_has_spent_its_initiative() {
    let mut ants = vec![
        ready_ant(0, 0, Facing::Right, AntRole::Worker, 10),
        ready_ant(0, 0, Facing::Right, AntRole::Worker, 80),
        ready_ant(0, 0, Facing::Right, AntRole::Worker, 90),
    ];
    let transfers = vec![
        Transfer { from: 0, to: 1, amount: 10 },
        Transfer { from: 0, to: 2, amount: 10 },
    ];
    apply_transfers(&mut ants, &transfers);
    assert_eq!(values(&ants), vec![0, 90, 90]);
    assert_eq!(able(&ants), vec![false, false, true]);
}

#[test]
fn regurgitation_leaves_a_lone_ant_alone() {
    let mut ants = vec![ready_ant(0, 0, Facing::Right, AntRole::Queen, 99)];
    ants_regurgitate(&mut ants);
    assert_eq!(values(&ants), vec![99]);
    assert_eq!(able(&ants), vec![true]);
    let mut none: Vec<Ant> = Vec::new();
    ants_regurgitate(&mut none);
    assert!(none.is_empty());
}
