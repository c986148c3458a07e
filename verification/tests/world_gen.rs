use ant_colony::ant::Angle;
use ant_colony::ant::AntInventory;
use ant_colony::ant::AntRole;
use ant_colony::ant::Facing;
use ant_colony::element::Element;
use ant_colony::position::Position;
use ant_colony::settings::Settings;
use ant_colony::world_gen::from_world;
use ant_colony::world_gen::initial_ant;
use ant_colony::world_map::AntColor;
use ant_colony::world_map::AntTimer;
use ant_colony::world_map::ElementSaveState;
use ant_colony::world_rng::Rng;

const PURPLE: AntColor = AntColor { red: 149, green: 55, blue: 219 };

fn settings_of(width: isize, height: isize, dirt: u8, workers: isize) -> Settings {
    Settings {
        world_width: width,
        world_height: height,
        initial_dirt_percent: dirt,
        initial_ant_worker_count: workers,
        ant_color: PURPLE,
        auto_save_interval_ms: 5_000,
        is_breathwork_scheduled: false,
    }
}

fn some_names() -> Vec<String> {
    vec!["Ada".to_string(), "Bea".to_string(), "Cyd".to_string()]
}

#[test]
fn new_world_is_air_down_to_the_surface_and_dirt_below() {
    // Four rows of three, half of them dirt: the surface is row 2.
    let settings = settings_of(3, 4, 50, 0);
    let map = from_world(&settings, &some_names(), &mut Rng::from_seed(1), 1_700_000_000);
    assert_eq!(*map.width(), 3);
    assert_eq!(*map.height(), 4);
    assert_eq!(*map.surface_level(), 2);
    assert_eq!(map.get_element(Position::new(0, 0)), None);
    let state = map.initial_state();
    assert_eq!(state.time_stamp, 1_700_000_000);
    let mut expected = Vec::new();
    for y in 0..4 {
        for x in 0..3 {
            let element = if y <= 2 { Element::Air } else { Element::Dirt };
            expected.push(ElementSaveState { element, position: Position::new(x, y) });
        }
    }
    assert_eq!(state.elements, expected);
}

#[test]
fn world_without_dirt_has_a_row_of_air_at_the_surface() {
    let settings = settings_of(2, 3, 0, 0);
    let map = from_world(&settings, &some_names(), &mut Rng::from_seed(1), 0);
    assert_eq!(*map.surface_level(), 3);
    let elements = &map.initial_state().elements;
    assert_eq!(elements.len(), 8);
    assert!(elements.iter().all(|saved| saved.element == Element::Air));
    assert_eq!(elements[7].position, Position::new(1, 3));
}

#[test]
fn world_of_dirt_keeps_one_row_of_air() {
    let settings = settings_of(2, 3, 100, 0);
    let map = from_world(&settings, &some_names(), &mut Rng::from_seed(1), 0);
    assert_eq!(*map.surface_level(), 0);
    let kinds: Vec<Element> =
        map.initial_state().elements.iter().map(|saved| saved.element).collect();
    assert_eq!(
        kinds,
        vec![Element::Air, Element::Air, Element::Dirt, Element::Dirt, Element::Dirt, Element::Dirt]
    );
}

#[test]
fn world_without_height_has_one_row_of_air() {
    let settings = settings_of(2, 0, 50, 0);
    let map = from_world(&settings, &Vec::new(), &mut Rng::from_seed(1), 0);
    assert_eq!(map.initial_state().elements.len(), 2);
    assert_eq!(map.initial_state().ants.len(), 1);
}

#[test]
fn colony_is_a_queen_and_her_workers_on_the_surface() {
    let settings = settings_of(144, 81, 67, 20);
    let names = some_names();
    let map = from_world(&settings, &names, &mut Rng::from_seed(7), 0);
    let ants = &map.initial_state().ants;
    assert_eq!(ants.len(), 21);
    assert_eq!(ants[0].role, AntRole::Queen);
    assert_eq!(ants[0].name.0, "Queen");
    for (index, ant) in ants.iter().enumerate() {
        assert_eq!(ant.position.y, 26);
        assert!((0..144).contains(&ant.position.x));
        assert_eq!(ant.color, PURPLE);
        assert_eq!(ant.orientation.angle, Angle::Zero);
        assert_eq!(ant.inventory, AntInventory(None));
        assert!(ant.timer.0 == 3 || ant.timer.0 == 4);
        if index > 0 {
            assert_eq!(ant.role, AntRole::Worker);
            assert!(names.contains(&ant.name.0));
        }
    }
    // Chance is at work: the ants neither all stand in one place nor all look one way.
    assert!(ants.iter().any(|ant| ant.position.x != ants[0].position.x));
    assert!(ants.iter().any(|ant| ant.orientation.facing == Facing::Left));
    assert!(ants.iter().any(|ant| ant.orientation.facing == Facing::Right));
}

#[test]
fn same_seed_makes_the_same_world() {
    let settings = settings_of(50, 20, 60, 10);
    let describe = |seed: u64| {
        let map = from_world(&settings, &some_names(), &mut Rng::from_seed(seed), 0);
        map.initial_state()
            .ants
            .iter()
            .map(|ant| format!("{:?}", ant))
            .collect::<Vec<String>>()
    };
    assert_eq!(describe(11), describe(11));
    assert_ne!(describe(11), describe(12));
}

#[test]
fn narrow_world_wraps_the_place_of_an_ant_into_its_width() {
    let settings = settings_of(7, 10, 50, 0);
    let ant = initial_ant(&settings, AntRole::Worker, "Dot".to_string(), 999, true, 4);
    assert_eq!(ant.position, Position::new(999 % 7, 5));
    assert_eq!(ant.orientation.facing, Facing::Left);
    assert_eq!(ant.orientation.angle, Angle::Zero);
    assert_eq!(ant.timer, AntTimer(4));
    assert_eq!(ant.name.0, "Dot");
    assert_eq!(ant.role, AntRole::Worker);
    assert_eq!(ant.color, PURPLE);
    assert_eq!(ant.inventory, AntInventory(None));
    let other = initial_ant(&settings, AntRole::Queen, "Queen".to_string(), 3, false, 3);
    assert_eq!(other.position, Position::new(3, 5));
    assert_eq!(other.orientation.facing, Facing::Right);
}

#[test]
fn draws_stay_within_what_was_asked_for() {
    let mut rng = Rng::from_seed(99);
    let mut seen_low = false;
    let mut seen_high = false;
    for _ in 0..500 {
        let drawn = rng.draw_between(-3, 4);
        assert!((-3..4).contains(&drawn));
        seen_low |= drawn == -3;
        seen_high |= drawn == 3;
        assert_eq!(rng.draw_between(10, 11), 10);
        assert!(rng.draw_index(5) < 5);
        assert_eq!(rng.draw_index(1), 0);
    }
    assert!(seen_low && seen_high);
    let mut heads = 0;
    for _ in 0..1_000 {
        if rng.toss() {
            heads += 1;
        }
    }
    assert!(heads > 350 && heads < 650);
}

#[test]
fn generators_of_one_seed_draw_alike() {
    let mut first = Rng::from_seed(5);
    let mut second = Rng::from_seed(5);
    let mut third = Rng::from_seed(6);
    let a: Vec<isize> = (0..20).map(|_| first.draw_between(0, 1_000_000)).collect();
    let b: Vec<isize> = (0..20).map(|_| second.draw_between(0, 1_000_000)).collect();
    let c: Vec<isize> = (0..20).map(|_| third.draw_between(0, 1_000_000)).collect();
    assert_eq!(a, b);
    assert_ne!(a, c);
}
