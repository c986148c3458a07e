use ant_colony::ant::Entity;
use ant_colony::element::Element;
use ant_colony::element_commands::can_replace_element;
use ant_colony::element_commands::can_spawn_element;
use ant_colony::element_commands::replace_element;
use ant_colony::element_commands::spawn_element;
use ant_colony::element_commands::toggle_element;
use ant_colony::element_commands::ToggleOutcome;
use ant_colony::position::Position;
use ant_colony::world_map::ElementRegistry;
use ant_colony::world_map::WorldMap;
use ant_colony::world_map::WorldSaveState;

fn empty_state() -> WorldSaveState {
    WorldSaveState { time_stamp: 42, elements: Vec::new(), ants: Vec::new() }
}

fn grid_two_by_three() -> WorldMap {
    let mut map = WorldMap::new(3, 2, 0, empty_state());
    map.set_elements(vec![
        vec![Entity(10), Entity(11), Entity(12)],
        vec![Entity(20), Entity(21), Entity(22)],
    ]);
    map
}

#[test]
fn new_world_keeps_its_measures_and_has_no_grid() {
    let map = WorldMap::new(144, 81, 27, empty_state());
    assert_eq!(*map.width(), 144);
    assert_eq!(*map.height(), 81);
    assert_eq!(*map.surface_level(), 27);
    assert_eq!(map.initial_state().time_stamp, 42);
    assert_eq!(map.get_element(Position::new(0, 0)), None);
    assert!(!map.has_cell(Position::new(0, 0)));
}

#[test]
fn bounds_are_those_of_width_and_height() {
    let map = WorldMap::new(3, 2, 0, empty_state());
    assert!(map.is_within_bounds(&Position::new(0, 0)));
    assert!(map.is_within_bounds(&Position::new(2, 1)));
    assert!(!map.is_within_bounds(&Position::new(3, 1)));
    assert!(!map.is_within_bounds(&Position::new(2, 2)));
    assert!(!map.is_within_bounds(&Position::new(-1, 0)));
    assert!(!map.is_within_bounds(&Position::new(0, -1)));
}

#[test]
fn get_element_reads_row_then_column() {
    let map = grid_two_by_three();
    assert_eq!(map.get_element(Position::new(0, 0)), Some(&Entity(10)));
    assert_eq!(map.get_element(Position::new(2, 0)), Some(&Entity(12)));
    assert_eq!(map.get_element(Position::new(1, 1)), Some(&Entity(21)));
    assert_eq!(map.get_element(Position::new(3, 0)), None);
    assert_eq!(map.get_element(Position::new(0, 2)), None);
    assert_eq!(map.get_element(Position::new(-1, 0)), None);
    assert_eq!(map.get_element(Position::new(0, -1)), None);
    assert_eq!(map.get_element(Position::new(isize::MIN, isize::MAX)), None);
}

#[test]
fn set_element_changes_one_cell() {
    let mut map = grid_two_by_three();
    map.set_element(Position::new(1, 0), Entity(99));
    assert_eq!(map.get_element(Position::new(1, 0)), Some(&Entity(99)));
    assert_eq!(map.get_element(Position::new(0, 0)), Some(&Entity(10)));
    assert_eq!(map.get_element(Position::new(2, 0)), Some(&Entity(12)));
    assert_eq!(map.get_element(Position::new(1, 1)), Some(&Entity(21)));
    assert_eq!(*map.width(), 3);
}

#[test]
fn clear_element_empties_one_cell() {
    let mut map = grid_two_by_three();
    map.clear_element(Position::new(2, 1));
    assert_eq!(map.get_element(Position::new(2, 1)), None);
    assert!(map.has_cell(Position::new(2, 1)));
    assert_eq!(map.get_element(Position::new(1, 1)), Some(&Entity(21)));
    map.set_element(Position::new(2, 1), Entity(5));
    assert_eq!(map.get_element(Position::new(2, 1)), Some(&Entity(5)));
}

#[test]
fn ragged_rows_have_the_cells_they_have() {
    let mut map = WorldMap::new(3, 2, 0, empty_state());
    map.set_elements(vec![vec![Entity(1)], vec![], vec![Entity(2), Entity(3)]]);
    assert!(map.has_cell(Position::new(0, 0)));
    assert!(!map.has_cell(Position::new(1, 0)));
    assert!(!map.has_cell(Position::new(0, 1)));
    assert_eq!(map.get_element(Position::new(1, 2)), Some(&Entity(3)));
}

#[test]
fn registry_remembers_kinds_by_identity() {
    let mut elements = ElementRegistry::new();
    assert_eq!(elements.get(Entity(1)), None);
    elements.insert(Entity(1), Element::Dirt);
    elements.insert(Entity(2), Element::Food);
    assert_eq!(elements.get(Entity(1)), Some(Element::Dirt));
    assert_eq!(elements.get(Entity(2)), Some(Element::Food));
    elements.insert(Entity(1), Element::Sand);
    assert_eq!(elements.get(Entity(1)), Some(Element::Sand));
    elements.remove(Entity(1));
    assert_eq!(elements.get(Entity(1)), None);
    assert_eq!(elements.get(Entity(2)), Some(Element::Food));
    elements.remove(Entity(3));
}

#[test]
fn is_element_asks_the_cell_and_the_registry() {
    let map = grid_two_by_three();
    let mut elements = ElementRegistry::new();
    elements.insert(Entity(10), Element::Air);
    elements.insert(Entity(11), Element::Food);
    assert!(map.is_element(&elements, Position::new(0, 0), Element::Air));
    assert!(!map.is_element(&elements, Position::new(0, 0), Element::Food));
    assert!(map.is_element(&elements, Position::new(1, 0), Element::Food));
    // Nobody knows what is in this cell.
    assert!(!map.is_element(&elements, Position::new(2, 0), Element::Air));
    // There is no such cell.
    assert!(!map.is_element(&elements, Position::new(9, 9), Element::Air));
}

#[test]
fn replace_applies_only_to_the_element_it_was_given_for() {
    let mut map = grid_two_by_three();
    let mut elements = ElementRegistry::new();
    elements.insert(Entity(11), Element::Air);
    let at = Position::new(1, 0);

    assert!(!can_replace_element(&map, at, Entity(10)));
    assert!(!replace_element(&mut map, &mut elements, at, Element::Food, Entity(10), Entity(50)));
    assert_eq!(map.get_element(at), Some(&Entity(11)));
    assert_eq!(elements.get(Entity(11)), Some(Element::Air));
    assert_eq!(elements.get(Entity(50)), None);

    assert!(can_replace_element(&map, at, Entity(11)));
    assert!(replace_element(&mut map, &mut elements, at, Element::Food, Entity(11), Entity(50)));
    assert_eq!(map.get_element(at), Some(&Entity(50)));
    assert_eq!(elements.get(Entity(11)), None);
    assert_eq!(elements.get(Entity(50)), Some(Element::Food));
    assert_eq!(map.get_element(Position::new(0, 0)), Some(&Entity(10)));

    // Off the grid there is nothing to replace.
    assert!(!replace_element(
        &mut map,
        &mut elements,
        Position::new(7, 7),
        Element::Dirt,
        Entity(50),
        Entity(51)
    ));
}

#[test]
fn spawn_fills_an_empty_cell_only() {
    let mut map = grid_two_by_three();
    let mut elements = ElementRegistry::new();
    let at = Position::new(0, 1);
    assert!(!can_spawn_element(&map, at));
    assert!(!spawn_element(&mut map, &mut elements, at, Element::Sand, Entity(60)));
    assert_eq!(map.get_element(at), Some(&Entity(20)));

    map.clear_element(at);
    assert!(can_spawn_element(&map, at));
    assert!(spawn_element(&mut map, &mut elements, at, Element::Sand, Entity(60)));
    assert_eq!(map.get_element(at), Some(&Entity(60)));
    assert_eq!(elements.get(Entity(60)), Some(Element::Sand));

    assert!(!can_spawn_element(&map, Position::new(-1, 0)));
    assert!(!spawn_element(&mut map, &mut elements, Position::new(3, 0), Element::Sand, Entity(61)));
    assert_eq!(elements.get(Entity(61)), None);
}

#[test]
fn toggle_marks_the_element_it_was_given_for() {
    let map = grid_two_by_three();
    let at = Position::new(2, 1);
    assert_eq!(toggle_element(&map, Entity(22), at, true), ToggleOutcome::Insert);
    assert_eq!(toggle_element(&map, Entity(22), at, false), ToggleOutcome::Remove);
    assert_eq!(toggle_element(&map, Entity(21), at, true), ToggleOutcome::Skip);
    assert_eq!(toggle_element(&map, Entity(22), Position::new(5, 5), false), ToggleOutcome::Skip);
}
