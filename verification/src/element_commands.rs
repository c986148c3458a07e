//! What becomes of the grid when an element is put into it, exchanged or marked.
//!
//! Elements are made and unmade outside this library. A command is first asked whether
//! it applies as the grid stands, and only then carried out with the identity of the
//! element that was made for it.

use crate::ant::Entity;
use crate::element::Element;
use crate::position::Position;
use crate::world_map::ElementRegistry;
use crate::world_map::WorldMap;
use crate::world_map::WorldMapView;
use vstd::prelude::*;

verus! {

/// Which of the two grids of the world is meant.
#[derive(Clone, Copy, Debug, PartialEq, Eq, Hash, Structural)]
pub enum Location {
    Nest,
    Crater,
}

/// The grid and the kinds of its elements, as one value.
pub struct GridState {
    pub map: WorldMapView,
    pub kinds: Map<Entity, Element>,
}

/// Whether the cell at a position holds exactly the element `target`. A command that
/// was given for one element does nothing once another has taken its place.
pub open spec fn holds_target(map: WorldMapView, position: Position, target: Entity) -> bool {
    map.element_at(position) == Some(target)
}

/// Whether an element can be put at a position: the cell is there and it is empty.
pub open spec fn is_vacant(map: WorldMapView, position: Position) -> bool {
    map.has_cell(position) && map.element_at(position) is None
}

/// The grid after `target` at `position` was exchanged for the new element `spawned`
/// of the given kind. Where the cell does not hold `target`, nothing changes.
pub open spec fn element_replaced(
    before: GridState,
    position: Position,
    element: Element,
    target: Entity,
    spawned: Entity,
) -> GridState {
    if holds_target(before.map, position, target) {
        GridState {
            map: before.map.with_element(position, spawned),
            kinds: before.kinds.remove(target).insert(spawned, element),
        }
    } else {
        before
    }
}

/// The grid after the new element `spawned` of the given kind was put into the empty
/// cell at `position`. Where the cell is missing or occupied, nothing changes.
pub open spec fn element_spawned(
    before: GridState,
    position: Position,
    element: Element,
    spawned: Entity,
) -> GridState {
    if is_vacant(before.map, position) {
        GridState {
            map: before.map.with_element(position, spawned),
            kinds: before.kinds.insert(spawned, element),
        }
    } else {
        before
    }
}

/// Whether a command given for the element `target` at `position` still applies.
pub fn can_replace_element(
    world_map: &WorldMap,
    position: Position,
    target_element: Entity,
) -> (can: bool)
    ensures
        can == holds_target(world_map@, position, target_element),
{
    match world_map.get_element(position) {
        Some(existing) => existing.0 == target_element.0,
        None => false,
    }
}

/// Whether an element can be put at `position`.
pub fn can_spawn_element(world_map: &WorldMap, position: Position) -> (can: bool)
    ensures
        can == is_vacant(world_map@, position),
{
    world_map.has_cell(position) && world_map.get_element(position).is_none()
}

/// Exchanges the element `target_element` at `position` for the element `spawned`,
/// which is of kind `element`, and says whether it did. It does so only if the cell
/// still holds `target_element`.
pub fn replace_element(
    world_map: &mut WorldMap,
    elements: &mut ElementRegistry,
    position: Position,
    element: Element,
    target_element: Entity,
    spawned: Entity,
) -> (replaced: bool)
    ensures
        replaced == holds_target(old(world_map)@, position, target_element),
        (GridState { map: final(world_map)@, kinds: final(elements)@ }) == element_replaced(
            GridState { map: old(world_map)@, kinds: old(elements)@ },
            position,
            element,
            target_element,
            spawned,
        ),
        final(world_map).spec_initial_state() == old(world_map).spec_initial_state(),
{
    if !can_replace_element(world_map, position, target_element) {
        return false;
    }
    elements.remove(target_element);
    elements.insert(spawned, element);
    world_map.set_element(position, spawned);
    true
}

/// Puts the element `spawned`, which is of kind `element`, into the cell at `position`,
/// and says whether it did. It does so only if the cell is there and empty.
pub fn spawn_element(
    world_map: &mut WorldMap,
    elements: &mut ElementRegistry,
    position: Position,
    element: Element,
    spawned: Entity,
) -> (placed: bool)
    ensures
        placed == is_vacant(old(world_map)@, position),
        (GridState { map: final(world_map)@, kinds: final(elements)@ }) == element_spawned(
            GridState { map: old(world_map)@, kinds: old(elements)@ },
            position,
            element,
            spawned,
        ),
        final(world_map).spec_initial_state() == old(world_map).spec_initial_state(),
{
    if !can_spawn_element(world_map, position) {
        return false;
    }
    elements.insert(spawned, element);
    world_map.set_element(position, spawned);
    true
}

/// What is to be done to an element that a mark is switched on or off for.
#[derive(Clone, Copy, Debug, PartialEq, Eq, Structural)]
pub enum ToggleOutcome {
    /// The cell no longer holds the element: nothing is done.
    Skip,
    /// The element gets the mark.
    Insert,
    /// The element loses the mark.
    Remove,
}

/// What switching a mark does to the element `target` at `position`.
pub open spec fn toggled(
    map: WorldMapView,
    position: Position,
    target: Entity,
    toggle: bool,
) -> ToggleOutcome {
    if !holds_target(map, position, target) {
        ToggleOutcome::Skip
    } else if toggle {
        ToggleOutcome::Insert
    } else {
        ToggleOutcome::Remove
    }
}

/// Decides what switching a mark on (`toggle`) or off does to the element
/// `target_element_entity` at `position`.
pub fn toggle_element(
    world_map: &WorldMap,
    target_element_entity: Entity,
    position: Position,
    toggle: bool,
) -> (outcome: ToggleOutcome)
    ensures
        outcome == toggled(world_map@, position, target_element_entity, toggle),
{
    if !can_replace_element(world_map, position, target_element_entity) {
        ToggleOutcome::Skip
    } else if toggle {
        ToggleOutcome::Insert
    } else {
        ToggleOutcome::Remove
    }
}

/// Only one cell of the grid is touched by an exchange, and it holds one element
/// afterwards as before: no cell ever holds two.
pub proof fn lemma_replace_touches_one_cell(
    before: GridState,
    position: Position,
    element: Element,
    target: Entity,
    spawned: Entity,
    other: Position,
)
    requires
        other != position,
    ensures
        element_replaced(before, position, element, target, spawned).map.element_at(other)
            == before.map.element_at(other),
        element_replaced(before, position, element, target, spawned).map.has_cell(other)
            == before.map.has_cell(other),
        holds_target(before.map, position, target) ==> element_replaced(
            before,
            position,
            element,
            target,
            spawned,
        ).map.element_at(position) == Some(spawned),
        element_spawned(before, position, element, spawned).map.element_at(other)
            == before.map.element_at(other),
        is_vacant(before.map, position) ==> element_spawned(
            before,
            position,
            element,
            spawned,
        ).map.element_at(position) == Some(spawned),
{
}

} // verus!
