//! What the user asks of the world, and what is to be done about each request.
//!
//! Requests are gathered between steps of the simulation and looked at together at the
//! start of a step, all of them against the world as it stands then. What comes out is
//! a list of commands for the world's keeper to carry out.

use crate::ant::colony_view;
use crate::ant::Ant;
use crate::ant::AntRole;
use crate::ant::AntView;
use crate::ant::Entity;
use crate::element::Element;
use crate::position::Position;
use crate::world_map::ElementRegistry;
use crate::world_map::WorldMap;
use crate::world_map::WorldMapView;
use vstd::prelude::*;

verus! {

/// A request of the user.
#[derive(Clone, Copy, Debug, PartialEq, Eq, Structural)]
pub enum ExternalSimulationEvent {
    ShowCrater,
    ShowNest,
    Select(Position),
    SpawnFood(Position),
    SpawnSand(Position),
    SpawnDirt(Position),
    DespawnElement(Position),
    SpawnWorkerAnt(Position),
    KillAnt(Position),
    DespawnWorkerAnt(Position),
}

/// Which grid is shown.
#[derive(Clone, Copy, Debug, PartialEq, Eq, Hash, Structural)]
pub enum VisibleGridState {
    Nest,
    Crater,
}

/// What is selected: an ant, by its index in the colony, or an element.
#[derive(Clone, Copy, Debug, PartialEq, Eq, Structural)]
pub enum Selection {
    Ant(usize),
    Element(Entity),
}

/// Something for the keeper of the world to do.
#[derive(Clone, Copy, Debug, PartialEq, Eq, Structural)]
pub enum WorldCommand {
    /// Show this grid and hide the other.
    ShowGrid(VisibleGridState),
    Deselect(Selection),
    Select(Selection),
    /// Exchange the element `target` at `position` for a new one of kind `element`.
    ReplaceElement { position: Position, element: Element, target: Entity },
    /// Make a worker ant at the position, facing either way.
    SpawnWorkerAnt(Position),
    /// Mark the ant dead and take its initiative away.
    KillAnt(usize),
    /// Unmake an element that an unmade ant was carrying.
    DespawnElement(Entity),
    /// Unmake the ant and all that belongs to it.
    DespawnAnt(usize),
}

/// Whether an ant is one that a request at `position` is about: it stands there, and
/// it is a worker if only workers are asked for.
pub open spec fn stands_at(ant: AntView, position: Position, workers_only: bool) -> bool {
    ant.position == position && (workers_only ==> ant.role == AntRole::Worker)
}

/// Whether `index` is the first ant of the colony, in order, that stands at `position`.
pub open spec fn is_first_ant_at(
    ants: Seq<AntView>,
    position: Position,
    workers_only: bool,
    index: int,
) -> bool {
    &&& 0 <= index < ants.len()
    &&& stands_at(ants[index], position, workers_only)
    &&& forall|k: int| 0 <= k < index ==> !stands_at(#[trigger] ants[k], position, workers_only)
}

/// The first ant of the colony, in order, that stands at `position`, if there is one.
pub open spec fn first_ant_at(ants: Seq<AntView>, position: Position, workers_only: bool) -> Option<
    int,
> {
    if exists|i: int| is_first_ant_at(ants, position, workers_only, i) {
        Some(choose|i: int| is_first_ant_at(ants, position, workers_only, i))
    } else {
        None
    }
}

/// What is selected after a tap on a cell with the given ant and element in it.
///
/// The ant is selected before the element under it. A tap on the selected ant moves
/// the selection on to the element under it; a tap on what is selected with nothing
/// further under it takes the selection away, and so does a tap on an empty cell.
pub open spec fn next_selection(
    ant: Option<int>,
    element: Option<Entity>,
    current: Option<Selection>,
) -> Option<Selection> {
    match ant {
        Some(a) => if current == Some(Selection::Ant(a as usize)) {
            match element {
                Some(e) => Some(Selection::Element(e)),
                None => None,
            }
        } else {
            Some(Selection::Ant(a as usize))
        },
        None => match element {
            Some(e) => if current == Some(Selection::Element(e)) {
                None
            } else {
                Some(Selection::Element(e))
            },
            None => None,
        },
    }
}

/// The commands that move the selection from `current` to `next`.
pub open spec fn selection_commands(
    current: Option<Selection>,
    next: Option<Selection>,
) -> Seq<WorldCommand> {
    let off = match current {
        Some(c) => seq![WorldCommand::Deselect(c)],
        None => Seq::empty(),
    };
    match next {
        Some(n) => off.push(WorldCommand::Select(n)),
        None => off,
    }
}

/// The commands that put an element of the given kind where air is.
pub open spec fn fill_commands(
    nest: WorldMapView,
    kinds: Map<Entity, Element>,
    position: Position,
    element: Element,
) -> Seq<WorldCommand> {
    if nest.is_element(kinds, position, Element::Air) {
        seq![
            WorldCommand::ReplaceElement {
                position,
                element,
                target: nest.element_at(position)->0,
            },
        ]
    } else {
        Seq::empty()
    }
}

/// What is to be done about one request, in the world as it stands.
pub open spec fn event_commands(
    event: ExternalSimulationEvent,
    nest: WorldMapView,
    kinds: Map<Entity, Element>,
    ants: Seq<AntView>,
    selected: Option<Selection>,
) -> Seq<WorldCommand> {
    match event {
        ExternalSimulationEvent::ShowCrater => seq![
            WorldCommand::ShowGrid(VisibleGridState::Crater),
        ],
        ExternalSimulationEvent::ShowNest => seq![WorldCommand::ShowGrid(VisibleGridState::Nest)],
        ExternalSimulationEvent::Select(position) => selection_commands(
            selected,
            next_selection(
                first_ant_at(ants, position, false),
                nest.element_at(position),
                selected,
            ),
        ),
        ExternalSimulationEvent::SpawnFood(position) => fill_commands(
            nest,
            kinds,
            position,
            Element::Food,
        ),
        ExternalSimulationEvent::SpawnSand(position) => fill_commands(
            nest,
            kinds,
            position,
            Element::Sand,
        ),
        ExternalSimulationEvent::SpawnDirt(position) => fill_commands(
            nest,
            kinds,
            position,
            Element::Dirt,
        ),
        ExternalSimulationEvent::DespawnElement(position) => match nest.element_at(position) {
            Some(target) => seq![
                WorldCommand::ReplaceElement { position, element: Element::Air, target },
            ],
            None => Seq::empty(),
        },
        ExternalSimulationEvent::SpawnWorkerAnt(position) => if nest.is_element(
            kinds,
            position,
            Element::Air,
        ) {
            seq![WorldCommand::SpawnWorkerAnt(position)]
        } else {
            Seq::empty()
        },
        ExternalSimulationEvent::KillAnt(position) => match first_ant_at(ants, position, false) {
            Some(index) => seq![WorldCommand::KillAnt(index as usize)],
            None => Seq::empty(),
        },
        ExternalSimulationEvent::DespawnWorkerAnt(position) => match first_ant_at(
            ants,
            position,
            true,
        ) {
            Some(index) => match ants[index].inventory {
                Some(carried) => seq![
                    WorldCommand::DespawnElement(carried),
                    WorldCommand::DespawnAnt(index as usize),
                ],
                None => seq![WorldCommand::DespawnAnt(index as usize)],
            },
            None => Seq::empty(),
        },
    }
}

/// What is to be done about the first `n` of the requests, in order, all of them
/// looked at in the same world.
pub open spec fn events_commands_upto(
    events: Seq<ExternalSimulationEvent>,
    nest: WorldMapView,
    kinds: Map<Entity, Element>,
    ants: Seq<AntView>,
    selected: Option<Selection>,
    n: int,
) -> Seq<WorldCommand>
    decreases n,
{
    if n <= 0 {
        Seq::empty()
    } else {
        events_commands_upto(events, nest, kinds, ants, selected, n - 1) + event_commands(
            events[n - 1],
            nest,
            kinds,
            ants,
            selected,
        )
    }
}

/// Looks through the colony, in order, for the first ant that stands at `position`.
pub fn find_ant_at(ants: &Vec<Ant>, position: Position, workers_only: bool) -> (found: Option<
    usize,
>)
    ensures
        match found {
            Some(i) => first_ant_at(colony_view(ants@), position, workers_only) == Some(i as int),
            None => first_ant_at(colony_view(ants@), position, workers_only) is None,
        },
{
    let ghost views = colony_view(ants@);
    let mut i: usize = 0;
    while i < ants.len()
        invariant
            i <= ants.len(),
            views == colony_view(ants@),
            forall|k: int| 0 <= k < i ==> !stands_at(#[trigger] views[k], position, workers_only),
        decreases ants.len() - i,
    {
        let ant = ants[i];
        let is_wanted = match ant.role {
            AntRole::Worker => true,
            AntRole::Queen => !workers_only,
        };
        if ant.position.x == position.x && ant.position.y == position.y && is_wanted {
            proof {
                assert(is_first_ant_at(views, position, workers_only, i as int));
                let chosen = choose|k: int| is_first_ant_at(views, position, workers_only, k);
                assert(is_first_ant_at(views, position, workers_only, chosen));
                assert(stands_at(views[chosen], position, workers_only));
                assert(chosen == i);
            }
            return Some(i);
        }
        i += 1;
    }
    proof {
        assert forall|k: int| !is_first_ant_at(views, position, workers_only, k) by {
            if is_first_ant_at(views, position, workers_only, k) {
                assert(stands_at(views[k], position, workers_only));
            }
        }
    }
    None
}

fn same_selection(a: Option<Selection>, b: Selection) -> (same: bool)
    ensures
        same == (a == Some(b)),
{
    match (a, b) {
        (Some(Selection::Ant(i)), Selection::Ant(j)) => i == j,
        (Some(Selection::Element(e)), Selection::Element(f)) => e.0 == f.0,
        _ => false,
    }
}

fn push_fill_commands(
    commands: &mut Vec<WorldCommand>,
    nest: &WorldMap,
    elements: &ElementRegistry,
    position: Position,
    element: Element,
)
    ensures
        final(commands)@ == old(commands)@ + fill_commands(nest@, elements@, position, element),
{
    if nest.is_element(elements, position, Element::Air) {
        match nest.get_element(position) {
            Some(target) => {
                commands.push(WorldCommand::ReplaceElement { position, element, target: *target });
            },
            None => {},
        }
    }
    assert(commands@ =~= old(commands)@ + fill_commands(nest@, elements@, position, element));
}

/// Adds to `commands` what is to be done about one request.
pub fn push_event_commands(
    commands: &mut Vec<WorldCommand>,
    event: ExternalSimulationEvent,
    nest: &WorldMap,
    elements: &ElementRegistry,
    ants: &Vec<Ant>,
    selected: Option<Selection>,
)
    ensures
        final(commands)@ == old(commands)@ + event_commands(
            event,
            nest@,
            elements@,
            colony_view(ants@),
            selected,
        ),
{
    let ghost expected = event_commands(event, nest@, elements@, colony_view(ants@), selected);
    match event {
        ExternalSimulationEvent::ShowCrater => {
            commands.push(WorldCommand::ShowGrid(VisibleGridState::Crater));
        },
        ExternalSimulationEvent::ShowNest => {
            commands.push(WorldCommand::ShowGrid(VisibleGridState::Nest));
        },
        ExternalSimulationEvent::Select(position) => {
            let ant = find_ant_at(ants, position, false);
            let element = nest.get_element(position);
            let next: Option<Selection> = match ant {
                Some(a) => {
                    if same_selection(selected, Selection::Ant(a)) {
                        match element {
                            Some(e) => Some(Selection::Element(*e)),
                            None => None,
                        }
                    } else {
                        Some(Selection::Ant(a))
                    }
                },
                None => match element {
                    Some(e) => {
                        if same_selection(selected, Selection::Element(*e)) {
                            None
                        } else {
                            Some(Selection::Element(*e))
                        }
                    },
                    None => None,
                },
            };
            match selected {
                Some(current) => {
                    commands.push(WorldCommand::Deselect(current));
                },
                None => {},
            }
            match next {
                Some(n) => {
                    commands.push(WorldCommand::Select(n));
                },
                None => {},
            }
        },
        ExternalSimulationEvent::SpawnFood(position) => {
            push_fill_commands(commands, nest, elements, position, Element::Food);
        },
        ExternalSimulationEvent::SpawnSand(position) => {
            push_fill_commands(commands, nest, elements, position, Element::Sand);
        },
        ExternalSimulationEvent::SpawnDirt(position) => {
            push_fill_commands(commands, nest, elements, position, Element::Dirt);
        },
        ExternalSimulationEvent::DespawnElement(position) => {
            match nest.get_element(position) {
                Some(target) => {
                    commands.push(
                        WorldCommand::ReplaceElement {
                            position,
                            element: Element::Air,
                            target: *target,
                        },
                    );
                },
                None => {},
            }
        },
        ExternalSimulationEvent::SpawnWorkerAnt(position) => {
            if nest.is_element(elements, position, Element::Air) {
                commands.push(WorldCommand::SpawnWorkerAnt(position));
            }
        },
        ExternalSimulationEvent::KillAnt(position) => {
            match find_ant_at(ants, position, false) {
                Some(index) => {
                    commands.push(WorldCommand::KillAnt(index));
                },
                None => {},
            }
        },
        ExternalSimulationEvent::DespawnWorkerAnt(position) => {
            match find_ant_at(ants, position, true) {
                Some(index) => {
                    let ant = ants[index];
                    match ant.inventory.0 {
                        Some(carried) => {
                            commands.push(WorldCommand::DespawnElement(carried));
                        },
                        None => {},
                    }
                    commands.push(WorldCommand::DespawnAnt(index));
                },
                None => {},
            }
        },
    }
    assert(commands@ =~= old(commands)@ + expected);
}

/// Looks at the requests gathered since the last step, in order, and lists what is to
/// be done about them. Every request is judged in the same world: none sees what
/// another one asks for.
pub fn process_external_event(
    external_simulation_events: &Vec<ExternalSimulationEvent>,
    nest: &WorldMap,
    elements: &ElementRegistry,
    ants: &Vec<Ant>,
    selected: Option<Selection>,
) -> (commands: Vec<WorldCommand>)
    ensures
        commands@ == events_commands_upto(
            external_simulation_events@,
            nest@,
            elements@,
            colony_view(ants@),
            selected,
            external_simulation_events@.len() as int,
        ),
{
    let mut commands: Vec<WorldCommand> = Vec::new();
    let mut i: usize = 0;
    while i < external_simulation_events.len()
        invariant
            i <= external_simulation_events.len(),
            commands@ == events_commands_upto(
                external_simulation_events@,
                nest@,
                elements@,
                colony_view(ants@),
                selected,
                i as int,
            ),
        decreases external_simulation_events.len() - i,
    {
        push_event_commands(
            &mut commands,
            external_simulation_events[i],
            nest,
            elements,
            ants,
            selected,
        );
        i += 1;
    }
    commands
}

} // verus!
