//! How a new world is made: air above, dirt below, and a queen with her workers on
//! the surface, each at a place and with a bearing that chance decides.

use crate::ant::Angle;
use crate::ant::AntInventory;
use crate::ant::AntOrientation;
use crate::ant::AntRole;
use crate::ant::Facing;
use crate::element::Element;
use crate::position::Position;
use crate::settings::Settings;
use crate::world_map::AntName;
use crate::world_map::AntSaveState;
use crate::world_map::AntTimer;
use crate::world_map::ElementSaveState;
use crate::world_map::WorldMap;
use crate::world_map::WorldMapView;
use crate::world_map::WorldSaveState;
use crate::world_rng::Rng;
use vstd::arithmetic::div_mod::lemma_fundamental_div_mod_converse;
use vstd::prelude::*;

verus! {

/// The numbers from which the place of a new ant along the surface is drawn.
pub const PLACE_DRAWS: isize = 1_000;

/// The least number of ticks that a new ant waits before it makes up its mind.
pub const MIN_ANT_TIMER: isize = 3;

/// One more than the greatest number of ticks that a new ant waits.
pub const MAX_ANT_TIMER: isize = 5;

/// The elements of the rows from `from_row` up to, but not including, `to_row`, all of
/// one kind, row by row and from left to right.
pub open spec fn row_elements(element: Element, from_row: int, to_row: int, width: int) -> Seq<
    ElementSaveState,
> {
    let rows = if to_row > from_row {
        to_row - from_row
    } else {
        0
    };
    Seq::new(
        (rows * width) as nat,
        |i: int|
            ElementSaveState {
                element,
                position: Position { x: (i % width) as isize, y: (from_row + i / width) as isize },
            },
    )
}

/// The elements that a new world is made of: air from the top row down to the
/// surface, and dirt from there to the bottom.
pub open spec fn initial_elements(settings: Settings) -> Seq<ElementSaveState> {
    row_elements(Element::Air, 0, settings.surface_level() + 1, settings.world_width as int)
        + row_elements(
        Element::Dirt,
        settings.surface_level() + 1,
        settings.world_height as int,
        settings.world_width as int,
    )
}

/// What is the same of every ant of a new world, whatever chance decided: it stands
/// on the surface within the world's width, level and empty-handed, in the colony's
/// colour, with a timer from the range for new ants.
pub open spec fn is_initial_ant(ant: AntSaveState, settings: Settings, role: AntRole) -> bool {
    &&& ant.position.y == settings.surface_level()
    &&& 0 <= ant.position.x < settings.world_width
    &&& ant.color == settings.ant_color
    &&& ant.orientation.angle == Angle::Zero
    &&& ant.inventory.0 is None
    &&& ant.role == role
    &&& MIN_ANT_TIMER <= ant.timer.0 < MAX_ANT_TIMER
}

/// Whether a name is one of the list.
pub open spec fn is_listed(name: Seq<char>, names: Seq<String>) -> bool {
    exists|k: int| 0 <= k < names.len() && name == (#[trigger] names[k])@
}

fn push_rows(
    elements: &mut Vec<ElementSaveState>,
    element: Element,
    from_row: isize,
    to_row: isize,
    width: isize,
)
    requires
        0 < width,
        0 <= from_row,
    ensures
        final(elements)@ == old(elements)@ + row_elements(
            element,
            from_row as int,
            to_row as int,
            width as int,
        ),
{
    let ghost wanted = row_elements(element, from_row as int, to_row as int, width as int);
    let ghost mut pushed: int = 0;
    let mut row: isize = from_row;
    assert(0 * width == 0) by (nonlinear_arith);
    while row < to_row
        invariant
            0 < width,
            0 <= from_row <= row,
            row <= to_row || to_row <= from_row,
            to_row <= from_row ==> row == from_row,
            pushed == (row - from_row) * width,
            0 <= pushed <= wanted.len(),
            wanted == row_elements(element, from_row as int, to_row as int, width as int),
            elements@.len() == old(elements)@.len() + pushed,
            forall|i: int| 0 <= i < old(elements)@.len() ==> elements@[i] == old(elements)@[i],
            forall|i: int| 0 <= i < pushed ==> elements@[old(elements)@.len() + i] == wanted[i],
        decreases to_row - row,
    {
        let ghost row_start = pushed;
        assert((row + 1 - from_row) * width == (row - from_row) * width + width
            && (row + 1 - from_row) * width <= (to_row - from_row) * width) by (nonlinear_arith)
            requires
                0 < width,
                from_row <= row < to_row,
        ;
        let mut column: isize = 0;
        while column < width
            invariant
                0 < width,
                0 <= column <= width,
                0 <= from_row <= row < to_row,
                row_start == (row - from_row) * width,
                pushed == row_start + column,
                row_start + width <= wanted.len(),
                wanted == row_elements(element, from_row as int, to_row as int, width as int),
                elements@.len() == old(elements)@.len() + pushed,
                forall|i: int| 0 <= i < old(elements)@.len() ==> elements@[i] == old(elements)@[i],
                forall|i: int|
                    0 <= i < pushed ==> elements@[old(elements)@.len() + i] == wanted[i],
            decreases width - column,
        {
            proof {
                lemma_fundamental_div_mod_converse(
                    pushed,
                    width as int,
                    (row - from_row) as int,
                    column as int,
                );
            }
            elements.push(ElementSaveState { element, position: Position { x: column, y: row } });
            proof {
                pushed = pushed + 1;
            }
            column += 1;
        }
        row += 1;
    }
    proof {
        if to_row > from_row {
            assert(pushed == wanted.len());
        } else {
            assert(0 * width == 0) by (nonlinear_arith);
        }
        assert(elements@ =~= old(elements)@ + wanted);
    }
}

/// The ant that a new world gets for one round of draws: `place` decides where along
/// the surface it stands, `faces_left` which way it looks, and `timer` how long it
/// waits.
pub fn initial_ant(
    settings: &Settings,
    role: AntRole,
    name: String,
    place: isize,
    faces_left: bool,
    timer: isize,
) -> (ant: AntSaveState)
    requires
        settings.wf(),
        0 <= place,
    ensures
        ant.position == (Position {
            x: (place % settings.world_width) as isize,
            y: settings.surface_level() as isize,
        }),
        ant.color == settings.ant_color,
        ant.orientation == (AntOrientation {
            facing: if faces_left {
                Facing::Left
            } else {
                Facing::Right
            },
            angle: Angle::Zero,
        }),
        ant.inventory.0 is None,
        ant.role == role,
        ant.timer == AntTimer(timer),
        ant.name.0@ == name@,
        MIN_ANT_TIMER <= timer < MAX_ANT_TIMER ==> is_initial_ant(ant, *settings, role),
{
    let x = place % settings.world_width;
    let y = settings.initial_surface_level();
    let facing = if faces_left {
        Facing::Left
    } else {
        Facing::Right
    };
    AntSaveState {
        position: Position::new(x, y),
        color: settings.ant_color,
        orientation: AntOrientation::new(facing, Angle::Zero),
        inventory: AntInventory(None),
        role,
        timer: AntTimer(timer),
        name: AntName(name),
    }
}

/// Makes a new world by the given choices, stamped with the given time. Chance
/// decides where each ant stands along the surface, which way it looks, how long it
/// waits, and what each worker is called; the queen is called "Queen". A colony
/// cannot have workers without names to call them by.
pub fn from_world(
    settings: &Settings,
    names: &Vec<String>,
    world_rng: &mut Rng,
    time_stamp: i64,
) -> (map: WorldMap)
    requires
        settings.wf(),
        settings.initial_ant_worker_count > 0 ==> names@.len() > 0,
    ensures
        map@ == (WorldMapView {
            width: settings.world_width as int,
            height: settings.world_height as int,
            surface_level: settings.surface_level(),
            cells: None,
        }),
        map.spec_initial_state().time_stamp == time_stamp,
        map.spec_initial_state().elements@ == initial_elements(*settings),
        map.spec_initial_state().ants@.len() == 1 + settings.initial_ant_worker_count,
        is_initial_ant(map.spec_initial_state().ants@[0], *settings, AntRole::Queen),
        map.spec_initial_state().ants@[0].name.0@ == "Queen"@,
        forall|i: int|
            1 <= i < map.spec_initial_state().ants@.len() ==> {
                &&& is_initial_ant(
                    #[trigger] map.spec_initial_state().ants@[i],
                    *settings,
                    AntRole::Worker,
                )
                &&& is_listed(map.spec_initial_state().ants@[i].name.0@, names@)
            },
{
    let surface_level = settings.initial_surface_level();
    let mut elements: Vec<ElementSaveState> = Vec::new();
    push_rows(&mut elements, Element::Air, 0, surface_level + 1, settings.world_width);
    push_rows(
        &mut elements,
        Element::Dirt,
        surface_level + 1,
        settings.world_height,
        settings.world_width,
    );
    assert(elements@ =~= initial_elements(*settings));

    let mut ants: Vec<AntSaveState> = Vec::new();
    let place = world_rng.draw_between(0, PLACE_DRAWS);
    let faces_left = world_rng.toss();
    let timer = world_rng.draw_between(MIN_ANT_TIMER, MAX_ANT_TIMER);
    ants.push(initial_ant(settings, AntRole::Queen, "Queen".to_owned(), place, faces_left, timer));

    let mut made: isize = 0;
    while made < settings.initial_ant_worker_count
        invariant
            settings.wf(),
            settings.initial_ant_worker_count > 0 ==> names@.len() > 0,
            0 <= made <= settings.initial_ant_worker_count,
            ants@.len() == 1 + made,
            is_initial_ant(ants@[0], *settings, AntRole::Queen),
            ants@[0].name.0@ == "Queen"@,
            forall|i: int|
                1 <= i < ants@.len() ==> {
                    &&& is_initial_ant(#[trigger] ants@[i], *settings, AntRole::Worker)
                    &&& is_listed(ants@[i].name.0@, names@)
                },
        decreases settings.initial_ant_worker_count - made,
    {
        let place = world_rng.draw_between(0, PLACE_DRAWS);
        let faces_left = world_rng.toss();
        let index = world_rng.draw_index(names.len());
        let name = names[index].clone();
        let timer = world_rng.draw_between(MIN_ANT_TIMER, MAX_ANT_TIMER);
        let ant = initial_ant(settings, AntRole::Worker, name, place, faces_left, timer);
        assert(is_listed(ant.name.0@, names@)) by {
            assert(ant.name.0@ == names@[index as int]@);
        }
        ants.push(ant);
        made += 1;
    }
    WorldMap::new(
        settings.world_width,
        settings.world_height,
        surface_level,
        WorldSaveState { time_stamp, elements, ants },
    )
}

} // verus!
