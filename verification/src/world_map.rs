//! The grid: which element occupies which cell, and what each element is made of.

use crate::ant::AntInventory;
use crate::ant::AntOrientation;
use crate::ant::AntRole;
use crate::ant::Entity;
use crate::element::Element;
use crate::position::Position;
use std::collections::HashMap;
use vstd::prelude::*;

verus! {

broadcast use vstd::std_specs::hash::group_hash_axioms;

/// What every element of the world is made of, by the element's identity.
pub struct ElementRegistry {
    kinds: HashMap<u64, Element>,
}

impl View for ElementRegistry {
    type V = Map<Entity, Element>;

    closed spec fn view(&self) -> Map<Entity, Element> {
        Map::new(|e: Entity| self.kinds@.contains_key(e.0), |e: Entity| self.kinds@[e.0])
    }
}

impl ElementRegistry {
    /// A registry that knows no element.
    pub fn new() -> (registry: ElementRegistry)
        ensures
            registry@ == Map::<Entity, Element>::empty(),
    {
        let registry = ElementRegistry { kinds: HashMap::new() };
        assert(registry@ =~= Map::<Entity, Element>::empty());
        registry
    }

    /// Records what `entity` is made of, replacing what was recorded before.
    pub fn insert(&mut self, entity: Entity, element: Element)
        ensures
            final(self)@ == old(self)@.insert(entity, element),
    {
        self.kinds.insert(entity.0, element);
        assert(self@ =~= old(self)@.insert(entity, element));
    }

    /// Forgets `entity`.
    pub fn remove(&mut self, entity: Entity)
        ensures
            final(self)@ == old(self)@.remove(entity),
    {
        self.kinds.remove(&entity.0);
        assert(self@ =~= old(self)@.remove(entity));
    }

    /// What `entity` is made of, if it is a known element.
    pub fn get(&self, entity: Entity) -> (element: Option<Element>)
        ensures
            element == (if self@.contains_key(entity) {
                Some(self@[entity])
            } else {
                None
            }),
    {
        match self.kinds.get(&entity.0) {
            Some(element) => Some(*element),
            None => None,
        }
    }
}

/// One element of a saved world.
#[derive(Clone, Copy, Debug, PartialEq, Eq, Structural)]
pub struct ElementSaveState {
    pub element: Element,
    pub position: Position,
}

/// The colour an ant is drawn in.
#[derive(Clone, Copy, Debug, PartialEq, Eq, Structural)]
pub struct AntColor {
    pub red: u8,
    pub green: u8,
    pub blue: u8,
}

/// Ticks an ant waits before it next makes up its mind.
#[derive(Clone, Copy, Debug, PartialEq, Eq, Structural)]
pub struct AntTimer(pub isize);

/// What an ant is called.
#[derive(Clone, Debug)]
pub struct AntName(pub String);

/// One ant of a saved world.
#[derive(Clone, Debug)]
pub struct AntSaveState {
    pub position: Position,
    pub color: AntColor,
    pub orientation: AntOrientation,
    pub inventory: AntInventory,
    pub role: AntRole,
    pub timer: AntTimer,
    pub name: AntName,
}

/// A saved world: when it was saved, in seconds since the epoch, and all that was in it.
#[derive(Clone, Debug)]
pub struct WorldSaveState {
    pub time_stamp: i64,
    pub elements: Vec<ElementSaveState>,
    pub ants: Vec<AntSaveState>,
}

/// What a [`WorldMap`] stands for.
pub struct WorldMapView {
    pub width: int,
    pub height: int,
    pub surface_level: int,
    /// The cells of the grid, row by row, once the grid has been filled in. A cell
    /// holds one element or none.
    pub cells: Option<Seq<Seq<Option<Entity>>>>,
}

impl WorldMapView {
    /// Whether a position lies inside the world.
    pub open spec fn is_within_bounds(self, position: Position) -> bool {
        0 <= position.x < self.width && 0 <= position.y < self.height
    }

    /// Whether the grid has been filled in and has a cell at the position.
    pub open spec fn has_cell(self, position: Position) -> bool {
        self.cells matches Some(rows) && 0 <= position.y < rows.len() && 0 <= position.x
            < rows[position.y as int].len()
    }

    /// The occupant of the cell at a position, if there is such a cell and it is occupied.
    pub open spec fn element_at(self, position: Position) -> Option<Entity> {
        if self.has_cell(position) {
            self.cells->0[position.y as int][position.x as int]
        } else {
            None
        }
    }

    /// Whether the cell at a position holds an element of the given kind.
    pub open spec fn is_element(
        self,
        kinds: Map<Entity, Element>,
        position: Position,
        element: Element,
    ) -> bool {
        self.element_at(position) matches Some(entity) && kinds.contains_key(entity)
            && kinds[entity] == element
    }

    /// The grid with the content of one cell replaced.
    pub open spec fn with_cell(self, position: Position, occupant: Option<Entity>) -> WorldMapView {
        let rows = self.cells->0;
        WorldMapView {
            cells: Some(
                rows.update(
                    position.y as int,
                    rows[position.y as int].update(position.x as int, occupant),
                ),
            ),
            ..self
        }
    }

    /// The grid with the occupant of one cell replaced.
    pub open spec fn with_element(self, position: Position, entity: Entity) -> WorldMapView {
        self.with_cell(position, Some(entity))
    }
}

/// The view of a grid held as rows of cells.
pub open spec fn rows_view(rows: Seq<Vec<Option<Entity>>>) -> Seq<Seq<Option<Entity>>> {
    Seq::new(rows.len(), |y: int| rows[y]@)
}

/// A grid that holds the given elements, every cell occupied.
pub open spec fn occupied_rows(rows: Seq<Vec<Entity>>) -> Seq<Seq<Option<Entity>>> {
    Seq::new(rows.len(), |y: int| Seq::new(rows[y]@.len(), |x: int| Some(rows[y]@[x])))
}

/// The world: its size, where its surface lies, how it began, and its grid.
pub struct WorldMap {
    width: isize,
    height: isize,
    surface_level: isize,
    initial_state: WorldSaveState,
    elements_cache: Option<Vec<Vec<Option<Entity>>>>,
}

impl View for WorldMap {
    type V = WorldMapView;

    closed spec fn view(&self) -> WorldMapView {
        WorldMapView {
            width: self.width as int,
            height: self.height as int,
            surface_level: self.surface_level as int,
            cells: match self.elements_cache {
                Some(rows) => Some(rows_view(rows@)),
                None => None,
            },
        }
    }
}

impl WorldMap {
    /// The state that the world began in.
    pub closed spec fn spec_initial_state(&self) -> WorldSaveState {
        self.initial_state
    }

    pub fn initial_state(&self) -> (state: &WorldSaveState)
        ensures
            *state == self.spec_initial_state(),
    {
        &self.initial_state
    }

    pub fn width(&self) -> (width: &isize)
        ensures
            *width == self@.width,
    {
        &self.width
    }

    pub fn height(&self) -> (height: &isize)
        ensures
            *height == self@.height,
    {
        &self.height
    }

    pub fn surface_level(&self) -> (surface_level: &isize)
        ensures
            *surface_level == self@.surface_level,
    {
        &self.surface_level
    }

    /// A world of the given size whose grid is yet to be filled in.
    pub fn new(
        width: isize,
        height: isize,
        surface_level: isize,
        initial_state: WorldSaveState,
    ) -> (map: WorldMap)
        ensures
            map@ == (WorldMapView {
                width: width as int,
                height: height as int,
                surface_level: surface_level as int,
                cells: None,
            }),
            map.spec_initial_state() == initial_state,
    {
        WorldMap { width, height, surface_level, initial_state, elements_cache: None }
    }

    pub fn is_within_bounds(&self, position: &Position) -> (within: bool)
        ensures
            within == self@.is_within_bounds(*position),
    {
        position.x >= 0 && position.x < self.width && position.y >= 0 && position.y < self.height
    }

    /// Whether the grid has been filled in and has a cell at a position.
    pub fn has_cell(&self, position: Position) -> (has: bool)
        ensures
            has == self@.has_cell(position),
    {
        match &self.elements_cache {
            Some(rows) => {
                if position.y < 0 || position.x < 0 {
                    return false;
                }
                let y = position.y as usize;
                let x = position.x as usize;
                y < rows.len() && x < rows[y].len()
            },
            None => false,
        }
    }

    /// The occupant of the cell at a position. There is none before the grid is
    /// filled in, none outside the grid, and none in an empty cell.
    pub fn get_element(&self, position: Position) -> (entity: Option<&Entity>)
        ensures
            match entity {
                Some(e) => self@.element_at(position) == Some(*e),
                None => self@.element_at(position) is None,
            },
    {
        match &self.elements_cache {
            Some(rows) => {
                if position.y < 0 || position.x < 0 {
                    return None;
                }
                let y = position.y as usize;
                let x = position.x as usize;
                if y >= rows.len() {
                    return None;
                }
                let row = &rows[y];
                if x >= row.len() {
                    return None;
                }
                match &row[x] {
                    Some(entity) => Some(entity),
                    None => None,
                }
            },
            None => None,
        }
    }

    /// Puts `entity` into the cell at a position, in place of what was there. The grid
    /// must have been filled in and must have such a cell.
    pub fn set_element(&mut self, position: Position, entity: Entity)
        requires
            old(self)@.has_cell(position),
        ensures
            final(self)@ == old(self)@.with_element(position, entity),
            final(self).spec_initial_state() == old(self).spec_initial_state(),
    {
        self.set_cell(position, Some(entity));
    }

    /// Empties the cell at a position. The grid must have been filled in and must have
    /// such a cell.
    pub fn clear_element(&mut self, position: Position)
        requires
            old(self)@.has_cell(position),
        ensures
            final(self)@ == old(self)@.with_cell(position, None),
            final(self).spec_initial_state() == old(self).spec_initial_state(),
    {
        self.set_cell(position, None);
    }

    fn set_cell(&mut self, position: Position, occupant: Option<Entity>)
        requires
            old(self)@.has_cell(position),
        ensures
            final(self)@ == old(self)@.with_cell(position, occupant),
            final(self).spec_initial_state() == old(self).spec_initial_state(),
    {
        match &mut self.elements_cache {
            Some(rows) => {
                let y = position.y as usize;
                let x = position.x as usize;
                rows[y][x] = occupant;
            },
            None => {},
        }
        assert(self@.cells->0 =~~= old(self)@.with_cell(position, occupant).cells->0);
    }

    /// Fills the grid in, row by row, every cell with its element.
    pub fn set_elements(&mut self, elements: Vec<Vec<Entity>>)
        ensures
            final(self)@ == (WorldMapView { cells: Some(occupied_rows(elements@)), ..old(self)@ }),
            final(self).spec_initial_state() == old(self).spec_initial_state(),
    {
        let mut rows: Vec<Vec<Option<Entity>>> = Vec::new();
        let mut y: usize = 0;
        while y < elements.len()
            invariant
                y <= elements.len(),
                rows@.len() == y,
                forall|j: int|
                    0 <= j < y ==> (#[trigger] rows@[j])@ == Seq::new(
                        elements@[j]@.len(),
                        |x: int| Some(elements@[j]@[x]),
                    ),
            decreases elements.len() - y,
        {
            let source = &elements[y];
            let mut row: Vec<Option<Entity>> = Vec::new();
            let mut x: usize = 0;
            while x < source.len()
                invariant
                    x <= source.len(),
                    row@.len() == x,
                    forall|i: int| 0 <= i < x ==> #[trigger] row@[i] == Some(source@[i]),
                decreases source.len() - x,
            {
                row.push(Some(source[x]));
                x += 1;
            }
            assert(row@ =~= Seq::new(source@.len(), |x: int| Some(source@[x])));
            rows.push(row);
            y += 1;
        }
        assert(rows_view(rows@) =~= occupied_rows(elements@));
        self.elements_cache = Some(rows);
    }

    /// Whether the cell at a position holds an element of the given kind.
    pub fn is_element(
        &self,
        elements: &ElementRegistry,
        position: Position,
        element: Element,
    ) -> (is: bool)
        ensures
            is == self@.is_element(elements@, position, element),
    {
        match self.get_element(position) {
            Some(entity) => match elements.get(*entity) {
                Some(kind) => kind == element,
                None => false,
            },
            None => false,
        }
    }
}

} // verus!
