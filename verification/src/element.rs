//! The kinds of element that fill the grid, and where each one sits on the sprite sheet.

use vstd::prelude::*;

verus! {

/// What a grid cell is made of.
#[derive(Clone, Copy, Debug, PartialEq, Eq, Hash, Structural)]
pub enum Element {
    Air,
    Dirt,
    Sand,
    Food,
}

/// Which sides of an element touch air.
#[derive(Clone, Copy, Debug, PartialEq, Eq, Hash, Structural)]
pub struct ElementExposure {
    pub north: bool,
    pub east: bool,
    pub south: bool,
    pub west: bool,
}

/// Number of columns of the sprite sheet: one per drawable element.
pub const SPRITE_SHEET_COLUMNS: usize = 3;

/// Number of rows of the sprite sheet: one per exposure.
pub const SPRITE_SHEET_ROWS: usize = 16;

/// The row of the sprite sheet that draws an element with the given exposed sides.
///
/// Rows are ordered by the number of exposed sides; within one count they go
/// clockwise from north, with the two opposite pairs after the four corners.
pub open spec fn sprite_row(exposure: ElementExposure) -> nat {
    match (exposure.north, exposure.east, exposure.south, exposure.west) {
        (false, false, false, false) => 0,
        (true, false, false, false) => 1,
        (false, true, false, false) => 2,
        (false, false, true, false) => 3,
        (false, false, false, true) => 4,
        (true, true, false, false) => 5,
        (false, true, true, false) => 6,
        (false, false, true, true) => 7,
        (true, false, false, true) => 8,
        (true, false, true, false) => 9,
        (false, true, false, true) => 10,
        (true, true, true, false) => 11,
        (false, true, true, true) => 12,
        (true, false, true, true) => 13,
        (true, true, false, true) => 14,
        (true, true, true, true) => 15,
    }
}

/// The column of the sprite sheet that holds an element's sprites. Air is never drawn
/// and has no column of its own.
pub open spec fn sprite_column(element: Element) -> nat {
    match element {
        Element::Dirt => 0,
        Element::Food => 1,
        Element::Sand => 2,
        Element::Air => 0,
    }
}

/// The index of a sprite on the sheet, counted row by row.
pub open spec fn sprite_index(exposure: ElementExposure, element: Element) -> nat {
    sprite_row(exposure) * 3 + sprite_column(element)
}

/// Finds the sprite for a drawable element with the given exposure.
pub fn get_element_index(exposure: ElementExposure, element: Element) -> (index: usize)
    requires
        element != Element::Air,
    ensures
        index == sprite_index(exposure, element),
        index < SPRITE_SHEET_ROWS * SPRITE_SHEET_COLUMNS,
{
    let row_index: usize = match (exposure.north, exposure.east, exposure.south, exposure.west) {
        (false, false, false, false) => 0,
        (true, false, false, false) => 1,
        (false, true, false, false) => 2,
        (false, false, true, false) => 3,
        (false, false, false, true) => 4,
        (true, true, false, false) => 5,
        (false, true, true, false) => 6,
        (false, false, true, true) => 7,
        (true, false, false, true) => 8,
        (true, false, true, false) => 9,
        (false, true, false, true) => 10,
        (true, true, true, false) => 11,
        (false, true, true, true) => 12,
        (true, false, true, true) => 13,
        (true, true, false, true) => 14,
        (true, true, true, true) => 15,
    };
    let column_index: usize = match element {
        Element::Dirt => 0,
        Element::Food => 1,
        _ => 2,
    };
    row_index * SPRITE_SHEET_COLUMNS + column_index
}

/// No two sprites share a place on the sheet: a drawable element and its exposure
/// can be read back from the index.
pub proof fn lemma_sprite_index_injective(
    a: ElementExposure,
    x: Element,
    b: ElementExposure,
    y: Element,
)
    requires
        x != Element::Air,
        y != Element::Air,
        sprite_index(a, x) == sprite_index(b, y),
    ensures
        a == b,
        x == y,
{
}

} // verus!
