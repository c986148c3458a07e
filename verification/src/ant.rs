//! An ant: where it stands, which way it looks, what it carries, how hungry it is and
//! whether it may still act this tick.

use crate::hunger::Hunger;
use crate::hunger::HungerView;
use crate::initiative::Initiative;
use crate::position::Position;
use vstd::prelude::*;

verus! {

/// The identity of something that lives in the world: an element of the grid or an ant.
#[derive(Clone, Copy, Debug, PartialEq, Eq, Hash, Structural)]
pub struct Entity(pub u64);

/// What an ant is to its colony. The role decides only who is fed first.
#[derive(Clone, Copy, Debug, PartialEq, Eq, Hash, Structural)]
pub enum AntRole {
    Worker,
    Queen,
}

/// What an ant carries: one element, or nothing.
#[derive(Clone, Copy, Debug, PartialEq, Eq, Structural)]
pub struct AntInventory(pub Option<Entity>);

/// Whether an ant looks to the left or to the right.
#[derive(Clone, Copy, Debug, PartialEq, Eq, Hash, Structural)]
pub enum Facing {
    Left,
    Right,
}

/// How far an ant is turned away from level ground, in degrees.
#[derive(Clone, Copy, Debug, PartialEq, Eq, Hash, Structural)]
pub enum Angle {
    Zero,
    Ninety,
    OneHundredEighty,
    TwoHundredSeventy,
}

/// The way an ant is turned.
#[derive(Clone, Copy, Debug, PartialEq, Eq, Hash, Structural)]
pub struct AntOrientation {
    pub facing: Facing,
    pub angle: Angle,
}

impl AntOrientation {
    pub fn new(facing: Facing, angle: Angle) -> (orientation: AntOrientation)
        ensures
            orientation == (AntOrientation { facing, angle }),
    {
        AntOrientation { facing, angle }
    }

    /// The step that takes an ant turned this way to the cell in front of it. An ant
    /// that faces right on level ground steps along `x`; a quarter turn takes the step
    /// from `x` to rising, and facing left mirrors it.
    pub open spec fn forward_delta(self) -> Position {
        let right = match self.angle {
            Angle::Zero => Position { x: 1, y: 0 },
            Angle::Ninety => Position { x: 0, y: (-1) as isize },
            Angle::OneHundredEighty => Position { x: (-1) as isize, y: 0 },
            Angle::TwoHundredSeventy => Position { x: 0, y: 1 },
        };
        match self.facing {
            Facing::Right => right,
            Facing::Left => Position { x: (-right.x) as isize, y: (-right.y) as isize },
        }
    }

    /// The cell directly in front of an ant that stands at `position`, if the grid's
    /// coordinates reach that far.
    pub open spec fn ahead_of(self, position: Position) -> Option<Position> {
        let delta = self.forward_delta();
        if Position::representable(position.plus(delta)) {
            Some(
                Position {
                    x: (position.x + delta.x) as isize,
                    y: (position.y + delta.y) as isize,
                },
            )
        } else {
            None
        }
    }

    pub fn get_forward_delta(&self) -> (delta: Position)
        ensures
            delta == self.forward_delta(),
    {
        let delta = match self.angle {
            Angle::Zero => Position::new(1, 0),
            Angle::Ninety => Position::new(0, -1),
            Angle::OneHundredEighty => Position::new(-1, 0),
            Angle::TwoHundredSeventy => Position::new(0, 1),
        };
        match self.facing {
            Facing::Left => delta * Position::new(-1, -1),
            Facing::Right => delta,
        }
    }

    pub fn get_ahead_position(&self, position: &Position) -> (ahead: Option<Position>)
        ensures
            ahead == self.ahead_of(*position),
    {
        position.checked_add(self.get_forward_delta())
    }
}

/// What an [`Ant`] stands for.
pub struct AntView {
    pub hunger: HungerView,
    /// Whether the ant still holds this tick's initiative.
    pub initiative: bool,
    pub dead: bool,
    pub position: Position,
    pub orientation: AntOrientation,
    pub inventory: Option<Entity>,
    pub role: AntRole,
}

impl AntView {
    pub open spec fn wf(self) -> bool {
        self.hunger.wf()
    }

    /// Whether the ant may do something of consequence this tick. A dead ant never may.
    pub open spec fn can_act(self) -> bool {
        !self.dead && self.initiative
    }

    /// The cell directly in front of the ant.
    pub open spec fn ahead(self) -> Option<Position> {
        self.orientation.ahead_of(self.position)
    }

    /// The ant once it has spent its initiative.
    pub open spec fn spent(self) -> AntView {
        AntView { initiative: false, ..self }
    }

    /// The ant once it has died: it keeps everything but the means to act.
    pub open spec fn died(self) -> AntView {
        AntView { dead: true, initiative: false, ..self }
    }

    /// The ant at the start of a tick: it holds the initiative again, unless it is dead.
    pub open spec fn refreshed(self) -> AntView {
        AntView { initiative: !self.dead, ..self }
    }
}

/// One ant of the colony.
#[derive(Clone, Copy, Debug)]
pub struct Ant {
    pub hunger: Hunger,
    pub initiative: Initiative,
    pub dead: bool,
    pub position: Position,
    pub orientation: AntOrientation,
    pub inventory: AntInventory,
    pub role: AntRole,
}

impl View for Ant {
    type V = AntView;

    open spec fn view(&self) -> AntView {
        AntView {
            hunger: self.hunger@,
            initiative: self.initiative@,
            dead: self.dead,
            position: self.position,
            orientation: self.orientation,
            inventory: self.inventory.0,
            role: self.role,
        }
    }
}

impl Ant {
    /// A living, sated ant that waits for its first initiative.
    pub fn new(
        position: Position,
        orientation: AntOrientation,
        role: AntRole,
        hunger: Hunger,
    ) -> (ant: Ant)
        ensures
            ant@ == (AntView {
                hunger: hunger@,
                initiative: false,
                dead: false,
                position,
                orientation,
                inventory: None,
                role,
            }),
    {
        Ant {
            hunger,
            initiative: Initiative::new(),
            dead: false,
            position,
            orientation,
            inventory: AntInventory(None),
            role,
        }
    }

    pub fn can_act(&self) -> (can_act: bool)
        ensures
            can_act == self@.can_act(),
    {
        !self.dead && self.initiative.can_act()
    }

    /// Spends this tick's initiative on an action.
    pub fn consume_initiative(&mut self)
        requires
            old(self)@.can_act(),
        ensures
            final(self)@ == old(self)@.spent(),
    {
        self.initiative.consume();
    }

    /// Marks the ant dead and takes its initiative away for good.
    pub fn die(&mut self)
        ensures
            final(self)@ == old(self)@.died(),
    {
        self.dead = true;
        if self.initiative.can_act() {
            self.initiative.consume();
        }
    }
}

/// What a colony of ants stands for: the view of each ant, in order.
pub open spec fn colony_view(ants: Seq<Ant>) -> Seq<AntView> {
    Seq::new(ants.len(), |i: int| ants[i]@)
}

/// Every ant of the colony is well formed.
pub open spec fn colony_wf(ants: Seq<AntView>) -> bool {
    forall|i: int| 0 <= i < ants.len() ==> (#[trigger] ants[i]).wf()
}

/// Hands every living ant its initiative for the tick that begins. The dead get none.
pub fn ants_initiative(ants: &mut Vec<Ant>)
    ensures
        final(ants)@.len() == old(ants)@.len(),
        forall|i: int|
            0 <= i < old(ants)@.len() ==> (#[trigger] final(ants)@[i])@
                == old(ants)@[i]@.refreshed(),
{
    let mut i: usize = 0;
    while i < ants.len()
        invariant
            i <= ants.len(),
            ants@.len() == old(ants)@.len(),
            forall|j: int| 0 <= j < i ==> (#[trigger] ants@[j])@ == old(ants)@[j]@.refreshed(),
            forall|j: int| i <= j < ants@.len() ==> ants@[j] == old(ants)@[j],
        decreases ants.len() - i,
    {
        let mut ant = ants[i];
        if ant.dead {
            if ant.initiative.can_act() {
                ant.initiative.consume();
            }
        } else {
            ant.initiative.refresh();
        }
        ants.set(i, ant);
        i += 1;
    }
}

} // verus!
