//! The hunger pass: once per tick every living ant grows hungrier, and then starves,
//! eats what it carries, or reaches for the food in front of it.

use crate::ant::colony_view;
use crate::ant::colony_wf;
use crate::ant::Ant;
use crate::ant::AntInventory;
use crate::ant::AntView;
use crate::ant::Entity;
use crate::element::Element;
use crate::position::Position;
use crate::regurgitation::fed_or_untouched;
use crate::regurgitation::lemma_proposals_are_portions;
use crate::regurgitation::lemma_transfers_keep_colony;
use crate::regurgitation::proposals;
use crate::regurgitation::regurgitated;
use crate::world_map::ElementRegistry;
use crate::world_map::WorldMap;
use crate::world_map::WorldMapView;
use vstd::prelude::*;

verus! {

/// A request to the keeper of the grid: the ant at index `ant` begins to dig out the
/// element `element`, which lies at `position`, directly in front of it.
#[derive(Clone, Copy, Debug, PartialEq, Eq, Structural)]
pub struct DigRequest {
    pub ant: usize,
    pub position: Position,
    pub element: Entity,
}

/// The food directly in front of an ant, with the cell it lies in, if there is any.
pub open spec fn food_ahead(
    ant: AntView,
    map: WorldMapView,
    kinds: Map<Entity, Element>,
) -> Option<(Position, Entity)> {
    match ant.ahead() {
        Some(position) => if map.is_element(kinds, position, Element::Food) {
            Some((position, map.element_at(position)->0))
        } else {
            None
        },
        None => None,
    }
}

/// Whether what an ant carries is food.
pub open spec fn carries_food(ant: AntView, kinds: Map<Entity, Element>) -> bool {
    ant.inventory matches Some(carried) && kinds.contains_key(carried) && kinds[carried]
        == Element::Food
}

/// A living ant one tick hungrier, before it has done anything about it.
pub open spec fn grown_hungrier(ant: AntView) -> AntView {
    AntView { hunger: ant.hunger.tick(), ..ant }
}

/// Whether an ant, one tick hungrier, looks for something to eat: it has not starved,
/// it is at least peckish, and it can act.
pub open spec fn seeks_food(ant: AntView) -> bool {
    let ticked = grown_hungrier(ant);
    !ant.dead && !ticked.hunger.is_starved() && ticked.hunger.is_peckish() && ticked.can_act()
}

/// Whether an ant begins to dig this tick: it looks for food, carries nothing, and
/// there is food directly in front of it.
pub open spec fn digs(ant: AntView, map: WorldMapView, kinds: Map<Entity, Element>) -> bool {
    seeks_food(ant) && ant.inventory is None && food_ahead(ant, map, kinds) is Some
}

/// Whether an ant eats this tick: it looks for food and what it carries is food.
pub open spec fn eats(ant: AntView, kinds: Map<Entity, Element>) -> bool {
    seeks_food(ant) && carries_food(ant, kinds)
}

/// An ant after the hunger pass. The dead are passed over. The living grow hungrier
/// by a tick; one that reaches its capacity dies; one that eats drops what it carried,
/// loses a portion of its hunger and spends its initiative; one that begins to dig
/// spends its initiative.
pub open spec fn after_hunger(
    ant: AntView,
    map: WorldMapView,
    kinds: Map<Entity, Element>,
) -> AntView {
    let ticked = grown_hungrier(ant);
    if ant.dead {
        ant
    } else if ticked.hunger.is_starved() {
        ticked.died()
    } else if eats(ant, kinds) {
        AntView {
            inventory: None,
            hunger: ticked.hunger.decrease(ticked.hunger.portion()),
            initiative: false,
            ..ticked
        }
    } else if digs(ant, map, kinds) {
        ticked.spent()
    } else {
        ticked
    }
}

/// The colony after the hunger pass.
pub open spec fn hungered(
    ants: Seq<AntView>,
    map: WorldMapView,
    kinds: Map<Entity, Element>,
) -> Seq<AntView> {
    Seq::new(ants.len(), |i: int| after_hunger(ants[i], map, kinds))
}

/// The digging that the first `n` ants of the colony begin in the hunger pass, in order.
pub open spec fn dig_requests_upto(
    ants: Seq<AntView>,
    map: WorldMapView,
    kinds: Map<Entity, Element>,
    n: int,
) -> Seq<DigRequest>
    decreases n,
{
    if n <= 0 {
        Seq::empty()
    } else if digs(ants[n - 1], map, kinds) {
        let (position, element) = food_ahead(ants[n - 1], map, kinds)->0;
        dig_requests_upto(ants, map, kinds, n - 1).push(
            DigRequest { ant: (n - 1) as usize, position, element },
        )
    } else {
        dig_requests_upto(ants, map, kinds, n - 1)
    }
}

/// All the digging that the colony begins in the hunger pass, in the order of the ants.
pub open spec fn dig_requests(
    ants: Seq<AntView>,
    map: WorldMapView,
    kinds: Map<Entity, Element>,
) -> Seq<DigRequest> {
    dig_requests_upto(ants, map, kinds, ants.len() as int)
}

/// One hunger pass over the colony. The ants are changed in place; the digging they
/// begin is handed back for the keeper of the grid to carry out.
pub fn ants_hunger(
    ants: &mut Vec<Ant>,
    elements: &ElementRegistry,
    world_map: &WorldMap,
) -> (requests: Vec<DigRequest>)
    requires
        colony_wf(colony_view(old(ants)@)),
    ensures
        colony_view(final(ants)@) == hungered(colony_view(old(ants)@), world_map@, elements@),
        requests@ == dig_requests(colony_view(old(ants)@), world_map@, elements@),
        colony_wf(colony_view(final(ants)@)),
        final(ants)@.len() == old(ants)@.len(),
{
    let ghost before = colony_view(ants@);
    let mut requests: Vec<DigRequest> = Vec::new();
    let mut i: usize = 0;
    while i < ants.len()
        invariant
            i <= ants.len(),
            ants@.len() == before.len(),
            colony_wf(before),
            forall|j: int|
                0 <= j < i ==> (#[trigger] ants@[j])@ == after_hunger(
                    before[j],
                    world_map@,
                    elements@,
                ),
            forall|j: int| 0 <= j < i ==> (#[trigger] ants@[j])@.wf(),
            forall|j: int| i <= j < ants@.len() ==> (#[trigger] ants@[j])@ == before[j],
            requests@ == dig_requests_upto(before, world_map@, elements@, i as int),
        decreases ants.len() - i,
    {
        let mut ant = ants[i];
        assert(ant@ == before[i as int]);
        assert(before[i as int].wf());
        if !ant.dead {
            ant.hunger.tick();
            if ant.hunger.is_starved() {
                ant.die();
            } else if ant.hunger.is_peckish() && ant.can_act() {
                match ant.inventory.0 {
                    None => {
                        match ant.orientation.get_ahead_position(&ant.position) {
                            Some(ahead) => {
                                if world_map.is_element(elements, ahead, Element::Food) {
                                    match world_map.get_element(ahead) {
                                        Some(food) => {
                                            requests.push(
                                                DigRequest {
                                                    ant: i,
                                                    position: ahead,
                                                    element: *food,
                                                },
                                            );
                                            ant.consume_initiative();
                                        },
                                        None => {},
                                    }
                                }
                            },
                            None => {},
                        }
                    },
                    Some(carried) => {
                        let is_food = match elements.get(carried) {
                            Some(kind) => kind == Element::Food,
                            None => false,
                        };
                        if is_food {
                            ant.inventory = AntInventory(None);
                            let portion = ant.hunger.portion();
                            ant.hunger.decrease(portion);
                            ant.consume_initiative();
                        }
                    },
                }
            }
            ants.set(i, ant);
        }
        i += 1;
    }
    assert(colony_view(ants@) =~= hungered(before, world_map@, elements@));
    requests
}

/// A living ant comes out of the hunger pass dead exactly when its hunger has reached
/// its capacity, and a dead ant cannot act. Nothing else changes but what hunger,
/// eating and digging account for.
pub proof fn lemma_starved_ants_die(ant: AntView, map: WorldMapView, kinds: Map<Entity, Element>)
    requires
        ant.wf(),
        !ant.dead,
    ensures
        after_hunger(ant, map, kinds).wf(),
        after_hunger(ant, map, kinds).dead <==> after_hunger(ant, map, kinds).hunger.is_starved(),
        after_hunger(ant, map, kinds).dead <==> grown_hungrier(ant).hunger.is_starved(),
        after_hunger(ant, map, kinds).dead ==> !after_hunger(ant, map, kinds).can_act(),
        after_hunger(ant, map, kinds).can_act() ==> ant.can_act(),
{
}

/// Once dead, an ant is never again able to act: it cannot act as it is, the pass
/// that hands out initiative gives it none, and the hunger pass and the regurgitation
/// pass leave it exactly as it is.
pub proof fn lemma_dead_ants_never_act(
    ants: Seq<AntView>,
    map: WorldMapView,
    kinds: Map<Entity, Element>,
    index: int,
)
    requires
        colony_wf(ants),
        ants.len() <= usize::MAX,
        0 <= index < ants.len(),
        ants[index].dead,
    ensures
        !ants[index].can_act(),
        ants[index].refreshed().dead,
        !ants[index].refreshed().can_act(),
        hungered(ants, map, kinds)[index] == ants[index],
        regurgitated(ants).len() == ants.len(),
        regurgitated(ants)[index] == ants[index],
{
    lemma_proposals_are_portions(ants, ants.len() as int);
    lemma_transfers_keep_colony(ants, proposals(ants), proposals(ants).len() as int);
    assert(fed_or_untouched(ants[index], regurgitated(ants)[index]));
}

/// Whatever pass goes over a colony, the hunger of every ant stays within its bounds:
/// from zero to the ant's capacity, and the capacity stays what it was.
pub proof fn lemma_colony_stays_clamped(
    ants: Seq<AntView>,
    map: WorldMapView,
    kinds: Map<Entity, Element>,
    index: int,
)
    requires
        colony_wf(ants),
        ants.len() <= usize::MAX,
        0 <= index < ants.len(),
    ensures
        ants[index].refreshed().wf(),
        hungered(ants, map, kinds)[index].wf(),
        hungered(ants, map, kinds)[index].hunger.max == ants[index].hunger.max,
        regurgitated(ants).len() == ants.len(),
        regurgitated(ants)[index].wf(),
        regurgitated(ants)[index].hunger.max == ants[index].hunger.max,
{
    lemma_proposals_are_portions(ants, ants.len() as int);
    lemma_transfers_keep_colony(ants, proposals(ants), proposals(ants).len() as int);
    assert(fed_or_untouched(ants[index], regurgitated(ants)[index]));
    assert(colony_wf(regurgitated(ants)));
}

/// An ant that cannot act stays unable to act through the passes of a tick: neither
/// the hunger pass nor the regurgitation pass that follows it hands initiative out.
/// Only the pass that begins the next tick does.
pub proof fn lemma_spent_initiative_stays_spent(
    ants: Seq<AntView>,
    map: WorldMapView,
    kinds: Map<Entity, Element>,
    index: int,
)
    requires
        colony_wf(ants),
        ants.len() <= usize::MAX,
        0 <= index < ants.len(),
        !ants[index].can_act(),
    ensures
        !hungered(ants, map, kinds)[index].can_act(),
        regurgitated(hungered(ants, map, kinds)).len() == ants.len(),
        !regurgitated(hungered(ants, map, kinds))[index].can_act(),
{
    let after = hungered(ants, map, kinds);
    assert forall|i: int| 0 <= i < after.len() implies (#[trigger] after[i]).wf() by {
        lemma_colony_stays_clamped(ants, map, kinds, i);
    }
    lemma_proposals_are_portions(after, after.len() as int);
    lemma_transfers_keep_colony(after, proposals(after), proposals(after).len() as int);
    assert(fed_or_untouched(after[index], regurgitated(after)[index]));
}

} // verus!
