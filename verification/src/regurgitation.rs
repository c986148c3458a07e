//! Regurgitation: a well-fed ant passes hunger value to a needy neighbour.
//!
//! The pairs are chosen against the colony as it stands at the start of the pass, and
//! recorded as a list of transfers. Only then are the transfers carried out, one after
//! another, each one only if both of its ants still hold their initiative.

use crate::ant::colony_view;
use crate::ant::colony_wf;
use crate::ant::Ant;
use crate::ant::AntRole;
use crate::ant::AntView;
use crate::position::Position;
use vstd::prelude::*;

verus! {

/// A recorded handing-over of `amount` hunger units from the ant at index `from`, the
/// donor, to the ant at index `to`, the candidate.
#[derive(Clone, Copy, Debug, PartialEq, Eq, Structural)]
pub struct Transfer {
    pub from: usize,
    pub to: usize,
    pub amount: u64,
}

impl Transfer {
    /// Both ants exist in a colony of `len` ants and are two different ants.
    pub open spec fn valid_for(self, len: nat) -> bool {
        self.from < len && self.to < len && self.from != self.to
    }

    /// Whether the transfer names the ant at `index`, as donor or as candidate.
    pub open spec fn involves(self, index: int) -> bool {
        self.from == index || self.to == index
    }
}

/// An ant that may ask to be fed: it can act, it is at least peckish and it carries nothing.
pub open spec fn is_candidate(ant: AntView) -> bool {
    ant.can_act() && ant.hunger.is_peckish() && ant.inventory is None
}

/// Whether the ant at `donor` is in a place to feed the ant at `candidate`: it can act,
/// carries nothing, and either the two stand face to face or they share a cell.
pub open spec fn is_donor_for(ants: Seq<AntView>, candidate: int, donor: int) -> bool {
    let c = ants[candidate];
    let d = ants[donor];
    &&& d.can_act()
    &&& d.inventory is None
    &&& {
        ||| (c.ahead() == Some(d.position) && d.ahead() == Some(c.position))
        ||| (d.position == c.position && donor != candidate)
    }
}

/// Whether `donor` is the first ant of the colony, in order, that can feed `candidate`.
pub open spec fn is_first_donor(ants: Seq<AntView>, candidate: int, donor: int) -> bool {
    &&& 0 <= donor < ants.len()
    &&& is_donor_for(ants, candidate, donor)
    &&& forall|k: int| 0 <= k < donor ==> !is_donor_for(ants, candidate, k)
}

/// The first ant of the colony, in order, that can feed `candidate`, if there is one.
pub open spec fn first_donor(ants: Seq<AntView>, candidate: int) -> Option<int> {
    if exists|d: int| is_first_donor(ants, candidate, d) {
        Some(choose|d: int| is_first_donor(ants, candidate, d))
    } else {
        None
    }
}

/// Who may receive from whom. A queen is fed by anyone. A starving ant is fed by an ant
/// that is not itself hungry. A hungry ant is fed only by an ant that is full.
pub open spec fn may_receive(candidate: AntView, donor: AntView) -> bool {
    ||| candidate.role == AntRole::Queen
    ||| (candidate.hunger.is_starving() && !donor.hunger.is_hungry())
    ||| (candidate.hunger.is_hungry() && donor.hunger.is_full())
}

/// The transfer that the ant at `candidate` asks for, if it asks for one.
pub open spec fn proposal(ants: Seq<AntView>, candidate: int) -> Option<Transfer> {
    if is_candidate(ants[candidate]) {
        match first_donor(ants, candidate) {
            Some(donor) => if may_receive(ants[candidate], ants[donor]) {
                Some(
                    Transfer {
                        from: donor as usize,
                        to: candidate as usize,
                        amount: ants[donor].hunger.portion() as u64,
                    },
                )
            } else {
                None
            },
            None => None,
        }
    } else {
        None
    }
}

/// The transfers asked for by the first `n` ants of the colony, in order.
pub open spec fn proposals_upto(ants: Seq<AntView>, n: int) -> Seq<Transfer>
    decreases n,
{
    if n <= 0 {
        Seq::empty()
    } else {
        match proposal(ants, n - 1) {
            Some(transfer) => proposals_upto(ants, n - 1).push(transfer),
            None => proposals_upto(ants, n - 1),
        }
    }
}

/// All the transfers that the colony asks for, in the order of the candidates.
pub open spec fn proposals(ants: Seq<AntView>) -> Seq<Transfer> {
    proposals_upto(ants, ants.len() as int)
}

/// Whether a transfer goes through in the colony as it stands: both ants still can act.
pub open spec fn commits(ants: Seq<AntView>, transfer: Transfer) -> bool {
    ants[transfer.from as int].can_act() && ants[transfer.to as int].can_act()
}

/// The donor after a transfer: its hunger lowered by the amount, its initiative spent.
pub open spec fn after_giving(donor: AntView, amount: nat) -> AntView {
    AntView { hunger: donor.hunger.decrease(amount), initiative: false, ..donor }
}

/// The candidate after a transfer: its hunger raised by the amount, as far as its
/// capacity goes, its initiative spent.
pub open spec fn after_receiving(candidate: AntView, amount: nat) -> AntView {
    AntView { hunger: candidate.hunger.increase(amount), initiative: false, ..candidate }
}

/// The colony after one transfer was tried. A transfer that does not go through
/// changes nothing.
pub open spec fn apply_transfer(ants: Seq<AntView>, transfer: Transfer) -> Seq<AntView> {
    if commits(ants, transfer) {
        ants.update(
            transfer.from as int,
            after_giving(ants[transfer.from as int], transfer.amount as nat),
        ).update(
            transfer.to as int,
            after_receiving(ants[transfer.to as int], transfer.amount as nat),
        )
    } else {
        ants
    }
}

/// The colony after the first `n` of the transfers were tried, in order.
pub open spec fn apply_upto(ants: Seq<AntView>, transfers: Seq<Transfer>, n: int) -> Seq<AntView>
    decreases n,
{
    if n <= 0 {
        ants
    } else {
        apply_transfer(apply_upto(ants, transfers, n - 1), transfers[n - 1])
    }
}

/// The colony after a whole pass: every transfer it asked for was tried, in order.
pub open spec fn regurgitated(ants: Seq<AntView>) -> Seq<AntView> {
    apply_upto(ants, proposals(ants), proposals(ants).len() as int)
}

/// Every transfer of the list names two different ants of a colony of `len`.
pub open spec fn transfers_valid(transfers: Seq<Transfer>, len: nat) -> bool {
    forall|k: int| 0 <= k < transfers.len() ==> (#[trigger] transfers[k]).valid_for(len)
}

fn is_at(ahead: Option<Position>, position: Position) -> (at: bool)
    ensures
        at == (ahead == Some(position)),
{
    match ahead {
        Some(p) => p.x == position.x && p.y == position.y,
        None => false,
    }
}

fn can_donate(ants: &Vec<Ant>, candidate: usize, donor: usize) -> (can: bool)
    requires
        candidate < ants.len(),
        donor < ants.len(),
    ensures
        can == is_donor_for(colony_view(ants@), candidate as int, donor as int),
{
    let c = ants[candidate];
    let d = ants[donor];
    if !d.can_act() || d.inventory.0.is_some() {
        return false;
    }
    let c_ahead = c.orientation.get_ahead_position(&c.position);
    let d_ahead = d.orientation.get_ahead_position(&d.position);
    if is_at(c_ahead, d.position) && is_at(d_ahead, c.position) {
        return true;
    }
    d.position.x == c.position.x && d.position.y == c.position.y && donor != candidate
}

/// Looks through the colony, in order, for the first ant that can feed `candidate`.
pub fn find_donor(ants: &Vec<Ant>, candidate: usize) -> (donor: Option<usize>)
    requires
        candidate < ants.len(),
    ensures
        match donor {
            Some(d) => first_donor(colony_view(ants@), candidate as int) == Some(d as int),
            None => first_donor(colony_view(ants@), candidate as int) is None,
        },
{
    let ghost views = colony_view(ants@);
    let mut d: usize = 0;
    while d < ants.len()
        invariant
            d <= ants.len(),
            candidate < ants.len(),
            views == colony_view(ants@),
            forall|k: int| 0 <= k < d ==> !is_donor_for(views, candidate as int, k),
        decreases ants.len() - d,
    {
        if can_donate(ants, candidate, d) {
            proof {
                assert(is_first_donor(views, candidate as int, d as int));
                let chosen = choose|k: int| is_first_donor(views, candidate as int, k);
                assert(is_first_donor(views, candidate as int, chosen));
                assert(chosen == d);
            }
            return Some(d);
        }
        d += 1;
    }
    proof {
        assert forall|k: int| !is_first_donor(views, candidate as int, k) by {
            if is_first_donor(views, candidate as int, k) {
                assert(is_donor_for(views, candidate as int, k));
            }
        }
    }
    None
}

/// Records, for every ant that asks to be fed, the transfer it is owed, without
/// changing any ant.
pub fn propose_transfers(ants: &Vec<Ant>) -> (transfers: Vec<Transfer>)
    ensures
        transfers@ == proposals(colony_view(ants@)),
        transfers_valid(transfers@, ants@.len()),
{
    let ghost views = colony_view(ants@);
    let mut transfers: Vec<Transfer> = Vec::new();
    let mut c: usize = 0;
    while c < ants.len()
        invariant
            c <= ants.len(),
            views == colony_view(ants@),
            transfers@ == proposals_upto(views, c as int),
            transfers_valid(transfers@, ants@.len()),
        decreases ants.len() - c,
    {
        let ant = ants[c];
        if ant.can_act() && ant.hunger.is_peckish() && ant.inventory.0.is_none() {
            match find_donor(ants, c) {
                Some(d) => {
                    let other = ants[d];
                    let allowed = match ant.role {
                        AntRole::Queen => true,
                        AntRole::Worker => (ant.hunger.is_starving() && !other.hunger.is_hungry())
                            || (ant.hunger.is_hungry() && other.hunger.is_full()),
                    };
                    if allowed {
                        proof {
                            lemma_donor_is_another(views, c as int, d as int);
                        }
                        transfers.push(Transfer { from: d, to: c, amount: other.hunger.portion() });
                    }
                },
                None => {},
            }
        }
        c += 1;
    }
    transfers
}

/// Carries out the recorded transfers, one after another. Each one goes through only
/// if both of its ants still hold their initiative; then the donor's hunger falls by
/// the amount, the candidate's rises by it, and both spend their initiative.
pub fn apply_transfers(ants: &mut Vec<Ant>, transfers: &Vec<Transfer>)
    requires
        colony_wf(colony_view(old(ants)@)),
        transfers_valid(transfers@, old(ants)@.len()),
    ensures
        colony_view(final(ants)@) == apply_upto(
            colony_view(old(ants)@),
            transfers@,
            transfers@.len() as int,
        ),
        colony_wf(colony_view(final(ants)@)),
        final(ants)@.len() == old(ants)@.len(),
{
    let mut i: usize = 0;
    while i < transfers.len()
        invariant
            i <= transfers.len(),
            ants@.len() == old(ants)@.len(),
            transfers_valid(transfers@, ants@.len()),
            colony_wf(colony_view(ants@)),
            colony_view(ants@) == apply_upto(colony_view(old(ants)@), transfers@, i as int),
        decreases transfers.len() - i,
    {
        let transfer = transfers[i];
        let ghost before = colony_view(ants@);
        assert(transfer.valid_for(ants@.len()));
        let mut donor = ants[transfer.from];
        let mut candidate = ants[transfer.to];
        assert(donor@ == before[transfer.from as int]);
        assert(candidate@ == before[transfer.to as int]);
        if donor.can_act() && candidate.can_act() {
            donor.hunger.decrease(transfer.amount);
            candidate.hunger.increase(transfer.amount);
            donor.consume_initiative();
            candidate.consume_initiative();
            ants.set(transfer.from, donor);
            ants.set(transfer.to, candidate);
            assert(colony_view(ants@) =~= apply_transfer(before, transfer));
        }
        i += 1;
    }
}

/// One pass of regurgitation over the colony: the transfers are recorded against the
/// colony as it stands, then carried out.
pub fn ants_regurgitate(ants: &mut Vec<Ant>)
    requires
        colony_wf(colony_view(old(ants)@)),
    ensures
        colony_view(final(ants)@) == regurgitated(colony_view(old(ants)@)),
        colony_wf(colony_view(final(ants)@)),
        final(ants)@.len() == old(ants)@.len(),
{
    let transfers = propose_transfers(ants);
    apply_transfers(ants, &transfers);
}

/// An ant never feeds itself: whoever can feed a candidate is another ant.
pub proof fn lemma_donor_is_another(ants: Seq<AntView>, candidate: int, donor: int)
    requires
        0 <= candidate < ants.len(),
        0 <= donor < ants.len(),
        is_donor_for(ants, candidate, donor),
    ensures
        donor != candidate,
{
}

/// What a pass may do to one ant: nothing at all, or, to an ant that could act, change
/// how hungry it is and take its initiative.
pub open spec fn fed_or_untouched(before: AntView, after: AntView) -> bool {
    ||| after == before
    ||| {
        &&& before.can_act()
        &&& after == (AntView { hunger: after.hunger, initiative: false, ..before })
        &&& after.hunger.max == before.hunger.max
        &&& after.hunger.rate == before.hunger.rate
    }
}

/// However many of the transfers were tried, the colony has the same ants, each one
/// within its capacity, and each one either as it was or fed and spent.
pub proof fn lemma_transfers_keep_colony(ants: Seq<AntView>, transfers: Seq<Transfer>, n: int)
    requires
        colony_wf(ants),
        transfers_valid(transfers, ants.len()),
        0 <= n <= transfers.len(),
    ensures
        apply_upto(ants, transfers, n).len() == ants.len(),
        colony_wf(apply_upto(ants, transfers, n)),
        forall|i: int|
            0 <= i < ants.len() ==> fed_or_untouched(
                ants[i],
                #[trigger] apply_upto(ants, transfers, n)[i],
            ),
    decreases n,
{
    if n > 0 {
        lemma_transfers_keep_colony(ants, transfers, n - 1);
        let before = apply_upto(ants, transfers, n - 1);
        let transfer = transfers[n - 1];
        let after = apply_upto(ants, transfers, n);
        assert(transfer.valid_for(ants.len()));
        assert(after == apply_transfer(before, transfer));
        assert forall|i: int| 0 <= i < ants.len() implies fed_or_untouched(
            ants[i],
            #[trigger] after[i],
        ) && after[i].wf() by {
            assert(fed_or_untouched(ants[i], before[i]));
            assert(before[i].wf());
        }
    }
}

/// An ant that cannot act at some point of a pass cannot act at any later point of it:
/// nothing in a pass hands initiative out.
pub proof fn lemma_spent_stays_spent(
    ants: Seq<AntView>,
    transfers: Seq<Transfer>,
    m: int,
    n: int,
    index: int,
)
    requires
        transfers_valid(transfers, ants.len()),
        0 <= m <= n <= transfers.len(),
        0 <= index < ants.len(),
        !apply_upto(ants, transfers, m)[index].can_act(),
    ensures
        apply_upto(ants, transfers, n).len() == ants.len(),
        !apply_upto(ants, transfers, n)[index].can_act(),
    decreases n - m,
{
    lemma_apply_upto_len(ants, transfers, n);
    if m < n {
        lemma_spent_stays_spent(ants, transfers, m, n - 1, index);
        lemma_apply_upto_len(ants, transfers, n - 1);
        assert(transfers[n - 1].valid_for(ants.len()));
    }
}

/// Trying transfers neither adds ants to the colony nor removes any.
pub proof fn lemma_apply_upto_len(ants: Seq<AntView>, transfers: Seq<Transfer>, n: int)
    requires
        transfers_valid(transfers, ants.len()),
        0 <= n <= transfers.len(),
    ensures
        apply_upto(ants, transfers, n).len() == ants.len(),
    decreases n,
{
    if n > 0 {
        lemma_apply_upto_len(ants, transfers, n - 1);
        assert(transfers[n - 1].valid_for(ants.len()));
    }
}

/// No ant takes part in more than one transfer that goes through in the same pass,
/// neither as donor nor as candidate: of two transfers that both went through, the
/// later one names neither ant of the earlier one.
pub proof fn lemma_one_transfer_per_ant(
    ants: Seq<AntView>,
    transfers: Seq<Transfer>,
    i: int,
    j: int,
)
    requires
        transfers_valid(transfers, ants.len()),
        0 <= i < j < transfers.len(),
        commits(apply_upto(ants, transfers, i), transfers[i]),
        commits(apply_upto(ants, transfers, j), transfers[j]),
    ensures
        !transfers[j].involves(transfers[i].from as int),
        !transfers[j].involves(transfers[i].to as int),
{
    let first = transfers[i];
    assert(first.valid_for(ants.len()));
    assert(transfers[j].valid_for(ants.len()));
    lemma_apply_upto_len(ants, transfers, i);
    let after_first = apply_upto(ants, transfers, i + 1);
    assert(after_first == apply_transfer(apply_upto(ants, transfers, i), first));
    assert(!after_first[first.from as int].can_act());
    assert(!after_first[first.to as int].can_act());
    lemma_spent_stays_spent(ants, transfers, i + 1, j, first.from as int);
    lemma_spent_stays_spent(ants, transfers, i + 1, j, first.to as int);
}

/// Every transfer that a colony asks for names two different ants of it, with the donor
/// able to act, and hands over the donor's portion as the colony stands.
pub proof fn lemma_proposals_are_portions(ants: Seq<AntView>, n: int)
    requires
        colony_wf(ants),
        ants.len() <= usize::MAX,
        0 <= n <= ants.len(),
    ensures
        transfers_valid(proposals_upto(ants, n), ants.len()),
        forall|k: int|
            0 <= k < proposals_upto(ants, n).len() ==> {
                let t = #[trigger] proposals_upto(ants, n)[k];
                &&& t.amount == ants[t.from as int].hunger.portion()
                &&& is_candidate(ants[t.to as int])
                &&& is_donor_for(ants, t.to as int, t.from as int)
                &&& may_receive(ants[t.to as int], ants[t.from as int])
            },
    decreases n,
{
    if n > 0 {
        lemma_proposals_are_portions(ants, n - 1);
        match proposal(ants, n - 1) {
            Some(t) => {
                let d = first_donor(ants, n - 1)->0;
                assert(is_first_donor(ants, n - 1, d));
                lemma_donor_is_another(ants, n - 1, d);
            },
            None => {},
        }
    }
}

/// Whether the candidate of the `k`-th transfer of a pass has room for what it is
/// handed, at the point of the pass where that transfer is tried.
pub open spec fn candidate_has_room(ants: Seq<AntView>, k: int) -> bool {
    let transfer = proposals(ants)[k];
    let before = apply_upto(ants, proposals(ants), k);
    before[transfer.to as int].hunger.value + transfer.amount
        <= before[transfer.to as int].hunger.max
}

/// A transfer that goes through conserves the hunger of its pair, as long as the
/// candidate has room for what it is handed: what the donor loses, the candidate gains,
/// and no other ant changes. This holds of each transfer of a pass, at the point of
/// the pass where it is tried.
pub proof fn lemma_transfer_conserves_hunger(ants: Seq<AntView>, k: int)
    requires
        colony_wf(ants),
        ants.len() <= usize::MAX,
        0 <= k < proposals(ants).len(),
        candidate_has_room(ants, k),
    ensures
        ({
            let t = proposals(ants)[k];
            let before = apply_upto(ants, proposals(ants), k);
            let after = apply_upto(ants, proposals(ants), k + 1);
            &&& after.len() == before.len()
            &&& after[t.from as int].hunger.value + after[t.to as int].hunger.value
                == before[t.from as int].hunger.value + before[t.to as int].hunger.value
            &&& forall|i: int|
                0 <= i < ants.len() && !t.involves(i) ==> #[trigger] after[i] == before[i]
            &&& commits(before, t) ==> {
                &&& after[t.from as int].hunger.value == before[t.from as int].hunger.value
                    - t.amount
                &&& after[t.to as int].hunger.value == before[t.to as int].hunger.value
                    + t.amount
                &&& !after[t.from as int].can_act()
                &&& !after[t.to as int].can_act()
            }
        }),
{
    let transfers = proposals(ants);
    let t = transfers[k];
    lemma_proposals_are_portions(ants, ants.len() as int);
    assert(t.valid_for(ants.len()));
    lemma_transfers_keep_colony(ants, transfers, k);
    let before = apply_upto(ants, transfers, k);
    let after = apply_upto(ants, transfers, k + 1);
    assert(after == apply_transfer(before, t));
    if commits(before, t) {
        assert(fed_or_untouched(ants[t.from as int], before[t.from as int]));
        assert(before[t.from as int] == ants[t.from as int]);
        assert(before[t.from as int].wf());
        assert(before[t.to as int].wf());
    }
}

/// The hunger of a whole colony, added up.
pub open spec fn total_hunger(ants: Seq<AntView>) -> int
    decreases ants.len(),
{
    if ants.len() == 0 {
        0
    } else {
        total_hunger(ants.drop_last()) + ants.last().hunger.value
    }
}

/// Exchanging one ant of a colony changes the colony's hunger by the difference
/// between the two.
pub proof fn lemma_total_hunger_update(ants: Seq<AntView>, index: int, ant: AntView)
    requires
        0 <= index < ants.len(),
    ensures
        total_hunger(ants.update(index, ant)) == total_hunger(ants) - ants[index].hunger.value
            + ant.hunger.value,
    decreases ants.len(),
{
    let updated = ants.update(index, ant);
    if index == ants.len() - 1 {
        assert(updated.drop_last() =~= ants.drop_last());
    } else {
        assert(updated.drop_last() =~= ants.drop_last().update(index, ant));
        lemma_total_hunger_update(ants.drop_last(), index, ant);
    }
}

/// As long as every candidate has room for what it is handed, a pass of regurgitation
/// leaves the hunger of the colony as a whole what it was: it only moves hunger from
/// ant to ant. This holds after any number of the pass's transfers.
pub proof fn lemma_pass_conserves_total_hunger(ants: Seq<AntView>, n: int)
    requires
        colony_wf(ants),
        ants.len() <= usize::MAX,
        0 <= n <= proposals(ants).len(),
        forall|k: int| 0 <= k < n ==> candidate_has_room(ants, k),
    ensures
        total_hunger(apply_upto(ants, proposals(ants), n)) == total_hunger(ants),
    decreases n,
{
    if n > 0 {
        lemma_pass_conserves_total_hunger(ants, n - 1);
        let transfers = proposals(ants);
        let transfer = transfers[n - 1];
        let before = apply_upto(ants, transfers, n - 1);
        let after = apply_upto(ants, transfers, n);
        assert(candidate_has_room(ants, n - 1));
        lemma_transfer_conserves_hunger(ants, n - 1);
        lemma_proposals_are_portions(ants, ants.len() as int);
        assert(transfer.valid_for(ants.len()));
        lemma_apply_upto_len(ants, transfers, n - 1);
        let from = transfer.from as int;
        let to = transfer.to as int;
        let halfway = before.update(from, after[from]);
        assert(after =~= halfway.update(to, after[to]));
        lemma_total_hunger_update(before, from, after[from]);
        lemma_total_hunger_update(halfway, to, after[to]);
    }
}

} // verus!
