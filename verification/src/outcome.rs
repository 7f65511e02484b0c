//! What an operation hands back to the host: the transfers to perform on the
//! ledger and the notification to emit.

use vstd::prelude::*;
use crate::types::Identity;

verus! {

/// One transfer out of an escrow's custody holding.
#[derive(Clone, Copy, Debug, PartialEq, Eq, Structural)]
pub struct Payout {
    pub payee: Identity,
    pub amount: u64,
}

/// A notification for observers outside the system.
#[derive(Clone, Copy, Debug, PartialEq, Eq, Structural)]
pub enum Event {
    /// A flat or rental escrow was created and `amount` taken from the buyer.
    EscrowInitialized { transaction_id: u64, buyer: Identity, seller: Identity, amount: u64 },
    /// A milestone escrow of `total` in `milestones` parts was created.
    MilestoneEscrowInitialized { transaction_id: u64, total: u64, milestones: usize },
    /// A flat escrow was released; `amount` is the net paid to `recipient`.
    PaymentReleased { transaction_id: u64, recipient: Identity, amount: u64 },
    /// The milestone at `index` was released; `amount` is the net paid.
    MilestoneReleased { transaction_id: u64, index: usize, amount: u64 },
    /// The agent opened a dispute.
    DisputeStarted { transaction_id: u64, agent: Identity },
    /// The agent decided a dispute; `amount` is the net paid to `winner`.
    DisputeResolved { transaction_id: u64, winner: Identity, amount: u64 },
}

/// The effects of one successful operation.
///
/// The host first moves `deposit` from the buyer into custody, then performs
/// `payouts` in order from custody, and stores the new record only if every
/// transfer succeeded.
#[derive(Clone, Debug, PartialEq, Eq)]
pub struct Outcome {
    pub deposit: u64,
    pub payouts: Vec<Payout>,
    pub event: Option<Event>,
}

/// The model of an [`Outcome`].
pub struct OutcomeView {
    pub deposit: u64,
    pub payouts: Seq<Payout>,
    pub event: Option<Event>,
}

impl View for Outcome {
    type V = OutcomeView;

    open spec fn view(&self) -> OutcomeView {
        OutcomeView { deposit: self.deposit, payouts: self.payouts@, event: self.event }
    }
}

/// The sum of the amounts of a list of payouts.
pub open spec fn payouts_total(payouts: Seq<Payout>) -> int
    decreases payouts.len(),
{
    if payouts.len() == 0 {
        0
    } else {
        payouts_total(payouts.drop_last()) + payouts.last().amount
    }
}

impl OutcomeView {
    /// The sum of everything that leaves custody.
    pub open spec fn paid(self) -> int {
        payouts_total(self.payouts)
    }
}

/// No payouts add up to nothing.
pub proof fn lemma_payouts_total_none()
    ensures
        payouts_total(Seq::<Payout>::empty()) == 0,
{
}

/// A single payout adds up to its amount.
pub proof fn lemma_payouts_total_one(a: Payout)
    ensures
        payouts_total(seq![a]) == a.amount,
{
    assert(seq![a].drop_last() =~= Seq::<Payout>::empty());
    assert(payouts_total(Seq::<Payout>::empty()) == 0);
}

/// Two payouts add up to the sum of their amounts.
pub proof fn lemma_payouts_total_two(a: Payout, b: Payout)
    ensures
        payouts_total(seq![a, b]) == a.amount + b.amount,
{
    assert(seq![a, b].drop_last() =~= seq![a]);
    lemma_payouts_total_one(a);
}

} // verus!
