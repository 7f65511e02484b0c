//! The escrow record, its settlement plan and their mathematical model.

use vstd::prelude::*;
use crate::types::{Currency, Identity, MAX_AMOUNT, MAX_DESCRIPTION_LEN, MIN_AMOUNT};

verus! {

/// A named part of a milestone escrow's total, releasable on its own.
#[derive(Clone, Debug, PartialEq, Eq)]
pub struct Milestone {
    pub amount: u64,
    pub description: String,
    pub completed: bool,
}

/// The model of a [`Milestone`].
pub struct MilestoneView {
    pub amount: u64,
    pub description: Seq<char>,
    pub completed: bool,
}

impl View for Milestone {
    type V = MilestoneView;

    open spec fn view(&self) -> MilestoneView {
        MilestoneView {
            amount: self.amount,
            description: self.description@,
            completed: self.completed,
        }
    }
}

/// How far the return of a rental deposit has come.
#[derive(Clone, Copy, Debug, PartialEq, Eq, Structural)]
pub enum DepositReleaseStatus {
    /// Nothing of the deposit has left custody.
    Unreleased,
    /// Part of the deposit went back to the buyer, who may contest the rest
    /// until the deadline.
    Partial { released_amount: u64, dispute_deadline: i64 },
    /// The whole deposit has left custody.
    Full,
}

/// The model of a stored milestone list.
pub open spec fn list_view(list: Seq<Milestone>) -> Seq<MilestoneView> {
    list.map_values(|m: Milestone| m@)
}

/// The way an escrow's value is to be paid out.
#[derive(Clone, Debug, PartialEq, Eq)]
pub enum SettlementPlan {
    /// One amount, released at once by the agent or by anyone after expiry.
    Flat { amount: u64, release_timestamp: i64 },
    /// An ordered list of parts, each released on its own.
    Milestones { list: Vec<Milestone> },
    /// A deposit held in custody, beside a rent that is recorded for the
    /// parties and never enters custody.
    RentalDeposit { rent: u64, deposit: u64, status: DepositReleaseStatus },
}

/// The model of a [`SettlementPlan`].
pub enum PlanView {
    Flat { amount: u64, release_timestamp: i64 },
    Milestones { list: Seq<MilestoneView> },
    RentalDeposit { rent: u64, deposit: u64, status: DepositReleaseStatus },
}

impl View for SettlementPlan {
    type V = PlanView;

    open spec fn view(&self) -> PlanView {
        match *self {
            SettlementPlan::Flat { amount, release_timestamp } => PlanView::Flat {
                amount,
                release_timestamp,
            },
            SettlementPlan::Milestones { list } => PlanView::Milestones {
                list: list_view(list@),
            },
            SettlementPlan::RentalDeposit { rent, deposit, status } => PlanView::RentalDeposit {
                rent,
                deposit,
                status,
            },
        }
    }
}

/// The three roles of a deal.
#[derive(Clone, Copy, Debug, PartialEq, Eq, Structural)]
pub struct Parties {
    /// Who pays into the escrow.
    pub buyer: Identity,
    /// Who is paid out of it in the ordinary course.
    pub seller: Identity,
    /// Who releases funds and arbitrates disputes.
    pub agent: Identity,
}

/// What the ledger reports of the funds the buyer offers: the asset they are
/// held in and how much of it can be moved.
#[derive(Clone, Copy, Debug, PartialEq, Eq, Structural)]
pub struct Funding {
    pub currency: Currency,
    pub balance: u64,
}

/// One deal in flight.
#[derive(Clone, Debug, PartialEq, Eq)]
pub struct EscrowRecord {
    pub transaction_id: u64,
    pub buyer: Identity,
    pub seller: Identity,
    pub agent: Identity,
    pub currency: Currency,
    pub plan: SettlementPlan,
    pub is_disputed: bool,
    pub is_completed: bool,
    pub dispute_description: String,
}

/// The model of an [`EscrowRecord`].
pub struct RecordView {
    pub transaction_id: u64,
    pub buyer: Identity,
    pub seller: Identity,
    pub agent: Identity,
    pub currency: Currency,
    pub plan: PlanView,
    pub is_disputed: bool,
    pub is_completed: bool,
    pub dispute_description: Seq<char>,
}

impl View for EscrowRecord {
    type V = RecordView;

    open spec fn view(&self) -> RecordView {
        RecordView {
            transaction_id: self.transaction_id,
            buyer: self.buyer,
            seller: self.seller,
            agent: self.agent,
            currency: self.currency,
            plan: self.plan@,
            is_disputed: self.is_disputed,
            is_completed: self.is_completed,
            dispute_description: self.dispute_description@,
        }
    }
}

/// The length of a text in bytes.
pub open spec fn byte_len(text: Seq<char>) -> nat {
    vstd::utf8::encode_utf8(text).len()
}

/// A dispute description is acceptable when it is not empty and at most
/// `MAX_DESCRIPTION_LEN` bytes long.
pub open spec fn description_ok(text: Seq<char>) -> bool {
    0 < byte_len(text) <= MAX_DESCRIPTION_LEN
}

/// The sum of all milestone amounts.
pub open spec fn milestones_total(list: Seq<MilestoneView>) -> int
    decreases list.len(),
{
    if list.len() == 0 {
        0
    } else {
        milestones_total(list.drop_last()) + list.last().amount
    }
}

/// The sum of the amounts of the milestones not yet released.
pub open spec fn milestones_remaining(list: Seq<MilestoneView>) -> int
    decreases list.len(),
{
    if list.len() == 0 {
        0
    } else {
        milestones_remaining(list.drop_last()) + if list.last().completed {
            0
        } else {
            list.last().amount as int
        }
    }
}

/// Whether every milestone has been released.
pub open spec fn all_completed(list: Seq<MilestoneView>) -> bool {
    forall|i: int| 0 <= i < list.len() ==> (#[trigger] list[i]).completed
}

impl PlanView {
    /// The amount taken from the buyer into custody when the escrow was
    /// created. Of a rental escrow that is the deposit.
    pub open spec fn total(self) -> int {
        match self {
            PlanView::Flat { amount, .. } => amount as int,
            PlanView::Milestones { list } => milestones_total(list),
            PlanView::RentalDeposit { deposit, .. } => deposit as int,
        }
    }

    /// The part of the escrowed value that no payout has covered yet.
    pub open spec fn outstanding(self) -> int {
        match self {
            PlanView::Flat { amount, .. } => amount as int,
            PlanView::Milestones { list } => milestones_remaining(list),
            PlanView::RentalDeposit { deposit, status, .. } => match status {
                DepositReleaseStatus::Unreleased => deposit as int,
                DepositReleaseStatus::Partial { released_amount, .. } => deposit - released_amount,
                DepositReleaseStatus::Full => 0,
            },
        }
    }

    /// The plan's own invariant: the total lies in the accepted band, a
    /// milestone list is not empty, and a partial return is strictly less
    /// than the deposit.
    pub open spec fn wf(self) -> bool {
        &&& MIN_AMOUNT <= self.total() <= MAX_AMOUNT
        &&& self matches PlanView::Milestones { list } ==> list.len() > 0
        &&& self matches PlanView::RentalDeposit {
            deposit,
            status: DepositReleaseStatus::Partial { released_amount, .. },
            ..
        } ==> released_amount < deposit
    }
}

impl RecordView {
    /// What the custody holding of this escrow contains.
    pub open spec fn held(self) -> int {
        if self.is_completed {
            0
        } else {
            self.plan.outstanding()
        }
    }

    /// The invariant of every reachable record: the plan is well-formed, the
    /// dispute description is at most `MAX_DESCRIPTION_LEN` bytes long and
    /// not empty once a dispute has been opened, a rental escrow is completed
    /// exactly when its deposit has wholly left custody, and a milestone
    /// escrow whose milestones have all been released is completed.
    pub open spec fn wf(self) -> bool {
        &&& self.plan.wf()
        &&& byte_len(self.dispute_description) <= MAX_DESCRIPTION_LEN
        &&& self.is_disputed ==> byte_len(self.dispute_description) > 0
        &&& self.plan matches PlanView::RentalDeposit { status, .. } ==> (self.is_completed <==> status
            is Full)
        &&& self.plan matches PlanView::Milestones { list } ==> (all_completed(list)
            ==> self.is_completed)
    }
}

impl EscrowRecord {
    /// The invariant of every reachable record, stated on the record itself.
    pub open spec fn wf(&self) -> bool {
        self@.wf()
    }
}

} // verus!
