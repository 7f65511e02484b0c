//! The state machine as mathematics: for every operation, the next record
//! and the transfers it causes, or the first check that fails.

use vstd::prelude::*;
use crate::config::ConfigRecord;
use crate::fee::fee_split;
use crate::outcome::{Event, OutcomeView, Payout};
use crate::record::{
    all_completed, description_ok, milestones_total, DepositReleaseStatus, Funding, MilestoneView,
    Parties, PlanView, RecordView,
};
use crate::types::{
    Currency, EscrowError, Identity, DISPUTE_WINDOW_SECONDS, MAX_AMOUNT, MAX_EXPIRY_SECONDS,
    MIN_AMOUNT,
};

verus! {

/// A successful step: the record after it and its effects.
pub struct Transition {
    pub record: RecordView,
    pub outcome: OutcomeView,
}

/// The two transfers of a release that carries a fee: the fee to the fee
/// recipient, then the rest to `payee`.
pub open spec fn fee_then_net(cfg: ConfigRecord, payee: Identity, fee: u64, net: u64) -> Seq<
    Payout,
> {
    seq![Payout { payee: cfg.fee_recipient, amount: fee }, Payout { payee, amount: net }]
}

/// The fee rate that applies to a plan when its whole remainder is paid out.
pub open spec fn rate_for(cfg: ConfigRecord, plan: PlanView) -> u16 {
    if plan is Milestones {
        cfg.milestone_fee_bps
    } else {
        cfg.standard_fee_bps
    }
}

/// The plan after everything outstanding has been paid out.
pub open spec fn settled(plan: PlanView) -> PlanView {
    match plan {
        PlanView::RentalDeposit { rent, deposit, .. } => PlanView::RentalDeposit {
            rent,
            deposit,
            status: DepositReleaseStatus::Full,
        },
        _ => plan,
    }
}

/// The payout of a flat escrow's whole amount to the seller, less the fee at
/// the standard rate. Shared by the agent's release and the release on
/// expiry. It fails as the fee rule fails.
pub open spec fn flat_payout(cfg: ConfigRecord, r: RecordView, amount: u64) -> Result<
    Transition,
    EscrowError,
> {
    match fee_split(amount, cfg.standard_fee_bps, r.currency is Native) {
        Ok((fee, net)) => Ok(
            Transition {
                record: RecordView { is_completed: true, ..r },
                outcome: OutcomeView {
                    deposit: 0,
                    payouts: fee_then_net(cfg, r.seller, fee, net),
                    event: Some(
                        Event::PaymentReleased {
                            transaction_id: r.transaction_id,
                            recipient: r.seller,
                            amount: net,
                        },
                    ),
                },
            },
        ),
        Err(e) => Err(e),
    }
}

/// The agent releases a flat escrow to the seller.
pub open spec fn release_full_model(cfg: ConfigRecord, r: RecordView, caller: Identity) -> Result<
    Transition,
    EscrowError,
> {
    if caller != r.agent {
        Err(EscrowError::Unauthorized)
    } else if r.is_disputed || r.is_completed {
        Err(EscrowError::InvalidState)
    } else {
        match r.plan {
            PlanView::Flat { amount, .. } => flat_payout(cfg, r, amount),
            _ => Err(EscrowError::InvalidState),
        }
    }
}

/// Anyone releases a flat escrow to the seller once its expiry has come.
pub open spec fn release_on_expiry_model(cfg: ConfigRecord, r: RecordView, now: i64) -> Result<
    Transition,
    EscrowError,
> {
    if r.is_disputed || r.is_completed {
        Err(EscrowError::InvalidState)
    } else {
        match r.plan {
            PlanView::Flat { amount, release_timestamp } => if now < release_timestamp {
                Err(EscrowError::NotYetDue)
            } else {
                flat_payout(cfg, r, amount)
            },
            _ => Err(EscrowError::InvalidState),
        }
    }
}

/// The milestone list after the milestone at `index` has been released.
pub open spec fn with_released(list: Seq<MilestoneView>, index: int) -> Seq<MilestoneView> {
    list.update(index, MilestoneView { completed: true, ..list[index] })
}

/// The agent releases one milestone to the seller.
pub open spec fn release_milestone_model(
    cfg: ConfigRecord,
    r: RecordView,
    caller: Identity,
    index: usize,
) -> Result<Transition, EscrowError> {
    if caller != r.agent {
        Err(EscrowError::Unauthorized)
    } else if r.is_disputed || r.is_completed {
        Err(EscrowError::InvalidState)
    } else {
        match r.plan {
            PlanView::Milestones { list } => if index >= list.len() {
                Err(EscrowError::InvalidArgument)
            } else if list[index as int].completed {
                Err(EscrowError::InvalidState)
            } else {
                let after = with_released(list, index as int);
                match fee_split(
                    list[index as int].amount,
                    cfg.milestone_fee_bps,
                    r.currency is Native,
                ) {
                    Ok((fee, net)) => Ok(
                        Transition {
                            record: RecordView {
                                plan: PlanView::Milestones { list: after },
                                is_completed: all_completed(after),
                                ..r
                            },
                            outcome: OutcomeView {
                                deposit: 0,
                                payouts: fee_then_net(cfg, r.seller, fee, net),
                                event: Some(
                                    Event::MilestoneReleased {
                                        transaction_id: r.transaction_id,
                                        index,
                                        amount: net,
                                    },
                                ),
                            },
                        },
                    ),
                    Err(e) => Err(e),
                }
            },
            _ => Err(EscrowError::InvalidState),
        }
    }
}

/// The agent opens a dispute. `stake` is what the ledger reports the agent
/// to hold of the configured asset.
pub open spec fn start_dispute_model(
    cfg: ConfigRecord,
    r: RecordView,
    caller: Identity,
    stake: u64,
    description: Seq<char>,
) -> Result<Transition, EscrowError> {
    if caller != r.agent {
        Err(EscrowError::Unauthorized)
    } else if !cfg.stake_suffices(stake) {
        Err(EscrowError::InsufficientPrivilege)
    } else if !description_ok(description) {
        Err(EscrowError::InvalidArgument)
    } else if r.is_disputed || r.is_completed {
        Err(EscrowError::InvalidState)
    } else {
        Ok(
            Transition {
                record: RecordView { is_disputed: true, dispute_description: description, ..r },
                outcome: OutcomeView {
                    deposit: 0,
                    payouts: Seq::empty(),
                    event: Some(
                        Event::DisputeStarted { transaction_id: r.transaction_id, agent: caller },
                    ),
                },
            },
        )
    }
}

/// The agent decides a dispute: everything outstanding, less the fee, goes
/// to the winner.
pub open spec fn resolve_dispute_model(
    cfg: ConfigRecord,
    r: RecordView,
    caller: Identity,
    stake: u64,
    winner: Identity,
) -> Result<Transition, EscrowError> {
    if caller != r.agent {
        Err(EscrowError::Unauthorized)
    } else if !cfg.stake_suffices(stake) {
        Err(EscrowError::InsufficientPrivilege)
    } else if !r.is_disputed || r.is_completed {
        Err(EscrowError::InvalidState)
    } else if winner != r.buyer && winner != r.seller {
        Err(EscrowError::InvalidWinner)
    } else {
        match fee_split(r.plan.outstanding() as u64, rate_for(cfg, r.plan), r.currency is Native) {
            Ok((fee, net)) => Ok(
                Transition {
                    record: RecordView { plan: settled(r.plan), is_completed: true, ..r },
                    outcome: OutcomeView {
                        deposit: 0,
                        payouts: fee_then_net(cfg, winner, fee, net),
                        event: Some(
                            Event::DisputeResolved {
                                transaction_id: r.transaction_id,
                                winner,
                                amount: net,
                            },
                        ),
                    },
                },
            ),
            Err(e) => Err(e),
        }
    }
}

/// The seller returns the deposit, or a part of it, to the buyer.
pub open spec fn return_deposit_model(r: RecordView, caller: Identity, amount: u64, now: i64) -> Result<
    Transition,
    EscrowError,
> {
    if caller != r.seller {
        Err(EscrowError::Unauthorized)
    } else if r.is_disputed || r.is_completed {
        Err(EscrowError::InvalidState)
    } else {
        match r.plan {
            PlanView::RentalDeposit { rent, deposit, status: DepositReleaseStatus::Unreleased } => {
                let outcome = OutcomeView {
                    deposit: 0,
                    payouts: seq![Payout { payee: r.buyer, amount }],
                    event: None,
                };
                if amount > deposit {
                    Err(EscrowError::InvalidArgument)
                } else if amount == deposit {
                    Ok(
                        Transition {
                            record: RecordView {
                                plan: settled(r.plan),
                                is_completed: true,
                                ..r
                            },
                            outcome,
                        },
                    )
                } else if now + DISPUTE_WINDOW_SECONDS > i64::MAX {
                    Err(EscrowError::ArithmeticOverflow)
                } else {
                    Ok(
                        Transition {
                            record: RecordView {
                                plan: PlanView::RentalDeposit {
                                    rent,
                                    deposit,
                                    status: DepositReleaseStatus::Partial {
                                        released_amount: amount,
                                        dispute_deadline: (now + DISPUTE_WINDOW_SECONDS) as i64,
                                    },
                                },
                                ..r
                            },
                            outcome,
                        },
                    )
                }
            },
            _ => Err(EscrowError::InvalidState),
        }
    }
}

/// The buyer contests a partial return of the deposit within the window.
pub open spec fn dispute_deposit_model(
    r: RecordView,
    caller: Identity,
    description: Seq<char>,
    now: i64,
) -> Result<Transition, EscrowError> {
    if caller != r.buyer {
        Err(EscrowError::Unauthorized)
    } else if !description_ok(description) {
        Err(EscrowError::InvalidArgument)
    } else if r.is_disputed || r.is_completed {
        Err(EscrowError::InvalidState)
    } else {
        match r.plan {
            PlanView::RentalDeposit {
                status: DepositReleaseStatus::Partial { dispute_deadline, .. },
                ..
            } => if now < dispute_deadline {
                Ok(
                    Transition {
                        record: RecordView {
                            is_disputed: true,
                            dispute_description: description,
                            ..r
                        },
                        outcome: OutcomeView { deposit: 0, payouts: Seq::empty(), event: None },
                    },
                )
            } else {
                Err(EscrowError::WindowClosed)
            },
            PlanView::RentalDeposit { .. } => Err(EscrowError::NoPartialRelease),
            _ => Err(EscrowError::InvalidState),
        }
    }
}

/// The agent settles a contested deposit by naming each party's share of
/// what is left of it.
pub open spec fn settle_dispute_model(
    r: RecordView,
    caller: Identity,
    buyer_amount: u64,
    seller_amount: u64,
) -> Result<Transition, EscrowError> {
    if caller != r.agent {
        Err(EscrowError::Unauthorized)
    } else if !r.is_disputed || r.is_completed {
        Err(EscrowError::InvalidState)
    } else {
        match r.plan {
            PlanView::RentalDeposit {
                deposit,
                status: DepositReleaseStatus::Partial { released_amount, .. },
                ..
            } => if buyer_amount + seller_amount != deposit - released_amount {
                Err(EscrowError::AmountMismatch)
            } else {
                Ok(
                    Transition {
                        record: RecordView { plan: settled(r.plan), is_completed: true, ..r },
                        outcome: OutcomeView {
                            deposit: 0,
                            payouts: seq![
                                Payout { payee: r.buyer, amount: buyer_amount },
                                Payout { payee: r.seller, amount: seller_amount },
                            ],
                            event: None,
                        },
                    },
                )
            },
            _ => Err(EscrowError::InvalidState),
        }
    }
}

/// Anyone pays the rest of an uncontested deposit to the seller once the
/// window has lapsed.
pub open spec fn auto_release_model(r: RecordView, now: i64) -> Result<Transition, EscrowError> {
    if r.is_disputed || r.is_completed {
        Err(EscrowError::InvalidState)
    } else {
        match r.plan {
            PlanView::RentalDeposit {
                deposit,
                status: DepositReleaseStatus::Partial { released_amount, dispute_deadline },
                ..
            } => if now < dispute_deadline {
                Err(EscrowError::NotYetDue)
            } else {
                Ok(
                    Transition {
                        record: RecordView { plan: settled(r.plan), is_completed: true, ..r },
                        outcome: OutcomeView {
                            deposit: 0,
                            payouts: seq![
                                Payout {
                                    payee: r.seller,
                                    amount: (deposit - released_amount) as u64,
                                },
                            ],
                            event: None,
                        },
                    },
                )
            },
            PlanView::RentalDeposit { .. } => Err(EscrowError::NoPartialRelease),
            _ => Err(EscrowError::InvalidState),
        }
    }
}

/// A record as it is right after creation: neither disputed nor completed,
/// with no dispute description.
pub open spec fn fresh_record(
    transaction_id: u64,
    parties: Parties,
    currency: Currency,
    plan: PlanView,
) -> RecordView {
    RecordView {
        transaction_id,
        buyer: parties.buyer,
        seller: parties.seller,
        agent: parties.agent,
        currency,
        plan,
        is_disputed: false,
        is_completed: false,
        dispute_description: Seq::empty(),
    }
}

/// Why the ledger would refuse to take `total` in `currency` from the funds
/// offered, if it would.
pub open spec fn funding_error(funding: Funding, currency: Currency, total: int) -> Option<
    EscrowError,
> {
    if funding.currency != currency {
        Some(EscrowError::CurrencyMismatch)
    } else if funding.balance < total {
        Some(EscrowError::InsufficientFunds)
    } else {
        None
    }
}

/// Whether `total` lies in the band of amounts that may be escrowed.
pub open spec fn in_band(total: int) -> bool {
    MIN_AMOUNT <= total <= MAX_AMOUNT
}

/// The buyer creates a flat escrow of `amount` that anyone may release
/// `expiry_seconds` after `now`. `occupied` says whether a record is already
/// stored under the transaction identifier.
pub open spec fn initialize_escrow_model(
    occupied: bool,
    transaction_id: u64,
    parties: Parties,
    amount: u64,
    expiry_seconds: u64,
    currency: Currency,
    funding: Funding,
    now: i64,
) -> Result<Transition, EscrowError> {
    if occupied {
        Err(EscrowError::InvalidState)
    } else if !in_band(amount as int) {
        Err(EscrowError::InvalidArgument)
    } else if expiry_seconds > MAX_EXPIRY_SECONDS {
        Err(EscrowError::InvalidArgument)
    } else if now + expiry_seconds > i64::MAX {
        Err(EscrowError::ArithmeticOverflow)
    } else if let Some(e) = funding_error(funding, currency, amount as int) {
        Err(e)
    } else {
        Ok(
            Transition {
                record: fresh_record(
                    transaction_id,
                    parties,
                    currency,
                    PlanView::Flat { amount, release_timestamp: (now + expiry_seconds) as i64 },
                ),
                outcome: OutcomeView {
                    deposit: amount,
                    payouts: Seq::empty(),
                    event: Some(
                        Event::EscrowInitialized {
                            transaction_id,
                            buyer: parties.buyer,
                            seller: parties.seller,
                            amount,
                        },
                    ),
                },
            },
        )
    }
}

/// Whether no milestone of a list has been released.
pub open spec fn none_completed(list: Seq<MilestoneView>) -> bool {
    forall|i: int| 0 <= i < list.len() ==> !(#[trigger] list[i]).completed
}

/// The buyer creates a milestone escrow of `total`, split as `list` says.
pub open spec fn initialize_milestone_escrow_model(
    occupied: bool,
    transaction_id: u64,
    parties: Parties,
    total: u64,
    list: Seq<MilestoneView>,
    currency: Currency,
    funding: Funding,
) -> Result<Transition, EscrowError> {
    if occupied {
        Err(EscrowError::InvalidState)
    } else if !in_band(total as int) {
        Err(EscrowError::InvalidArgument)
    } else if list.len() == 0 || !none_completed(list) {
        Err(EscrowError::InvalidArgument)
    } else if milestones_total(list) != total {
        Err(EscrowError::AmountMismatch)
    } else if let Some(e) = funding_error(funding, currency, total as int) {
        Err(e)
    } else {
        Ok(
            Transition {
                record: fresh_record(
                    transaction_id,
                    parties,
                    currency,
                    PlanView::Milestones { list },
                ),
                outcome: OutcomeView {
                    deposit: total,
                    payouts: Seq::empty(),
                    event: Some(
                        Event::MilestoneEscrowInitialized {
                            transaction_id,
                            total,
                            milestones: list.len() as usize,
                        },
                    ),
                },
            },
        )
    }
}

/// The buyer creates a rental escrow: the deposit is taken into custody and
/// the rent is recorded. Nothing is paid out.
pub open spec fn initialize_rental_escrow_model(
    occupied: bool,
    transaction_id: u64,
    parties: Parties,
    rent: u64,
    deposit: u64,
    currency: Currency,
    funding: Funding,
) -> Result<Transition, EscrowError> {
    if occupied {
        Err(EscrowError::InvalidState)
    } else if !in_band(deposit as int) {
        Err(EscrowError::InvalidArgument)
    } else if let Some(e) = funding_error(funding, currency, deposit as int) {
        Err(e)
    } else {
        Ok(
            Transition {
                record: fresh_record(
                    transaction_id,
                    parties,
                    currency,
                    PlanView::RentalDeposit {
                        rent,
                        deposit,
                        status: DepositReleaseStatus::Unreleased,
                    },
                ),
                outcome: OutcomeView {
                    deposit,
                    payouts: Seq::empty(),
                    event: Some(
                        Event::EscrowInitialized {
                            transaction_id,
                            buyer: parties.buyer,
                            seller: parties.seller,
                            amount: deposit,
                        },
                    ),
                },
            },
        )
    }
}

/// The authority reclaims the storage of a completed escrow. `slot` is what
/// is stored under the transaction identifier.
pub open spec fn close_escrow_model(
    cfg: ConfigRecord,
    slot: Option<RecordView>,
    caller: Identity,
) -> Result<(), EscrowError> {
    if !cfg.initialized() || caller != cfg.authority {
        Err(EscrowError::Unauthorized)
    } else {
        match slot {
            Some(r) => if r.is_completed {
                Ok(())
            } else {
                Err(EscrowError::InvalidState)
            },
            None => Err(EscrowError::InvalidState),
        }
    }
}

/// An operation on an existing record, with its caller and arguments.
pub enum OperationView {
    ReleaseFull { caller: Identity },
    ReleaseMilestone { caller: Identity, index: usize },
    ReleaseOnExpiry { now: i64 },
    StartDispute { caller: Identity, stake: u64, description: Seq<char> },
    ResolveDispute { caller: Identity, stake: u64, winner: Identity },
    ReturnDeposit { caller: Identity, amount: u64, now: i64 },
    DisputeDeposit { caller: Identity, description: Seq<char>, now: i64 },
    SettleDispute { caller: Identity, buyer_amount: u64, seller_amount: u64 },
    AutoRelease { now: i64 },
}

/// What an operation does to a record under a configuration.
pub open spec fn step(cfg: ConfigRecord, r: RecordView, op: OperationView) -> Result<
    Transition,
    EscrowError,
> {
    match op {
        OperationView::ReleaseFull { caller } => release_full_model(cfg, r, caller),
        OperationView::ReleaseMilestone { caller, index } => release_milestone_model(
            cfg,
            r,
            caller,
            index,
        ),
        OperationView::ReleaseOnExpiry { now } => release_on_expiry_model(cfg, r, now),
        OperationView::StartDispute { caller, stake, description } => start_dispute_model(
            cfg,
            r,
            caller,
            stake,
            description,
        ),
        OperationView::ResolveDispute { caller, stake, winner } => resolve_dispute_model(
            cfg,
            r,
            caller,
            stake,
            winner,
        ),
        OperationView::ReturnDeposit { caller, amount, now } => return_deposit_model(
            r,
            caller,
            amount,
            now,
        ),
        OperationView::DisputeDeposit { caller, description, now } => dispute_deposit_model(
            r,
            caller,
            description,
            now,
        ),
        OperationView::SettleDispute { caller, buyer_amount, seller_amount } => settle_dispute_model(
            r,
            caller,
            buyer_amount,
            seller_amount,
        ),
        OperationView::AutoRelease { now } => auto_release_model(r, now),
    }
}

} // verus!
