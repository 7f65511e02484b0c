//! The operations of the escrow state machine.
//!
//! Each operation checks who calls and the form of what they pass, then the
//! state the record is in, then the arguments that depend on that state, and
//! only then changes the record. A rejected operation leaves the record as
//! it was.

use vstd::prelude::*;
use crate::config::ConfigRecord;
use crate::fee::{compute_fee, fee_split};
use crate::books::{
    lemma_auto_release_sound, lemma_dispute_deposit_sound, lemma_release_full_sound,
    lemma_release_milestone_sound, lemma_release_on_expiry_sound, lemma_resolve_dispute_sound,
    lemma_return_deposit_sound, lemma_settle_dispute_sound, lemma_start_dispute_sound,
};
use crate::milestones::{all_released, outstanding_of};
use crate::model::{
    auto_release_model, dispute_deposit_model, fee_then_net, release_full_model, release_milestone_model, release_on_expiry_model, resolve_dispute_model,
    return_deposit_model, settle_dispute_model, settled, start_dispute_model, step,
    with_released, OperationView, Transition,
};
use crate::outcome::{Event, Outcome, Payout};
use crate::record::{
    description_ok, list_view, DepositReleaseStatus, EscrowRecord, PlanView, RecordView,
    SettlementPlan,
};
use crate::types::{
    Currency, EscrowError, Identity, DISPUTE_WINDOW_SECONDS, MAX_DESCRIPTION_LEN,
};

verus! {

/// Whether what an operation returned, and the record it left, are what the
/// model prescribes.
pub open spec fn agrees(
    res: Result<Outcome, EscrowError>,
    before: RecordView,
    after: RecordView,
    model: Result<Transition, EscrowError>,
) -> bool {
    match res {
        Ok(out) => model == Ok::<Transition, EscrowError>(
            Transition { record: after, outcome: out@ },
        ),
        Err(e) => model == Err::<Transition, EscrowError>(e) && after == before,
    }
}

/// The transfers of a release of `gross` that carries a fee at `bps`, and
/// the net amount that goes to `payee`. Fails as the fee rule fails.
fn release_outcome(
    config: &ConfigRecord,
    bps: u16,
    gross: u64,
    currency: Currency,
    payee: Identity,
) -> (res: Result<(Vec<Payout>, u64), EscrowError>)
    ensures
        match res {
            Ok((payouts, paid)) => fee_split(gross, bps, currency is Native) matches Ok(
                (fee, net),
            ) && paid == net && payouts@ == fee_then_net(*config, payee, fee, net),
            Err(e) => fee_split(gross, bps, currency is Native) == Err::<(u64, u64), EscrowError>(
                e,
            ),
        },
{
    match compute_fee(gross, bps, currency.is_native()) {
        Ok((fee, net)) => {
            let payouts = vec![
                Payout { payee: config.fee_recipient, amount: fee },
                Payout { payee, amount: net },
            ];
            Ok((payouts, net))
        },
        Err(e) => Err(e),
    }
}

/// The agent releases a flat escrow: the fee at the standard rate goes to the
/// fee recipient, the rest to the seller, and the escrow is completed.
///
/// Fails with `Unauthorized` unless `caller` is the agent, with
/// `InvalidState` if the escrow is disputed, completed or not flat, and with
/// `ArithmeticOverflow` if the fee would exceed the amount, as it can at a
/// configured rate above 100%.
pub fn release_full(config: &ConfigRecord, record: &mut EscrowRecord, caller: Identity) -> (res:
    Result<Outcome, EscrowError>)
    requires
        old(record).wf(),
    ensures
        agrees(
            res,
            old(record)@,
            final(record)@,
            release_full_model(*config, old(record)@, caller),
        ),
        res is Err ==> *final(record) == *old(record),
        final(record).wf(),
{
    if caller != record.agent {
        return Err(EscrowError::Unauthorized);
    }
    if record.is_disputed || record.is_completed {
        return Err(EscrowError::InvalidState);
    }
    let amount: u64 = match &record.plan {
        SettlementPlan::Flat { amount, .. } => *amount,
        _ => {
            return Err(EscrowError::InvalidState);
        },
    };
    proof {
        lemma_release_full_sound(*config, record@, caller);
    }
    let (payouts, net): (Vec<Payout>, u64) = match release_outcome(
        config,
        config.standard_fee_bps,
        amount,
        record.currency,
        record.seller,
    ) {
        Ok(parts) => parts,
        Err(e) => {
            return Err(e);
        },
    };
    let event = Event::PaymentReleased {
        transaction_id: record.transaction_id,
        recipient: record.seller,
        amount: net,
    };
    record.is_completed = true;
    Ok(Outcome { deposit: 0, payouts, event: Some(event) })
}

/// Anyone releases a flat escrow whose expiry has come, on the terms of the
/// agent's release.
///
/// Fails with `InvalidState` if the escrow is disputed, completed or not
/// flat, with `NotYetDue` while `now` is before the release time, and with
/// `ArithmeticOverflow` if the fee would exceed the amount.
pub fn release_on_expiry(config: &ConfigRecord, record: &mut EscrowRecord, now: i64) -> (res:
    Result<Outcome, EscrowError>)
    requires
        old(record).wf(),
    ensures
        agrees(
            res,
            old(record)@,
            final(record)@,
            release_on_expiry_model(*config, old(record)@, now),
        ),
        res is Err ==> *final(record) == *old(record),
        final(record).wf(),
{
    if record.is_disputed || record.is_completed {
        return Err(EscrowError::InvalidState);
    }
    let (amount, release_timestamp): (u64, i64) = match &record.plan {
        SettlementPlan::Flat { amount, release_timestamp } => (*amount, *release_timestamp),
        _ => {
            return Err(EscrowError::InvalidState);
        },
    };
    if now < release_timestamp {
        return Err(EscrowError::NotYetDue);
    }
    proof {
        lemma_release_on_expiry_sound(*config, record@, now);
    }
    let (payouts, net): (Vec<Payout>, u64) = match release_outcome(
        config,
        config.standard_fee_bps,
        amount,
        record.currency,
        record.seller,
    ) {
        Ok(parts) => parts,
        Err(e) => {
            return Err(e);
        },
    };
    let event = Event::PaymentReleased {
        transaction_id: record.transaction_id,
        recipient: record.seller,
        amount: net,
    };
    record.is_completed = true;
    Ok(Outcome { deposit: 0, payouts, event: Some(event) })
}

/// The agent releases the milestone at `index`: the fee at the milestone rate
/// on that milestone's amount goes to the fee recipient, the rest to the
/// seller. The escrow is completed when no unreleased milestone is left.
///
/// Fails with `Unauthorized` unless `caller` is the agent, with
/// `InvalidState` if the escrow is disputed, completed or has no milestones,
/// with `InvalidArgument` if there is no milestone at `index`, with
/// `InvalidState` if that milestone has been released before, and with
/// `ArithmeticOverflow` if the fee would exceed the milestone's amount.
pub fn release_milestone(
    config: &ConfigRecord,
    record: &mut EscrowRecord,
    caller: Identity,
    index: usize,
) -> (res: Result<Outcome, EscrowError>)
    requires
        old(record).wf(),
    ensures
        agrees(
            res,
            old(record)@,
            final(record)@,
            release_milestone_model(*config, old(record)@, caller, index),
        ),
        res is Err ==> *final(record) == *old(record),
        final(record).wf(),
{
    if caller != record.agent {
        return Err(EscrowError::Unauthorized);
    }
    if record.is_disputed || record.is_completed {
        return Err(EscrowError::InvalidState);
    }
    let amount: u64 = match &record.plan {
        SettlementPlan::Milestones { list } => {
            if index >= list.len() {
                return Err(EscrowError::InvalidArgument);
            }
            if list[index].completed {
                return Err(EscrowError::InvalidState);
            }
            list[index].amount
        },
        _ => {
            return Err(EscrowError::InvalidState);
        },
    };
    proof {
        lemma_release_milestone_sound(*config, record@, caller, index);
    }
    let (payouts, net): (Vec<Payout>, u64) = match release_outcome(
        config,
        config.milestone_fee_bps,
        amount,
        record.currency,
        record.seller,
    ) {
        Ok(parts) => parts,
        Err(e) => {
            return Err(e);
        },
    };
    let event = Event::MilestoneReleased {
        transaction_id: record.transaction_id,
        index,
        amount: net,
    };
    let ghost before = record@.plan->Milestones_list;
    let mut done: bool = false;
    match &mut record.plan {
        SettlementPlan::Milestones { list } => {
            list[index].completed = true;
            assert(list_view(list@) =~= with_released(before, index as int));
            done = all_released(list);
        },
        _ => {},
    }
    record.is_completed = done;
    Ok(Outcome { deposit: 0, payouts, event: Some(event) })
}

/// Tests whether a text may serve as a dispute description: it is not empty
/// and at most `MAX_DESCRIPTION_LEN` bytes long.
pub fn description_is_ok(text: &str) -> (ok: bool)
    ensures
        ok == description_ok(text@),
{
    let n: usize = text.as_bytes().len();
    0 < n && n <= MAX_DESCRIPTION_LEN
}

/// The agent opens a dispute, which suspends every ordinary release. No
/// funds move. `caller_stake` is what the ledger reports the caller to hold
/// of the configured asset.
///
/// Fails with `Unauthorized` unless `caller` is the agent, with
/// `InsufficientPrivilege` if a stake is required and the caller's is short,
/// with `InvalidArgument` if the description is empty or too long, and with
/// `InvalidState` if the escrow is already disputed or completed.
pub fn start_dispute(
    config: &ConfigRecord,
    record: &mut EscrowRecord,
    caller: Identity,
    caller_stake: u64,
    description: String,
) -> (res: Result<Outcome, EscrowError>)
    requires
        old(record).wf(),
    ensures
        agrees(
            res,
            old(record)@,
            final(record)@,
            start_dispute_model(*config, old(record)@, caller, caller_stake, description@),
        ),
        res is Err ==> *final(record) == *old(record),
        final(record).wf(),
{
    if caller != record.agent {
        return Err(EscrowError::Unauthorized);
    }
    if !config.accepts_stake(caller_stake) {
        return Err(EscrowError::InsufficientPrivilege);
    }
    if !description_is_ok(description.as_str()) {
        return Err(EscrowError::InvalidArgument);
    }
    if record.is_disputed || record.is_completed {
        return Err(EscrowError::InvalidState);
    }
    proof {
        lemma_start_dispute_sound(*config, record@, caller, caller_stake, description@);
    }
    let event = Event::DisputeStarted { transaction_id: record.transaction_id, agent: caller };
    record.is_disputed = true;
    record.dispute_description = description;
    Ok(Outcome { deposit: 0, payouts: Vec::new(), event: Some(event) })
}

/// Adds up what no payout has covered yet.
fn outstanding(record: &EscrowRecord) -> (gross: u64)
    requires
        record.wf(),
        !record.is_completed,
    ensures
        gross == record@.plan.outstanding(),
{
    match &record.plan {
        SettlementPlan::Flat { amount, .. } => *amount,
        SettlementPlan::Milestones { list } => outstanding_of(list),
        SettlementPlan::RentalDeposit { deposit, status, .. } => match status {
            DepositReleaseStatus::Unreleased => *deposit,
            DepositReleaseStatus::Partial { released_amount, .. } => *deposit - *released_amount,
            DepositReleaseStatus::Full => 0,
        },
    }
}

/// Marks a rental deposit as wholly released; other plans stay as they are.
fn settle_plan(plan: &mut SettlementPlan)
    ensures
        final(plan)@ == settled(old(plan)@),
{
    match plan {
        SettlementPlan::RentalDeposit { status, .. } => {
            *status = DepositReleaseStatus::Full;
        },
        _ => {},
    }
}

/// The agent decides a dispute: the fee on everything outstanding goes to
/// the fee recipient (at the milestone rate for a milestone escrow, else at
/// the standard rate), all the rest to `winner`, and the escrow is completed.
///
/// Fails with `Unauthorized` unless `caller` is the agent, with
/// `InsufficientPrivilege` if a stake is required and the caller's is short,
/// with `InvalidState` unless the escrow is disputed and not completed, with
/// `InvalidWinner` unless `winner` is the buyer or the seller, and with
/// `ArithmeticOverflow` if the fee would exceed what is outstanding.
pub fn resolve_dispute(
    config: &ConfigRecord,
    record: &mut EscrowRecord,
    caller: Identity,
    caller_stake: u64,
    winner: Identity,
) -> (res: Result<Outcome, EscrowError>)
    requires
        old(record).wf(),
    ensures
        agrees(
            res,
            old(record)@,
            final(record)@,
            resolve_dispute_model(*config, old(record)@, caller, caller_stake, winner),
        ),
        res is Err ==> *final(record) == *old(record),
        final(record).wf(),
{
    if caller != record.agent {
        return Err(EscrowError::Unauthorized);
    }
    if !config.accepts_stake(caller_stake) {
        return Err(EscrowError::InsufficientPrivilege);
    }
    if !record.is_disputed || record.is_completed {
        return Err(EscrowError::InvalidState);
    }
    if winner != record.buyer && winner != record.seller {
        return Err(EscrowError::InvalidWinner);
    }
    proof {
        lemma_resolve_dispute_sound(*config, record@, caller, caller_stake, winner);
    }
    let gross: u64 = outstanding(record);
    let bps: u16 = match &record.plan {
        SettlementPlan::Milestones { .. } => config.milestone_fee_bps,
        _ => config.standard_fee_bps,
    };
    let (payouts, net): (Vec<Payout>, u64) = match release_outcome(
        config,
        bps,
        gross,
        record.currency,
        winner,
    ) {
        Ok(parts) => parts,
        Err(e) => {
            return Err(e);
        },
    };
    let event = Event::DisputeResolved {
        transaction_id: record.transaction_id,
        winner,
        amount: net,
    };
    settle_plan(&mut record.plan);
    record.is_completed = true;
    Ok(Outcome { deposit: 0, payouts, event: Some(event) })
}

/// The seller returns `amount` of the deposit to the buyer. Returning the
/// whole deposit completes the escrow; returning less opens a window of
/// `DISPUTE_WINDOW_SECONDS` from `now` in which the buyer may contest the
/// rest.
///
/// Fails with `Unauthorized` unless `caller` is the seller, with
/// `InvalidState` if the escrow is disputed, completed, not a rental escrow
/// or has had a part of its deposit returned before, with `InvalidArgument`
/// if `amount` exceeds the deposit, and with `ArithmeticOverflow` if the
/// deadline cannot be represented.
pub fn return_deposit(record: &mut EscrowRecord, caller: Identity, amount: u64, now: i64) -> (res:
    Result<Outcome, EscrowError>)
    requires
        old(record).wf(),
    ensures
        agrees(
            res,
            old(record)@,
            final(record)@,
            return_deposit_model(old(record)@, caller, amount, now),
        ),
        res is Err ==> *final(record) == *old(record),
        final(record).wf(),
{
    if caller != record.seller {
        return Err(EscrowError::Unauthorized);
    }
    if record.is_disputed || record.is_completed {
        return Err(EscrowError::InvalidState);
    }
    let (rent, deposit): (u64, u64) = match &record.plan {
        SettlementPlan::RentalDeposit {
            rent,
            deposit,
            status: DepositReleaseStatus::Unreleased,
        } => (*rent, *deposit),
        _ => {
            return Err(EscrowError::InvalidState);
        },
    };
    if amount > deposit {
        return Err(EscrowError::InvalidArgument);
    }
    proof {
        lemma_return_deposit_sound(record@, caller, amount, now);
    }
    if amount == deposit {
        settle_plan(&mut record.plan);
        record.is_completed = true;
    } else {
        let deadline: i64 = match now.checked_add(DISPUTE_WINDOW_SECONDS) {
            Some(d) => d,
            None => {
                return Err(EscrowError::ArithmeticOverflow);
            },
        };
        record.plan = SettlementPlan::RentalDeposit {
            rent,
            deposit,
            status: DepositReleaseStatus::Partial {
                released_amount: amount,
                dispute_deadline: deadline,
            },
        };
    }
    let payouts = vec![Payout { payee: record.buyer, amount }];
    assert(payouts@ =~= seq![Payout { payee: record.buyer, amount }]);
    Ok(Outcome { deposit: 0, payouts, event: None })
}

/// The buyer contests a partial return of the deposit, which suspends the
/// automatic release. No funds move.
///
/// Fails with `Unauthorized` unless `caller` is the buyer, with
/// `InvalidArgument` if the description is empty or too long, with
/// `InvalidState` if the escrow is completed, already disputed or not a
/// rental escrow, with `NoPartialRelease` unless a part of the deposit has
/// been returned, and with `WindowClosed` once `now` has reached the
/// deadline.
pub fn dispute_deposit(
    record: &mut EscrowRecord,
    caller: Identity,
    description: String,
    now: i64,
) -> (res: Result<Outcome, EscrowError>)
    requires
        old(record).wf(),
    ensures
        agrees(
            res,
            old(record)@,
            final(record)@,
            dispute_deposit_model(old(record)@, caller, description@, now),
        ),
        res is Err ==> *final(record) == *old(record),
        final(record).wf(),
{
    if caller != record.buyer {
        return Err(EscrowError::Unauthorized);
    }
    if !description_is_ok(description.as_str()) {
        return Err(EscrowError::InvalidArgument);
    }
    if record.is_disputed || record.is_completed {
        return Err(EscrowError::InvalidState);
    }
    let deadline: i64 = match &record.plan {
        SettlementPlan::RentalDeposit {
            status: DepositReleaseStatus::Partial { dispute_deadline, .. },
            ..
        } => *dispute_deadline,
        SettlementPlan::RentalDeposit { .. } => {
            return Err(EscrowError::NoPartialRelease);
        },
        _ => {
            return Err(EscrowError::InvalidState);
        },
    };
    if now >= deadline {
        return Err(EscrowError::WindowClosed);
    }
    proof {
        lemma_dispute_deposit_sound(record@, caller, description@, now);
    }
    record.is_disputed = true;
    record.dispute_description = description;
    Ok(Outcome { deposit: 0, payouts: Vec::new(), event: None })
}

/// What is left of a partially returned deposit, if the plan is a rental
/// deposit in that state, together with the deadline for contesting it.
fn partial_remainder(plan: &SettlementPlan) -> (found: Option<(u64, i64)>)
    requires
        plan@.wf(),
    ensures
        match found {
            Some((rest, deadline)) => plan@ matches PlanView::RentalDeposit {
                deposit,
                status: DepositReleaseStatus::Partial { released_amount, dispute_deadline },
                ..
            } && rest == deposit - released_amount && deadline == dispute_deadline,
            None => !(plan@ matches PlanView::RentalDeposit {
                status: DepositReleaseStatus::Partial { .. },
                ..
            }),
        },
{
    match plan {
        SettlementPlan::RentalDeposit {
            deposit,
            status: DepositReleaseStatus::Partial { released_amount, dispute_deadline },
            ..
        } => Some((*deposit - *released_amount, *dispute_deadline)),
        _ => None,
    }
}

/// The agent settles a contested deposit: the buyer and the seller each get
/// the share named, and the escrow is completed. No fee is taken.
///
/// Fails with `Unauthorized` unless `caller` is the agent, with
/// `InvalidState` unless the escrow is disputed, not completed and a rental
/// escrow with a partially returned deposit, and with `AmountMismatch`
/// unless the two shares add up to exactly what is left of the deposit.
pub fn settle_dispute(
    record: &mut EscrowRecord,
    caller: Identity,
    buyer_amount: u64,
    seller_amount: u64,
) -> (res: Result<Outcome, EscrowError>)
    requires
        old(record).wf(),
    ensures
        agrees(
            res,
            old(record)@,
            final(record)@,
            settle_dispute_model(old(record)@, caller, buyer_amount, seller_amount),
        ),
        res is Err ==> *final(record) == *old(record),
        final(record).wf(),
{
    if caller != record.agent {
        return Err(EscrowError::Unauthorized);
    }
    if !record.is_disputed || record.is_completed {
        return Err(EscrowError::InvalidState);
    }
    let rest: u64 = match partial_remainder(&record.plan) {
        Some((rest, _)) => rest,
        None => {
            return Err(EscrowError::InvalidState);
        },
    };
    if buyer_amount > rest || seller_amount != rest - buyer_amount {
        return Err(EscrowError::AmountMismatch);
    }
    proof {
        lemma_settle_dispute_sound(record@, caller, buyer_amount, seller_amount);
    }
    let payouts = vec![
        Payout { payee: record.buyer, amount: buyer_amount },
        Payout { payee: record.seller, amount: seller_amount },
    ];
    settle_plan(&mut record.plan);
    record.is_completed = true;
    Ok(Outcome { deposit: 0, payouts, event: None })
}

/// Anyone pays what is left of an uncontested, partially returned deposit to
/// the seller once the window has lapsed, which completes the escrow.
///
/// Fails with `InvalidState` if the escrow is disputed, completed or not a
/// rental escrow, with `NoPartialRelease` unless a part of the deposit has
/// been returned, and with `NotYetDue` while `now` is before the deadline.
pub fn auto_release(record: &mut EscrowRecord, now: i64) -> (res: Result<Outcome, EscrowError>)
    requires
        old(record).wf(),
    ensures
        agrees(res, old(record)@, final(record)@, auto_release_model(old(record)@, now)),
        res is Err ==> *final(record) == *old(record),
        final(record).wf(),
{
    if record.is_disputed || record.is_completed {
        return Err(EscrowError::InvalidState);
    }
    let (rest, deadline): (u64, i64) = match partial_remainder(&record.plan) {
        Some(found) => found,
        None => {
            match &record.plan {
                SettlementPlan::RentalDeposit { .. } => {
                    return Err(EscrowError::NoPartialRelease);
                },
                _ => {
                    return Err(EscrowError::InvalidState);
                },
            }
        },
    };
    if now < deadline {
        return Err(EscrowError::NotYetDue);
    }
    proof {
        lemma_auto_release_sound(record@, now);
    }
    let payouts = vec![Payout { payee: record.seller, amount: rest }];
    assert(payouts@ =~= seq![Payout { payee: record.seller, amount: rest }]);
    settle_plan(&mut record.plan);
    record.is_completed = true;
    Ok(Outcome { deposit: 0, payouts, event: None })
}

impl EscrowRecord {
    /// What the custody holding of this escrow must contain: nothing once
    /// the escrow is completed, else everything no payout has covered yet.
    pub fn held(&self) -> (amount: u64)
        requires
            self.wf(),
        ensures
            amount == self@.held(),
    {
        if self.is_completed {
            0
        } else {
            outstanding(self)
        }
    }
}

/// An operation on an existing record, with its caller and arguments.
#[derive(Clone, Debug, PartialEq, Eq)]
pub enum Operation {
    ReleaseFull { caller: Identity },
    ReleaseMilestone { caller: Identity, index: usize },
    ReleaseOnExpiry { now: i64 },
    StartDispute { caller: Identity, stake: u64, description: String },
    ResolveDispute { caller: Identity, stake: u64, winner: Identity },
    ReturnDeposit { caller: Identity, amount: u64, now: i64 },
    DisputeDeposit { caller: Identity, description: String, now: i64 },
    SettleDispute { caller: Identity, buyer_amount: u64, seller_amount: u64 },
    AutoRelease { now: i64 },
}

impl View for Operation {
    type V = OperationView;

    open spec fn view(&self) -> OperationView {
        match *self {
            Operation::ReleaseFull { caller } => OperationView::ReleaseFull { caller },
            Operation::ReleaseMilestone { caller, index } => OperationView::ReleaseMilestone {
                caller,
                index,
            },
            Operation::ReleaseOnExpiry { now } => OperationView::ReleaseOnExpiry { now },
            Operation::StartDispute { caller, stake, description } => OperationView::StartDispute {
                caller,
                stake,
                description: description@,
            },
            Operation::ResolveDispute { caller, stake, winner } => OperationView::ResolveDispute {
                caller,
                stake,
                winner,
            },
            Operation::ReturnDeposit { caller, amount, now } => OperationView::ReturnDeposit {
                caller,
                amount,
                now,
            },
            Operation::DisputeDeposit { caller, description, now } => OperationView::DisputeDeposit {
                caller,
                description: description@,
                now,
            },
            Operation::SettleDispute { caller, buyer_amount, seller_amount } => {
                OperationView::SettleDispute { caller, buyer_amount, seller_amount }
            },
            Operation::AutoRelease { now } => OperationView::AutoRelease { now },
        }
    }
}

/// Performs one operation on a record: the single entry point of the state
/// machine. What it answers and what it leaves in the record is what the
/// operation named does; a rejected operation leaves the record as it was.
pub fn apply(config: &ConfigRecord, record: &mut EscrowRecord, operation: Operation) -> (res:
    Result<Outcome, EscrowError>)
    requires
        old(record).wf(),
    ensures
        agrees(res, old(record)@, final(record)@, step(*config, old(record)@, operation@)),
        res is Err ==> *final(record) == *old(record),
        final(record).wf(),
{
    match operation {
        Operation::ReleaseFull { caller } => release_full(config, record, caller),
        Operation::ReleaseMilestone { caller, index } => release_milestone(
            config,
            record,
            caller,
            index,
        ),
        Operation::ReleaseOnExpiry { now } => release_on_expiry(config, record, now),
        Operation::StartDispute { caller, stake, description } => start_dispute(
            config,
            record,
            caller,
            stake,
            description,
        ),
        Operation::ResolveDispute { caller, stake, winner } => resolve_dispute(
            config,
            record,
            caller,
            stake,
            winner,
        ),
        Operation::ReturnDeposit { caller, amount, now } => return_deposit(
            record,
            caller,
            amount,
            now,
        ),
        Operation::DisputeDeposit { caller, description, now } => dispute_deposit(
            record,
            caller,
            description,
            now,
        ),
        Operation::SettleDispute { caller, buyer_amount, seller_amount } => settle_dispute(
            record,
            caller,
            buyer_amount,
            seller_amount,
        ),
        Operation::AutoRelease { now } => auto_release(record, now),
    }
}

} // verus!
