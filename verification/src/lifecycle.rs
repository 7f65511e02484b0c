//! Creating an escrow, checking a stored record, and reclaiming the storage
//! of a completed one.

use vstd::prelude::*;
use crate::config::ConfigRecord;
use crate::books::{
    lemma_initialize_escrow_sound, lemma_initialize_milestone_escrow_sound,
    lemma_initialize_rental_escrow_sound,
};
use crate::milestones::{all_released, total_of};
use crate::model::{
    close_escrow_model, funding_error, initialize_escrow_model,
    initialize_milestone_escrow_model, initialize_rental_escrow_model, none_completed, Transition,
};
use crate::outcome::{Event, Outcome};
use crate::record::{
    list_view, DepositReleaseStatus, EscrowRecord, Funding, Milestone, Parties, RecordView,
    SettlementPlan,
};
use crate::types::{
    Currency, EscrowError, Identity, MAX_AMOUNT, MAX_DESCRIPTION_LEN, MAX_EXPIRY_SECONDS,
    MIN_AMOUNT,
};

verus! {

/// The model of what is stored under a transaction identifier.
pub open spec fn slot_view(slot: Option<EscrowRecord>) -> Option<RecordView> {
    match slot {
        Some(record) => Some(record@),
        None => None,
    }
}

/// Whether what a creating operation returned, and what it left in the slot,
/// are what the model prescribes. A rejected creation leaves the slot as it
/// was.
pub open spec fn creates(
    res: Result<Outcome, EscrowError>,
    before: Option<EscrowRecord>,
    after: Option<EscrowRecord>,
    model: Result<Transition, EscrowError>,
) -> bool {
    match res {
        Ok(out) => after matches Some(record) && record.wf() && model == Ok::<
            Transition,
            EscrowError,
        >(Transition { record: record@, outcome: out@ }),
        Err(e) => model == Err::<Transition, EscrowError>(e) && after == before,
    }
}

/// Tests whether the ledger can take `total` in `currency` from the funds
/// offered.
fn check_funding(funding: Funding, currency: Currency, total: u64) -> (res: Result<
    (),
    EscrowError,
>)
    ensures
        match res {
            Ok(()) => funding_error(funding, currency, total as int) is None,
            Err(e) => funding_error(funding, currency, total as int) == Some(e),
        },
{
    if funding.currency != currency {
        Err(EscrowError::CurrencyMismatch)
    } else if funding.balance < total {
        Err(EscrowError::InsufficientFunds)
    } else {
        Ok(())
    }
}

/// A record as it is right after creation.
fn fresh(transaction_id: u64, parties: Parties, currency: Currency, plan: SettlementPlan) -> (record:
    EscrowRecord)
    ensures
        record@ == crate::model::fresh_record(transaction_id, parties, currency, plan@),
{
    EscrowRecord {
        transaction_id,
        buyer: parties.buyer,
        seller: parties.seller,
        agent: parties.agent,
        currency,
        plan,
        is_disputed: false,
        is_completed: false,
        dispute_description: String::new(),
    }
}

/// The buyer creates a flat escrow of `amount` under `transaction_id`, which
/// anyone may release `expiry_seconds` after `now`. The outcome tells the
/// host to move `amount` from the buyer into custody.
///
/// Fails with `InvalidState` if the slot already holds a record, with
/// `InvalidArgument` if `amount` is outside `MIN_AMOUNT..=MAX_AMOUNT` or
/// `expiry_seconds` exceeds `MAX_EXPIRY_SECONDS`, with `ArithmeticOverflow`
/// if the release time cannot be represented, with `CurrencyMismatch` if the
/// funds offered are in another currency, and with `InsufficientFunds` if
/// they are short.
pub fn initialize_escrow(
    slot: &mut Option<EscrowRecord>,
    transaction_id: u64,
    parties: Parties,
    amount: u64,
    expiry_seconds: u64,
    currency: Currency,
    funding: Funding,
    now: i64,
) -> (res: Result<Outcome, EscrowError>)
    ensures
        creates(
            res,
            *old(slot),
            *final(slot),
            initialize_escrow_model(
                (*old(slot)) is Some,
                transaction_id,
                parties,
                amount,
                expiry_seconds,
                currency,
                funding,
                now,
            ),
        ),
{
    if slot.is_some() {
        return Err(EscrowError::InvalidState);
    }
    if amount < MIN_AMOUNT || amount > MAX_AMOUNT {
        return Err(EscrowError::InvalidArgument);
    }
    if expiry_seconds > MAX_EXPIRY_SECONDS {
        return Err(EscrowError::InvalidArgument);
    }
    let release_timestamp: i64 = match now.checked_add(expiry_seconds as i64) {
        Some(t) => t,
        None => {
            return Err(EscrowError::ArithmeticOverflow);
        },
    };
    match check_funding(funding, currency, amount) {
        Err(e) => {
            return Err(e);
        },
        Ok(()) => {},
    }
    proof {
        lemma_initialize_escrow_sound(
            false,
            transaction_id,
            parties,
            amount,
            expiry_seconds,
            currency,
            funding,
            now,
        );
    }
    let record = fresh(
        transaction_id,
        parties,
        currency,
        SettlementPlan::Flat { amount, release_timestamp },
    );
    *slot = Some(record);
    let event = Event::EscrowInitialized {
        transaction_id,
        buyer: parties.buyer,
        seller: parties.seller,
        amount,
    };
    Ok(Outcome { deposit: amount, payouts: Vec::new(), event: Some(event) })
}

/// Tests whether no milestone of a list has been released.
pub fn none_released(list: &Vec<Milestone>) -> (none: bool)
    ensures
        none == none_completed(list_view(list@)),
{
    let ghost model = list_view(list@);
    let mut k: usize = 0;
    while k < list.len()
        invariant
            0 <= k <= list.len(),
            model == list_view(list@),
            model.len() == list.len(),
            forall|i: int| 0 <= i < k ==> !(#[trigger] model[i]).completed,
        decreases list.len() - k,
    {
        if list[k].completed {
            assert(model[k as int].completed);
            return false;
        }
        k = k + 1;
    }
    true
}

/// The buyer creates a milestone escrow of `total` under `transaction_id`,
/// split into `milestones`. The outcome tells the host to move `total` from
/// the buyer into custody.
///
/// Fails with `InvalidState` if the slot already holds a record, with
/// `InvalidArgument` if `total` is outside `MIN_AMOUNT..=MAX_AMOUNT`, the
/// list is empty or a milestone is marked as released, with `AmountMismatch`
/// unless the milestone amounts add up to exactly `total`, with
/// `CurrencyMismatch` if the funds offered are in another currency, and with
/// `InsufficientFunds` if they are short.
pub fn initialize_milestone_escrow(
    slot: &mut Option<EscrowRecord>,
    transaction_id: u64,
    parties: Parties,
    total: u64,
    milestones: Vec<Milestone>,
    currency: Currency,
    funding: Funding,
) -> (res: Result<Outcome, EscrowError>)
    ensures
        creates(
            res,
            *old(slot),
            *final(slot),
            initialize_milestone_escrow_model(
                (*old(slot)) is Some,
                transaction_id,
                parties,
                total,
                list_view(milestones@),
                currency,
                funding,
            ),
        ),
{
    if slot.is_some() {
        return Err(EscrowError::InvalidState);
    }
    if total < MIN_AMOUNT || total > MAX_AMOUNT {
        return Err(EscrowError::InvalidArgument);
    }
    if milestones.len() == 0 || !none_released(&milestones) {
        return Err(EscrowError::InvalidArgument);
    }
    match total_of(&milestones) {
        Some(sum) => {
            if sum != total {
                return Err(EscrowError::AmountMismatch);
            }
        },
        None => {
            return Err(EscrowError::AmountMismatch);
        },
    }
    match check_funding(funding, currency, total) {
        Err(e) => {
            return Err(e);
        },
        Ok(()) => {},
    }
    proof {
        lemma_initialize_milestone_escrow_sound(
            false,
            transaction_id,
            parties,
            total,
            list_view(milestones@),
            currency,
            funding,
        );
    }
    let count: usize = milestones.len();
    let record = fresh(
        transaction_id,
        parties,
        currency,
        SettlementPlan::Milestones { list: milestones },
    );
    *slot = Some(record);
    let event = Event::MilestoneEscrowInitialized { transaction_id, total, milestones: count };
    Ok(Outcome { deposit: total, payouts: Vec::new(), event: Some(event) })
}

/// The buyer creates a rental escrow under `transaction_id`. The outcome
/// tells the host to move `deposit` from the buyer into custody; nothing is
/// paid out. The rent is recorded for the parties and never enters custody.
///
/// Fails with `InvalidState` if the slot already holds a record, with
/// `InvalidArgument` if `deposit` is outside `MIN_AMOUNT..=MAX_AMOUNT`, with
/// `CurrencyMismatch` if the funds offered are in another currency, and with
/// `InsufficientFunds` if they are short.
pub fn initialize_rental_escrow(
    slot: &mut Option<EscrowRecord>,
    transaction_id: u64,
    parties: Parties,
    rent: u64,
    deposit: u64,
    currency: Currency,
    funding: Funding,
) -> (res: Result<Outcome, EscrowError>)
    ensures
        creates(
            res,
            *old(slot),
            *final(slot),
            initialize_rental_escrow_model(
                (*old(slot)) is Some,
                transaction_id,
                parties,
                rent,
                deposit,
                currency,
                funding,
            ),
        ),
{
    if slot.is_some() {
        return Err(EscrowError::InvalidState);
    }
    if deposit < MIN_AMOUNT || deposit > MAX_AMOUNT {
        return Err(EscrowError::InvalidArgument);
    }
    match check_funding(funding, currency, deposit) {
        Err(e) => {
            return Err(e);
        },
        Ok(()) => {},
    }
    proof {
        lemma_initialize_rental_escrow_sound(
            false,
            transaction_id,
            parties,
            rent,
            deposit,
            currency,
            funding,
        );
    }
    let record = fresh(
        transaction_id,
        parties,
        currency,
        SettlementPlan::RentalDeposit { rent, deposit, status: DepositReleaseStatus::Unreleased },
    );
    *slot = Some(record);
    let event = Event::EscrowInitialized {
        transaction_id,
        buyer: parties.buyer,
        seller: parties.seller,
        amount: deposit,
    };
    Ok(Outcome { deposit, payouts: Vec::new(), event: Some(event) })
}

/// The authority reclaims the storage of a completed escrow: the slot is
/// emptied. No value moves.
///
/// Fails with `Unauthorized` unless `caller` is the configuration's
/// authority, and with `InvalidState` unless the slot holds a completed
/// record. A failed call leaves the slot as it was.
pub fn close_escrow(config: &ConfigRecord, slot: &mut Option<EscrowRecord>, caller: Identity) -> (res:
    Result<(), EscrowError>)
    ensures
        res == close_escrow_model(*config, slot_view(*old(slot)), caller),
        res is Ok ==> (*final(slot)) is None,
        res is Err ==> *final(slot) == *old(slot),
{
    if config.authority.is_empty() || caller != config.authority {
        return Err(EscrowError::Unauthorized);
    }
    let completed: bool = match &*slot {
        Some(record) => record.is_completed,
        None => false,
    };
    if !completed {
        return Err(EscrowError::InvalidState);
    }
    *slot = None;
    Ok(())
}

impl EscrowRecord {
    /// Tests the record's invariant.
    pub fn is_valid(&self) -> (valid: bool)
        ensures
            valid == self.wf(),
    {
        let described: usize = self.dispute_description.as_str().as_bytes().len();
        if described > MAX_DESCRIPTION_LEN || (self.is_disputed && described == 0) {
            return false;
        }
        match &self.plan {
            SettlementPlan::Flat { amount, .. } => MIN_AMOUNT <= *amount && *amount <= MAX_AMOUNT,
            SettlementPlan::Milestones { list } => {
                if list.len() == 0 {
                    return false;
                }
                match total_of(list) {
                    Some(total) => total >= MIN_AMOUNT && (self.is_completed || !all_released(
                        list,
                    )),
                    None => false,
                }
            },
            SettlementPlan::RentalDeposit { deposit, status, .. } => {
                if *deposit < MIN_AMOUNT || *deposit > MAX_AMOUNT {
                    return false;
                }
                match status {
                    DepositReleaseStatus::Unreleased => !self.is_completed,
                    DepositReleaseStatus::Partial { released_amount, .. } => *released_amount
                        < *deposit && !self.is_completed,
                    DepositReleaseStatus::Full => self.is_completed,
                }
            },
        }
    }
}

} // verus!
