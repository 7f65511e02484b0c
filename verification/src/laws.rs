//! What holds of the state machine as a whole: conservation of funds along
//! every history, the finality of completion, the dispute gate, the window
//! of a partial return, and how milestone releases compare with a flat one.

use vstd::prelude::*;
use crate::books::{
    keeps_books, lemma_auto_release_sound, lemma_dispute_deposit_sound,
    lemma_initialize_escrow_sound, lemma_initialize_milestone_escrow_sound,
    lemma_initialize_rental_escrow_sound, lemma_release_full_sound,
    lemma_release_milestone_sound, lemma_release_on_expiry_sound, lemma_resolve_dispute_sound,
    lemma_return_deposit_sound, lemma_settle_dispute_sound, lemma_start_dispute_sound,
    opens_books,
};
use crate::config::ConfigRecord;
use crate::fee::{fee_of, law_fee_determinism, lemma_fee_within_gross, net_of, proportional_fee};
use crate::model::{
    auto_release_model, dispute_deposit_model, fresh_record, in_band, initialize_escrow_model,
    initialize_milestone_escrow_model, initialize_rental_escrow_model, none_completed,
    release_full_model, rate_for, release_milestone_model, release_on_expiry_model, step,
    OperationView, Transition,
};
use crate::outcome::{lemma_payouts_total_none, Payout};
use crate::record::{
    description_ok, milestones_total, DepositReleaseStatus, Funding, MilestoneView, Parties,
    PlanView, RecordView,
};
use crate::types::{Currency, EscrowError, Identity, MAX_EXPIRY_SECONDS};

verus! {

/// Every successful operation keeps the books.
pub proof fn law_step_keeps_books(cfg: ConfigRecord, r: RecordView, op: OperationView)
    requires
        r.wf(),
    ensures
        step(cfg, r, op) matches Ok(t) ==> keeps_books(r, t),
{
    match op {
        OperationView::ReleaseFull { caller } => lemma_release_full_sound(cfg, r, caller),
        OperationView::ReleaseMilestone { caller, index } => lemma_release_milestone_sound(
            cfg,
            r,
            caller,
            index,
        ),
        OperationView::ReleaseOnExpiry { now } => lemma_release_on_expiry_sound(cfg, r, now),
        OperationView::StartDispute { caller, stake, description } => lemma_start_dispute_sound(
            cfg,
            r,
            caller,
            stake,
            description,
        ),
        OperationView::ResolveDispute { caller, stake, winner } => lemma_resolve_dispute_sound(
            cfg,
            r,
            caller,
            stake,
            winner,
        ),
        OperationView::ReturnDeposit { caller, amount, now } => lemma_return_deposit_sound(
            r,
            caller,
            amount,
            now,
        ),
        OperationView::DisputeDeposit { caller, description, now } => lemma_dispute_deposit_sound(
            r,
            caller,
            description,
            now,
        ),
        OperationView::SettleDispute { caller, buyer_amount, seller_amount } => {
            lemma_settle_dispute_sound(r, caller, buyer_amount, seller_amount)
        },
        OperationView::AutoRelease { now } => lemma_auto_release_sound(r, now),
    }
}

/// One call in the life of an escrow: the configuration in force and the
/// operation asked for.
pub struct Call {
    pub config: ConfigRecord,
    pub operation: OperationView,
}

/// The record after a sequence of calls. A rejected call changes nothing.
pub open spec fn record_after(r: RecordView, calls: Seq<Call>) -> RecordView
    decreases calls.len(),
{
    if calls.len() == 0 {
        r
    } else {
        let before = record_after(r, calls.drop_last());
        match step(calls.last().config, before, calls.last().operation) {
            Ok(t) => t.record,
            Err(_) => before,
        }
    }
}

/// The sum of everything paid out of custody by a sequence of calls. A
/// rejected call pays nothing.
pub open spec fn paid_by(r: RecordView, calls: Seq<Call>) -> int
    decreases calls.len(),
{
    if calls.len() == 0 {
        0
    } else {
        let before = record_after(r, calls.drop_last());
        paid_by(r, calls.drop_last()) + match step(
            calls.last().config,
            before,
            calls.last().operation,
        ) {
            Ok(t) => t.outcome.paid(),
            Err(_) => 0,
        }
    }
}

/// Conservation along any history: whatever calls are made on a well-formed
/// record, in whatever order and whether they succeed or not, the record
/// stays well-formed, and what has been paid out plus what custody still
/// holds is what custody held at the start. Once the escrow is completed,
/// exactly what custody held at the start has been paid out.
pub proof fn law_conservation(r: RecordView, calls: Seq<Call>)
    requires
        r.wf(),
    ensures
        record_after(r, calls).wf(),
        record_after(r, calls).plan.total() == r.plan.total(),
        paid_by(r, calls) + record_after(r, calls).held() == r.held(),
        record_after(r, calls).is_completed ==> paid_by(r, calls) == r.held(),
    decreases calls.len(),
{
    if calls.len() > 0 {
        let earlier = calls.drop_last();
        law_conservation(r, earlier);
        law_step_keeps_books(
            calls.last().config,
            record_after(r, earlier),
            calls.last().operation,
        );
    }
}

/// Conservation from creation to completion: if an escrow was created by a
/// transition that opens the books, then nothing was paid out at creation,
/// and once any sequence of calls has completed the escrow, everything paid
/// out of custody adds up to exactly the amount deposited at creation, which
/// is the record's total.
pub proof fn law_conservation_from_creation(created: Transition, calls: Seq<Call>)
    requires
        opens_books(created),
        record_after(created.record, calls).is_completed,
    ensures
        created.outcome.paid() == 0,
        paid_by(created.record, calls) == created.outcome.deposit,
        created.outcome.deposit == created.record.plan.total(),
        record_after(created.record, calls).plan.total() == created.outcome.deposit,
{
    law_conservation(created.record, calls);
}

/// The error of the checks that come before any look at the record's state:
/// the caller's role, the arbiter's stake and the form of a description.
pub open spec fn entry_error(cfg: ConfigRecord, r: RecordView, op: OperationView) -> Option<
    EscrowError,
> {
    match op {
        OperationView::ReleaseFull { caller } => if caller != r.agent {
            Some(EscrowError::Unauthorized)
        } else {
            None
        },
        OperationView::ReleaseMilestone { caller, .. } => if caller != r.agent {
            Some(EscrowError::Unauthorized)
        } else {
            None
        },
        OperationView::ReleaseOnExpiry { .. } => None,
        OperationView::StartDispute { caller, stake, description } => if caller != r.agent {
            Some(EscrowError::Unauthorized)
        } else if !cfg.stake_suffices(stake) {
            Some(EscrowError::InsufficientPrivilege)
        } else if !description_ok(description) {
            Some(EscrowError::InvalidArgument)
        } else {
            None
        },
        OperationView::ResolveDispute { caller, stake, .. } => if caller != r.agent {
            Some(EscrowError::Unauthorized)
        } else if !cfg.stake_suffices(stake) {
            Some(EscrowError::InsufficientPrivilege)
        } else {
            None
        },
        OperationView::ReturnDeposit { caller, .. } => if caller != r.seller {
            Some(EscrowError::Unauthorized)
        } else {
            None
        },
        OperationView::DisputeDeposit { caller, description, .. } => if caller != r.buyer {
            Some(EscrowError::Unauthorized)
        } else if !description_ok(description) {
            Some(EscrowError::InvalidArgument)
        } else {
            None
        },
        OperationView::SettleDispute { caller, .. } => if caller != r.agent {
            Some(EscrowError::Unauthorized)
        } else {
            None
        },
        OperationView::AutoRelease { .. } => None,
    }
}

/// The error of a call that passes the entry checks, if any, and then meets
/// a record in a state that does not admit it.
pub open spec fn refused(cfg: ConfigRecord, r: RecordView, op: OperationView) -> Result<
    Transition,
    EscrowError,
> {
    match entry_error(cfg, r, op) {
        Some(e) => Err(e),
        None => Err(EscrowError::InvalidState),
    }
}

/// Creation happens once: where a record is already stored under the
/// transaction identifier, every creating operation fails with
/// `InvalidState`, whatever else is passed.
pub proof fn law_creation_happens_once(
    transaction_id: u64,
    parties: Parties,
    amount: u64,
    other_amount: u64,
    expiry_seconds: u64,
    list: Seq<MilestoneView>,
    currency: Currency,
    funding: Funding,
    now: i64,
)
    ensures
        initialize_escrow_model(
            true,
            transaction_id,
            parties,
            amount,
            expiry_seconds,
            currency,
            funding,
            now,
        ) == Err::<Transition, EscrowError>(EscrowError::InvalidState),
        initialize_milestone_escrow_model(
            true,
            transaction_id,
            parties,
            amount,
            list,
            currency,
            funding,
        ) == Err::<Transition, EscrowError>(EscrowError::InvalidState),
        initialize_rental_escrow_model(
            true,
            transaction_id,
            parties,
            amount,
            other_amount,
            currency,
            funding,
        ) == Err::<Transition, EscrowError>(EscrowError::InvalidState),
{
}

/// No release without entitlement: an operation succeeds only if the
/// caller holds the role it asks for, holds the stake where one is asked
/// for, and passes a well-formed description where one is asked for.
/// Releases on expiry and automatic releases ask for no role.
pub proof fn law_only_entitled_calls_succeed(cfg: ConfigRecord, r: RecordView, op: OperationView)
    ensures
        step(cfg, r, op) is Ok ==> entry_error(cfg, r, op) is None,
        entry_error(cfg, r, op) matches Some(e) ==> step(cfg, r, op) == Err::<
            Transition,
            EscrowError,
        >(e),
{
}

/// Funds never get stuck: whatever state an open escrow is in, its agent can
/// complete it in at most two calls, by opening a dispute unless one is open
/// already and then deciding it, and these calls pay out exactly what
/// custody holds. This needs fee rates of at most 100%, a stake that
/// suffices and a well-formed description.
pub proof fn law_funds_never_stuck(
    cfg: ConfigRecord,
    r: RecordView,
    stake: u64,
    description: Seq<char>,
)
    requires
        r.wf(),
        !r.is_completed,
        cfg.wf(),
        cfg.stake_suffices(stake),
        description_ok(description),
    ensures
        ({
            let open = Call {
                config: cfg,
                operation: OperationView::StartDispute { caller: r.agent, stake, description },
            };
            let decide = Call {
                config: cfg,
                operation: OperationView::ResolveDispute { caller: r.agent, stake, winner: r.seller },
            };
            let calls = if r.is_disputed {
                seq![decide]
            } else {
                seq![open, decide]
            };
            record_after(r, calls).is_completed && paid_by(r, calls) == r.held()
        }),
{
    let open = Call {
        config: cfg,
        operation: OperationView::StartDispute { caller: r.agent, stake, description },
    };
    let decide = Call {
        config: cfg,
        operation: OperationView::ResolveDispute { caller: r.agent, stake, winner: r.seller },
    };
    let none = Seq::<Call>::empty();
    assert(record_after(r, none) == r);
    if r.is_disputed {
        let calls = seq![decide];
        assert(calls.drop_last() =~= none);
        assert(calls.last() == decide);
        lemma_resolve_dispute_sound(cfg, r, r.agent, stake, r.seller);
        law_fee_determinism(
            r.plan.outstanding() as u64,
            rate_for(cfg, r.plan),
            r.currency is Native,
        );
        assert(record_after(r, calls).is_completed);
        law_conservation(r, calls);
    } else {
        let first = seq![open];
        let calls = seq![open, decide];
        assert(first.drop_last() =~= none);
        assert(first.last() == open);
        assert(calls.drop_last() =~= first);
        assert(calls.last() == decide);
        lemma_start_dispute_sound(cfg, r, r.agent, stake, description);
        let disputed = record_after(r, first);
        assert(disputed.is_disputed && !disputed.is_completed && disputed.wf());
        lemma_resolve_dispute_sound(cfg, disputed, r.agent, stake, r.seller);
        law_fee_determinism(
            disputed.plan.outstanding() as u64,
            rate_for(cfg, disputed.plan),
            disputed.currency is Native,
        );
        assert(record_after(r, calls).is_completed);
        law_conservation(r, calls);
    }
}

/// Too early is no failure: a release on expiry or an automatic release that
/// is refused only because its time has not come changes nothing, and the
/// same call succeeds once the time has come, at a standard rate of at most
/// 100%.
pub proof fn law_too_early_is_retriable(cfg: ConfigRecord, r: RecordView, now: i64, later: i64)
    requires
        r.wf(),
        cfg.standard_fee_bps <= 10_000,
    ensures
        release_on_expiry_model(cfg, r, now) == Err::<Transition, EscrowError>(
            EscrowError::NotYetDue,
        ) && later >= r.plan->Flat_release_timestamp ==> release_on_expiry_model(cfg, r, later)
            is Ok,
        auto_release_model(r, now) == Err::<Transition, EscrowError>(EscrowError::NotYetDue)
            && later >= deadline_of(r) ==> auto_release_model(r, later) is Ok,
{
    if r.plan is Flat {
        law_fee_determinism(r.plan->Flat_amount, cfg.standard_fee_bps, r.currency is Native);
    }
}

/// Completion is final: on a completed record every operation fails and
/// changes nothing. It fails with `InvalidState`, unless the caller's role,
/// the arbiter's stake or the form of the description is already refused.
pub proof fn law_completion_is_final(cfg: ConfigRecord, r: RecordView, op: OperationView)
    requires
        r.is_completed,
    ensures
        step(cfg, r, op) == refused(cfg, r, op),
        entry_error(cfg, r, op) is None ==> step(cfg, r, op) == Err::<Transition, EscrowError>(
            EscrowError::InvalidState,
        ),
{
}

/// A completed record is terminal: no sequence of calls changes it or moves
/// any funds.
pub proof fn law_completed_record_is_terminal(r: RecordView, calls: Seq<Call>)
    requires
        r.is_completed,
    ensures
        record_after(r, calls) == r,
        paid_by(r, calls) == 0,
    decreases calls.len(),
{
    if calls.len() > 0 {
        law_completed_record_is_terminal(r, calls.drop_last());
        law_completion_is_final(calls.last().config, r, calls.last().operation);
    }
}

/// Whether an operation moves funds in the ordinary course, that is, without
/// deciding a dispute.
pub open spec fn is_ordinary_release(op: OperationView) -> bool {
    op is ReleaseFull || op is ReleaseMilestone || op is ReleaseOnExpiry || op is ReturnDeposit
        || op is AutoRelease
}

/// The dispute gate: on a disputed record every ordinary release fails and
/// changes nothing. It fails with `InvalidState`, unless the caller's role is
/// already refused.
pub proof fn law_dispute_gate(cfg: ConfigRecord, r: RecordView, op: OperationView)
    requires
        r.is_disputed,
        is_ordinary_release(op),
    ensures
        step(cfg, r, op) == refused(cfg, r, op),
        entry_error(cfg, r, op) is None ==> step(cfg, r, op) == Err::<Transition, EscrowError>(
            EscrowError::InvalidState,
        ),
{
}

/// Whether a record is a rental escrow whose deposit has been partially
/// returned.
pub open spec fn is_partial(r: RecordView) -> bool {
    r.plan matches PlanView::RentalDeposit { status: DepositReleaseStatus::Partial { .. }, .. }
}

/// The deadline for contesting a partial return.
pub open spec fn deadline_of(r: RecordView) -> i64
    recommends
        is_partial(r),
{
    r.plan->RentalDeposit_status->Partial_dispute_deadline
}

/// The window of a partial return: on an undisputed record, the buyer's
/// dispute with a well-formed description succeeds exactly while the
/// deposit is partially returned and the deadline has not come, and the
/// automatic release succeeds exactly when the deposit is partially returned
/// and the deadline has come. So at any time exactly one of the two succeeds
/// on a partially returned deposit, and neither on any other record.
pub proof fn law_partial_deposit_window(r: RecordView, description: Seq<char>, now: i64)
    requires
        r.wf(),
        !r.is_disputed,
        description_ok(description),
    ensures
        dispute_deposit_model(r, r.buyer, description, now) is Ok <==> is_partial(r) && now
            < deadline_of(r),
        auto_release_model(r, now) is Ok <==> is_partial(r) && now >= deadline_of(r),
        is_partial(r) ==> (dispute_deposit_model(r, r.buyer, description, now) is Ok
            <==> !(auto_release_model(r, now) is Ok)),
        !is_partial(r) ==> !(dispute_deposit_model(r, r.buyer, description, now) is Ok) && !(
        auto_release_model(r, now) is Ok),
{
}

/// Creation opens the books: each creating operation that succeeds leaves
/// the record that its arguments describe, well-formed, open, undisputed and
/// without a dispute description; it takes exactly the plan's total from the
/// buyer into custody, pays nothing out and skims no fee.
pub proof fn law_creation_opens_books(
    occupied: bool,
    transaction_id: u64,
    parties: Parties,
    amount: u64,
    rent: u64,
    expiry_seconds: u64,
    list: Seq<MilestoneView>,
    currency: Currency,
    funding: Funding,
    now: i64,
)
    ensures
        initialize_escrow_model(
            occupied,
            transaction_id,
            parties,
            amount,
            expiry_seconds,
            currency,
            funding,
            now,
        ) matches Ok(t) ==> {
            &&& opens_books(t)
            &&& t.outcome.deposit == amount
            &&& t.record == fresh_record(
                transaction_id,
                parties,
                currency,
                PlanView::Flat { amount, release_timestamp: (now + expiry_seconds) as i64 },
            )
        },
        initialize_milestone_escrow_model(
            occupied,
            transaction_id,
            parties,
            amount,
            list,
            currency,
            funding,
        ) matches Ok(t) ==> {
            &&& opens_books(t)
            &&& t.outcome.deposit == amount
            &&& t.record == fresh_record(
                transaction_id,
                parties,
                currency,
                PlanView::Milestones { list },
            )
        },
        initialize_rental_escrow_model(
            occupied,
            transaction_id,
            parties,
            rent,
            amount,
            currency,
            funding,
        ) matches Ok(t) ==> {
            &&& opens_books(t)
            &&& t.outcome.deposit == amount
            &&& t.record == fresh_record(
                transaction_id,
                parties,
                currency,
                PlanView::RentalDeposit {
                    rent,
                    deposit: amount,
                    status: DepositReleaseStatus::Unreleased,
                },
            )
        },
{
    lemma_initialize_escrow_sound(
        occupied,
        transaction_id,
        parties,
        amount,
        expiry_seconds,
        currency,
        funding,
        now,
    );
    lemma_initialize_milestone_escrow_sound(
        occupied,
        transaction_id,
        parties,
        amount,
        list,
        currency,
        funding,
    );
    lemma_initialize_rental_escrow_sound(
        occupied,
        transaction_id,
        parties,
        rent,
        amount,
        currency,
        funding,
    );
}

/// When creation succeeds: exactly when no record is stored under the
/// transaction identifier, the amount to be escrowed lies in the accepted
/// band, the funds offered are in the escrow's currency and cover the
/// amount, and, for a flat escrow, the expiry lies within the horizon and
/// the release time can be represented; for a milestone escrow, the list is
/// not empty, no milestone is marked as released and the amounts add up to
/// the total.
pub proof fn law_creation_succeeds(
    occupied: bool,
    transaction_id: u64,
    parties: Parties,
    amount: u64,
    rent: u64,
    expiry_seconds: u64,
    list: Seq<MilestoneView>,
    currency: Currency,
    funding: Funding,
    now: i64,
)
    ensures
        initialize_escrow_model(
            occupied,
            transaction_id,
            parties,
            amount,
            expiry_seconds,
            currency,
            funding,
            now,
        ) is Ok <==> {
            &&& !occupied
            &&& in_band(amount as int)
            &&& expiry_seconds <= MAX_EXPIRY_SECONDS
            &&& now + expiry_seconds <= i64::MAX
            &&& funding.currency == currency
            &&& funding.balance >= amount
        },
        initialize_milestone_escrow_model(
            occupied,
            transaction_id,
            parties,
            amount,
            list,
            currency,
            funding,
        ) is Ok <==> {
            &&& !occupied
            &&& in_band(amount as int)
            &&& list.len() > 0
            &&& none_completed(list)
            &&& milestones_total(list) == amount
            &&& funding.currency == currency
            &&& funding.balance >= amount
        },
        initialize_rental_escrow_model(
            occupied,
            transaction_id,
            parties,
            rent,
            amount,
            currency,
            funding,
        ) is Ok <==> {
            &&& !occupied
            &&& in_band(amount as int)
            &&& funding.currency == currency
            &&& funding.balance >= amount
        },
{
}

/// A milestone escrow created from milestones that add up to `total`
/// records exactly that total: it is what is taken from the buyer, what
/// custody holds, and the sum of the milestones. The record keeps the list as
/// it was passed: its length, its order, and each milestone's amount and
/// description, none of them released. Nothing is paid out.
pub proof fn law_milestone_escrow_total(
    transaction_id: u64,
    parties: Parties,
    total: u64,
    list: Seq<MilestoneView>,
    currency: Currency,
    funding: Funding,
)
    ensures
        initialize_milestone_escrow_model(
            false,
            transaction_id,
            parties,
            total,
            list,
            currency,
            funding,
        ) matches Ok(t) ==> {
            &&& milestones_total(list) == total
            &&& t.record.plan == (PlanView::Milestones { list })
            &&& none_completed(list)
            &&& !t.record.is_completed
            &&& t.record.plan.total() == total
            &&& t.record.held() == total
            &&& t.outcome.deposit == total
            &&& t.outcome.payouts == Seq::<Payout>::empty()
            &&& t.outcome.paid() == 0
        },
{
    lemma_initialize_milestone_escrow_sound(
        false,
        transaction_id,
        parties,
        total,
        list,
        currency,
        funding,
    );
    lemma_payouts_total_none();
}

/// A fresh rental escrow has no window: its deposit is unreleased, so at
/// every time the buyer's dispute and the automatic release both fail on it,
/// whoever calls and whatever is passed, until a partial return opens the
/// window. An entitled buyer with a well-formed description and the
/// automatic release are both told that there is no partial release.
pub proof fn law_fresh_rental_has_no_window(
    transaction_id: u64,
    parties: Parties,
    rent: u64,
    deposit: u64,
    currency: Currency,
    funding: Funding,
    caller: Identity,
    description: Seq<char>,
    now: i64,
)
    ensures
        initialize_rental_escrow_model(
            false,
            transaction_id,
            parties,
            rent,
            deposit,
            currency,
            funding,
        ) matches Ok(t) ==> {
            &&& !is_partial(t.record)
            &&& dispute_deposit_model(t.record, caller, description, now) is Err
            &&& caller == parties.buyer && description_ok(description) ==> dispute_deposit_model(
                t.record,
                caller,
                description,
                now,
            ) == Err::<Transition, EscrowError>(EscrowError::NoPartialRelease)
            &&& auto_release_model(t.record, now) == Err::<Transition, EscrowError>(
                EscrowError::NoPartialRelease,
            )
        },
{
}

/// What the release of a flat escrow pays: on an open, undisputed flat
/// escrow and at a standard rate of at most 100%, the agent's release
/// succeeds, and it pays the fee that the fee rule defines on the escrow's
/// amount to the fee recipient and the net amount to the seller.
pub proof fn law_flat_release_pays(cfg: ConfigRecord, r: RecordView)
    requires
        cfg.standard_fee_bps <= 10_000,
        r.plan is Flat,
        !r.is_disputed,
        !r.is_completed,
    ensures
        release_full_model(cfg, r, r.agent) matches Ok(t) && t.record.is_completed
            && t.outcome.payouts == seq![
            Payout {
                payee: cfg.fee_recipient,
                amount: fee_of(
                    r.plan->Flat_amount as int,
                    cfg.standard_fee_bps as int,
                    r.currency is Native,
                ) as u64,
            },
            Payout {
                payee: r.seller,
                amount: net_of(
                    r.plan->Flat_amount as int,
                    cfg.standard_fee_bps as int,
                    r.currency is Native,
                ) as u64,
            },
        ],
{
    law_fee_determinism(r.plan->Flat_amount, cfg.standard_fee_bps, r.currency is Native);
}

/// What the release of one milestone pays: on an open, undisputed milestone
/// escrow and at a milestone rate of at most 100%, the agent's release of an
/// unreleased milestone succeeds, and it pays the fee that the fee rule
/// defines on that milestone's amount to the fee recipient and the net
/// amount to the seller.
pub proof fn law_milestone_release_pays(cfg: ConfigRecord, r: RecordView, index: usize)
    requires
        cfg.milestone_fee_bps <= 10_000,
        r.plan is Milestones,
        index < r.plan->Milestones_list.len(),
        !r.plan->Milestones_list[index as int].completed,
        !r.is_disputed,
        !r.is_completed,
    ensures
        release_milestone_model(cfg, r, r.agent, index) matches Ok(t) && t.outcome.payouts
            == seq![
            Payout {
                payee: cfg.fee_recipient,
                amount: fee_of(
                    r.plan->Milestones_list[index as int].amount as int,
                    cfg.milestone_fee_bps as int,
                    r.currency is Native,
                ) as u64,
            },
            Payout {
                payee: r.seller,
                amount: net_of(
                    r.plan->Milestones_list[index as int].amount as int,
                    cfg.milestone_fee_bps as int,
                    r.currency is Native,
                ) as u64,
            },
        ],
{
    law_fee_determinism(
        r.plan->Milestones_list[index as int].amount,
        cfg.milestone_fee_bps,
        r.currency is Native,
    );
}

/// The sum of the fees taken when every milestone of a list is released on
/// its own at `bps`.
pub open spec fn milestones_fee_sum(list: Seq<MilestoneView>, bps: u16, currency: Currency) -> int
    decreases list.len(),
{
    if list.len() == 0 {
        0
    } else {
        milestones_fee_sum(list.drop_last(), bps, currency) + fee_of(
            list.last().amount as int,
            bps as int,
            currency is Native,
        )
    }
}

/// The sum of the net amounts paid to the seller when every milestone of a
/// list is released on its own at `bps`.
pub open spec fn milestones_net_sum(list: Seq<MilestoneView>, bps: u16, currency: Currency) -> int
    decreases list.len(),
{
    if list.len() == 0 {
        0
    } else {
        milestones_net_sum(list.drop_last(), bps, currency) + net_of(
            list.last().amount as int,
            bps as int,
            currency is Native,
        )
    }
}

/// The sum of what rounding down takes from the proportional fee of each
/// milestone, in ten-thousandths of a base unit.
pub open spec fn rounding_loss(list: Seq<MilestoneView>, bps: u16) -> int
    decreases list.len(),
{
    if list.len() == 0 {
        0
    } else {
        rounding_loss(list.drop_last(), bps) + (list.last().amount * bps) % 10_000
    }
}

/// Whether the minimum fee plays no part in releasing the milestones of a
/// list: the currency is not the native one, or every milestone's
/// proportional fee is positive.
pub open spec fn minimum_fee_free(list: Seq<MilestoneView>, bps: u16, currency: Currency) -> bool {
    !(currency is Native) || forall|i: int|
        0 <= i < list.len() ==> proportional_fee(
            (#[trigger] list[i]).amount as int,
            bps as int,
        ) > 0
}

/// The sum of the proportional fees of a list.
pub open spec fn proportional_fee_sum(list: Seq<MilestoneView>, bps: u16) -> int
    decreases list.len(),
{
    if list.len() == 0 {
        0
    } else {
        proportional_fee_sum(list.drop_last(), bps) + proportional_fee(
            list.last().amount as int,
            bps as int,
        )
    }
}

/// The total times the rate is ten thousand times the sum of the
/// proportional fees, plus what rounding took.
pub proof fn lemma_rounding_decomposition(list: Seq<MilestoneView>, bps: u16)
    ensures
        milestones_total(list) * bps == 10_000 * proportional_fee_sum(list, bps) + rounding_loss(
            list,
            bps,
        ),
        0 <= rounding_loss(list, bps),
        0 <= proportional_fee_sum(list, bps),
        0 <= milestones_total(list),
    decreases list.len(),
{
    if list.len() > 0 {
        lemma_rounding_decomposition(list.drop_last(), bps);
        let t = milestones_total(list.drop_last());
        let a = list.last().amount as int;
        let b = bps as int;
        assert((t + a) * b == t * b + a * b) by (nonlinear_arith);
        assert(0 <= a * b) by (nonlinear_arith)
            requires
                0 <= a,
                0 <= b,
        ;
    }
}

/// Where the minimum fee plays no part, the fees of the single releases are
/// the proportional fees.
pub proof fn lemma_fee_sum_is_proportional(list: Seq<MilestoneView>, bps: u16, currency: Currency)
    requires
        bps <= 10_000,
        minimum_fee_free(list, bps, currency),
    ensures
        milestones_fee_sum(list, bps, currency) == proportional_fee_sum(list, bps),
        currency is Native && list.len() > 0 ==> proportional_fee_sum(list, bps) > 0,
    decreases list.len(),
{
    if list.len() > 0 {
        let earlier = list.drop_last();
        assert forall|i: int| 0 <= i < earlier.len() implies !(currency is Native)
            || proportional_fee((#[trigger] earlier[i]).amount as int, bps as int)
            > 0 by {
            assert(earlier[i] == list[i]);
        }
        lemma_fee_sum_is_proportional(earlier, bps, currency);
        lemma_rounding_decomposition(earlier, bps);
        assert(list.last() == list[list.len() - 1]);
        lemma_fee_within_gross(list.last().amount as int, bps as int, currency is Native);
        lemma_fee_within_gross(list.last().amount as int, bps as int, false);
    }
}

/// Fees and net amounts of the single releases add up to the total.
pub proof fn lemma_single_releases_total(list: Seq<MilestoneView>, bps: u16, currency: Currency)
    requires
        bps <= 10_000,
    ensures
        milestones_fee_sum(list, bps, currency) + milestones_net_sum(list, bps, currency)
            == milestones_total(list),
    decreases list.len(),
{
    if list.len() > 0 {
        lemma_single_releases_total(list.drop_last(), bps, currency);
        lemma_fee_within_gross(list.last().amount as int, bps as int, currency is Native);
    }
}

/// Milestones against a flat release at the same rate. Releasing every
/// milestone of a list on its own pays out, in fees and net amounts
/// together, exactly the list's total, as a flat release of that total does.
/// The net amounts alone add up to the net amount of the flat release
/// exactly when the fees add up to its fee; and where the minimum fee plays
/// no part, that is exactly when rounding down the single fees loses less
/// than one base unit in all.
pub proof fn law_milestones_match_flat_release(
    list: Seq<MilestoneView>,
    bps: u16,
    currency: Currency,
)
    requires
        bps <= 10_000,
    ensures
        milestones_fee_sum(list, bps, currency) + milestones_net_sum(list, bps, currency)
            == milestones_total(list),
        fee_of(milestones_total(list), bps as int, currency is Native) + net_of(
            milestones_total(list),
            bps as int,
            currency is Native,
        ) == milestones_total(list),
        milestones_net_sum(list, bps, currency) == net_of(
            milestones_total(list),
            bps as int,
            currency is Native,
        ) <==> milestones_fee_sum(list, bps, currency) == fee_of(
            milestones_total(list),
            bps as int,
            currency is Native,
        ),
        minimum_fee_free(list, bps, currency) ==> (milestones_net_sum(list, bps, currency)
            == net_of(milestones_total(list), bps as int, currency is Native) <==> rounding_loss(
            list,
            bps,
        ) < 10_000),
{
    let total = milestones_total(list);
    lemma_rounding_decomposition(list, bps);
    lemma_single_releases_total(list, bps, currency);
    if minimum_fee_free(list, bps, currency) {
        lemma_fee_sum_is_proportional(list, bps, currency);
        let f = proportional_fee_sum(list, bps);
        let r = rounding_loss(list, bps);
        assert((10_000 * f + r) / 10_000 == f + r / 10_000);
        assert(proportional_fee(total, bps as int) == f + r / 10_000);
        if currency is Native && list.len() == 0 {
            assert(total == 0);
        }
    }
}

} // verus!
