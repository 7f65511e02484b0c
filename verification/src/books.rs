//! Bookkeeping: every successful operation leaves a well-formed record and
//! takes from custody exactly what it pays out.

use vstd::prelude::*;
use crate::config::ConfigRecord;
use crate::fee::{fee_split, law_fee_determinism};
use crate::milestones::{
    lemma_all_completed_nothing_remains, lemma_release_accounting, lemma_remaining_bounds,
};
use crate::model::{
    auto_release_model, dispute_deposit_model, fee_then_net, initialize_escrow_model,
    initialize_milestone_escrow_model, initialize_rental_escrow_model, none_completed,
    rate_for, release_full_model, release_milestone_model, release_on_expiry_model,
    resolve_dispute_model, return_deposit_model, settle_dispute_model, start_dispute_model,
    with_released, Transition,
};
use crate::outcome::{
    lemma_payouts_total_none, lemma_payouts_total_one, lemma_payouts_total_two, payouts_total,
    Payout,
};
use crate::record::{
    all_completed, byte_len, milestones_remaining, milestones_total, DepositReleaseStatus,
    Funding, MilestoneView, Parties, PlanView, RecordView,
};
use crate::types::{Currency, Identity};

verus! {

/// Whether a step from `r` to `t` keeps the books: the record stays
/// well-formed, the parties, the currency, the identifier and the escrowed
/// total stay what they were, and custody shrinks by exactly what is paid
/// out.
pub open spec fn keeps_books(r: RecordView, t: Transition) -> bool {
    &&& t.record.wf()
    &&& t.record.transaction_id == r.transaction_id
    &&& t.record.buyer == r.buyer
    &&& t.record.seller == r.seller
    &&& t.record.agent == r.agent
    &&& t.record.currency == r.currency
    &&& t.record.plan.total() == r.plan.total()
    &&& t.outcome.deposit == 0
    &&& t.record.held() + t.outcome.paid() == r.held()
}

/// Where the fee rule succeeds, fee and net add up to the amount released.
pub proof fn lemma_fee_then_net_total(
    cfg: ConfigRecord,
    payee: Identity,
    gross: u64,
    bps: u16,
    is_native: bool,
)
    ensures
        fee_split(gross, bps, is_native) matches Ok((fee, net)) ==> payouts_total(
            fee_then_net(cfg, payee, fee, net),
        ) == gross,
{
    law_fee_determinism(gross, bps, is_native);
    if let Ok((fee, net)) = fee_split(gross, bps, is_native) {
        lemma_payouts_total_two(
            Payout { payee: cfg.fee_recipient, amount: fee },
            Payout { payee, amount: net },
        );
    }
}

/// A successful release by the agent keeps the books.
pub proof fn lemma_release_full_sound(cfg: ConfigRecord, r: RecordView, caller: Identity)
    requires
        r.wf(),
    ensures
        release_full_model(cfg, r, caller) matches Ok(t) ==> keeps_books(r, t) && t.record.is_completed,
{
    if let PlanView::Flat { amount, .. } = r.plan {
        lemma_fee_then_net_total(
            cfg,
            r.seller,
            amount,
            cfg.standard_fee_bps,
            r.currency is Native,
        );
    }
}

/// A successful release on expiry keeps the books.
pub proof fn lemma_release_on_expiry_sound(cfg: ConfigRecord, r: RecordView, now: i64)
    requires
        r.wf(),
    ensures
        release_on_expiry_model(cfg, r, now) matches Ok(t) ==> keeps_books(r, t) && t.record.is_completed,
{
    if let PlanView::Flat { amount, .. } = r.plan {
        lemma_fee_then_net_total(
            cfg,
            r.seller,
            amount,
            cfg.standard_fee_bps,
            r.currency is Native,
        );
    }
}

/// A successful release of a milestone keeps the books.
pub proof fn lemma_release_milestone_sound(
    cfg: ConfigRecord,
    r: RecordView,
    caller: Identity,
    index: usize,
)
    requires
        r.wf(),
    ensures
        release_milestone_model(cfg, r, caller, index) matches Ok(t) ==> keeps_books(r, t),
{
    if let Ok(t) = release_milestone_model(cfg, r, caller, index) {
        let list = r.plan->Milestones_list;
        let after = with_released(list, index as int);
        lemma_release_accounting(list, index as int);
        lemma_fee_then_net_total(
            cfg,
            r.seller,
            list[index as int].amount,
            cfg.milestone_fee_bps,
            r.currency is Native,
        );
        if all_completed(after) {
            lemma_all_completed_nothing_remains(after);
        }
    }
}

/// A successfully opened dispute moves nothing and keeps the books.
pub proof fn lemma_start_dispute_sound(
    cfg: ConfigRecord,
    r: RecordView,
    caller: Identity,
    stake: u64,
    description: Seq<char>,
)
    requires
        r.wf(),
    ensures
        start_dispute_model(cfg, r, caller, stake, description) matches Ok(t) ==> keeps_books(r, t)
            && t.outcome.paid() == 0 && t.record.is_disputed,
{
    lemma_payouts_total_none();
}

/// A successfully resolved dispute keeps the books and completes the escrow.
pub proof fn lemma_resolve_dispute_sound(
    cfg: ConfigRecord,
    r: RecordView,
    caller: Identity,
    stake: u64,
    winner: Identity,
)
    requires
        r.wf(),
    ensures
        resolve_dispute_model(cfg, r, caller, stake, winner) matches Ok(t) ==> keeps_books(r, t)
            && t.record.is_completed && 0 <= r.plan.outstanding() <= r.plan.total(),
{
    if let PlanView::Milestones { list } = r.plan {
        lemma_remaining_bounds(list);
    }
    lemma_fee_then_net_total(
        cfg,
        winner,
        r.plan.outstanding() as u64,
        rate_for(cfg, r.plan),
        r.currency is Native,
    );
}

/// A successful return of the deposit keeps the books.
pub proof fn lemma_return_deposit_sound(r: RecordView, caller: Identity, amount: u64, now: i64)
    requires
        r.wf(),
    ensures
        return_deposit_model(r, caller, amount, now) matches Ok(t) ==> keeps_books(r, t),
{
    lemma_payouts_total_one(Payout { payee: r.buyer, amount });
}

/// A successfully contested deposit moves nothing and keeps the books.
pub proof fn lemma_dispute_deposit_sound(
    r: RecordView,
    caller: Identity,
    description: Seq<char>,
    now: i64,
)
    requires
        r.wf(),
    ensures
        dispute_deposit_model(r, caller, description, now) matches Ok(t) ==> keeps_books(r, t)
            && t.outcome.paid() == 0 && t.record.is_disputed,
{
    lemma_payouts_total_none();
}

/// A successful settlement keeps the books and completes the escrow.
pub proof fn lemma_settle_dispute_sound(
    r: RecordView,
    caller: Identity,
    buyer_amount: u64,
    seller_amount: u64,
)
    requires
        r.wf(),
    ensures
        settle_dispute_model(r, caller, buyer_amount, seller_amount) matches Ok(t) ==> keeps_books(
            r,
            t,
        ) && t.record.is_completed,
{
    lemma_payouts_total_two(
        Payout { payee: r.buyer, amount: buyer_amount },
        Payout { payee: r.seller, amount: seller_amount },
    );
}

/// A successful automatic release keeps the books and completes the escrow.
pub proof fn lemma_auto_release_sound(r: RecordView, now: i64)
    requires
        r.wf(),
    ensures
        auto_release_model(r, now) matches Ok(t) ==> keeps_books(r, t) && t.record.is_completed,
{
    if let PlanView::RentalDeposit {
        deposit,
        status: DepositReleaseStatus::Partial { released_amount, .. },
        ..
    } = r.plan {
        lemma_payouts_total_one(
            Payout { payee: r.seller, amount: (deposit - released_amount) as u64 },
        );
    }
}

/// Whether a transition opens the books of a new escrow correctly: the
/// record is well-formed, open and undisputed with an empty dispute
/// description, the amount taken from the buyer is the plan's total, nothing
/// is paid out, and custody holds all that was taken.
pub open spec fn opens_books(t: Transition) -> bool {
    &&& t.record.wf()
    &&& !t.record.is_completed
    &&& !t.record.is_disputed
    &&& t.record.dispute_description == Seq::<char>::empty()
    &&& t.outcome.deposit == t.record.plan.total()
    &&& t.outcome.payouts == Seq::<Payout>::empty()
    &&& t.outcome.paid() == 0
    &&& t.record.held() == t.outcome.deposit
}

/// The empty text has no bytes.
pub proof fn lemma_empty_text()
    ensures
        byte_len(Seq::<char>::empty()) == 0,
{
}

/// A successfully created flat escrow opens the books correctly.
pub proof fn lemma_initialize_escrow_sound(
    occupied: bool,
    transaction_id: u64,
    parties: Parties,
    amount: u64,
    expiry_seconds: u64,
    currency: Currency,
    funding: Funding,
    now: i64,
)
    ensures
        initialize_escrow_model(
            occupied,
            transaction_id,
            parties,
            amount,
            expiry_seconds,
            currency,
            funding,
            now,
        ) matches Ok(t) ==> opens_books(t) && t.outcome.deposit == amount,
{
    lemma_empty_text();
    lemma_payouts_total_none();
}

/// A successfully created milestone escrow opens the books correctly, and
/// its total is the sum of its milestones.
pub proof fn lemma_initialize_milestone_escrow_sound(
    occupied: bool,
    transaction_id: u64,
    parties: Parties,
    total: u64,
    list: Seq<MilestoneView>,
    currency: Currency,
    funding: Funding,
)
    ensures
        initialize_milestone_escrow_model(
            occupied,
            transaction_id,
            parties,
            total,
            list,
            currency,
            funding,
        ) matches Ok(t) ==> opens_books(t) && t.record.plan.total() == total
            && t.record.plan.total() == milestones_total(list),
{
    lemma_empty_text();
    lemma_payouts_total_none();
    if initialize_milestone_escrow_model(
        occupied,
        transaction_id,
        parties,
        total,
        list,
        currency,
        funding,
    ) is Ok {
        assert(!list[0].completed);
        lemma_none_completed_all_remains(list);
    }
}

/// While no milestone has been released, the whole total is outstanding.
pub proof fn lemma_none_completed_all_remains(list: Seq<MilestoneView>)
    requires
        none_completed(list),
    ensures
        milestones_remaining(list) == milestones_total(list),
    decreases list.len(),
{
    if list.len() > 0 {
        assert(!list.last().completed);
        assert forall|i: int| 0 <= i < list.drop_last().len() implies !(
        #[trigger] list.drop_last()[i]).completed by {
            assert(!list[i].completed);
        }
        lemma_none_completed_all_remains(list.drop_last());
    }
}

/// A successfully created rental escrow opens the books correctly.
pub proof fn lemma_initialize_rental_escrow_sound(
    occupied: bool,
    transaction_id: u64,
    parties: Parties,
    rent: u64,
    deposit: u64,
    currency: Currency,
    funding: Funding,
)
    ensures
        initialize_rental_escrow_model(
            occupied,
            transaction_id,
            parties,
            rent,
            deposit,
            currency,
            funding,
        ) matches Ok(t) ==> opens_books(t) && t.outcome.deposit == deposit,
{
    lemma_empty_text();
    lemma_payouts_total_none();
}

} // verus!
