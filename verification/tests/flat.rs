use aigent_framework::config::ConfigRecord;
use aigent_framework::lifecycle::{close_escrow, initialize_escrow};
use aigent_framework::machine::{
    release_full, release_milestone, release_on_expiry, resolve_dispute, start_dispute,
};
use aigent_framework::outcome::{Event, Outcome, Payout};
use aigent_framework::record::{EscrowRecord, Funding, Parties, SettlementPlan};
use aigent_framework::types::{
    Currency, EscrowError, Identity, MAX_AMOUNT, MAX_EXPIRY_SECONDS, MIN_AMOUNT,
};

fn id(n: u128) -> Identity {
    Identity { hi: 0, lo: n }
}

const AUTHORITY: u128 = 1;
const BUYER: u128 = 2;
const SELLER: u128 = 3;
const AGENT: u128 = 4;
const RECIPIENT: u128 = 5;

fn config() -> ConfigRecord {
    ConfigRecord {
        authority: id(AUTHORITY),
        fee_recipient: id(RECIPIENT),
        standard_fee_bps: 500,
        milestone_fee_bps: 250,
        required_arbiter_stake: 0,
        currency_kind: Currency::Native,
    }
}

fn parties() -> Parties {
    Parties { buyer: id(BUYER), seller: id(SELLER), agent: id(AGENT) }
}

fn funds(balance: u64) -> Funding {
    Funding { currency: Currency::Native, balance }
}

fn flat(amount: u64, expiry: u64, now: i64) -> EscrowRecord {
    let mut slot = None;
    initialize_escrow(&mut slot, 7, parties(), amount, expiry, Currency::Native, funds(amount), now)
        .unwrap();
    slot.unwrap()
}

fn paid(outcome: &Outcome) -> u128 {
    outcome.payouts.iter().map(|p| p.amount as u128).sum()
}

#[test]
fn initialize_escrow_creates_flat_record() {
    let mut slot = None;
    let outcome = initialize_escrow(
        &mut slot,
        7,
        parties(),
        50_000_000,
        3_600,
        Currency::Native,
        funds(60_000_000),
        1_000,
    )
    .unwrap();
    assert_eq!(
        outcome,
        Outcome {
            deposit: 50_000_000,
            payouts: vec![],
            event: Some(Event::EscrowInitialized {
                transaction_id: 7,
                buyer: id(BUYER),
                seller: id(SELLER),
                amount: 50_000_000,
            }),
        }
    );
    assert_eq!(
        slot,
        Some(EscrowRecord {
            transaction_id: 7,
            buyer: id(BUYER),
            seller: id(SELLER),
            agent: id(AGENT),
            currency: Currency::Native,
            plan: SettlementPlan::Flat { amount: 50_000_000, release_timestamp: 4_600 },
            is_disputed: false,
            is_completed: false,
            dispute_description: String::new(),
        })
    );
    assert!(slot.unwrap().is_valid());
}

#[test]
fn initialize_escrow_refuses_an_occupied_slot() {
    let mut slot = Some(flat(50_000_000, 10, 0));
    let before = slot.clone();
    let res = initialize_escrow(
        &mut slot,
        7,
        parties(),
        2_000_000,
        10,
        Currency::Native,
        funds(2_000_000),
        0,
    );
    assert_eq!(res, Err(EscrowError::InvalidState));
    assert_eq!(slot, before);
}

#[test]
fn initialize_escrow_checks_the_amount_band() {
    let mut slot = None;
    let p = parties();
    let c = Currency::Native;
    assert_eq!(
        initialize_escrow(&mut slot, 7, p, 0, 10, c, funds(u64::MAX), 0),
        Err(EscrowError::InvalidArgument)
    );
    assert_eq!(
        initialize_escrow(&mut slot, 7, p, MIN_AMOUNT - 1, 10, c, funds(u64::MAX), 0),
        Err(EscrowError::InvalidArgument)
    );
    assert_eq!(
        initialize_escrow(&mut slot, 7, p, MAX_AMOUNT + 1, 10, c, funds(u64::MAX), 0),
        Err(EscrowError::InvalidArgument)
    );
    assert_eq!(slot, None);
    assert!(initialize_escrow(&mut slot, 7, p, MIN_AMOUNT, 10, c, funds(u64::MAX), 0).is_ok());
    let mut slot = None;
    assert!(initialize_escrow(&mut slot, 7, p, MAX_AMOUNT, 10, c, funds(u64::MAX), 0).is_ok());
}

#[test]
fn initialize_escrow_checks_the_expiry_horizon() {
    let mut slot = None;
    let p = parties();
    let c = Currency::Native;
    assert_eq!(
        initialize_escrow(&mut slot, 7, p, MIN_AMOUNT, MAX_EXPIRY_SECONDS + 1, c, funds(u64::MAX), 0),
        Err(EscrowError::InvalidArgument)
    );
    assert_eq!(
        initialize_escrow(&mut slot, 7, p, MIN_AMOUNT, u64::MAX, c, funds(u64::MAX), 0),
        Err(EscrowError::InvalidArgument)
    );
    assert_eq!(slot, None);
    assert!(
        initialize_escrow(&mut slot, 7, p, MIN_AMOUNT, MAX_EXPIRY_SECONDS, c, funds(u64::MAX), 5).is_ok()
    );
    assert_eq!(
        slot.unwrap().plan,
        SettlementPlan::Flat { amount: MIN_AMOUNT, release_timestamp: 31_536_005 }
    );
}

#[test]
fn initialize_escrow_refuses_a_release_time_beyond_range() {
    let mut slot = None;
    assert_eq!(
        initialize_escrow(&mut slot, 7, parties(), MIN_AMOUNT, 1, Currency::Native, funds(u64::MAX), i64::MAX),
        Err(EscrowError::ArithmeticOverflow)
    );
    assert_eq!(slot, None);
    assert!(initialize_escrow(
        &mut slot,
        7,
        parties(),
        MIN_AMOUNT,
        0,
        Currency::Native,
        funds(u64::MAX),
        i64::MAX
    )
    .is_ok());
}

#[test]
fn initialize_escrow_checks_currency_then_funds() {
    let mut slot = None;
    let token = Currency::Fungible(id(42));
    assert_eq!(
        initialize_escrow(&mut slot, 7, parties(), MIN_AMOUNT, 1, token, funds(0), 0),
        Err(EscrowError::CurrencyMismatch)
    );
    assert_eq!(
        initialize_escrow(
            &mut slot,
            7,
            parties(),
            MIN_AMOUNT,
            1,
            token,
            Funding { currency: Currency::Fungible(id(43)), balance: u64::MAX },
            0
        ),
        Err(EscrowError::CurrencyMismatch)
    );
    assert_eq!(
        initialize_escrow(&mut slot, 7, parties(), MIN_AMOUNT, 1, Currency::Native, funds(MIN_AMOUNT - 1), 0),
        Err(EscrowError::InsufficientFunds)
    );
    assert_eq!(slot, None);
    assert!(initialize_escrow(
        &mut slot,
        7,
        parties(),
        MIN_AMOUNT,
        1,
        token,
        Funding { currency: token, balance: MIN_AMOUNT },
        0
    )
    .is_ok());
}

#[test]
fn release_full_pays_fee_and_net_then_refuses_a_second_call() {
    let mut record = flat(50_000_000, 3_600, 0);
    let outcome = release_full(&config(), &mut record, id(AGENT)).unwrap();
    assert_eq!(
        outcome,
        Outcome {
            deposit: 0,
            payouts: vec![
                Payout { payee: id(RECIPIENT), amount: 2_500_000 },
                Payout { payee: id(SELLER), amount: 47_500_000 },
            ],
            event: Some(Event::PaymentReleased {
                transaction_id: 7,
                recipient: id(SELLER),
                amount: 47_500_000,
            }),
        }
    );
    assert!(record.is_completed);
    assert!(record.is_valid());
    let after = record.clone();
    assert_eq!(release_full(&config(), &mut record, id(AGENT)), Err(EscrowError::InvalidState));
    assert_eq!(record, after);
}

#[test]
fn release_full_is_for_the_agent_only() {
    let mut record = flat(50_000_000, 3_600, 0);
    let before = record.clone();
    for caller in [BUYER, SELLER, AUTHORITY, RECIPIENT, 0] {
        assert_eq!(release_full(&config(), &mut record, id(caller)), Err(EscrowError::Unauthorized));
    }
    assert_eq!(record, before);
}

#[test]
fn release_full_pays_everything_that_was_deposited() {
    for amount in [MIN_AMOUNT, 1_000_001, 50_000_000, 999_999_999, MAX_AMOUNT] {
        for bps in [0u16, 1, 33, 500, 9_999, 10_000] {
            let mut cfg = config();
            cfg.standard_fee_bps = bps;
            let mut record = flat(amount, 10, 0);
            let outcome = release_full(&cfg, &mut record, id(AGENT)).unwrap();
            assert_eq!(paid(&outcome), amount as u128);
            assert!(record.is_completed);
        }
    }
}

#[test]
fn release_full_charges_the_minimum_fee_in_native_currency_only() {
    let mut cfg = config();
    cfg.standard_fee_bps = 0;
    let mut record = flat(MIN_AMOUNT, 10, 0);
    let outcome = release_full(&cfg, &mut record, id(AGENT)).unwrap();
    assert_eq!(outcome.payouts[0], Payout { payee: id(RECIPIENT), amount: 5_000 });
    assert_eq!(outcome.payouts[1], Payout { payee: id(SELLER), amount: 995_000 });

    let token = Currency::Fungible(id(42));
    let mut slot = None;
    initialize_escrow(
        &mut slot,
        8,
        parties(),
        MIN_AMOUNT,
        10,
        token,
        Funding { currency: token, balance: MIN_AMOUNT },
        0,
    )
    .unwrap();
    let mut record = slot.unwrap();
    let outcome = release_full(&cfg, &mut record, id(AGENT)).unwrap();
    assert_eq!(outcome.payouts[0], Payout { payee: id(RECIPIENT), amount: 0 });
    assert_eq!(outcome.payouts[1], Payout { payee: id(SELLER), amount: 1_000_000 });
}

#[test]
fn release_on_expiry_waits_for_the_release_time() {
    let mut record = flat(50_000_000, 3_600, 1_000);
    let before = record.clone();
    assert_eq!(release_on_expiry(&config(), &mut record, 1_000), Err(EscrowError::NotYetDue));
    assert_eq!(release_on_expiry(&config(), &mut record, 4_599), Err(EscrowError::NotYetDue));
    assert_eq!(release_on_expiry(&config(), &mut record, i64::MIN), Err(EscrowError::NotYetDue));
    assert_eq!(record, before);
    let outcome = release_on_expiry(&config(), &mut record, 4_600).unwrap();
    assert_eq!(
        outcome,
        Outcome {
            deposit: 0,
            payouts: vec![
                Payout { payee: id(RECIPIENT), amount: 2_500_000 },
                Payout { payee: id(SELLER), amount: 47_500_000 },
            ],
            event: Some(Event::PaymentReleased {
                transaction_id: 7,
                recipient: id(SELLER),
                amount: 47_500_000,
            }),
        }
    );
    assert!(record.is_completed);
    assert_eq!(release_on_expiry(&config(), &mut record, 9_999), Err(EscrowError::InvalidState));
}

#[test]
fn release_on_expiry_pays_like_release_full() {
    let mut by_agent = flat(33_333_333, 60, 0);
    let mut by_time = by_agent.clone();
    let a = release_full(&config(), &mut by_agent, id(AGENT)).unwrap();
    let b = release_on_expiry(&config(), &mut by_time, 60).unwrap();
    assert_eq!(a, b);
    assert_eq!(by_agent, by_time);
}

#[test]
fn flat_escrow_has_no_milestones_to_release() {
    let mut record = flat(50_000_000, 3_600, 0);
    assert_eq!(
        release_milestone(&config(), &mut record, id(AGENT), 0),
        Err(EscrowError::InvalidState)
    );
    assert_eq!(
        release_milestone(&config(), &mut record, id(BUYER), 0),
        Err(EscrowError::Unauthorized)
    );
}

#[test]
fn dispute_blocks_every_ordinary_release_of_a_flat_escrow() {
    let mut record = flat(50_000_000, 3_600, 0);
    start_dispute(&config(), &mut record, id(AGENT), 0, String::from("goods not delivered")).unwrap();
    let before = record.clone();
    assert_eq!(release_full(&config(), &mut record, id(AGENT)), Err(EscrowError::InvalidState));
    assert_eq!(release_on_expiry(&config(), &mut record, 1_000_000), Err(EscrowError::InvalidState));
    assert_eq!(release_on_expiry(&config(), &mut record, 0), Err(EscrowError::InvalidState));
    assert_eq!(
        release_milestone(&config(), &mut record, id(AGENT), 0),
        Err(EscrowError::InvalidState)
    );
    assert_eq!(record, before);
}

#[test]
fn completed_flat_escrow_refuses_every_operation() {
    let mut record = flat(50_000_000, 3_600, 0);
    release_full(&config(), &mut record, id(AGENT)).unwrap();
    let before = record.clone();
    let cfg = config();
    assert_eq!(release_full(&cfg, &mut record, id(AGENT)), Err(EscrowError::InvalidState));
    assert_eq!(release_on_expiry(&cfg, &mut record, 10_000), Err(EscrowError::InvalidState));
    assert_eq!(release_milestone(&cfg, &mut record, id(AGENT), 0), Err(EscrowError::InvalidState));
    assert_eq!(
        start_dispute(&cfg, &mut record, id(AGENT), 0, String::from("late")),
        Err(EscrowError::InvalidState)
    );
    assert_eq!(
        resolve_dispute(&cfg, &mut record, id(AGENT), 0, id(BUYER)),
        Err(EscrowError::InvalidState)
    );
    assert_eq!(record, before);
}

#[test]
fn close_escrow_reclaims_a_completed_record() {
    let mut record = flat(50_000_000, 3_600, 0);
    release_full(&config(), &mut record, id(AGENT)).unwrap();
    let mut slot = Some(record);
    assert_eq!(close_escrow(&config(), &mut slot, id(AUTHORITY)), Ok(()));
    assert_eq!(slot, None);
    assert_eq!(close_escrow(&config(), &mut slot, id(AUTHORITY)), Err(EscrowError::InvalidState));
}

#[test]
fn close_escrow_is_for_the_authority_only() {
    let mut record = flat(50_000_000, 3_600, 0);
    release_full(&config(), &mut record, id(AGENT)).unwrap();
    let mut slot = Some(record);
    let before = slot.clone();
    for caller in [BUYER, SELLER, AGENT, RECIPIENT, 0] {
        assert_eq!(close_escrow(&config(), &mut slot, id(caller)), Err(EscrowError::Unauthorized));
    }
    assert_eq!(
        close_escrow(&ConfigRecord::uninitialized(), &mut slot, Identity::nobody()),
        Err(EscrowError::Unauthorized)
    );
    assert_eq!(slot, before);
}

#[test]
fn close_escrow_refuses_an_open_record() {
    let mut slot = Some(flat(50_000_000, 3_600, 0));
    let before = slot.clone();
    assert_eq!(close_escrow(&config(), &mut slot, id(AUTHORITY)), Err(EscrowError::InvalidState));
    assert_eq!(slot, before);
}

#[test]
fn record_validity_of_flat_plans() {
    let mut record = flat(MIN_AMOUNT, 10, 0);
    assert!(record.is_valid());
    record.plan = SettlementPlan::Flat { amount: MIN_AMOUNT - 1, release_timestamp: 10 };
    assert!(!record.is_valid());
    record.plan = SettlementPlan::Flat { amount: MAX_AMOUNT + 1, release_timestamp: 10 };
    assert!(!record.is_valid());
    record.plan = SettlementPlan::Flat { amount: MAX_AMOUNT, release_timestamp: -10 };
    assert!(record.is_valid());
    record.dispute_description = "x".repeat(1_024);
    assert!(record.is_valid());
    record.dispute_description = "x".repeat(1_025);
    assert!(!record.is_valid());
    record.dispute_description = String::new();
    assert!(record.is_valid());
    record.is_disputed = true;
    assert!(!record.is_valid());
    record.dispute_description = String::from("x");
    assert!(record.is_valid());
}

#[test]
fn release_under_a_rate_above_whole_overflows_and_changes_nothing() {
    let mut cfg = config();
    cfg.standard_fee_bps = 10_001;
    let mut record = flat(50_000_000, 3_600, 0);
    let before = record.clone();
    assert_eq!(release_full(&cfg, &mut record, id(AGENT)), Err(EscrowError::ArithmeticOverflow));
    assert_eq!(release_on_expiry(&cfg, &mut record, 3_600), Err(EscrowError::ArithmeticOverflow));
    assert_eq!(record, before);
    start_dispute(&cfg, &mut record, id(AGENT), 0, String::from("x")).unwrap();
    let before = record.clone();
    assert_eq!(
        resolve_dispute(&cfg, &mut record, id(AGENT), 0, id(SELLER)),
        Err(EscrowError::ArithmeticOverflow)
    );
    assert_eq!(record, before);
    cfg.standard_fee_bps = 10_000;
    let outcome = resolve_dispute(&cfg, &mut record, id(AGENT), 0, id(SELLER)).unwrap();
    assert_eq!(outcome.payouts[0], Payout { payee: id(RECIPIENT), amount: 50_000_000 });
    assert_eq!(outcome.payouts[1], Payout { payee: id(SELLER), amount: 0 });
}
