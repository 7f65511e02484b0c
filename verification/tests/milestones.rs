use aigent_framework::config::ConfigRecord;
use aigent_framework::lifecycle::{initialize_escrow, initialize_milestone_escrow, none_released};
use aigent_framework::machine::{release_full, release_milestone, release_on_expiry};
use aigent_framework::milestones::{all_released, outstanding_of, total_of};
use aigent_framework::outcome::{Event, Outcome, Payout};
use aigent_framework::record::{EscrowRecord, Funding, Milestone, Parties, SettlementPlan};
use aigent_framework::types::{Currency, EscrowError, Identity, MAX_AMOUNT, MIN_AMOUNT};

fn id(n: u128) -> Identity {
    Identity { hi: 0, lo: n }
}

const BUYER: u128 = 2;
const SELLER: u128 = 3;
const AGENT: u128 = 4;
const RECIPIENT: u128 = 5;

fn config(bps: u16) -> ConfigRecord {
    ConfigRecord {
        authority: id(1),
        fee_recipient: id(RECIPIENT),
        standard_fee_bps: bps,
        milestone_fee_bps: bps,
        required_arbiter_stake: 0,
        currency_kind: Currency::Native,
    }
}

fn parties() -> Parties {
    Parties { buyer: id(BUYER), seller: id(SELLER), agent: id(AGENT) }
}

fn part(amount: u64) -> Milestone {
    Milestone { amount, description: format!("part of {}", amount), completed: false }
}

fn parts(amounts: &[u64]) -> Vec<Milestone> {
    amounts.iter().map(|a| part(*a)).collect()
}

fn staged_in(amounts: &[u64], currency: Currency) -> EscrowRecord {
    let mut slot = None;
    let total: u64 = amounts.iter().sum();
    initialize_milestone_escrow(
        &mut slot,
        21,
        parties(),
        total,
        parts(amounts),
        currency,
        Funding { currency, balance: total },
    )
    .unwrap();
    slot.unwrap()
}

fn staged(amounts: &[u64]) -> EscrowRecord {
    staged_in(amounts, Currency::Native)
}

fn net_of_outcome(outcome: &Outcome) -> u64 {
    outcome.payouts[1].amount
}

#[test]
fn initialize_milestone_escrow_records_the_total() {
    let mut slot = None;
    let outcome = initialize_milestone_escrow(
        &mut slot,
        21,
        parties(),
        50_000_000,
        parts(&[10_000_000, 20_000_000, 20_000_000]),
        Currency::Native,
        Funding { currency: Currency::Native, balance: 50_000_000 },
    )
    .unwrap();
    assert_eq!(
        outcome,
        Outcome {
            deposit: 50_000_000,
            payouts: vec![],
            event: Some(Event::MilestoneEscrowInitialized {
                transaction_id: 21,
                total: 50_000_000,
                milestones: 3,
            }),
        }
    );
    let record = slot.unwrap();
    assert_eq!(
        record.plan,
        SettlementPlan::Milestones { list: parts(&[10_000_000, 20_000_000, 20_000_000]) }
    );
    assert!(!record.is_completed);
    assert!(!record.is_disputed);
    assert_eq!(record.dispute_description, "");
    assert!(record.is_valid());
    match &record.plan {
        SettlementPlan::Milestones { list } => {
            assert_eq!(total_of(list), Some(50_000_000));
            assert_eq!(outstanding_of(list), 50_000_000);
            assert!(!all_released(list));
            assert!(none_released(list));
        }
        _ => panic!("not a milestone plan"),
    }
}

#[test]
fn initialize_milestone_escrow_refuses_bad_lists() {
    let mut slot = None;
    let native = Currency::Native;
    let rich = Funding { currency: native, balance: u64::MAX };
    assert_eq!(
        initialize_milestone_escrow(&mut slot, 21, parties(), 50_000_000, vec![], native, rich),
        Err(EscrowError::InvalidArgument)
    );
    assert_eq!(
        initialize_milestone_escrow(
            &mut slot,
            21,
            parties(),
            50_000_000,
            parts(&[10_000_000, 20_000_000, 20_000_001]),
            native,
            rich
        ),
        Err(EscrowError::AmountMismatch)
    );
    assert_eq!(
        initialize_milestone_escrow(
            &mut slot,
            21,
            parties(),
            50_000_000,
            parts(&[10_000_000, 20_000_000]),
            native,
            rich
        ),
        Err(EscrowError::AmountMismatch)
    );
    let mut released = parts(&[25_000_000, 25_000_000]);
    released[1].completed = true;
    assert_eq!(
        initialize_milestone_escrow(&mut slot, 21, parties(), 50_000_000, released, native, rich),
        Err(EscrowError::InvalidArgument)
    );
    assert_eq!(slot, None);
}

#[test]
fn initialize_milestone_escrow_survives_sums_beyond_range() {
    let mut slot = None;
    let native = Currency::Native;
    let rich = Funding { currency: native, balance: u64::MAX };
    assert_eq!(
        initialize_milestone_escrow(
            &mut slot,
            21,
            parties(),
            MAX_AMOUNT,
            parts(&[u64::MAX, u64::MAX, 2]),
            native,
            rich
        ),
        Err(EscrowError::AmountMismatch)
    );
    assert_eq!(total_of(&parts(&[u64::MAX, 1])), None);
    assert_eq!(total_of(&parts(&[MAX_AMOUNT, 1])), None);
    assert_eq!(total_of(&parts(&[MAX_AMOUNT - 1, 1])), Some(MAX_AMOUNT));
    assert_eq!(total_of(&parts(&[])), Some(0));
    assert_eq!(slot, None);
}

#[test]
fn initialize_milestone_escrow_checks_band_slot_and_funding() {
    let native = Currency::Native;
    let rich = Funding { currency: native, balance: u64::MAX };
    let mut slot = None;
    assert_eq!(
        initialize_milestone_escrow(&mut slot, 21, parties(), 999_999, parts(&[999_999]), native, rich),
        Err(EscrowError::InvalidArgument)
    );
    assert_eq!(
        initialize_milestone_escrow(
            &mut slot,
            21,
            parties(),
            MAX_AMOUNT + 1,
            parts(&[MAX_AMOUNT, 1]),
            native,
            rich
        ),
        Err(EscrowError::InvalidArgument)
    );
    assert_eq!(
        initialize_milestone_escrow(
            &mut slot,
            21,
            parties(),
            MIN_AMOUNT,
            parts(&[MIN_AMOUNT]),
            Currency::Fungible(id(8)),
            rich
        ),
        Err(EscrowError::CurrencyMismatch)
    );
    assert_eq!(
        initialize_milestone_escrow(
            &mut slot,
            21,
            parties(),
            MIN_AMOUNT,
            parts(&[MIN_AMOUNT]),
            native,
            Funding { currency: native, balance: MIN_AMOUNT - 1 }
        ),
        Err(EscrowError::InsufficientFunds)
    );
    assert_eq!(slot, None);
    let mut slot = Some(staged(&[MIN_AMOUNT]));
    assert_eq!(
        initialize_milestone_escrow(&mut slot, 21, parties(), MIN_AMOUNT, parts(&[MIN_AMOUNT]), native, rich),
        Err(EscrowError::InvalidState)
    );
}

#[test]
fn milestone_escrow_accepts_zero_amount_milestones() {
    let mut record = staged(&[0, MIN_AMOUNT, 0]);
    assert!(record.is_valid());
    let outcome = release_milestone(&config(500), &mut record, id(AGENT), 0).unwrap();
    assert_eq!(
        outcome.payouts,
        vec![Payout { payee: id(RECIPIENT), amount: 0 }, Payout { payee: id(SELLER), amount: 0 }]
    );
    assert!(!record.is_completed);
}

#[test]
fn release_of_middle_milestone_pays_on_its_amount_only() {
    let mut record = staged(&[10_000_000, 20_000_000, 20_000_000]);
    let outcome = release_milestone(&config(500), &mut record, id(AGENT), 1).unwrap();
    assert_eq!(
        outcome,
        Outcome {
            deposit: 0,
            payouts: vec![
                Payout { payee: id(RECIPIENT), amount: 1_000_000 },
                Payout { payee: id(SELLER), amount: 19_000_000 },
            ],
            event: Some(Event::MilestoneReleased { transaction_id: 21, index: 1, amount: 19_000_000 }),
        }
    );
    assert!(!record.is_completed);
    let mut expected = parts(&[10_000_000, 20_000_000, 20_000_000]);
    expected[1].completed = true;
    assert_eq!(record.plan, SettlementPlan::Milestones { list: expected });
    assert!(record.is_valid());

    let outcome = release_milestone(&config(500), &mut record, id(AGENT), 0).unwrap();
    assert_eq!(
        outcome.payouts,
        vec![
            Payout { payee: id(RECIPIENT), amount: 500_000 },
            Payout { payee: id(SELLER), amount: 9_500_000 },
        ]
    );
    assert!(!record.is_completed);

    let outcome = release_milestone(&config(500), &mut record, id(AGENT), 2).unwrap();
    assert_eq!(
        outcome.payouts,
        vec![
            Payout { payee: id(RECIPIENT), amount: 1_000_000 },
            Payout { payee: id(SELLER), amount: 19_000_000 },
        ]
    );
    assert!(record.is_completed);
    assert!(record.is_valid());
    match &record.plan {
        SettlementPlan::Milestones { list } => {
            assert!(all_released(list));
            assert_eq!(outstanding_of(list), 0);
            assert_eq!(total_of(list), Some(50_000_000));
        }
        _ => panic!("not a milestone plan"),
    }
}

#[test]
fn release_milestone_uses_the_milestone_rate() {
    let mut cfg = config(500);
    cfg.milestone_fee_bps = 250;
    let mut record = staged(&[10_000_000, 20_000_000, 20_000_000]);
    let outcome = release_milestone(&cfg, &mut record, id(AGENT), 1).unwrap();
    assert_eq!(outcome.payouts[0].amount, 500_000);
    assert_eq!(outcome.payouts[1].amount, 19_500_000);
}

#[test]
fn release_milestone_refusals() {
    let mut record = staged(&[10_000_000, 20_000_000, 20_000_000]);
    let before = record.clone();
    assert_eq!(
        release_milestone(&config(500), &mut record, id(SELLER), 0),
        Err(EscrowError::Unauthorized)
    );
    assert_eq!(
        release_milestone(&config(500), &mut record, id(AGENT), 3),
        Err(EscrowError::InvalidArgument)
    );
    assert_eq!(
        release_milestone(&config(500), &mut record, id(AGENT), usize::MAX),
        Err(EscrowError::InvalidArgument)
    );
    assert_eq!(record, before);
    release_milestone(&config(500), &mut record, id(AGENT), 2).unwrap();
    let before = record.clone();
    assert_eq!(
        release_milestone(&config(500), &mut record, id(AGENT), 2),
        Err(EscrowError::InvalidState)
    );
    assert_eq!(record, before);
}

#[test]
fn milestone_escrow_is_not_released_at_once_or_by_time() {
    let mut record = staged(&[10_000_000, 20_000_000, 20_000_000]);
    let before = record.clone();
    assert_eq!(release_full(&config(500), &mut record, id(AGENT)), Err(EscrowError::InvalidState));
    assert_eq!(release_on_expiry(&config(500), &mut record, i64::MAX), Err(EscrowError::InvalidState));
    assert_eq!(record, before);
}

#[test]
fn completed_milestone_escrow_refuses_further_releases() {
    let mut record = staged(&[MIN_AMOUNT]);
    release_milestone(&config(500), &mut record, id(AGENT), 0).unwrap();
    assert!(record.is_completed);
    let before = record.clone();
    assert_eq!(
        release_milestone(&config(500), &mut record, id(AGENT), 0),
        Err(EscrowError::InvalidState)
    );
    assert_eq!(
        release_milestone(&config(500), &mut record, id(AGENT), 5),
        Err(EscrowError::InvalidState)
    );
    assert_eq!(record, before);
}

#[test]
fn milestones_pay_the_same_net_as_a_flat_release_when_nothing_is_rounded() {
    let amounts = [10_000_000u64, 20_000_000, 20_000_000];
    let mut record = staged(&amounts);
    let mut net: u64 = 0;
    let mut all: u64 = 0;
    for index in [2usize, 0, 1] {
        let outcome = release_milestone(&config(500), &mut record, id(AGENT), index).unwrap();
        net += net_of_outcome(&outcome);
        all += outcome.payouts.iter().map(|p| p.amount).sum::<u64>();
    }
    assert!(record.is_completed);
    assert_eq!(all, 50_000_000);

    let mut slot = None;
    initialize_escrow(
        &mut slot,
        22,
        parties(),
        50_000_000,
        10,
        Currency::Native,
        Funding { currency: Currency::Native, balance: 50_000_000 },
        0,
    )
    .unwrap();
    let mut flat = slot.unwrap();
    let outcome = release_full(&config(500), &mut flat, id(AGENT)).unwrap();
    assert_eq!(net, 47_500_000);
    assert_eq!(net_of_outcome(&outcome), 47_500_000);
}

#[test]
fn milestones_pay_more_net_than_a_flat_release_when_rounding_adds_up() {
    let token = Currency::Fungible(id(42));
    let mut record = staged_in(&[1_000_001, 1_000_001], token);
    let a = release_milestone(&config(5_000), &mut record, id(AGENT), 0).unwrap();
    let b = release_milestone(&config(5_000), &mut record, id(AGENT), 1).unwrap();
    assert_eq!(a.payouts[0].amount, 500_000);
    assert_eq!(b.payouts[0].amount, 500_000);
    assert_eq!(net_of_outcome(&a) + net_of_outcome(&b), 1_000_002);

    let mut slot = None;
    initialize_escrow(
        &mut slot,
        23,
        parties(),
        2_000_002,
        10,
        token,
        Funding { currency: token, balance: 2_000_002 },
        0,
    )
    .unwrap();
    let mut flat = slot.unwrap();
    let outcome = release_full(&config(5_000), &mut flat, id(AGENT)).unwrap();
    assert_eq!(outcome.payouts[0].amount, 1_000_001);
    assert_eq!(net_of_outcome(&outcome), 1_000_001);
}

#[test]
fn record_validity_of_milestone_plans() {
    let mut record = staged(&[MIN_AMOUNT, 5]);
    assert!(record.is_valid());
    record.plan = SettlementPlan::Milestones { list: vec![] };
    assert!(!record.is_valid());
    record.plan = SettlementPlan::Milestones { list: parts(&[MIN_AMOUNT - 1]) };
    assert!(!record.is_valid());
    record.plan = SettlementPlan::Milestones { list: parts(&[MAX_AMOUNT, 1]) };
    assert!(!record.is_valid());
    record.plan = SettlementPlan::Milestones { list: parts(&[u64::MAX, u64::MAX]) };
    assert!(!record.is_valid());
    let mut done = parts(&[MIN_AMOUNT]);
    done[0].completed = true;
    record.plan = SettlementPlan::Milestones { list: done };
    assert!(!record.is_valid());
    record.is_completed = true;
    assert!(record.is_valid());
}

#[test]
fn milestone_release_under_a_rate_above_whole_overflows_and_changes_nothing() {
    let mut record = staged(&[10_000_000, 20_000_000, 0]);
    let before = record.clone();
    assert_eq!(
        release_milestone(&config(20_000), &mut record, id(AGENT), 1),
        Err(EscrowError::ArithmeticOverflow)
    );
    assert_eq!(record, before);
    let outcome = release_milestone(&config(20_000), &mut record, id(AGENT), 2).unwrap();
    assert_eq!(
        outcome.payouts,
        vec![Payout { payee: id(RECIPIENT), amount: 0 }, Payout { payee: id(SELLER), amount: 0 }]
    );
}
