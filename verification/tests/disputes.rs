use aigent_framework::config::ConfigRecord;
use aigent_framework::lifecycle::{initialize_escrow, initialize_milestone_escrow};
use aigent_framework::machine::{
    description_is_ok, release_milestone, resolve_dispute, start_dispute,
};
use aigent_framework::outcome::{Event, Outcome, Payout};
use aigent_framework::record::{EscrowRecord, Funding, Milestone, Parties};
use aigent_framework::types::{Currency, EscrowError, Identity};

fn id(n: u128) -> Identity {
    Identity { hi: 0, lo: n }
}

const BUYER: u128 = 2;
const SELLER: u128 = 3;
const AGENT: u128 = 4;
const RECIPIENT: u128 = 5;

fn config(stake: u64) -> ConfigRecord {
    ConfigRecord {
        authority: id(1),
        fee_recipient: id(RECIPIENT),
        standard_fee_bps: 500,
        milestone_fee_bps: 250,
        required_arbiter_stake: stake,
        currency_kind: Currency::Fungible(id(77)),
    }
}

fn parties() -> Parties {
    Parties { buyer: id(BUYER), seller: id(SELLER), agent: id(AGENT) }
}

fn flat(amount: u64) -> EscrowRecord {
    let mut slot = None;
    initialize_escrow(
        &mut slot,
        11,
        parties(),
        amount,
        100,
        Currency::Native,
        Funding { currency: Currency::Native, balance: amount },
        0,
    )
    .unwrap();
    slot.unwrap()
}

fn staged(amounts: &[u64]) -> EscrowRecord {
    let mut slot = None;
    let list: Vec<Milestone> = amounts
        .iter()
        .map(|a| Milestone { amount: *a, description: String::from("part"), completed: false })
        .collect();
    let total: u64 = amounts.iter().sum();
    initialize_milestone_escrow(
        &mut slot,
        12,
        parties(),
        total,
        list,
        Currency::Native,
        Funding { currency: Currency::Native, balance: total },
    )
    .unwrap();
    slot.unwrap()
}

#[test]
fn description_must_be_between_one_and_1024_bytes() {
    assert!(!description_is_ok(""));
    assert!(description_is_ok("x"));
    assert!(description_is_ok(&"x".repeat(1_024)));
    assert!(!description_is_ok(&"x".repeat(1_025)));
}

#[test]
fn description_length_is_counted_in_bytes() {
    let two_bytes_each = "\u{e9}".repeat(512);
    assert_eq!(two_bytes_each.len(), 1_024);
    assert!(description_is_ok(&two_bytes_each));
    let too_long = "\u{e9}".repeat(513);
    assert_eq!(too_long.chars().count(), 513);
    assert!(!description_is_ok(&too_long));
}

#[test]
fn start_dispute_marks_the_record_and_moves_nothing() {
    let mut record = flat(50_000_000);
    let before = record.clone();
    let outcome =
        start_dispute(&config(0), &mut record, id(AGENT), 0, String::from("not as described")).unwrap();
    assert_eq!(
        outcome,
        Outcome {
            deposit: 0,
            payouts: vec![],
            event: Some(Event::DisputeStarted { transaction_id: 11, agent: id(AGENT) }),
        }
    );
    let mut expected = before;
    expected.is_disputed = true;
    expected.dispute_description = String::from("not as described");
    assert_eq!(record, expected);
    assert!(record.is_valid());
}

#[test]
fn start_dispute_is_for_the_agent_only() {
    let mut record = flat(50_000_000);
    let before = record.clone();
    for caller in [BUYER, SELLER, RECIPIENT, 1, 0] {
        assert_eq!(
            start_dispute(&config(0), &mut record, id(caller), u64::MAX, String::from("x")),
            Err(EscrowError::Unauthorized)
        );
    }
    assert_eq!(record, before);
}

#[test]
fn start_dispute_asks_for_the_arbiter_stake() {
    let mut record = flat(50_000_000);
    let before = record.clone();
    assert_eq!(
        start_dispute(&config(1_000), &mut record, id(AGENT), 999, String::from("x")),
        Err(EscrowError::InsufficientPrivilege)
    );
    assert_eq!(
        start_dispute(&config(1_000), &mut record, id(AGENT), 0, String::new()),
        Err(EscrowError::InsufficientPrivilege)
    );
    assert_eq!(record, before);
    assert!(start_dispute(&config(1_000), &mut record, id(AGENT), 1_000, String::from("x")).is_ok());
}

#[test]
fn start_dispute_checks_the_description() {
    let mut record = flat(50_000_000);
    let before = record.clone();
    assert_eq!(
        start_dispute(&config(0), &mut record, id(AGENT), 0, String::new()),
        Err(EscrowError::InvalidArgument)
    );
    assert_eq!(
        start_dispute(&config(0), &mut record, id(AGENT), 0, "y".repeat(1_025)),
        Err(EscrowError::InvalidArgument)
    );
    assert_eq!(record, before);
    assert!(start_dispute(&config(0), &mut record, id(AGENT), 0, "y".repeat(1_024)).is_ok());
    assert_eq!(record.dispute_description.len(), 1_024);
}

#[test]
fn start_dispute_refuses_a_second_dispute() {
    let mut record = flat(50_000_000);
    start_dispute(&config(0), &mut record, id(AGENT), 0, String::from("first")).unwrap();
    let before = record.clone();
    assert_eq!(
        start_dispute(&config(0), &mut record, id(AGENT), 0, String::from("second")),
        Err(EscrowError::InvalidState)
    );
    assert_eq!(record, before);
    assert_eq!(record.dispute_description, "first");
}

#[test]
fn resolve_dispute_needs_a_dispute() {
    let mut record = flat(50_000_000);
    let before = record.clone();
    assert_eq!(
        resolve_dispute(&config(0), &mut record, id(AGENT), 0, id(BUYER)),
        Err(EscrowError::InvalidState)
    );
    assert_eq!(record, before);
}

#[test]
fn resolve_dispute_checks_caller_stake_and_winner_in_that_order() {
    let mut record = flat(50_000_000);
    start_dispute(&config(0), &mut record, id(AGENT), 0, String::from("x")).unwrap();
    let before = record.clone();
    assert_eq!(
        resolve_dispute(&config(10), &mut record, id(BUYER), 0, id(99)),
        Err(EscrowError::Unauthorized)
    );
    assert_eq!(
        resolve_dispute(&config(10), &mut record, id(AGENT), 9, id(99)),
        Err(EscrowError::InsufficientPrivilege)
    );
    assert_eq!(
        resolve_dispute(&config(10), &mut record, id(AGENT), 10, id(99)),
        Err(EscrowError::InvalidWinner)
    );
    assert_eq!(
        resolve_dispute(&config(10), &mut record, id(AGENT), 10, id(AGENT)),
        Err(EscrowError::InvalidWinner)
    );
    assert_eq!(record, before);
}

#[test]
fn resolve_dispute_pays_the_winner_everything_less_the_fee() {
    for winner in [BUYER, SELLER] {
        let mut record = flat(50_000_000);
        start_dispute(&config(0), &mut record, id(AGENT), 0, String::from("x")).unwrap();
        let outcome = resolve_dispute(&config(0), &mut record, id(AGENT), 0, id(winner)).unwrap();
        assert_eq!(
            outcome,
            Outcome {
                deposit: 0,
                payouts: vec![
                    Payout { payee: id(RECIPIENT), amount: 2_500_000 },
                    Payout { payee: id(winner), amount: 47_500_000 },
                ],
                event: Some(Event::DisputeResolved {
                    transaction_id: 11,
                    winner: id(winner),
                    amount: 47_500_000,
                }),
            }
        );
        assert!(record.is_completed);
        assert!(record.is_disputed);
        assert_eq!(record.dispute_description, "x");
        assert!(record.is_valid());
        assert_eq!(
            resolve_dispute(&config(0), &mut record, id(AGENT), 0, id(winner)),
            Err(EscrowError::InvalidState)
        );
    }
}

#[test]
fn resolve_dispute_on_milestones_pays_what_is_outstanding_at_the_milestone_rate() {
    let mut record = staged(&[10_000_000, 20_000_000, 20_000_000]);
    let first = release_milestone(&config(0), &mut record, id(AGENT), 1).unwrap();
    start_dispute(&config(0), &mut record, id(AGENT), 0, String::from("x")).unwrap();
    assert_eq!(
        release_milestone(&config(0), &mut record, id(AGENT), 0),
        Err(EscrowError::InvalidState)
    );
    let outcome = resolve_dispute(&config(0), &mut record, id(AGENT), 0, id(BUYER)).unwrap();
    assert_eq!(
        outcome.payouts,
        vec![
            Payout { payee: id(RECIPIENT), amount: 750_000 },
            Payout { payee: id(BUYER), amount: 29_250_000 },
        ]
    );
    assert!(record.is_completed);
    assert!(record.is_valid());
    let total: u64 = first.payouts.iter().chain(outcome.payouts.iter()).map(|p| p.amount).sum();
    assert_eq!(total, 50_000_000);
    assert_eq!(
        release_milestone(&config(0), &mut record, id(AGENT), 0),
        Err(EscrowError::InvalidState)
    );
}
