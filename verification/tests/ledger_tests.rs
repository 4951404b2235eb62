use polfund::ledger::Polfund;
use polfund::types::{Error, Loan, Message};

fn fresh() -> Polfund {
    Polfund::new(String::from("fund"), String::from("somewhere"), 99)
}

#[test]
fn new_ledger_is_empty() {
    let p = fresh();
    assert_eq!(p.get_campaign(1), None);
    assert_eq!(p.get_backer_balance(1), 0);
    assert_eq!(p.get_loan(0), None);
    assert_eq!(p.get_locked_assets(1), 0);
    assert_eq!(p.get_staked_assets(1), 0);
    assert_eq!(p.get_messages(1, 2), Vec::<Message>::new());
}

#[test]
fn create_campaign_starts_open() {
    let mut p = fresh();
    p.create_campaign(1, 1000, 100);
    let c = p.get_campaign(1).unwrap();
    assert_eq!(c.creator, 1);
    assert_eq!(c.target_amount, 1000);
    assert_eq!(c.current_amount, 0);
    assert_eq!(c.deadline, 100);
    assert!(!c.is_closed);
}

#[test]
fn create_campaign_overwrites_prior() {
    let mut p = fresh();
    p.create_campaign(1, 1000, 100);
    assert_eq!(p.contribute_to_campaign(2, 10, 1, 400), Ok(()));
    p.create_campaign(1, 5000, 200);
    let c = p.get_campaign(1).unwrap();
    assert_eq!(c.target_amount, 5000);
    assert_eq!(c.current_amount, 0);
    assert_eq!(c.deadline, 200);
    assert!(!c.is_closed);
    // The old contribution record stays behind, keyed to the creator.
    assert_eq!(p.get_backer_record(1, 2), 400);
}

#[test]
fn contributions_accumulate() {
    let mut p = fresh();
    p.create_campaign(1, 1000, 100);
    assert_eq!(p.contribute_to_campaign(2, 10, 1, 100), Ok(()));
    assert_eq!(p.contribute_to_campaign(2, 20, 1, 50), Ok(()));
    assert_eq!(p.get_campaign(1).unwrap().current_amount, 150);
    assert_eq!(p.get_backer_record(1, 2), 150);
}

#[test]
fn contributions_from_two_backers_share_the_total() {
    let mut p = fresh();
    p.create_campaign(1, 1000, 100);
    assert_eq!(p.contribute_to_campaign(2, 10, 1, 100), Ok(()));
    assert_eq!(p.contribute_to_campaign(3, 20, 1, 25), Ok(()));
    assert_eq!(p.get_campaign(1).unwrap().current_amount, 125);
    assert_eq!(p.get_backer_record(1, 2), 100);
    assert_eq!(p.get_backer_record(1, 3), 25);
}

#[test]
fn contribute_to_missing_campaign_is_not_found() {
    let mut p = fresh();
    assert_eq!(p.contribute_to_campaign(2, 10, 1, 100), Err(Error::NotFound));
}

#[test]
fn contribute_to_closed_campaign_fails_regardless_of_amount() {
    let mut p = fresh();
    p.create_campaign(1, 1000, 100);
    assert_eq!(p.close_campaign(100, 1), Ok(()));
    assert_eq!(p.contribute_to_campaign(2, 150, 1, 0), Err(Error::CampaignClosed));
    assert_eq!(
        p.contribute_to_campaign(2, 150, 1, u128::MAX),
        Err(Error::CampaignClosed)
    );
    assert_eq!(p.get_campaign(1).unwrap().current_amount, 0);
}

#[test]
fn contribute_at_or_after_deadline_fails() {
    let mut p = fresh();
    p.create_campaign(1, 1000, 100);
    assert_eq!(p.contribute_to_campaign(2, 100, 1, 10), Err(Error::DeadlinePassed));
    assert_eq!(p.contribute_to_campaign(2, 101, 1, 10), Err(Error::DeadlinePassed));
    assert_eq!(p.contribute_to_campaign(2, 99, 1, 10), Ok(()));
}

#[test]
fn contribute_overflow_is_refused_without_effect() {
    let mut p = fresh();
    p.create_campaign(1, 1000, 100);
    assert_eq!(p.contribute_to_campaign(2, 10, 1, u128::MAX), Ok(()));
    assert_eq!(
        p.contribute_to_campaign(3, 20, 1, 1),
        Err(Error::ArithmeticOverflow)
    );
    assert_eq!(p.get_campaign(1).unwrap().current_amount, u128::MAX);
    assert_eq!(p.get_backer_record(1, 3), 0);
}

#[test]
fn close_before_deadline_is_too_early() {
    let mut p = fresh();
    p.create_campaign(1, 1000, 100);
    assert_eq!(p.close_campaign(99, 1), Err(Error::TooEarly));
    assert!(!p.get_campaign(1).unwrap().is_closed);
}

#[test]
fn close_at_deadline_succeeds_and_is_idempotent() {
    let mut p = fresh();
    p.create_campaign(1, 1000, 100);
    assert_eq!(p.close_campaign(100, 1), Ok(()));
    assert!(p.get_campaign(1).unwrap().is_closed);
    assert_eq!(p.close_campaign(250, 1), Ok(()));
    assert!(p.get_campaign(1).unwrap().is_closed);
}

#[test]
fn close_missing_campaign_is_not_found() {
    let mut p = fresh();
    assert_eq!(p.close_campaign(100, 1), Err(Error::NotFound));
}

#[test]
fn loans_are_kept_in_insertion_order() {
    let mut p = fresh();
    p.lend(4, 500, 250, 12, 700);
    p.lend(5, 900, 100, 6, 50);
    assert_eq!(
        p.get_loan(0),
        Some(Loan { borrower: 4, amount: 500, interest_rate: 250, duration: 12, collateral: 700 })
    );
    assert_eq!(
        p.get_loan(1),
        Some(Loan { borrower: 5, amount: 900, interest_rate: 100, duration: 6, collateral: 50 })
    );
    assert_eq!(p.get_loan(2), None);
    assert_eq!(p.get_loan(u32::MAX), None);
}

#[test]
fn withdraw_without_self_record_is_a_no_op() {
    let mut p = fresh();
    assert_eq!(p.withdraw(2, 1_000_000), Ok(()));
    assert_eq!(p.get_backer_balance(2), 0);
}

#[test]
fn withdraw_within_balance_subtracts() {
    let mut p = fresh();
    p.create_campaign(5, 1000, 100);
    assert_eq!(p.contribute_to_campaign(5, 10, 5, 500), Ok(()));
    assert_eq!(p.get_backer_balance(5), 500);
    assert_eq!(p.withdraw(5, 200), Ok(()));
    assert_eq!(p.get_backer_balance(5), 300);
    assert_eq!(p.withdraw(5, 300), Ok(()));
    assert_eq!(p.get_backer_balance(5), 0);
}

#[test]
fn withdraw_beyond_balance_fails_and_changes_nothing() {
    let mut p = fresh();
    p.create_campaign(5, 1000, 100);
    assert_eq!(p.contribute_to_campaign(5, 10, 5, 500), Ok(()));
    assert_eq!(p.withdraw(5, 501), Err(Error::InsufficientBalance));
    assert_eq!(p.get_backer_balance(5), 500);
}

#[test]
fn withdraw_from_zero_valued_record_still_checks_the_balance() {
    let mut p = fresh();
    p.create_campaign(5, 1000, 100);
    // A contribution of zero creates a record of value zero: unlike a missing
    // record, it makes an over-large withdrawal fail.
    assert_eq!(p.contribute_to_campaign(5, 10, 5, 0), Ok(()));
    assert_eq!(p.withdraw(5, 1), Err(Error::InsufficientBalance));
    assert_eq!(p.withdraw(5, 0), Ok(()));
}

#[test]
fn backer_balance_reads_only_the_self_record() {
    let mut p = fresh();
    p.create_campaign(1, 1000, 100);
    assert_eq!(p.contribute_to_campaign(2, 10, 1, 400), Ok(()));
    // The contribution is recorded under (creator, backer), not under the
    // backer's own diagonal key.
    assert_eq!(p.get_backer_balance(2), 0);
    assert_eq!(p.get_backer_record(1, 2), 400);
}

#[test]
fn messages_are_directional_and_ordered() {
    let mut p = fresh();
    p.send_message(1, 2, String::from("hello"));
    p.send_message(1, 2, String::from("again"));
    assert_eq!(
        p.get_messages(1, 2),
        vec![
            Message { sender: 1, recipient: 2, content: String::from("hello") },
            Message { sender: 1, recipient: 2, content: String::from("again") },
        ]
    );
    assert_eq!(p.get_messages(2, 1), Vec::<Message>::new());
    p.send_message(2, 1, String::from("reply"));
    assert_eq!(
        p.get_messages(2, 1),
        vec![Message { sender: 2, recipient: 1, content: String::from("reply") }]
    );
    assert_eq!(p.get_messages(1, 2).len(), 2);
}

#[test]
fn self_messages_use_the_diagonal_key() {
    let mut p = fresh();
    p.send_message(3, 3, String::from("note to self"));
    assert_eq!(
        p.get_messages(3, 3),
        vec![Message { sender: 3, recipient: 3, content: String::from("note to self") }]
    );
}

#[test]
fn lock_and_stake_are_independent_ledgers() {
    let mut p = fresh();
    assert_eq!(p.lock_assets(1, 100), Ok(()));
    assert_eq!(p.lock_assets(1, 50), Ok(()));
    assert_eq!(p.stake_assets(1, 7), Ok(()));
    assert_eq!(p.get_locked_assets(1), 150);
    assert_eq!(p.get_staked_assets(1), 7);
    assert_eq!(p.get_locked_assets(2), 0);
    assert_eq!(p.stake_assets(2, 9), Ok(()));
    assert_eq!(p.get_staked_assets(2), 9);
    assert_eq!(p.get_locked_assets(1), 150);
}

#[test]
fn lock_overflow_is_refused_without_effect() {
    let mut p = fresh();
    assert_eq!(p.lock_assets(1, u128::MAX), Ok(()));
    assert_eq!(p.lock_assets(1, 1), Err(Error::ArithmeticOverflow));
    assert_eq!(p.get_locked_assets(1), u128::MAX);
}

#[test]
fn stake_overflow_is_refused_without_effect() {
    let mut p = fresh();
    assert_eq!(p.stake_assets(1, u128::MAX), Ok(()));
    assert_eq!(p.stake_assets(1, 1), Err(Error::ArithmeticOverflow));
    assert_eq!(p.get_staked_assets(1), u128::MAX);
}

#[test]
fn campaign_lifecycle_end_to_end() {
    let t: u64 = 1000;
    let mut p = fresh();
    p.create_campaign(1, 1000, t + 100);
    assert_eq!(p.contribute_to_campaign(2, t + 10, 1, 300), Ok(()));
    assert_eq!(p.get_campaign(1).unwrap().current_amount, 300);
    assert_eq!(p.contribute_to_campaign(3, t + 50, 1, 200), Ok(()));
    assert_eq!(p.get_campaign(1).unwrap().current_amount, 500);
    assert_eq!(p.close_campaign(t + 60, 1), Err(Error::TooEarly));
    assert_eq!(p.close_campaign(t + 101, 1), Ok(()));
    assert_eq!(p.contribute_to_campaign(2, t + 102, 1, 1), Err(Error::CampaignClosed));
    assert_eq!(p.get_campaign(1).unwrap().current_amount, 500);
}
