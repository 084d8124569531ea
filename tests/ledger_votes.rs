use chrono::Datelike;
use rtv_ledger::ledger::{Choice, Ledger, LedgerError};

fn id(s: &str) -> String {
    s.to_string()
}

#[test]
fn two_voters_and_a_repeat_on_day_five() {
    let mut l = Ledger::new();
    assert_eq!(l.record_vote(3, 5, id("a"), Choice::Red), Ok(()));
    assert_eq!(l.record_vote(3, 5, id("b"), Choice::Blue), Ok(()));
    assert_eq!(l.record_vote(3, 5, id("a"), Choice::Red), Err(LedgerError::AlreadyVoted));
    assert_eq!(l.current_tally(3, 5), (1, 1));
}

#[test]
fn first_day_with_no_slot_thirty_reports_zero_yesterday() {
    let mut l = Ledger::new();
    assert_eq!(l.previous_tally(4, 1), (0, 0));
    assert_eq!(l.day(), 1);
    assert_eq!(l.month(), 4);
}

#[test]
fn second_vote_same_day_is_rejected_for_either_choice() {
    let mut l = Ledger::new();
    assert_eq!(l.record_vote(6, 12, id("v"), Choice::Blue), Ok(()));
    assert_eq!(l.record_vote(6, 12, id("v"), Choice::Blue), Err(LedgerError::AlreadyVoted));
    assert_eq!(l.record_vote(6, 12, id("v"), Choice::Red), Err(LedgerError::AlreadyVoted));
    assert_eq!(l.current_tally(6, 12), (0, 1));
}

#[test]
fn has_voted_is_false_before_and_true_after_a_vote() {
    let mut l = Ledger::new();
    assert!(!l.has_voted(5, 20, &id("v")));
    assert_eq!(l.record_vote(5, 20, id("v"), Choice::Red), Ok(()));
    assert!(l.has_voted(5, 20, &id("v")));
    assert!(!l.has_voted(5, 20, &id("w")));
}

#[test]
fn a_new_day_lets_yesterdays_voters_vote_again() {
    let mut l = Ledger::new();
    assert_eq!(l.record_vote(5, 7, id("v"), Choice::Red), Ok(()));
    assert!(!l.has_voted(5, 8, &id("v")));
    assert_eq!(l.record_vote(5, 8, id("v"), Choice::Red), Ok(()));
    assert_eq!(l.current_tally(5, 8), (1, 0));
    assert_eq!(l.previous_tally(5, 8), (1, 0));
}

#[test]
fn first_of_the_month_reads_yesterday_from_slot_thirty() {
    let mut l = Ledger::new();
    assert_eq!(l.record_vote(4, 29, id("x"), Choice::Blue), Ok(()));
    assert_eq!(l.record_vote(4, 30, id("x"), Choice::Red), Ok(()));
    assert_eq!(l.record_vote(4, 30, id("y"), Choice::Red), Ok(()));
    assert_eq!(l.previous_tally(5, 1), (2, 0));
    assert_eq!(l.current_tally(5, 1), (0, 0));
}

#[test]
fn thirty_first_is_not_yesterday_of_the_first() {
    let mut l = Ledger::new();
    assert_eq!(l.record_vote(3, 31, id("x"), Choice::Red), Ok(()));
    assert_eq!(l.previous_tally(4, 1), (0, 0));
}

#[test]
fn reading_twice_on_the_same_day_changes_nothing() {
    let mut l = Ledger::new();
    assert_eq!(l.record_vote(8, 3, id("v"), Choice::Red), Ok(()));
    l.reconcile(8, 3);
    l.reconcile(8, 3);
    assert_eq!(l.current_tally(8, 3), (1, 0));
    assert_eq!(l.current_tally(8, 3), (1, 0));
    assert!(l.has_voted(8, 3, &id("v")));
    assert_eq!(l.previous_tally(8, 3), (0, 0));
    assert_eq!(l.current_tally(8, 3), (1, 0));
}

#[test]
fn same_day_of_another_month_is_no_transition() {
    let mut l = Ledger::new();
    assert_eq!(l.record_vote(1, 9, id("v"), Choice::Red), Ok(()));
    assert!(l.has_voted(2, 9, &id("v")));
    assert_eq!(l.month(), 1);
    assert_eq!(l.record_vote(2, 9, id("v"), Choice::Blue), Err(LedgerError::AlreadyVoted));
}

#[test]
fn a_day_slot_keeps_its_counts_into_the_next_month() {
    let mut l = Ledger::new();
    assert_eq!(l.record_vote(3, 15, id("v"), Choice::Red), Ok(()));
    l.reconcile(3, 16);
    assert_eq!(l.record_vote(4, 15, id("v"), Choice::Blue), Ok(()));
    assert_eq!(l.current_tally(4, 15), (1, 1));
}

#[test]
fn a_new_ledger_has_no_day() {
    let l = Ledger::new();
    assert_eq!(l.day(), 0);
    assert_eq!(l.month(), 0);
}

#[test]
fn choice_is_stored_as_red_flag() {
    assert!(Choice::Red.is_red());
    assert!(!Choice::Blue.is_red());
}

#[test]
fn now_operations_follow_the_utc_date() {
    let mut l = Ledger::new();
    let before = chrono::Utc::now();
    assert_eq!(l.current_tally_now(), (0, 0));
    let after = chrono::Utc::now();
    assert!(l.day() == before.day() || l.day() == after.day());
    assert!(l.month() == before.month() || l.month() == after.month());
    assert!((1..=31).contains(&l.day()));
    assert!((1..=12).contains(&l.month()));
}

#[test]
fn now_vote_is_counted_once() {
    let mut l = Ledger::new();
    assert!(!l.has_voted_now(&id("v")));
    assert_eq!(l.record_vote_now(id("v"), Choice::Blue), Ok(()));
    let d = l.day();
    let m = l.month();
    if l.has_voted_now(&id("v")) {
        assert_eq!(l.record_vote_now(id("v"), Choice::Red), Err(LedgerError::AlreadyVoted));
        assert_eq!(l.current_tally(m, d), (0, 1));
    }
    let _ = l.previous_tally_now();
}
