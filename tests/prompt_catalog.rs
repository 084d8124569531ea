use rtv_ledger::ledger::{Choice, Ledger};
use rtv_ledger::prompts::{Prompt, PromptCatalog, QuestionType};
use rtv_ledger::service::{
    latest_question_and_results, latest_question_and_results_now, previous_question_and_results,
    rocket,
};

fn prompt(red: &str, blue: &str, kind: QuestionType) -> Prompt {
    Prompt { red: red.to_string(), blue: blue.to_string(), kind }
}

/// A catalog whose April list has 30 entries "r<i>"/"b<i>" and whose other
/// months are empty.
fn april_catalog() -> PromptCatalog {
    let mut months: Vec<Vec<Prompt>> = Vec::new();
    for m in 1..=12 {
        let mut list = Vec::new();
        if m == 4 {
            for i in 1..=30 {
                let kind = if i % 3 == 0 { QuestionType::TOT } else { QuestionType::WWW };
                list.push(prompt(&format!("r{}", i), &format!("b{}", i), kind));
            }
        }
        months.push(list);
    }
    PromptCatalog::new(months)
}

#[test]
fn question_type_tags() {
    assert_eq!(QuestionType::WYR.tag(), "WYR");
    assert_eq!(QuestionType::WWW.tag(), "WWW");
    assert_eq!(QuestionType::TOT.tag(), "TOT");
}

#[test]
fn prompt_lookup_by_month_and_index() {
    let c = april_catalog();
    assert_eq!(c.num_months(), 12);
    assert_eq!(c.prompt_for(4, 0).map(|p| p.red.clone()), Some("r1".to_string()));
    assert!(c.prompt_for(4, 30).is_none());
    assert!(c.prompt_for(3, 0).is_none());
    assert!(c.prompt_for(0, 0).is_none());
    assert!(c.prompt_for(13, 0).is_none());
}

#[test]
fn current_prompt_is_entry_day_minus_one() {
    let c = april_catalog();
    let p = c.current_prompt(4, 6).unwrap();
    assert_eq!(p.red, "r6");
    assert_eq!(p.blue, "b6");
    assert_eq!(p.kind, QuestionType::TOT);
    assert!(c.current_prompt(4, 0).is_none());
}

#[test]
fn previous_prompt_is_entry_day_minus_two() {
    let c = april_catalog();
    assert_eq!(c.previous_prompt(4, 6).unwrap().red, "r5");
}

#[test]
fn previous_prompt_on_the_first_is_entry_twenty_nine_of_the_same_month() {
    let c = april_catalog();
    assert_eq!(c.previous_prompt(4, 1).unwrap().red, "r30");
    assert!(c.previous_prompt(5, 1).is_none());
}

#[test]
fn latest_results_join_prompt_and_tally() {
    let c = april_catalog();
    let mut l = Ledger::new();
    assert_eq!(l.record_vote(4, 2, "a".to_string(), Choice::Red), Ok(()));
    assert_eq!(l.record_vote(4, 2, "b".to_string(), Choice::Red), Ok(()));
    assert_eq!(l.record_vote(4, 2, "c".to_string(), Choice::Blue), Ok(()));
    let r = latest_question_and_results(&mut l, &c, 4, 2).unwrap();
    assert_eq!(r.red_prompt, "r2");
    assert_eq!(r.blue_prompt, "b2");
    assert_eq!(r.question_type, QuestionType::WWW);
    assert_eq!((r.red_count, r.blue_count), (2, 1));
}

#[test]
fn previous_results_after_a_day_change() {
    let c = april_catalog();
    let mut l = Ledger::new();
    assert_eq!(l.record_vote(4, 2, "a".to_string(), Choice::Blue), Ok(()));
    let r = previous_question_and_results(&mut l, &c, 4, 3).unwrap();
    assert_eq!(r.red_prompt, "r2");
    assert_eq!((r.red_count, r.blue_count), (0, 1));
    let today = latest_question_and_results(&mut l, &c, 4, 3).unwrap();
    assert_eq!(today.red_prompt, "r3");
    assert_eq!(today.question_type, QuestionType::TOT);
    assert_eq!((today.red_count, today.blue_count), (0, 0));
}

#[test]
fn results_are_none_without_a_prompt() {
    let c = april_catalog();
    let mut l = Ledger::new();
    assert!(latest_question_and_results(&mut l, &c, 7, 4).is_none());
    assert!(previous_question_and_results(&mut l, &c, 5, 1).is_none());
}

#[test]
fn starting_state_is_empty_ledger_and_given_catalog() {
    let (mut l, c) = rocket(vec![vec![prompt("x", "y", QuestionType::WYR)]]);
    assert_eq!(l.day(), 0);
    assert_eq!(c.num_months(), 1);
    assert_eq!(c.current_prompt(1, 1).unwrap().blue, "y");
    let _ = latest_question_and_results_now(&mut l, &c);
    assert!(l.day() >= 1);
}
