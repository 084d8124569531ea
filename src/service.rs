//! What the poll reports for a day: the day's prompt with its tally.
use vstd::prelude::*;
use crate::ledger::{valid_day, valid_month, Ledger, LedgerState};
use crate::prompts::{
    current_index, lookup, previous_index, Prompt, PromptCatalog, QuestionType,
};

verus! {

/// A day's question and its results, as sent to clients.
pub struct QuestionResults {
    pub red_prompt: String,
    pub blue_prompt: String,
    pub question_type: QuestionType,
    pub red_count: u64,
    pub blue_count: u64,
}

/// The report of `prompt` with the counts `t`.
pub open spec fn report(prompt: Prompt, t: (u64, u64)) -> QuestionResults {
    QuestionResults {
        red_prompt: prompt.red,
        blue_prompt: prompt.blue,
        question_type: prompt.kind,
        red_count: t.0,
        blue_count: t.1,
    }
}

/// The report of `prompt`, if there is one, with the counts `t`.
pub open spec fn report_of(prompt: Option<Prompt>, t: (u64, u64)) -> Option<QuestionResults> {
    match prompt {
        Some(p) => Some(report(p, t)),
        None => None,
    }
}

/// What a report holds of a prompt: copies of its texts and its kind.
fn report_from(prompt: &Prompt, t: (u64, u64)) -> (r: QuestionResults)
    ensures
        r == report(*prompt, t),
{
    QuestionResults {
        red_prompt: prompt.red.clone(),
        blue_prompt: prompt.blue.clone(),
        question_type: prompt.kind,
        red_count: t.0,
        blue_count: t.1,
    }
}

/// Today's prompt and tally once the clock is on `month`/`day`; `None` where
/// the catalog has no prompt for today.
pub fn latest_question_and_results(
    ledger: &mut Ledger,
    catalog: &PromptCatalog,
    month: u32,
    day: u32,
) -> (r: Option<QuestionResults>)
    requires
        old(ledger)@.wf(),
        valid_month(month),
        valid_day(day),
    ensures
        final(ledger)@ == old(ledger)@.reconcile(month, day),
        final(ledger)@.wf(),
        r == report_of(
            lookup(catalog@, final(ledger)@.month, current_index(final(ledger)@.day)),
            final(ledger)@.current_tally(),
        ),
{
    let t = ledger.current_tally(month, day);
    match catalog.current_prompt(ledger.month(), ledger.day()) {
        Some(p) => Some(report_from(p, t)),
        None => None,
    }
}

/// Yesterday's prompt and tally once the clock is on `month`/`day`; `None`
/// where the catalog has no prompt for yesterday.
pub fn previous_question_and_results(
    ledger: &mut Ledger,
    catalog: &PromptCatalog,
    month: u32,
    day: u32,
) -> (r: Option<QuestionResults>)
    requires
        old(ledger)@.wf(),
        valid_month(month),
        valid_day(day),
    ensures
        final(ledger)@ == old(ledger)@.reconcile(month, day),
        final(ledger)@.wf(),
        r == report_of(
            lookup(catalog@, final(ledger)@.month, previous_index(final(ledger)@.day)),
            final(ledger)@.previous_tally(),
        ),
{
    let t = ledger.previous_tally(month, day);
    match catalog.previous_prompt(ledger.month(), ledger.day()) {
        Some(p) => Some(report_from(p, t)),
        None => None,
    }
}

/// `latest_question_and_results` on today's UTC date.
pub fn latest_question_and_results_now(ledger: &mut Ledger, catalog: &PromptCatalog) -> (r: Option<
    QuestionResults,
>)
    requires
        old(ledger)@.wf(),
    ensures
        valid_month(final(ledger)@.month),
        valid_day(final(ledger)@.day),
        final(ledger)@ == old(ledger)@.reconcile(final(ledger)@.month, final(ledger)@.day),
        final(ledger)@.wf(),
        r == report_of(
            lookup(catalog@, final(ledger)@.month, current_index(final(ledger)@.day)),
            final(ledger)@.current_tally(),
        ),
{
    let t = ledger.current_tally_now();
    match catalog.current_prompt(ledger.month(), ledger.day()) {
        Some(p) => Some(report_from(p, t)),
        None => None,
    }
}

/// `previous_question_and_results` on today's UTC date.
pub fn previous_question_and_results_now(ledger: &mut Ledger, catalog: &PromptCatalog) -> (r:
    Option<QuestionResults>)
    requires
        old(ledger)@.wf(),
    ensures
        valid_month(final(ledger)@.month),
        valid_day(final(ledger)@.day),
        final(ledger)@ == old(ledger)@.reconcile(final(ledger)@.month, final(ledger)@.day),
        final(ledger)@.wf(),
        r == report_of(
            lookup(catalog@, final(ledger)@.month, previous_index(final(ledger)@.day)),
            final(ledger)@.previous_tally(),
        ),
{
    let t = ledger.previous_tally_now();
    match catalog.previous_prompt(ledger.month(), ledger.day()) {
        Some(p) => Some(report_from(p, t)),
        None => None,
    }
}


/// The state the service starts from: an empty ledger with no day yet, and
/// the catalog of the given month lists, January first.
pub fn rocket(months: Vec<Vec<Prompt>>) -> (r: (Ledger, PromptCatalog))
    ensures
        r.0@ == LedgerState::initial(),
        r.0@.wf(),
        r.1@ == months@.map_values(|m: Vec<Prompt>| m@),
{
    (Ledger::new(), PromptCatalog::new(months))
}

} // verus!
