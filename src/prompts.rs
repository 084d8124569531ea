//! The catalog of daily prompts, looked up by month and by the service's day
//! index, with the same "first of the month reads slot 29 of the same month"
//! rule for yesterday that the ledger applies to tallies.
use vstd::prelude::*;

verus! {

/// The slot of the catalog's month list read as "yesterday's prompt" on the
/// first day of a month (the 30th entry of the same month).
pub const FIRST_DAY_PREVIOUS_INDEX: usize = 29;

/// The kind of question a prompt asks.
#[derive(Clone, Copy, Debug, PartialEq, Eq, Structural)]
pub enum QuestionType {
    /// Would you rather
    WYR,
    /// Who would win
    WWW,
    /// This or that
    TOT,
}

/// The tag under which a question type is sent to clients.
pub open spec fn tag_of(q: QuestionType) -> Seq<char> {
    match q {
        QuestionType::WYR => "WYR"@,
        QuestionType::WWW => "WWW"@,
        QuestionType::TOT => "TOT"@,
    }
}

impl QuestionType {
    /// The tag under which this question type is sent to clients.
    pub fn tag(&self) -> (r: &'static str)
        ensures
            r@ == tag_of(*self),
    {
        match self {
            QuestionType::WYR => "WYR",
            QuestionType::WWW => "WWW",
            QuestionType::TOT => "TOT",
        }
    }
}

/// One day's prompt: the red option, the blue option and the kind of question.
pub struct Prompt {
    pub red: String,
    pub blue: String,
    pub kind: QuestionType,
}

/// The 0-based index of today's prompt in its month's list: `day - 1`.
pub open spec fn current_index(day: u32) -> int {
    day - 1
}

/// The 0-based index of yesterday's prompt in the list of today's month:
/// `day - 2`, and 29 on the first of the month.
pub open spec fn previous_index(day: u32) -> int {
    if day == 1 {
        FIRST_DAY_PREVIOUS_INDEX as int
    } else {
        day - 2
    }
}

/// The prompts of a year: one list per month, January first; a list may be
/// shorter than its month, or empty.
pub struct PromptCatalog {
    months: Vec<Vec<Prompt>>,
}

impl View for PromptCatalog {
    type V = Seq<Seq<Prompt>>;

    closed spec fn view(&self) -> Seq<Seq<Prompt>> {
        self.months@.map_values(|m: Vec<Prompt>| m@)
    }
}

/// The prompt at `index` in the list of `month` (1 for January), if the
/// catalog has one there.
pub open spec fn lookup(catalog: Seq<Seq<Prompt>>, month: u32, index: int) -> Option<Prompt> {
    if 1 <= month <= catalog.len() && 0 <= index < catalog[month - 1].len() {
        Some(catalog[month - 1][index])
    } else {
        None
    }
}

/// `r` is the reference form of the lookup `expected`.
pub open spec fn found(r: Option<&Prompt>, expected: Option<Prompt>) -> bool {
    match r {
        Some(p) => expected == Some(*p),
        None => expected is None,
    }
}

impl PromptCatalog {
    /// A catalog of the given month lists, January first.
    pub fn new(months: Vec<Vec<Prompt>>) -> (r: PromptCatalog)
        ensures
            r@ == months@.map_values(|m: Vec<Prompt>| m@),
    {
        PromptCatalog { months }
    }

    /// The number of month lists.
    pub fn num_months(&self) -> (r: usize)
        ensures
            r == self@.len(),
    {
        self.months.len()
    }

    /// The prompt at 0-based `index` in the list of `month` (1 for January),
    /// or `None` where the catalog has none.
    pub fn prompt_for(&self, month: u32, index: usize) -> (r: Option<&Prompt>)
        ensures
            found(r, lookup(self@, month, index as int)),
    {
        if month < 1 || month as usize > self.months.len() {
            return None;
        }
        let list = &self.months[(month - 1) as usize];
        if index < list.len() {
            Some(&list[index])
        } else {
            None
        }
    }

    /// Today's prompt when the service is on `month`/`day`: entry `day - 1` of
    /// the month's list.
    pub fn current_prompt(&self, month: u32, day: u32) -> (r: Option<&Prompt>)
        ensures
            found(r, lookup(self@, month, current_index(day))),
    {
        if day == 0 {
            return None;
        }
        self.prompt_for(month, (day - 1) as usize)
    }

    /// Yesterday's prompt when the service is on `month`/`day`: entry `day - 2`
    /// of the same month's list, and entry 29 of it on the first of the month.
    pub fn previous_prompt(&self, month: u32, day: u32) -> (r: Option<&Prompt>)
        ensures
            found(r, lookup(self@, month, previous_index(day))),
    {
        if day == 0 {
            return None;
        }
        let index = if day == 1 {
            FIRST_DAY_PREVIOUS_INDEX
        } else {
            (day - 2) as usize
        };
        self.prompt_for(month, index)
    }
}

} // verus!
