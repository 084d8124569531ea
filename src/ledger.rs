use vstd::prelude::*;
use crate::clock::utc_month_and_day;

verus! {

/// The number of tally slots: one per day of the month, indexed 1 to 31
/// (slot 0 is never used).
pub const TALLY_SLOTS: usize = 32;

/// The slot read as "yesterday" on the first day of a month, whatever the
/// length of the month before.
pub const FIRST_DAY_PREVIOUS_KEY: u32 = 30;

/// One of the two options of the daily prompt.
#[derive(Clone, Copy, Debug, PartialEq, Eq, Structural)]
pub enum Choice {
    Red,
    Blue,
}

impl Choice {
    /// `true` for red, `false` for blue, as the voters table stores it.
    pub fn is_red(&self) -> (r: bool)
        ensures
            r == (*self == Choice::Red),
    {
        match self {
            Choice::Red => true,
            Choice::Blue => false,
        }
    }
}

/// Why a vote was not recorded.
#[derive(Clone, Copy, Debug, PartialEq, Eq, Structural)]
pub enum LedgerError {
    /// The client has already voted today.
    AlreadyVoted,
    /// Today's counter for the chosen option cannot hold another vote.
    StorageError,
}

/// A day of the month as the clock gives it.
pub open spec fn valid_day(day: u32) -> bool {
    1 <= day <= 31
}

/// A month of the year as the clock gives it.
pub open spec fn valid_month(month: u32) -> bool {
    1 <= month <= 12
}

/// The tally key of the day before `day`: `day - 1`, and 30 on the first day.
pub open spec fn previous_key(day: u32) -> u32 {
    if day == 1 {
        FIRST_DAY_PREVIOUS_KEY
    } else {
        (day - 1) as u32
    }
}

/// The tally after one more vote for `choice`.
pub open spec fn add_vote(t: (u64, u64), choice: Choice) -> (u64, u64) {
    match choice {
        Choice::Red => ((t.0 + 1) as u64, t.1),
        Choice::Blue => (t.0, (t.1 + 1) as u64),
    }
}

/// The counter of `choice` in a tally.
pub open spec fn count_of(t: (u64, u64), choice: Choice) -> u64 {
    match choice {
        Choice::Red => t.0,
        Choice::Blue => t.1,
    }
}

/// What a ledger holds: the service's clock (`day` 0 before the first
/// reconciliation), the tally of each day-of-month slot that has been opened,
/// and today's voters with their choices, in the order they voted.
pub ghost struct LedgerState {
    pub month: u32,
    pub day: u32,
    pub tallies: Seq<Option<(u64, u64)>>,
    pub voters: Seq<(Seq<char>, Choice)>,
}

impl LedgerState {
    /// The state of a ledger that has not yet seen a day.
    pub open spec fn initial() -> LedgerState {
        LedgerState {
            month: 0,
            day: 0,
            tallies: Seq::new(TALLY_SLOTS as nat, |i: int| None),
            voters: Seq::empty(),
        }
    }

    /// Every slot exists, the clock is a real date once set, today's slot is
    /// open, and no client is listed twice.
    pub open spec fn wf(self) -> bool {
        &&& self.tallies.len() == TALLY_SLOTS
        &&& self.day <= 31
        &&& self.day != 0 ==> valid_month(self.month) && self.tallies[self.day as int] is Some
        &&& forall|i: int, j: int|
            0 <= i < j < self.voters.len() ==> self.voters[i].0 != self.voters[j].0
    }

    /// Whether `id` has voted today.
    pub open spec fn has_voted(self, id: Seq<char>) -> bool {
        exists|i: int| 0 <= i < self.voters.len() && #[trigger] self.voters[i].0 == id
    }

    /// The counts stored under `key`, or (0, 0) where that slot was never opened.
    pub open spec fn tally_at(self, key: u32) -> (u64, u64) {
        if key < self.tallies.len() {
            match self.tallies[key as int] {
                Some(t) => t,
                None => (0, 0),
            }
        } else {
            (0, 0)
        }
    }

    /// Today's counts.
    pub open spec fn current_tally(self) -> (u64, u64) {
        self.tally_at(self.day)
    }

    /// Yesterday's counts, read under `previous_key` of today.
    pub open spec fn previous_tally(self) -> (u64, u64) {
        self.tally_at(previous_key(self.day))
    }

    /// The state once the clock has been brought to `month`/`day`: nothing
    /// changes on the same day of the month; on another day that day's slot is
    /// opened at (0, 0) unless it already holds counts, the voters are
    /// forgotten, and the clock moves.
    pub open spec fn reconcile(self, month: u32, day: u32) -> LedgerState {
        if day == self.day {
            self
        } else {
            LedgerState {
                month: month,
                day: day,
                tallies: self.tallies.update(day as int, Some(self.tally_at(day))),
                voters: Seq::empty(),
            }
        }
    }

    /// What a vote of `id` for `choice` returns today.
    pub open spec fn vote_outcome(self, id: Seq<char>, choice: Choice) -> Result<(), LedgerError> {
        if self.has_voted(id) {
            Err(LedgerError::AlreadyVoted)
        } else if count_of(self.current_tally(), choice) == u64::MAX {
            Err(LedgerError::StorageError)
        } else {
            Ok(())
        }
    }

    /// The state after a vote of `id` for `choice` today: on success today's
    /// counter for `choice` goes up by one and `id` joins the voters, both
    /// together; on failure nothing changes.
    pub open spec fn after_vote(self, id: Seq<char>, choice: Choice) -> LedgerState {
        if self.vote_outcome(id, choice) is Ok {
            LedgerState {
                month: self.month,
                day: self.day,
                tallies: self.tallies.update(
                    self.day as int,
                    Some(add_vote(self.current_tally(), choice)),
                ),
                voters: self.voters.push((id, choice)),
            }
        } else {
            self
        }
    }
}

/// Bringing a well-formed ledger to a real date keeps it well formed.
pub proof fn lemma_reconcile_wf(s: LedgerState, month: u32, day: u32)
    requires
        s.wf(),
        valid_month(month),
        valid_day(day),
    ensures
        s.reconcile(month, day).wf(),
        s.reconcile(month, day).day == day,
{
}

/// A vote on a well-formed, reconciled ledger keeps it well formed and keeps
/// its clock.
pub proof fn lemma_vote_wf(s: LedgerState, id: Seq<char>, choice: Choice)
    requires
        s.wf(),
        s.day != 0,
    ensures
        s.after_vote(id, choice).wf(),
        s.after_vote(id, choice).day == s.day,
        s.after_vote(id, choice).month == s.month,
{
    let t = s.after_vote(id, choice);
    if s.vote_outcome(id, choice) is Ok {
        assert forall|i: int, j: int| 0 <= i < j < t.voters.len() implies t.voters[i].0
            != t.voters[j].0 by {
            if j == s.voters.len() {
                assert(s.voters[i].0 == t.voters[i].0);
                if s.voters[i].0 == id {
                    assert(s.has_voted(id));
                }
            }
        }
    }
}

/// The voting ledger: one counter pair per day-of-month slot, today's voters,
/// and the day the service last rolled over to.
pub struct Ledger {
    tallies: Vec<Option<(u64, u64)>>,
    voters: Vec<(String, Choice)>,
    month: u32,
    day: u32,
}

impl View for Ledger {
    type V = LedgerState;

    closed spec fn view(&self) -> LedgerState {
        LedgerState {
            month: self.month,
            day: self.day,
            tallies: self.tallies@,
            voters: self.voters@.map_values(|v: (String, Choice)| (v.0@, v.1)),
        }
    }
}

impl Ledger {
    /// A ledger with no day yet, no counts and no voters.
    pub fn new() -> (r: Ledger)
        ensures
            r@ == LedgerState::initial(),
            r@.wf(),
    {
        let mut tallies: Vec<Option<(u64, u64)>> = Vec::new();
        let mut i: usize = 0;
        while i < TALLY_SLOTS
            invariant
                i <= TALLY_SLOTS,
                tallies@ == Seq::new(i as nat, |k: int| None::<(u64, u64)>),
            decreases TALLY_SLOTS - i,
        {
            tallies.push(None);
            i = i + 1;
        }
        let r = Ledger { tallies, voters: Vec::new(), month: 0, day: 0 };
        assert(r@.voters =~= Seq::<(Seq<char>, Choice)>::empty());
        assert(r@.tallies =~= LedgerState::initial().tallies);
        r
    }

    /// The month the service's clock is on (0 before the first day).
    pub fn month(&self) -> (r: u32)
        ensures
            r == self@.month,
    {
        self.month
    }

    /// The day of the month the service's clock is on (0 before the first day).
    pub fn day(&self) -> (r: u32)
        ensures
            r == self@.day,
    {
        self.day
    }

    /// Brings the service's clock to `month`/`day`. On a new day of the month
    /// the day's slot is opened at (0, 0) unless it already holds counts, and
    /// every client may vote again.
    pub fn reconcile(&mut self, month: u32, day: u32)
        requires
            old(self)@.wf(),
            valid_month(month),
            valid_day(day),
        ensures
            final(self)@ == old(self)@.reconcile(month, day),
            final(self)@.wf(),
    {
        proof {
            lemma_reconcile_wf(self@, month, day);
        }
        if day != self.day {
            let opened = match self.tallies[day as usize] {
                Some(t) => t,
                None => (0, 0),
            };
            self.tallies.set(day as usize, Some(opened));
            self.voters = Vec::new();
            self.month = month;
            self.day = day;
            assert(self@.voters =~= Seq::<(Seq<char>, Choice)>::empty());
        }
    }
    /// Whether `id` is among today's voters, without touching the clock.
    fn is_listed(&self, id: &String) -> (r: bool)
        ensures
            r == self@.has_voted(id@),
    {
        let mut i: usize = 0;
        while i < self.voters.len()
            invariant
                i <= self.voters@.len(),
                forall|k: int| 0 <= k < i ==> self@.voters[k].0 != id@,
            decreases self.voters@.len() - i,
        {
            if self.voters[i].0 == *id {
                assert(self@.voters[i as int].0 == id@);
                return true;
            }
            i = i + 1;
        }
        false
    }

    /// The counts stored under `key`, or `None` where that slot was never opened.
    pub fn tally_slot(&self, key: u32) -> (r: Option<(u64, u64)>)
        requires
            self@.wf(),
        ensures
            r == (if (key as int) < TALLY_SLOTS {
                self@.tallies[key as int]
            } else {
                None
            }),
    {
        if (key as usize) < TALLY_SLOTS {
            self.tallies[key as usize]
        } else {
            None
        }
    }

    /// The number of clients who voted today.
    pub fn num_voters(&self) -> (r: usize)
        ensures
            r == self@.voters.len(),
    {
        self.voters.len()
    }

    /// The `i`-th client to vote today and the option chosen.
    pub fn voter(&self, i: usize) -> (r: Option<(&String, Choice)>)
        ensures
            match r {
                Some(v) => i < self@.voters.len() && (v.0@, v.1) == self@.voters[i as int],
                None => i >= self@.voters.len(),
            },
    {
        if i < self.voters.len() {
            let v = &self.voters[i];
            Some((&v.0, v.1))
        } else {
            None
        }
    }


    /// Whether `id` has voted today, once the clock is on `month`/`day`.
    pub fn has_voted(&mut self, month: u32, day: u32, id: &String) -> (r: bool)
        requires
            old(self)@.wf(),
            valid_month(month),
            valid_day(day),
        ensures
            final(self)@ == old(self)@.reconcile(month, day),
            final(self)@.wf(),
            r == final(self)@.has_voted(id@),
    {
        self.reconcile(month, day);
        self.is_listed(id)
    }

    /// Records a vote of `id` for `choice`, once the clock is on `month`/`day`.
    /// A client who has already voted today gets `AlreadyVoted`; a counter that
    /// cannot hold another vote gives `StorageError`. Either way nothing but the
    /// clock changes. On success today's counter for `choice` goes up by one
    /// and `id` is listed as having voted, both at once.
    pub fn record_vote(&mut self, month: u32, day: u32, id: String, choice: Choice) -> (r: Result<
        (),
        LedgerError,
    >)
        requires
            old(self)@.wf(),
            valid_month(month),
            valid_day(day),
        ensures
            r == old(self)@.reconcile(month, day).vote_outcome(id@, choice),
            final(self)@ == old(self)@.reconcile(month, day).after_vote(id@, choice),
            final(self)@.wf(),
    {
        self.reconcile(month, day);
        proof {
            lemma_vote_wf(self@, id@, choice);
        }
        if self.is_listed(&id) {
            return Err(LedgerError::AlreadyVoted);
        }
        let today = self.day as usize;
        let t = match self.tallies[today] {
            Some(t) => t,
            None => (0, 0),
        };
        let updated = match choice {
            Choice::Red => {
                if t.0 == u64::MAX {
                    return Err(LedgerError::StorageError);
                }
                (t.0 + 1, t.1)
            },
            Choice::Blue => {
                if t.1 == u64::MAX {
                    return Err(LedgerError::StorageError);
                }
                (t.0, t.1 + 1)
            },
        };
        let ghost before = self@;
        let ghost id_view = id@;
        self.tallies.set(today, Some(updated));
        self.voters.push((id, choice));
        assert(self@.voters =~= before.voters.push((id_view, choice)));
        Ok(())
    }

    /// Today's counts, once the clock is on `month`/`day`.
    pub fn current_tally(&mut self, month: u32, day: u32) -> (r: (u64, u64))
        requires
            old(self)@.wf(),
            valid_month(month),
            valid_day(day),
        ensures
            final(self)@ == old(self)@.reconcile(month, day),
            final(self)@.wf(),
            r == final(self)@.current_tally(),
    {
        self.reconcile(month, day);
        match self.tallies[self.day as usize] {
            Some(t) => t,
            None => (0, 0),
        }
    }

    /// Yesterday's counts, once the clock is on `month`/`day`: those under
    /// `day - 1`, or under 30 on the first of the month; (0, 0) where that slot
    /// was never opened.
    pub fn previous_tally(&mut self, month: u32, day: u32) -> (r: (u64, u64))
        requires
            old(self)@.wf(),
            valid_month(month),
            valid_day(day),
        ensures
            final(self)@ == old(self)@.reconcile(month, day),
            final(self)@.wf(),
            r == final(self)@.previous_tally(),
    {
        self.reconcile(month, day);
        let key = if self.day == 1 {
            FIRST_DAY_PREVIOUS_KEY
        } else {
            self.day - 1
        };
        match self.tallies[key as usize] {
            Some(t) => t,
            None => (0, 0),
        }
    }
    /// `has_voted` on today's UTC date.
    pub fn has_voted_now(&mut self, id: &String) -> (r: bool)
        requires
            old(self)@.wf(),
        ensures
            valid_month(final(self)@.month),
            valid_day(final(self)@.day),
            final(self)@ == old(self)@.reconcile(final(self)@.month, final(self)@.day),
            final(self)@.wf(),
            r == final(self)@.has_voted(id@),
    {
        let (month, day) = utc_month_and_day();
        self.has_voted(month, day, id)
    }

    /// `record_vote` on today's UTC date.
    pub fn record_vote_now(&mut self, id: String, choice: Choice) -> (r: Result<(), LedgerError>)
        requires
            old(self)@.wf(),
        ensures
            valid_month(final(self)@.month),
            valid_day(final(self)@.day),
            r == old(self)@.reconcile(final(self)@.month, final(self)@.day).vote_outcome(
                id@,
                choice,
            ),
            final(self)@ == old(self)@.reconcile(final(self)@.month, final(self)@.day).after_vote(
                id@,
                choice,
            ),
            final(self)@.wf(),
    {
        let (month, day) = utc_month_and_day();
        proof {
            lemma_vote_wf(self@.reconcile(month, day), id@, choice);
        }
        self.record_vote(month, day, id, choice)
    }

    /// `current_tally` on today's UTC date.
    pub fn current_tally_now(&mut self) -> (r: (u64, u64))
        requires
            old(self)@.wf(),
        ensures
            valid_month(final(self)@.month),
            valid_day(final(self)@.day),
            final(self)@ == old(self)@.reconcile(final(self)@.month, final(self)@.day),
            final(self)@.wf(),
            r == final(self)@.current_tally(),
    {
        let (month, day) = utc_month_and_day();
        self.current_tally(month, day)
    }

    /// `previous_tally` on today's UTC date.
    pub fn previous_tally_now(&mut self) -> (r: (u64, u64))
        requires
            old(self)@.wf(),
        ensures
            valid_month(final(self)@.month),
            valid_day(final(self)@.day),
            final(self)@ == old(self)@.reconcile(final(self)@.month, final(self)@.day),
            final(self)@.wf(),
            r == final(self)@.previous_tally(),
    {
        let (month, day) = utc_month_and_day();
        self.previous_tally(month, day)
    }
}



} // verus!
