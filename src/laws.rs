//! What holds across several ledger operations, stated over `LedgerState`,
//! the model that each operation's contract speaks of.
use vstd::prelude::*;
use crate::ledger::{
    add_vote, previous_key, valid_day, valid_month, Choice, LedgerError, LedgerState,
    FIRST_DAY_PREVIOUS_KEY,
};

verus! {

/// Once a client's vote has been recorded on a day, another vote of that
/// client on the same day, for either option, fails with `AlreadyVoted` and
/// changes nothing, and the day's tally holds exactly that client's one vote
/// more than before it.
pub proof fn lemma_one_vote_per_client_per_day(
    s: LedgerState,
    month: u32,
    day: u32,
    id: Seq<char>,
    first: Choice,
    second: Choice,
)
    requires
        s.wf(),
        valid_month(month),
        valid_day(day),
        s.reconcile(month, day).vote_outcome(id, first) is Ok,
    ensures
        ({
            let before = s.reconcile(month, day);
            let voted = before.after_vote(id, first);
            &&& voted.reconcile(month, day).vote_outcome(id, second) == Err::<
                (),
                LedgerError,
            >(LedgerError::AlreadyVoted)
            &&& voted.reconcile(month, day).after_vote(id, second) == voted
            &&& voted.current_tally() == add_vote(before.current_tally(), first)
        }),
{
    let before = s.reconcile(month, day);
    let voted = before.after_vote(id, first);
    assert(voted.voters[before.voters.len() as int].0 == id);
    assert(voted.has_voted(id));
}

/// A client who has not voted today is still reported as not having voted
/// after another client's vote, and is reported as having voted right after a
/// vote of their own that succeeded.
pub proof fn lemma_has_voted_tracks_own_vote(
    s: LedgerState,
    month: u32,
    day: u32,
    id: Seq<char>,
    choice: Choice,
    other: Seq<char>,
    other_choice: Choice,
)
    requires
        s.wf(),
        valid_month(month),
        valid_day(day),
        !s.reconcile(month, day).has_voted(id),
        other != id,
    ensures
        !s.reconcile(month, day).after_vote(other, other_choice).has_voted(id),
        s.reconcile(month, day).vote_outcome(id, choice) is Ok ==> s.reconcile(
            month,
            day,
        ).after_vote(id, choice).reconcile(month, day).has_voted(id),
{
    let before = s.reconcile(month, day);
    let by_other = before.after_vote(other, other_choice);
    if by_other.has_voted(id) {
        let i = choose|i: int| 0 <= i < by_other.voters.len() && #[trigger] by_other.voters[i].0 == id;
        if i < before.voters.len() {
            assert(before.voters[i].0 == id);
        }
    }
    let voted = before.after_vote(id, choice);
    if before.vote_outcome(id, choice) is Ok {
        assert(voted.voters[before.voters.len() as int].0 == id);
    }
}

/// On a new day of the month no client has voted yet: in particular one who
/// voted the day before may vote again.
pub proof fn lemma_new_day_resets_voters(
    s: LedgerState,
    month: u32,
    day: u32,
    next_month: u32,
    next_day: u32,
    id: Seq<char>,
    choice: Choice,
)
    requires
        s.wf(),
        valid_month(month),
        valid_day(day),
        valid_month(next_month),
        valid_day(next_day),
        next_day != day,
    ensures
        !s.reconcile(month, day).after_vote(id, choice).reconcile(
            next_month,
            next_day,
        ).has_voted(id),
{
    lemma_vote_keeps_day(s.reconcile(month, day), id, choice);
}

/// A vote never moves the clock.
proof fn lemma_vote_keeps_day(s: LedgerState, id: Seq<char>, choice: Choice)
    ensures
        s.after_vote(id, choice).day == s.day,
{
}

/// On the first day of a month yesterday's tally is the one stored under key
/// 30; on any day the key read is a real day of the month, never 0.
pub proof fn lemma_previous_of_first_day(s: LedgerState, month: u32, day: u32)
    requires
        s.wf(),
        valid_month(month),
        valid_day(day),
    ensures
        valid_day(previous_key(day)),
        day == 1 ==> s.reconcile(month, day).previous_tally() == s.reconcile(
            month,
            day,
        ).tally_at(FIRST_DAY_PREVIOUS_KEY),
{
}

/// Bringing the clock to a day it is already on changes no tally and no
/// voter, whatever the month: reconciling twice is reconciling once.
pub proof fn lemma_reconcile_idempotent(
    s: LedgerState,
    month: u32,
    day: u32,
    later_month: u32,
)
    requires
        s.wf(),
        valid_month(month),
        valid_day(day),
        valid_month(later_month),
    ensures
        s.reconcile(month, day).reconcile(later_month, day) == s.reconcile(month, day),
{
}

} // verus!
