use vstd::prelude::*;

verus! {

/// Relies on chrono's `Utc::now` with `Datelike::month` and `Datelike::day`:
/// today's UTC month, from 1 to 12, and day of the month, from 1 to 31.
#[verifier::external_body]
pub(crate) fn utc_month_and_day() -> (r: (u32, u32))
    ensures
        1 <= r.0 <= 12,
        1 <= r.1 <= 31,
{
    let now = chrono::Utc::now();
    (chrono::Datelike::month(&now), chrono::Datelike::day(&now))
}

} // verus!
