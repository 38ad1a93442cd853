//! The two threshold rules: a rise of five percent over the oldest sample of
//! the trailing window opens a trade, a fall of three percent below the peak
//! closes it.

use vstd::prelude::*;

verus! {

/// Length of the trailing window, in seconds.
pub const WINDOW_SECS: u64 = 30;

/// Fewest samples the window must hold before an entry is considered.
pub const MIN_SAMPLES: usize = 3;

/// A base price at or below this many fixed-point units, a hundred-millionth
/// of the quote currency, is taken for a garbage tick.
pub const NEGLIGIBLE_PRICE: u64 = 1;

/// Rise over the oldest sample, in percent of it, that triggers an entry.
pub const ENTRY_PERCENT: u64 = 5;

/// Fall below the peak, in percent of it, that triggers an exit.
pub const EXIT_PERCENT: u64 = 3;

/// One observed price with the second at which it arrived.
#[derive(Clone, Copy, Debug, PartialEq, Eq, Structural)]
pub struct PriceSample {
    pub time: u64,
    pub price: u64,
}

/// `(peak - price) / peak >= 3 / 100`, with no drawdown defined on a zero peak.
pub open spec fn exit_triggered(peak: u64, price: u64) -> bool {
    peak > 0 && (peak - price) * 100 >= EXIT_PERCENT * peak
}

/// `(price - oldest) / oldest >= 5 / 100`, for a base price above the
/// negligible one.
pub open spec fn entry_triggered(oldest: u64, price: u64) -> bool {
    oldest > NEGLIGIBLE_PRICE && (price - oldest) * 100 >= ENTRY_PERCENT * oldest
}

/// A sample taken at `sample_time` is stale at `now` when more than the
/// window's length lies between them.
pub open spec fn is_stale(sample_time: u64, now: u64) -> bool {
    now - sample_time > WINDOW_SECS
}

/// What is left of a window once its leading stale samples are dropped.
pub open spec fn fresh_part(window: Seq<PriceSample>, now: u64) -> Seq<PriceSample>
    decreases window.len(),
{
    if window.len() > 0 && is_stale(window[0].time, now) {
        fresh_part(window.drop_first(), now)
    } else {
        window
    }
}

/// The window as the detector sees it on a tick: the fresh part of what was
/// kept, followed by the new sample.
pub open spec fn observed_window(window: Seq<PriceSample>, now: u64, price: u64) -> Seq<
    PriceSample,
> {
    fresh_part(window, now).push(PriceSample { time: now, price })
}

/// The samples arrive in the order of their timestamps.
pub open spec fn time_ordered(window: Seq<PriceSample>) -> bool {
    forall|i: int, j: int| 0 <= i <= j < window.len() ==> window[i].time <= window[j].time
}

/// No sample is older than the window's length at `now`.
pub open spec fn all_fresh(window: Seq<PriceSample>, now: u64) -> bool {
    forall|i: int| 0 <= i < window.len() ==> !is_stale(#[trigger] window[i].time, now)
}

/// Decides the exit rule for a peak and the price just seen.
pub fn check_exit(peak: u64, price: u64) -> (hit: bool)
    ensures
        hit == exit_triggered(peak, price),
{
    if price >= peak {
        false
    } else {
        let fall: u128 = (peak - price) as u128;
        let percent: u128 = EXIT_PERCENT as u128;
        assert(percent == 3);
        fall * 100 >= percent * (peak as u128)
    }
}

/// Decides the entry rule for the window's oldest price and the price just seen.
pub fn check_entry(oldest: u64, price: u64) -> (hit: bool)
    ensures
        hit == entry_triggered(oldest, price),
{
    if oldest <= NEGLIGIBLE_PRICE || price <= oldest {
        false
    } else {
        let rise: u128 = (price - oldest) as u128;
        let percent: u128 = ENTRY_PERCENT as u128;
        assert(percent == 5);
        rise * 100 >= percent * (oldest as u128)
    }
}

/// Tells whether a sample has left the trailing window.
pub fn check_stale(sample_time: u64, now: u64) -> (stale: bool)
    ensures
        stale == is_stale(sample_time, now),
{
    now > sample_time && now - sample_time > WINDOW_SECS
}

/// The fresh part is a suffix of the window: nothing is reordered or changed.
pub proof fn lemma_fresh_part_is_suffix(window: Seq<PriceSample>, now: u64)
    ensures
        fresh_part(window, now).len() <= window.len(),
        fresh_part(window, now) == window.skip(window.len() - fresh_part(window, now).len()),
        fresh_part(window, now).len() > 0 ==> !is_stale(fresh_part(window, now)[0].time, now),
        forall|i: int|
            0 <= i < window.len() - fresh_part(window, now).len() ==> is_stale(
                #[trigger] window[i].time,
                now,
            ),
    decreases window.len(),
{
    if window.len() > 0 && is_stale(window[0].time, now) {
        let rest = window.drop_first();
        lemma_fresh_part_is_suffix(rest, now);
        let kept = fresh_part(rest, now);
        assert(rest.skip(rest.len() - kept.len()) =~= window.skip(window.len() - kept.len()));
        assert forall|i: int| 0 <= i < window.len() - kept.len() implies is_stale(
            #[trigger] window[i].time,
            now,
        ) by {
            if i > 0 {
                assert(window[i] == rest[i - 1]);
            }
        }
    } else {
        assert(window.skip(0) =~= window);
    }
}

} // verus!
