//! What holds of every state and every tick, proved over the mathematical
//! model that the engine's contracts are stated in.

use crate::engine::{
    closed, distinct_symbols, opened, peaks_cover_entries, restored, tick_action, tick_state,
    AppStateView,
};
use crate::model::TradeActionView;
use crate::signal::{
    all_fresh, fresh_part, is_stale, lemma_fresh_part_is_suffix, observed_window, time_ordered,
    PriceSample,
};
use vstd::prelude::*;

verus! {

/// The action is a `Buy`.
pub open spec fn is_buy(action: Option<TradeActionView>) -> bool {
    action is Some && action->0 is Buy
}

/// The action is a `Sell`.
pub open spec fn is_sell(action: Option<TradeActionView>) -> bool {
    action is Some && action->0 is Sell
}

/// Every window of the state is in the order of its timestamps, ends at or
/// before `now`, and holds no sample more than thirty seconds older than its
/// newest one.
pub open spec fn windows_timely(state: AppStateView, now: u64) -> bool {
    forall|symbol: Seq<char>| #[trigger]
        state.price_windows.contains_key(symbol) ==> {
            let window = state.price_windows[symbol];
            &&& window.len() > 0
            &&& time_ordered(window)
            &&& window.last().time <= now
            &&& all_fresh(window, window.last().time)
        }
}

/// In a well-formed state no symbol has both a position and a window.
pub proof fn law_never_position_and_window(state: AppStateView, symbol: Seq<char>)
    requires
        state.wf(),
    ensures
        !(state.has_position(symbol) && state.has_window(symbol)),
{
}

/// A tick keeps the state well-formed.
pub proof fn law_tick_keeps_well_formed(
    state: AppStateView,
    symbol: Seq<char>,
    price: u64,
    now: u64,
)
    requires
        state.wf(),
    ensures
        tick_state(state, symbol, price, now).wf(),
{
    let after = tick_state(state, symbol, price, now);
    if state.is_running && state.has_position(symbol) {
        assert forall|i: int| 0 <= i < after.active_trades.len() implies (
            #[trigger] after.active_trades[i]).symbol == state.active_trades[i].symbol by {}
        assert forall|i: int, j: int| 0 <= i < j < after.active_trades.len() implies (
            #[trigger] after.active_trades[i]).symbol != (
            #[trigger] after.active_trades[j]).symbol by {
            assert(after.active_trades[i].symbol == state.active_trades[i].symbol);
            assert(after.active_trades[j].symbol == state.active_trades[j].symbol);
        }
        assert forall|i: int| 0 <= i < after.active_trades.len() implies
            !after.price_windows.contains_key((#[trigger] after.active_trades[i]).symbol) by {
            assert(after.active_trades[i].symbol == state.active_trades[i].symbol);
        }
    }
}

/// Once detection is on and a tick has been handled for a symbol, the symbol
/// has a position or a window, and not both, unless the tick gave a `Buy`:
/// then it has neither, until the purchase is settled or the next tick comes.
pub proof fn law_position_or_window_after_tick(
    state: AppStateView,
    symbol: Seq<char>,
    price: u64,
    now: u64,
)
    requires
        state.wf(),
        state.is_running,
    ensures
        ({
            let after = tick_state(state, symbol, price, now);
            if is_buy(tick_action(state, symbol, price, now)) {
                !after.has_position(symbol) && !after.has_window(symbol)
            } else {
                after.has_position(symbol) != after.has_window(symbol)
            }
        }),
{
    let after = tick_state(state, symbol, price, now);
    if state.has_position(symbol) {
        let at = state.position_index(symbol);
        assert(after.active_trades[at].symbol == symbol);
    } else {
        assert forall|i: int| 0 <= i < after.active_trades.len() implies (
            #[trigger] after.active_trades[i]).symbol != symbol by {
            assert(state.active_trades[i].symbol != symbol);
        }
    }
}

/// A tick opens and closes no position, and changes nothing of a position but
/// its peak, which it never lowers and which never lies below the entry price.
pub proof fn law_peak_only_rises(state: AppStateView, symbol: Seq<char>, price: u64, now: u64)
    requires
        state.wf(),
    ensures
        ({
            let after = tick_state(state, symbol, price, now);
            &&& after.active_trades.len() == state.active_trades.len()
            &&& forall|i: int|
                0 <= i < state.active_trades.len() ==> {
                    let was = #[trigger] state.active_trades[i];
                    let is = after.active_trades[i];
                    &&& is.symbol == was.symbol
                    &&& is.buy_price == was.buy_price
                    &&& is.quantity == was.quantity
                    &&& is.timestamp == was.timestamp
                    &&& is.peak_price >= was.peak_price
                    &&& is.peak_price >= is.buy_price
                    &&& is.symbol != symbol ==> is.peak_price == was.peak_price
                }
        }),
{
}

/// With detection on, a tick gives a `Sell` exactly when the symbol has a
/// position and the price lies three percent or more below the peak as it
/// stands after the tick; the `Sell` carries the position's quantity and
/// entry price.
pub proof fn law_sell_iff_drawdown(state: AppStateView, symbol: Seq<char>, price: u64, now: u64)
    requires
        state.wf(),
        state.is_running,
    ensures
        ({
            let action = tick_action(state, symbol, price, now);
            let peak = tick_state(state, symbol, price, now).position(symbol).peak_price;
            &&& is_sell(action) <==> state.has_position(symbol) && peak > 0 && (peak - price) * 100
                >= 3 * peak
            &&& is_sell(action) ==> action->0 == (TradeActionView::Sell {
                symbol,
                price,
                qty: state.position(symbol).quantity,
                buy_price: state.position(symbol).buy_price,
            })
        }),
{
    let after = tick_state(state, symbol, price, now);
    if state.has_position(symbol) {
        let at = state.position_index(symbol);
        law_tick_keeps_well_formed(state, symbol, price, now);
        assert(after.active_trades[at].symbol == symbol);
        assert(after.position_index(symbol) == at);
    }
}

/// With detection on, a tick gives a `Buy` exactly when the symbol has no
/// position, the window with the new sample holds three samples or more once
/// its leading stale samples are gone, the oldest of them has more than a
/// negligible price, and the new price lies five percent or more above it.
pub proof fn law_buy_iff_momentum(state: AppStateView, symbol: Seq<char>, price: u64, now: u64)
    requires
        state.wf(),
        state.is_running,
    ensures
        ({
            let action = tick_action(state, symbol, price, now);
            let observed = observed_window(state.window(symbol), now, price);
            let oldest = observed[0].price;
            &&& is_buy(action) <==> !state.has_position(symbol) && observed.len() >= 3 && oldest
                > 1 && (price - oldest) * 100 >= 5 * oldest
            &&& is_buy(action) ==> action->0 == (TradeActionView::Buy { symbol, price })
        }),
{
}

/// Where the samples kept were taken in the order of their timestamps and the
/// clock has not gone back, every sample that the detector counts is at most
/// thirty seconds old, and the window stays in that order.
pub proof fn law_observed_window_is_fresh(window: Seq<PriceSample>, now: u64, price: u64)
    requires
        time_ordered(window),
        window.len() > 0 ==> window.last().time <= now,
    ensures
        time_ordered(observed_window(window, now, price)),
        all_fresh(observed_window(window, now, price), now),
        observed_window(window, now, price).last() == (PriceSample { time: now, price }),
{
    lemma_fresh_part_is_suffix(window, now);
    let kept = fresh_part(window, now);
    let cut = window.len() - kept.len();
    let observed = observed_window(window, now, price);
    assert forall|i: int| 0 <= i < kept.len() implies !is_stale(#[trigger] kept[i].time, now)
        && kept[i].time <= now by {
        assert(kept[i] == window[cut + i]);
        assert(kept[0] == window[cut]);
        assert(window[cut].time <= window[cut + i].time);
        assert(window[cut + i].time <= window[window.len() - 1].time);
    }
    assert forall|i: int, j: int| 0 <= i <= j < observed.len() implies observed[i].time
        <= observed[j].time by {
        if j < kept.len() {
            assert(kept[i] == window[cut + i]);
            assert(kept[j] == window[cut + j]);
        } else if i < kept.len() {
            assert(!is_stale(kept[i].time, now) && kept[i].time <= now);
        }
    }
    assert forall|i: int| 0 <= i < observed.len() implies !is_stale(
        #[trigger] observed[i].time,
        now,
    ) by {
        if i < kept.len() {
            assert(observed[i] == kept[i]);
            assert(!is_stale(kept[i].time, now) && kept[i].time <= now);
        }
    }
}

/// Under a clock that does not go back the windows stay timely: after a tick
/// at `now` every window is still in the order of its timestamps and holds no
/// sample more than thirty seconds older than its newest one.
pub proof fn law_tick_keeps_windows_timely(
    state: AppStateView,
    symbol: Seq<char>,
    price: u64,
    now: u64,
)
    requires
        state.wf(),
        windows_timely(state, now),
    ensures
        windows_timely(tick_state(state, symbol, price, now), now),
        forall|later: u64| now <= later ==> windows_timely(
            tick_state(state, symbol, price, now),
            later,
        ),
{
    let after = tick_state(state, symbol, price, now);
    if state.is_running && !state.has_position(symbol) {
        if state.price_windows.contains_key(symbol) {
            assert(time_ordered(state.price_windows[symbol]));
        }
        law_observed_window_is_fresh(state.window(symbol), now, price);
    }
    assert forall|other: Seq<char>| #[trigger]
        after.price_windows.contains_key(other) implies {
        let window = after.price_windows[other];
        &&& window.len() > 0
        &&& time_ordered(window)
        &&& window.last().time <= now
        &&& all_fresh(window, window.last().time)
    } by {
        if other != symbol || !state.is_running || state.has_position(symbol) {
            assert(state.price_windows.contains_key(other));
            assert(after.price_windows[other] == state.price_windows[other]);
        }
    }
}

/// With detection off a tick changes nothing and gives no action, however
/// often it is fed.
pub proof fn law_idle_tick_changes_nothing(
    state: AppStateView,
    symbol: Seq<char>,
    price: u64,
    now: u64,
    later: u64,
)
    requires
        !state.is_running,
    ensures
        tick_state(state, symbol, price, now) == state,
        tick_action(state, symbol, price, now) is None,
        tick_state(tick_state(state, symbol, price, now), symbol, price, later) == state,
        tick_action(tick_state(state, symbol, price, now), symbol, price, later) is None,
{
}

/// Opening a position for a symbol that has none keeps the state well-formed,
/// and the symbol then has a position and no window.
pub proof fn law_open_keeps_well_formed(
    state: AppStateView,
    symbol: Seq<char>,
    entry_price: u64,
    quantity: u64,
    timestamp: u64,
)
    requires
        state.wf(),
        !state.has_position(symbol),
    ensures
        opened(state, symbol, entry_price, quantity, timestamp).wf(),
        opened(state, symbol, entry_price, quantity, timestamp).has_position(symbol),
        !opened(state, symbol, entry_price, quantity, timestamp).has_window(symbol),
{
    let after = opened(state, symbol, entry_price, quantity, timestamp);
    let last = state.active_trades.len() as int;
    assert(after.active_trades[last].symbol == symbol);
    assert forall|i: int, j: int| 0 <= i < j < after.active_trades.len() implies (
        #[trigger] after.active_trades[i]).symbol != (
        #[trigger] after.active_trades[j]).symbol by {
        assert(after.active_trades[i] == state.active_trades[i]);
        if j < last {
            assert(after.active_trades[j] == state.active_trades[j]);
        }
    }
    assert forall|i: int| 0 <= i < after.active_trades.len() implies
        !after.price_windows.contains_key((#[trigger] after.active_trades[i]).symbol) by {
        if i < last {
            assert(after.active_trades[i] == state.active_trades[i]);
        }
    }
}

/// Closing a symbol's position keeps the state well-formed and leaves the
/// symbol with neither position nor window; the other positions stay.
pub proof fn law_close_keeps_well_formed(state: AppStateView, symbol: Seq<char>)
    requires
        state.wf(),
        state.has_position(symbol),
    ensures
        closed(state, symbol).wf(),
        !closed(state, symbol).has_position(symbol),
        !closed(state, symbol).has_window(symbol),
        forall|other: Seq<char>|
            other != symbol && state.has_position(other) ==> #[trigger] closed(
                state,
                symbol,
            ).has_position(other),
{
    let after = closed(state, symbol);
    let at = state.position_index(symbol);
    assert forall|i: int| 0 <= i < after.active_trades.len() implies (
        #[trigger] after.active_trades[i]) == state.active_trades[if i < at { i } else { i + 1 }]
    by {}
    assert forall|i: int, j: int| 0 <= i < j < after.active_trades.len() implies (
        #[trigger] after.active_trades[i]).symbol != (
        #[trigger] after.active_trades[j]).symbol by {
        let a = if i < at { i } else { i + 1 };
        let b = if j < at { j } else { j + 1 };
        assert(after.active_trades[i] == state.active_trades[a]);
        assert(after.active_trades[j] == state.active_trades[b]);
    }
    assert forall|i: int| 0 <= i < after.active_trades.len() implies (
        #[trigger] after.active_trades[i]).symbol != symbol && !after.price_windows.contains_key(
        after.active_trades[i].symbol,
    ) && after.active_trades[i].buy_price <= after.active_trades[i].peak_price by {
        let a = if i < at { i } else { i + 1 };
        assert(after.active_trades[i] == state.active_trades[a]);
    }
    assert forall|other: Seq<char>| other != symbol && state.has_position(other) implies (
        #[trigger] closed(state, symbol).has_position(other)) by {
        let was = state.position_index(other);
        let now_at = if was < at { was } else { was - 1 };
        assert(after.active_trades[now_at] == state.active_trades[was]);
    }
}

/// The positions and closed trades of a well-formed state can be stored and
/// taken up again: they are accepted, and the state they give holds the same
/// positions and the same closed trades, field for field and in the same
/// order.
pub proof fn law_stored_state_is_taken_up(state: AppStateView)
    requires
        state.wf(),
    ensures
        peaks_cover_entries(state.active_trades),
        distinct_symbols(state.active_trades),
        restored(state.config, state.active_trades, state.closed_trades).wf(),
        restored(state.config, state.active_trades, state.closed_trades).active_trades
            == state.active_trades,
        restored(state.config, state.active_trades, state.closed_trades).closed_trades
            == state.closed_trades,
{
}

} // verus!
