//! The shared trading state: open positions, trailing price windows, the
//! history of closed trades and the operator's switches, with the detector
//! that turns each tick into at most one action.

use crate::clock::get_timestamp_secs;
use crate::model::{
    action_view, closed_trade_views, trade_views, ClosedTrade, ClosedTradeView, Config,
    ConfigView, EngineError, Trade, TradeAction, TradeActionView, TradeView,
};
use crate::signal::{
    check_entry, check_exit, check_stale, entry_triggered, exit_triggered, fresh_part,
    observed_window, PriceSample, MIN_SAMPLES,
};
use crate::text::same_text;
use vstd::hash_map::StringHashMap;
use vstd::prelude::*;
use vstd::string::StringExecFns;

verus! {

/// The trading state as mathematics: positions in the order in which they
/// were opened, windows by symbol, closed trades in the order of closing.
#[verifier::ext_equal]
pub struct AppStateView {
    pub active_trades: Seq<TradeView>,
    pub closed_trades: Seq<ClosedTradeView>,
    pub price_windows: Map<Seq<char>, Seq<PriceSample>>,
    pub config: ConfigView,
    pub is_running: bool,
    pub waiting_for_amount: bool,
}

impl AppStateView {
    /// A position is open for the symbol.
    pub open spec fn has_position(self, symbol: Seq<char>) -> bool {
        exists|i: int|
            0 <= i < self.active_trades.len() && (#[trigger] self.active_trades[i]).symbol
                == symbol
    }

    /// Where the symbol's position stands among the open ones.
    pub open spec fn position_index(self, symbol: Seq<char>) -> int {
        choose|i: int|
            0 <= i < self.active_trades.len() && (#[trigger] self.active_trades[i]).symbol
                == symbol
    }

    /// The symbol's open position.
    pub open spec fn position(self, symbol: Seq<char>) -> TradeView {
        self.active_trades[self.position_index(symbol)]
    }

    /// A window is kept for the symbol.
    pub open spec fn has_window(self, symbol: Seq<char>) -> bool {
        self.price_windows.contains_key(symbol)
    }

    /// The samples kept for the symbol, none where it has no window.
    pub open spec fn window(self, symbol: Seq<char>) -> Seq<PriceSample> {
        if self.price_windows.contains_key(symbol) {
            self.price_windows[symbol]
        } else {
            Seq::empty()
        }
    }

    /// No symbol has two positions, no peak lies below its entry price, no
    /// symbol has both a position and a window, and no window is empty.
    pub open spec fn wf(self) -> bool {
        &&& forall|i: int, j: int|
            0 <= i < j < self.active_trades.len() ==> (#[trigger] self.active_trades[i]).symbol
                != (#[trigger] self.active_trades[j]).symbol
        &&& forall|i: int|
            0 <= i < self.active_trades.len() ==> (#[trigger] self.active_trades[i]).buy_price
                <= self.active_trades[i].peak_price
        &&& forall|i: int|
            0 <= i < self.active_trades.len() ==> !self.price_windows.contains_key(
                (#[trigger] self.active_trades[i]).symbol,
            )
        &&& forall|symbol: Seq<char>| #[trigger]
            self.price_windows.contains_key(symbol) ==> self.price_windows[symbol].len() > 0
    }
}

/// The position with its peak lifted to the price where the price is higher.
pub open spec fn raise_peak(trade: TradeView, price: u64) -> TradeView {
    TradeView {
        peak_price: if price > trade.peak_price {
            price
        } else {
            trade.peak_price
        },
        ..trade
    }
}

/// The entry rule on an observed window: enough samples, and the newest price
/// far enough above the oldest.
pub open spec fn entry_signal(observed: Seq<PriceSample>, price: u64) -> bool {
    observed.len() >= MIN_SAMPLES && entry_triggered(observed[0].price, price)
}

/// The action that a tick yields in a state.
pub open spec fn tick_action(state: AppStateView, symbol: Seq<char>, price: u64, now: u64) -> Option<
    TradeActionView,
> {
    if !state.is_running {
        None
    } else if state.has_position(symbol) {
        let trade = raise_peak(state.position(symbol), price);
        if exit_triggered(trade.peak_price, price) {
            Some(
                TradeActionView::Sell {
                    symbol,
                    price,
                    qty: trade.quantity,
                    buy_price: trade.buy_price,
                },
            )
        } else {
            None
        }
    } else if entry_signal(observed_window(state.window(symbol), now, price), price) {
        Some(TradeActionView::Buy { symbol, price })
    } else {
        None
    }
}

/// The state that a tick leaves behind.
pub open spec fn tick_state(state: AppStateView, symbol: Seq<char>, price: u64, now: u64) -> AppStateView {
    if !state.is_running {
        state
    } else if state.has_position(symbol) {
        AppStateView {
            active_trades: state.active_trades.update(
                state.position_index(symbol),
                raise_peak(state.position(symbol), price),
            ),
            ..state
        }
    } else {
        let observed = observed_window(state.window(symbol), now, price);
        if entry_signal(observed, price) {
            AppStateView { price_windows: state.price_windows.remove(symbol), ..state }
        } else {
            AppStateView { price_windows: state.price_windows.insert(symbol, observed), ..state }
        }
    }
}

/// The shared trading state.
pub struct AppState {
    active_trades: Vec<Trade>,
    closed_trades: Vec<ClosedTrade>,
    price_windows: StringHashMap<Vec<PriceSample>>,
    config: Config,
    is_running: bool,
    waiting_for_amount: bool,
}

impl View for AppState {
    type V = AppStateView;

    closed spec fn view(&self) -> AppStateView {
        AppStateView {
            active_trades: trade_views(self.active_trades@),
            closed_trades: closed_trade_views(self.closed_trades@),
            price_windows: self.price_windows@.map_values(|w: Vec<PriceSample>| w@),
            config: self.config@,
            is_running: self.is_running,
            waiting_for_amount: self.waiting_for_amount,
        }
    }
}

/// Copies the fresh part of a window.
fn fresh_copy(window: &Vec<PriceSample>, now: u64) -> (kept: Vec<PriceSample>)
    ensures
        kept@ == fresh_part(window@, now),
{
    let mut start: usize = 0;
    assert(window@.skip(0) =~= window@);
    while start < window.len() && check_stale(window[start].time, now)
        invariant
            start <= window.len(),
            fresh_part(window@, now) == fresh_part(window@.skip(start as int), now),
        decreases window.len() - start,
    {
        assert(window@.skip(start as int).drop_first() =~= window@.skip(start as int + 1));
        start += 1;
    }
    let mut kept: Vec<PriceSample> = Vec::new();
    let mut next: usize = start;
    while next < window.len()
        invariant
            start <= next <= window.len(),
            kept@ == window@.subrange(start as int, next as int),
        decreases window.len() - next,
    {
        kept.push(window[next]);
        next += 1;
    }
    assert(kept@ =~= window@.skip(start as int));
    kept
}

impl AppState {
    /// The state's invariant: see [`AppStateView::wf`].
    pub open spec fn wf(&self) -> bool {
        self@.wf()
    }

    /// A state without positions, windows or history, with detection
    /// switched off.
    pub fn new(cfg: Config) -> (state: AppState)
        ensures
            state.wf(),
            state@.active_trades.len() == 0,
            state@.closed_trades.len() == 0,
            state@.price_windows == Map::<Seq<char>, Seq<PriceSample>>::empty(),
            state@.config == cfg@,
            !state@.is_running,
            !state@.waiting_for_amount,
    {
        let state = AppState {
            active_trades: Vec::new(),
            closed_trades: Vec::new(),
            price_windows: StringHashMap::new(),
            config: cfg,
            is_running: false,
            waiting_for_amount: false,
        };
        assert(state@.price_windows =~= Map::<Seq<char>, Seq<PriceSample>>::empty());
        state
    }

    /// Finds the symbol's position among the open ones.
    fn find_trade(&self, symbol: &str) -> (found: Option<usize>)
        requires
            self.wf(),
        ensures
            match found {
                Some(i) => i < self@.active_trades.len() && self@.has_position(symbol@)
                    && self@.position_index(symbol@) == i,
                None => !self@.has_position(symbol@),
            },
    {
        let mut i: usize = 0;
        while i < self.active_trades.len()
            invariant
                self.wf(),
                i <= self.active_trades.len(),
                self@.active_trades.len() == self.active_trades.len(),
                forall|j: int| 0 <= j < i ==> (#[trigger] self@.active_trades[j]).symbol != symbol@,
            decreases self.active_trades.len() - i,
        {
            if same_text(self.active_trades[i].symbol.as_str(), symbol) {
                proof {
                    let view = self@;
                    assert(view.active_trades[i as int].symbol == symbol@);
                    let chosen = view.position_index(symbol@);
                    assert(view.active_trades[chosen].symbol == symbol@);
                    assert(chosen == i);
                }
                return Some(i);
            }
            i += 1;
        }
        None
    }

    /// Handles one tick at the second `now`.
    ///
    /// With detection switched off nothing happens. For a symbol with an open
    /// position the peak follows the price upwards and a `Sell` is returned
    /// once the price lies three percent or more below the peak; the position
    /// stays until the sale is settled. For any other symbol the price joins
    /// the trailing window, stale samples leave it, and a `Buy` is returned,
    /// and the window dropped, once three or more samples remain and the
    /// price lies five percent or more above the oldest of them.
    pub fn analyze_tick_at(&mut self, symbol: &str, price: u64, now: u64) -> (action: Option<
        TradeAction,
    >)
        requires
            old(self).wf(),
        ensures
            final(self).wf(),
            final(self)@ == tick_state(old(self)@, symbol@, price, now),
            action_view(action) == tick_action(old(self)@, symbol@, price, now),
    {
        if !self.is_running {
            return None;
        }
        match self.find_trade(symbol) {
            Some(i) => {
                let ghost before = self@;
                if price > self.active_trades[i].peak_price {
                    self.active_trades[i].peak_price = price;
                }
                assert(self@.active_trades =~= before.active_trades.update(
                    i as int,
                    raise_peak(before.active_trades[i as int], price),
                ));
                let trade = &self.active_trades[i];
                if check_exit(trade.peak_price, price) {
                    Some(
                        TradeAction::Sell {
                            symbol: String::from_str(symbol),
                            price,
                            qty: trade.quantity,
                            buy_price: trade.buy_price,
                        },
                    )
                } else {
                    None
                }
            },
            None => {
                let ghost before = self@;
                let mut observed: Vec<PriceSample> = match self.price_windows.get(symbol) {
                    Some(window) => fresh_copy(window, now),
                    None => Vec::new(),
                };
                observed.push(PriceSample { time: now, price });
                assert(observed@ =~= observed_window(before.window(symbol@), now, price));
                if observed.len() >= MIN_SAMPLES && check_entry(observed[0].price, price) {
                    self.price_windows.remove(symbol);
                    assert(self@.price_windows =~= before.price_windows.remove(symbol@));
                    Some(TradeAction::Buy { symbol: String::from_str(symbol), price })
                } else {
                    self.price_windows.insert(String::from_str(symbol), observed);
                    assert(self@.price_windows =~= before.price_windows.insert(
                        symbol@,
                        observed_window(before.window(symbol@), now, price),
                    ));
                    None
                }
            },
        }
    }

    /// Handles one tick at the current reading of the clock: see
    /// [`AppState::analyze_tick_at`], whose contract holds for that reading.
    pub fn analyze_tick(&mut self, symbol: &str, price: u64) -> (action: Option<TradeAction>)
        requires
            old(self).wf(),
        ensures
            final(self).wf(),
            exists|now: u64|
                final(self)@ == tick_state(old(self)@, symbol@, price, now) && action_view(action)
                    == #[trigger] tick_action(old(self)@, symbol@, price, now),
    {
        let now: u64 = get_timestamp_secs();
        self.analyze_tick_at(symbol, price, now)
    }
}

/// The state with a position for the symbol added behind the open ones and
/// the symbol's window dropped.
pub open spec fn opened(
    state: AppStateView,
    symbol: Seq<char>,
    entry_price: u64,
    quantity: u64,
    timestamp: u64,
) -> AppStateView {
    AppStateView {
        active_trades: state.active_trades.push(
            TradeView {
                symbol,
                buy_price: entry_price,
                peak_price: entry_price,
                quantity,
                timestamp,
            },
        ),
        price_windows: state.price_windows.remove(symbol),
        ..state
    }
}

/// The state with the symbol's position taken out.
pub open spec fn closed(state: AppStateView, symbol: Seq<char>) -> AppStateView {
    AppStateView {
        active_trades: state.active_trades.remove(state.position_index(symbol)),
        ..state
    }
}

impl AppState {
    /// Whether signal detection is switched on.
    pub fn is_running(&self) -> (running: bool)
        ensures
            running == self@.is_running,
    {
        self.is_running
    }

    /// Switches signal detection on or off.
    pub fn set_running(&mut self, running: bool)
        ensures
            final(self)@ == (AppStateView { is_running: running, ..old(self)@ }),
    {
        self.is_running = running;
    }

    /// Whether the operator has been asked for an amount and not yet answered.
    pub fn is_waiting_for_amount(&self) -> (waiting: bool)
        ensures
            waiting == self@.waiting_for_amount,
    {
        self.waiting_for_amount
    }

    /// Notes whether an amount is awaited from the operator.
    pub fn set_waiting_for_amount(&mut self, waiting: bool)
        ensures
            final(self)@ == (AppStateView { waiting_for_amount: waiting, ..old(self)@ }),
    {
        self.waiting_for_amount = waiting;
    }

    /// The amount of quote currency put into each trade.
    pub fn trade_amount(&self) -> (amount: u64)
        ensures
            amount == self@.config.trade_amount,
    {
        self.config.trade_amount
    }

    /// Sets the amount of quote currency put into each trade.
    pub fn set_trade_amount(&mut self, amount: u64)
        ensures
            final(self)@ == (AppStateView {
                config: ConfigView { trade_amount: amount, ..old(self)@.config },
                ..old(self)@
            }),
    {
        self.config.trade_amount = amount;
    }

    /// The configuration.
    pub fn config(&self) -> (cfg: &Config)
        ensures
            cfg@ == self@.config,
    {
        &self.config
    }

    /// A copy of the open positions, in the order in which they were opened.
    pub fn active_trades(&self) -> (trades: Vec<Trade>)
        ensures
            trade_views(trades@) == self@.active_trades,
    {
        let mut trades: Vec<Trade> = Vec::new();
        let mut i: usize = 0;
        while i < self.active_trades.len()
            invariant
                i <= self.active_trades.len(),
                trades@ == self.active_trades@.subrange(0, i as int),
            decreases self.active_trades.len() - i,
        {
            trades.push(self.active_trades[i].clone());
            i += 1;
        }
        assert(trades@ =~= self.active_trades@);
        trades
    }

    /// A copy of the closed trades, oldest first.
    pub fn closed_trades(&self) -> (trades: Vec<ClosedTrade>)
        ensures
            closed_trade_views(trades@) == self@.closed_trades,
    {
        let mut trades: Vec<ClosedTrade> = Vec::new();
        let mut i: usize = 0;
        while i < self.closed_trades.len()
            invariant
                i <= self.closed_trades.len(),
                trades@ == self.closed_trades@.subrange(0, i as int),
            decreases self.closed_trades.len() - i,
        {
            trades.push(self.closed_trades[i].clone());
            i += 1;
        }
        assert(trades@ =~= self.closed_trades@);
        trades
    }

    /// A copy of the symbol's open position, if it has one.
    pub fn position(&self, symbol: &str) -> (trade: Option<Trade>)
        requires
            self.wf(),
        ensures
            match trade {
                Some(t) => self@.has_position(symbol@) && t@ == self@.position(symbol@),
                None => !self@.has_position(symbol@),
            },
    {
        match self.find_trade(symbol) {
            Some(i) => Some(self.active_trades[i].clone()),
            None => None,
        }
    }

    /// A copy of the samples kept for the symbol, oldest first; none where it
    /// has no window.
    pub fn window(&self, symbol: &str) -> (samples: Vec<PriceSample>)
        ensures
            samples@ == self@.window(symbol@),
    {
        let mut samples: Vec<PriceSample> = Vec::new();
        match self.price_windows.get(symbol) {
            Some(kept) => {
                let mut i: usize = 0;
                while i < kept.len()
                    invariant
                        i <= kept.len(),
                        samples@ == kept@.subrange(0, i as int),
                    decreases kept.len() - i,
                {
                    samples.push(kept[i]);
                    i += 1;
                }
                assert(samples@ =~= kept@);
            },
            None => {},
        }
        samples
    }

    /// Opens a position for the symbol at the entry price, which is also its
    /// first peak, and drops the symbol's window.
    ///
    /// A symbol that already has a position keeps it: the call is refused and
    /// nothing changes.
    pub fn open_position(
        &mut self,
        symbol: &str,
        entry_price: u64,
        quantity: u64,
        timestamp: u64,
    ) -> (outcome: Result<(), EngineError>)
        requires
            old(self).wf(),
        ensures
            final(self).wf(),
            old(self)@.has_position(symbol@) ==> outcome == Err::<(), EngineError>(
                EngineError::PositionAlreadyOpen,
            ) && final(self)@ == old(self)@,
            !old(self)@.has_position(symbol@) ==> outcome.is_ok() && final(self)@ == opened(
                old(self)@,
                symbol@,
                entry_price,
                quantity,
                timestamp,
            ),
    {
        match self.find_trade(symbol) {
            Some(_) => Err(EngineError::PositionAlreadyOpen),
            None => {
                let ghost before = self@;
                self.price_windows.remove(symbol);
                assert(self@.price_windows =~= before.price_windows.remove(symbol@));
                self.active_trades.push(
                    Trade {
                        symbol: String::from_str(symbol),
                        buy_price: entry_price,
                        peak_price: entry_price,
                        quantity,
                        timestamp,
                    },
                );
                assert(self@.active_trades =~= opened(
                    before,
                    symbol@,
                    entry_price,
                    quantity,
                    timestamp,
                ).active_trades);
                Ok(())
            },
        }
    }

    /// Takes the symbol's position out of the state and returns it; without
    /// such a position nothing changes.
    pub fn close_position(&mut self, symbol: &str) -> (trade: Option<Trade>)
        requires
            old(self).wf(),
        ensures
            final(self).wf(),
            match trade {
                Some(t) => old(self)@.has_position(symbol@) && t@ == old(self)@.position(symbol@)
                    && final(self)@ == closed(old(self)@, symbol@),
                None => !old(self)@.has_position(symbol@) && final(self)@ == old(self)@,
            },
            !final(self)@.has_position(symbol@),
    {
        match self.find_trade(symbol) {
            Some(i) => {
                let ghost before = self@;
                let trade = self.active_trades.remove(i);
                assert(self@.active_trades =~= before.active_trades.remove(i as int));
                Some(trade)
            },
            None => None,
        }
    }

    /// Appends a closed trade to the history.
    pub fn record_closed_trade(&mut self, entry: ClosedTrade)
        ensures
            final(self)@ == (AppStateView {
                closed_trades: old(self)@.closed_trades.push(entry@),
                ..old(self)@
            }),
    {
        let ghost before = self@;
        self.closed_trades.push(entry);
        assert(self@.closed_trades =~= before.closed_trades.push(entry@));
    }
}

/// No two of the positions are for the same symbol.
pub open spec fn distinct_symbols(trades: Seq<TradeView>) -> bool {
    forall|i: int, j: int|
        0 <= i < j < trades.len() ==> (#[trigger] trades[i]).symbol != (#[trigger] trades[j]).symbol
}

/// No position has its peak below its entry price.
pub open spec fn peaks_cover_entries(trades: Seq<TradeView>) -> bool {
    forall|i: int| 0 <= i < trades.len() ==> (#[trigger] trades[i]).buy_price <= trades[i].peak_price
}

/// The state that stored positions and closed trades are taken up into: no
/// windows, detection off, nothing awaited.
pub open spec fn restored(
    config: ConfigView,
    trades: Seq<TradeView>,
    closed_trades: Seq<ClosedTradeView>,
) -> AppStateView {
    AppStateView {
        active_trades: trades,
        closed_trades,
        price_windows: Map::empty(),
        config,
        is_running: false,
        waiting_for_amount: false,
    }
}

impl AppState {
    /// Takes up positions and closed trades that were stored earlier, as
    /// [`AppState::active_trades`] and [`AppState::closed_trades`] hand them
    /// out, in the same order.
    ///
    /// Positions of which one has its peak below its entry price are refused
    /// with `PeakBelowEntry`; otherwise positions of which two are for the
    /// same symbol are refused with `PositionAlreadyOpen`.
    pub fn restore(cfg: Config, trades: Vec<Trade>, closed_trades: Vec<ClosedTrade>) -> (outcome:
        Result<AppState, EngineError>)
        ensures
            match outcome {
                Ok(state) => {
                    &&& peaks_cover_entries(trade_views(trades@))
                    &&& distinct_symbols(trade_views(trades@))
                    &&& state.wf()
                    &&& state@ == restored(
                        cfg@,
                        trade_views(trades@),
                        closed_trade_views(closed_trades@),
                    )
                },
                Err(refusal) => if peaks_cover_entries(trade_views(trades@)) {
                    refusal == EngineError::PositionAlreadyOpen && !distinct_symbols(
                        trade_views(trades@),
                    )
                } else {
                    refusal == EngineError::PeakBelowEntry
                },
            },
    {
        let ghost views = trade_views(trades@);
        let mut i: usize = 0;
        while i < trades.len()
            invariant
                i <= trades.len(),
                views == trade_views(trades@),
                forall|k: int| 0 <= k < i ==> (#[trigger] views[k]).buy_price <= views[k].peak_price,
            decreases trades.len() - i,
        {
            if trades[i].peak_price < trades[i].buy_price {
                assert(views[i as int].peak_price < views[i as int].buy_price);
                return Err(EngineError::PeakBelowEntry);
            }
            i += 1;
        }
        let mut j: usize = 0;
        while j < trades.len()
            invariant
                j <= trades.len(),
                views == trade_views(trades@),
                peaks_cover_entries(views),
                forall|a: int, b: int|
                    0 <= a < b < j ==> (#[trigger] views[a]).symbol != (#[trigger] views[b]).symbol,
            decreases trades.len() - j,
        {
            let mut k: usize = 0;
            while k < j
                invariant
                    k <= j < trades.len(),
                    views == trade_views(trades@),
                    peaks_cover_entries(views),
                    forall|a: int| 0 <= a < k ==> (#[trigger] views[a]).symbol != views[j as int].symbol,
                decreases j - k,
            {
                if same_text(trades[k].symbol.as_str(), trades[j].symbol.as_str()) {
                    assert(views[k as int].symbol == views[j as int].symbol);
                    return Err(EngineError::PositionAlreadyOpen);
                }
                k += 1;
            }
            j += 1;
        }
        let state = AppState {
            active_trades: trades,
            closed_trades,
            price_windows: StringHashMap::new(),
            config: cfg,
            is_running: false,
            waiting_for_amount: false,
        };
        assert(state@.price_windows =~= Map::<Seq<char>, Seq<PriceSample>>::empty());
        Ok(state)
    }
}

} // verus!
