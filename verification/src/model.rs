//! The records that the engine keeps and hands out, each with its
//! mathematical view.

use vstd::prelude::*;

verus! {

/// An open position.
#[derive(Debug, PartialEq, Eq)]
pub struct Trade {
    pub symbol: String,
    pub buy_price: u64,
    pub peak_price: u64,
    pub quantity: u64,
    pub timestamp: u64,
}

/// A `Trade` with its symbol as a sequence of characters.
pub struct TradeView {
    pub symbol: Seq<char>,
    pub buy_price: u64,
    pub peak_price: u64,
    pub quantity: u64,
    pub timestamp: u64,
}

impl View for Trade {
    type V = TradeView;

    open spec fn view(&self) -> TradeView {
        TradeView {
            symbol: self.symbol@,
            buy_price: self.buy_price,
            peak_price: self.peak_price,
            quantity: self.quantity,
            timestamp: self.timestamp,
        }
    }
}

impl Clone for Trade {
    fn clone(&self) -> (copy: Self)
        ensures
            copy == *self,
    {
        Trade {
            symbol: self.symbol.clone(),
            buy_price: self.buy_price,
            peak_price: self.peak_price,
            quantity: self.quantity,
            timestamp: self.timestamp,
        }
    }
}

/// The views of a sequence of positions.
pub open spec fn trade_views(trades: Seq<Trade>) -> Seq<TradeView> {
    trades.map_values(|t: Trade| t@)
}

/// A position that was closed, with what it realised.
///
/// `pnl_percent` is the gain as a fraction of the entry price and
/// `profit_usdt` the gain in quote currency, both in fixed-point units and
/// negative for a loss.
#[derive(Debug, PartialEq, Eq)]
pub struct ClosedTrade {
    pub symbol: String,
    pub pnl_percent: i128,
    pub profit_usdt: i128,
    pub close_time: u64,
}

/// A `ClosedTrade` with its symbol as a sequence of characters.
pub struct ClosedTradeView {
    pub symbol: Seq<char>,
    pub pnl_percent: i128,
    pub profit_usdt: i128,
    pub close_time: u64,
}

impl View for ClosedTrade {
    type V = ClosedTradeView;

    open spec fn view(&self) -> ClosedTradeView {
        ClosedTradeView {
            symbol: self.symbol@,
            pnl_percent: self.pnl_percent,
            profit_usdt: self.profit_usdt,
            close_time: self.close_time,
        }
    }
}

impl Clone for ClosedTrade {
    fn clone(&self) -> (copy: Self)
        ensures
            copy == *self,
    {
        ClosedTrade {
            symbol: self.symbol.clone(),
            pnl_percent: self.pnl_percent,
            profit_usdt: self.profit_usdt,
            close_time: self.close_time,
        }
    }
}

/// The views of a sequence of closed trades.
pub open spec fn closed_trade_views(trades: Seq<ClosedTrade>) -> Seq<ClosedTradeView> {
    trades.map_values(|c: ClosedTrade| c@)
}

/// What the detector asks the order gateway to do.
#[derive(Debug, PartialEq, Eq)]
pub enum TradeAction {
    Buy { symbol: String, price: u64 },
    Sell { symbol: String, price: u64, qty: u64, buy_price: u64 },
}

/// A `TradeAction` with its symbol as a sequence of characters.
pub enum TradeActionView {
    Buy { symbol: Seq<char>, price: u64 },
    Sell { symbol: Seq<char>, price: u64, qty: u64, buy_price: u64 },
}

impl View for TradeAction {
    type V = TradeActionView;

    open spec fn view(&self) -> TradeActionView {
        match *self {
            TradeAction::Buy { symbol, price } => TradeActionView::Buy { symbol: symbol@, price },
            TradeAction::Sell { symbol, price, qty, buy_price } => TradeActionView::Sell {
                symbol: symbol@,
                price,
                qty,
                buy_price,
            },
        }
    }
}

impl Clone for TradeAction {
    fn clone(&self) -> (copy: Self)
        ensures
            copy == *self,
    {
        match self {
            TradeAction::Buy { symbol, price } => TradeAction::Buy {
                symbol: symbol.clone(),
                price: *price,
            },
            TradeAction::Sell { symbol, price, qty, buy_price } => TradeAction::Sell {
                symbol: symbol.clone(),
                price: *price,
                qty: *qty,
                buy_price: *buy_price,
            },
        }
    }
}

/// The view of an action that may be absent.
pub open spec fn action_view(action: Option<TradeAction>) -> Option<TradeActionView> {
    match action {
        Some(a) => Some(a@),
        None => None,
    }
}

/// Venue credentials, the operator's chat identity and the amount of quote
/// currency put into each trade.
#[derive(Debug, PartialEq, Eq)]
pub struct Config {
    pub api_key: String,
    pub api_secret: String,
    pub bot_token: String,
    pub chat_id: String,
    pub trade_amount: u64,
}

/// A `Config` with its texts as sequences of characters.
pub struct ConfigView {
    pub api_key: Seq<char>,
    pub api_secret: Seq<char>,
    pub bot_token: Seq<char>,
    pub chat_id: Seq<char>,
    pub trade_amount: u64,
}

impl View for Config {
    type V = ConfigView;

    open spec fn view(&self) -> ConfigView {
        ConfigView {
            api_key: self.api_key@,
            api_secret: self.api_secret@,
            bot_token: self.bot_token@,
            chat_id: self.chat_id@,
            trade_amount: self.trade_amount,
        }
    }
}

impl Clone for Config {
    fn clone(&self) -> (copy: Self)
        ensures
            copy == *self,
    {
        Config {
            api_key: self.api_key.clone(),
            api_secret: self.api_secret.clone(),
            bot_token: self.bot_token.clone(),
            chat_id: self.chat_id.clone(),
            trade_amount: self.trade_amount,
        }
    }
}

/// Why the trading state refused a change.
#[derive(Clone, Copy, Debug, PartialEq, Eq, Structural)]
pub enum EngineError {
    /// The symbol already has an open position.
    PositionAlreadyOpen,
    /// The symbol has no open position.
    NoOpenPosition,
    /// A position's peak lies below its entry price.
    PeakBelowEntry,
    /// The price is zero, so nothing can be divided by it.
    ZeroPrice,
    /// The quantity bought does not fit the fixed-point range.
    QuantityOutOfRange,
}

} // verus!
