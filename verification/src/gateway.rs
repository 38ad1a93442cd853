//! The order gateway's side of a trade: what to send to the venue for an
//! action, and what a confirmed order does to the trading state.

use crate::clock::{get_timestamp_millis, get_timestamp_secs};
use crate::decimal::{
    amount_text, format_amount, format_four_places, four_place_text, numeral, push_numeral,
    UNITS_PER_WHOLE,
};
use crate::engine::{closed, opened, AppState, AppStateView};
use crate::model::{
    ClosedTrade, ClosedTradeView, Config, EngineError, Trade, TradeAction, TradeActionView,
    TradeView,
};
use crate::signing::{sign_and_append, signed_text};
use vstd::prelude::*;
use vstd::string::StringExecFns;

verus! {

/// Units of base currency that a unit of quote currency buys after the
/// venue's fee and slippage: 998 thousandths of the fixed-point scale.
pub const NET_UNITS_PER_WHOLE: u64 = 99_800_000;

/// Milliseconds for which the venue accepts a request after its timestamp.
pub const RECEIVE_WINDOW_MS: u64 = 5000;

/// The side of a market order.
#[derive(Clone, Copy, Debug, PartialEq, Eq, Structural)]
pub enum OrderSide {
    Buy,
    Sell,
}

/// How much a market order trades: an amount of quote currency to spend, or
/// a quantity of base currency to trade.
#[derive(Clone, Copy, Debug, PartialEq, Eq, Structural)]
pub enum OrderSize {
    Quote(u64),
    Base(u64),
}

/// A market order for the venue.
#[derive(Debug, PartialEq, Eq)]
pub struct OrderRequest {
    pub symbol: String,
    pub side: OrderSide,
    pub size: OrderSize,
}

/// An `OrderRequest` with its symbol as a sequence of characters.
pub struct OrderRequestView {
    pub symbol: Seq<char>,
    pub side: OrderSide,
    pub size: OrderSize,
}

impl View for OrderRequest {
    type V = OrderRequestView;

    open spec fn view(&self) -> OrderRequestView {
        OrderRequestView { symbol: self.symbol@, side: self.side, size: self.size }
    }
}

/// What settling an order did.
#[derive(Debug, PartialEq, Eq)]
pub enum Settlement {
    /// The venue did not confirm the order: nothing changed.
    Unfilled,
    /// A purchase was confirmed and this position opened.
    Opened(Trade),
    /// A sale was confirmed, the position closed and this trade recorded.
    Closed(ClosedTrade),
}

/// A `Settlement` with its records as views.
pub enum SettlementView {
    Unfilled,
    Opened(TradeView),
    Closed(ClosedTradeView),
}

impl View for Settlement {
    type V = SettlementView;

    open spec fn view(&self) -> SettlementView {
        match *self {
            Settlement::Unfilled => SettlementView::Unfilled,
            Settlement::Opened(trade) => SettlementView::Opened(trade@),
            Settlement::Closed(trade) => SettlementView::Closed(trade@),
        }
    }
}

/// The order that an action asks for: a purchase spends the amount set for
/// each trade, a sale sells the position's quantity.
pub open spec fn order_for(action: TradeActionView, trade_amount: u64) -> OrderRequestView {
    match action {
        TradeActionView::Buy { symbol, price } => OrderRequestView {
            symbol,
            side: OrderSide::Buy,
            size: OrderSize::Quote(trade_amount),
        },
        TradeActionView::Sell { symbol, price, qty, buy_price } => OrderRequestView {
            symbol,
            side: OrderSide::Sell,
            size: OrderSize::Base(qty),
        },
    }
}

/// The quantity that an amount of quote currency buys at a price:
/// `(amount / price) * 0.998`, rounded down to the unit.
pub open spec fn estimated_quantity(amount: u64, price: u64) -> int {
    (amount * NET_UNITS_PER_WHOLE) / (price as int)
}

/// The gain of selling a quantity at `price` that was bought at `buy_price`:
/// `(price - buy_price) * quantity`, rounded towards zero to the unit.
pub open spec fn realized_profit(price: u64, buy_price: u64, quantity: u64) -> int {
    if price >= buy_price {
        ((price - buy_price) * quantity) / (UNITS_PER_WHOLE as int)
    } else {
        -(((buy_price - price) * quantity) / (UNITS_PER_WHOLE as int))
    }
}

/// The gain as a fraction of the entry price: `(price - buy_price) /
/// buy_price`, rounded towards zero to the unit.
pub open spec fn realized_fraction(price: u64, buy_price: u64) -> int {
    if price >= buy_price {
        ((price - buy_price) * UNITS_PER_WHOLE) / (buy_price as int)
    } else {
        -(((buy_price - price) * UNITS_PER_WHOLE) / (buy_price as int))
    }
}

/// Estimates the quantity bought: see [`estimated_quantity`]. A price of
/// zero and a quantity beyond the fixed-point range are refused.
pub fn estimate_quantity(amount: u64, price: u64) -> (quantity: Result<u64, EngineError>)
    ensures
        price == 0 ==> quantity == Err::<u64, EngineError>(EngineError::ZeroPrice),
        price > 0 && estimated_quantity(amount, price) > u64::MAX ==> quantity == Err::<
            u64,
            EngineError,
        >(EngineError::QuantityOutOfRange),
        price > 0 && estimated_quantity(amount, price) <= u64::MAX ==> quantity == Ok::<
            u64,
            EngineError,
        >(estimated_quantity(amount, price) as u64),
{
    if price == 0 {
        return Err(EngineError::ZeroPrice);
    }
    let net: u128 = NET_UNITS_PER_WHOLE as u128;
    assert(net == 99_800_000);
    let bought: u128 = (amount as u128) * net / (price as u128);
    if bought > u64::MAX as u128 {
        Err(EngineError::QuantityOutOfRange)
    } else {
        Ok(bought as u64)
    }
}

/// Computes the gain of a sale: see [`realized_profit`].
pub fn compute_profit(price: u64, buy_price: u64, quantity: u64) -> (profit: i128)
    ensures
        profit == realized_profit(price, buy_price, quantity),
{
    let scale: u128 = UNITS_PER_WHOLE as u128;
    assert(scale == 100_000_000);
    if price >= buy_price {
        let rise: u128 = (price - buy_price) as u128;
        assert(rise * (quantity as u128) <= 0xffff_ffff_ffff_ffff * 0xffff_ffff_ffff_ffff)
            by (nonlinear_arith)
            requires
                rise <= 0xffff_ffff_ffff_ffff,
                quantity <= 0xffff_ffff_ffff_ffff,
        ;
        let gain: u128 = rise * (quantity as u128) / scale;
        gain as i128
    } else {
        let fall: u128 = (buy_price - price) as u128;
        assert(fall * (quantity as u128) <= 0xffff_ffff_ffff_ffff * 0xffff_ffff_ffff_ffff)
            by (nonlinear_arith)
            requires
                fall <= 0xffff_ffff_ffff_ffff,
                quantity <= 0xffff_ffff_ffff_ffff,
        ;
        let loss: u128 = fall * (quantity as u128) / scale;
        -(loss as i128)
    }
}

/// Computes the gain as a fraction of the entry price: see
/// [`realized_fraction`]. An entry price of zero is refused.
pub fn compute_fraction(price: u64, buy_price: u64) -> (fraction: Result<i128, EngineError>)
    ensures
        buy_price == 0 ==> fraction == Err::<i128, EngineError>(EngineError::ZeroPrice),
        buy_price > 0 ==> fraction == Ok::<i128, EngineError>(
            realized_fraction(price, buy_price) as i128,
        ) && i128::MIN <= realized_fraction(price, buy_price) <= i128::MAX,
{
    if buy_price == 0 {
        return Err(EngineError::ZeroPrice);
    }
    let scale: u128 = UNITS_PER_WHOLE as u128;
    assert(scale == 100_000_000);
    if price >= buy_price {
        let rise: u128 = (price - buy_price) as u128;
        let gain: u128 = rise * scale / (buy_price as u128);
        Ok(gain as i128)
    } else {
        let fall: u128 = (buy_price - price) as u128;
        let loss: u128 = fall * scale / (buy_price as u128);
        Ok(-(loss as i128))
    }
}

/// The word that the venue reads for a side.
pub open spec fn side_text(side: OrderSide) -> Seq<char> {
    match side {
        OrderSide::Buy => "BUY"@,
        OrderSide::Sell => "SELL"@,
    }
}

/// The parameter that carries an order's size: the quote amount in full, or
/// the base quantity with four digits behind the point.
pub open spec fn size_text(size: OrderSize) -> Seq<char> {
    match size {
        OrderSize::Quote(amount) => "&quoteOrderQty="@ + amount_text(amount),
        OrderSize::Base(quantity) => "&quantity="@ + four_place_text(quantity),
    }
}

/// The query of a market order, parameter by parameter in the order in
/// which the venue signs them.
pub open spec fn order_query_text(order: OrderRequestView, timestamp_ms: u64) -> Seq<char> {
    "symbol="@ + order.symbol + "&side="@ + side_text(order.side) + "&type=MARKET&timestamp="@
        + numeral(timestamp_ms as nat) + "&recvWindow=5000"@ + size_text(order.size)
}

/// Writes the query of a market order: see [`order_query_text`].
pub fn order_query(order: &OrderRequest, timestamp_ms: u64) -> (query: String)
    ensures
        query@ == order_query_text(order@, timestamp_ms),
{
    let mut query = String::new();
    query.append("symbol=");
    query.append(order.symbol.as_str());
    query.append("&side=");
    match order.side {
        OrderSide::Buy => query.append("BUY"),
        OrderSide::Sell => query.append("SELL"),
    }
    query.append("&type=MARKET&timestamp=");
    push_numeral(&mut query, timestamp_ms);
    query.append("&recvWindow=5000");
    match order.size {
        OrderSize::Quote(amount) => {
            query.append("&quoteOrderQty=");
            let written = format_amount(amount);
            query.append(written.as_str());
        },
        OrderSize::Base(quantity) => {
            query.append("&quantity=");
            let written = format_four_places(quantity);
            query.append(written.as_str());
        },
    }
    assert(query@ =~= order_query_text(order@, timestamp_ms));
    query
}

/// A market order ready to be sent: the signed query, and the key that goes
/// into the request's header.
#[derive(Debug, PartialEq, Eq)]
pub struct SignedOrder {
    pub query: String,
    pub api_key: String,
}

/// Signs a market order for the millisecond `timestamp_ms`.
///
/// The query is that of [`order_query_text`], followed by its signature
/// under the configured secret.
pub fn prepare_order_at(config: &Config, order: &OrderRequest, timestamp_ms: u64) -> (signed:
    SignedOrder)
    ensures
        signed.query@ == signed_text(
            order_query_text(order@, timestamp_ms),
            config@.api_secret,
        ),
        signed.api_key@ == config@.api_key,
{
    let query = order_query(order, timestamp_ms);
    SignedOrder {
        query: sign_and_append(query, config.api_secret.as_str()),
        api_key: config.api_key.clone(),
    }
}

/// Signs a market order for the current reading of the clock: see
/// [`prepare_order_at`], whose contract holds for that reading.
pub fn prepare_order(config: &Config, order: &OrderRequest) -> (signed: SignedOrder)
    ensures
        signed.api_key@ == config@.api_key,
        exists|timestamp_ms: u64|
            signed.query@ == signed_text(
                #[trigger] order_query_text(order@, timestamp_ms),
                config@.api_secret,
            ),
{
    let timestamp_ms: u64 = get_timestamp_millis();
    prepare_order_at(config, order, timestamp_ms)
}

/// The position that a confirmed purchase opens.
pub open spec fn bought_trade(symbol: Seq<char>, price: u64, amount: u64, now: u64) -> TradeView {
    TradeView {
        symbol,
        buy_price: price,
        peak_price: price,
        quantity: estimated_quantity(amount, price) as u64,
        timestamp: now,
    }
}

/// The record of a confirmed sale.
pub open spec fn sold_trade(
    symbol: Seq<char>,
    price: u64,
    quantity: u64,
    buy_price: u64,
    now: u64,
) -> ClosedTradeView {
    ClosedTradeView {
        symbol,
        pnl_percent: realized_fraction(price, buy_price) as i128,
        profit_usdt: realized_profit(price, buy_price, quantity) as i128,
        close_time: now,
    }
}

/// What settling an order gives.
///
/// An unconfirmed order gives `Unfilled`. A confirmed purchase needs a price
/// above zero, a quantity within range and a symbol without a position. A
/// confirmed sale needs an entry price above zero and a symbol with a
/// position.
pub open spec fn settle_outcome(
    state: AppStateView,
    action: TradeActionView,
    amount: u64,
    confirmed: bool,
    now: u64,
) -> Result<SettlementView, EngineError> {
    if !confirmed {
        Ok(SettlementView::Unfilled)
    } else {
        match action {
            TradeActionView::Buy { symbol, price } => {
                if price == 0 {
                    Err(EngineError::ZeroPrice)
                } else if estimated_quantity(amount, price) > u64::MAX {
                    Err(EngineError::QuantityOutOfRange)
                } else if state.has_position(symbol) {
                    Err(EngineError::PositionAlreadyOpen)
                } else {
                    Ok(SettlementView::Opened(bought_trade(symbol, price, amount, now)))
                }
            },
            TradeActionView::Sell { symbol, price, qty, buy_price } => {
                if buy_price == 0 {
                    Err(EngineError::ZeroPrice)
                } else if !state.has_position(symbol) {
                    Err(EngineError::NoOpenPosition)
                } else {
                    Ok(SettlementView::Closed(sold_trade(symbol, price, qty, buy_price, now)))
                }
            },
        }
    }
}

/// The state that settling an order leaves behind: changed only where the
/// outcome is `Opened` or `Closed`.
pub open spec fn settle_state(
    state: AppStateView,
    action: TradeActionView,
    amount: u64,
    confirmed: bool,
    now: u64,
) -> AppStateView {
    match settle_outcome(state, action, amount, confirmed, now) {
        Ok(SettlementView::Opened(trade)) => opened(
            state,
            trade.symbol,
            trade.buy_price,
            trade.quantity,
            trade.timestamp,
        ),
        Ok(SettlementView::Closed(record)) => AppStateView {
            closed_trades: state.closed_trades.push(record),
            ..closed(state, record.symbol)
        },
        _ => state,
    }
}

/// The view of a settlement or of the refusal in its place.
pub open spec fn outcome_view(outcome: Result<Settlement, EngineError>) -> Result<
    SettlementView,
    EngineError,
> {
    match outcome {
        Ok(settlement) => Ok(settlement@),
        Err(refusal) => Err(refusal),
    }
}

impl AppState {
    /// The order to send for an action: see [`order_for`].
    pub fn plan_order(&self, action: &TradeAction) -> (order: OrderRequest)
        ensures
            order@ == order_for(action@, self@.config.trade_amount),
    {
        match action {
            TradeAction::Buy { symbol, price } => OrderRequest {
                symbol: symbol.clone(),
                side: OrderSide::Buy,
                size: OrderSize::Quote(self.trade_amount()),
            },
            TradeAction::Sell { symbol, price, qty, buy_price } => OrderRequest {
                symbol: symbol.clone(),
                side: OrderSide::Sell,
                size: OrderSize::Base(*qty),
            },
        }
    }

    /// Settles the order that was sent for an action, at the second `now`.
    ///
    /// `amount` is the quote amount that a purchase was sent with and
    /// `confirmed` tells whether the venue accepted the order. An order that
    /// was not confirmed changes nothing. A confirmed purchase opens a
    /// position at the action's price, with the estimated quantity; a
    /// confirmed sale closes the symbol's position and records the trade with
    /// the gain computed from the action's figures. Where the outcome is a
    /// refusal nothing changes.
    pub fn settle_at(
        &mut self,
        action: &TradeAction,
        amount: u64,
        confirmed: bool,
        now: u64,
    ) -> (outcome: Result<Settlement, EngineError>)
        requires
            old(self).wf(),
        ensures
            final(self).wf(),
            outcome_view(outcome) == settle_outcome(old(self)@, action@, amount, confirmed, now),
            final(self)@ == settle_state(old(self)@, action@, amount, confirmed, now),
    {
        if !confirmed {
            return Ok(Settlement::Unfilled);
        }
        match action {
            TradeAction::Buy { symbol, price } => {
                let quantity: u64 = match estimate_quantity(amount, *price) {
                    Ok(quantity) => quantity,
                    Err(refusal) => {
                        return Err(refusal);
                    },
                };
                match self.open_position(symbol.as_str(), *price, quantity, now) {
                    Ok(()) => Ok(
                        Settlement::Opened(
                            Trade {
                                symbol: symbol.clone(),
                                buy_price: *price,
                                peak_price: *price,
                                quantity,
                                timestamp: now,
                            },
                        ),
                    ),
                    Err(refusal) => Err(refusal),
                }
            },
            TradeAction::Sell { symbol, price, qty, buy_price } => {
                let fraction: i128 = match compute_fraction(*price, *buy_price) {
                    Ok(fraction) => fraction,
                    Err(refusal) => {
                        return Err(refusal);
                    },
                };
                let profit: i128 = compute_profit(*price, *buy_price, *qty);
                match self.close_position(symbol.as_str()) {
                    Some(_) => {
                        let record = ClosedTrade {
                            symbol: symbol.clone(),
                            pnl_percent: fraction,
                            profit_usdt: profit,
                            close_time: now,
                        };
                        self.record_closed_trade(record.clone());
                        Ok(Settlement::Closed(record))
                    },
                    None => Err(EngineError::NoOpenPosition),
                }
            },
        }
    }

    /// Settles the order that was sent for an action, at the current reading
    /// of the clock: see [`AppState::settle_at`], whose contract holds for
    /// that reading.
    pub fn settle(&mut self, action: &TradeAction, amount: u64, confirmed: bool) -> (outcome:
        Result<Settlement, EngineError>)
        requires
            old(self).wf(),
        ensures
            final(self).wf(),
            exists|now: u64|
                outcome_view(outcome) == #[trigger] settle_outcome(
                    old(self)@,
                    action@,
                    amount,
                    confirmed,
                    now,
                ) && final(self)@ == settle_state(old(self)@, action@, amount, confirmed, now),
    {
        let now: u64 = get_timestamp_secs();
        self.settle_at(action, amount, confirmed, now)
    }
}

} // verus!
