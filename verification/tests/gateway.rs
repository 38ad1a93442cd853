use pump_trader::engine::AppState;
use pump_trader::gateway::{
    compute_fraction, compute_profit, estimate_quantity, order_query, prepare_order,
    prepare_order_at, OrderRequest, OrderSide, OrderSize, Settlement, SignedOrder,
};
use pump_trader::model::{ClosedTrade, Config, EngineError, Trade, TradeAction};
use pump_trader::signing::sign_query;

const UNIT: u64 = 100_000_000;

fn config() -> Config {
    Config {
        api_key: String::from("key"),
        api_secret: String::from("secret"),
        bot_token: String::from("token"),
        chat_id: String::from("42"),
        trade_amount: 100 * UNIT,
    }
}

fn buy(symbol: &str, price: u64) -> TradeAction {
    TradeAction::Buy { symbol: String::from(symbol), price }
}

fn sell(symbol: &str, price: u64, qty: u64, buy_price: u64) -> TradeAction {
    TradeAction::Sell { symbol: String::from(symbol), price, qty, buy_price }
}

#[test]
fn the_quantity_is_the_amount_over_the_price_less_two_thousandths() {
    assert_eq!(estimate_quantity(100 * UNIT, 106 * UNIT), Ok(94_150_943));
    assert_eq!(estimate_quantity(100 * UNIT, 100 * UNIT), Ok(99_800_000));
    assert_eq!(estimate_quantity(0, 5), Ok(0));
    assert_eq!(estimate_quantity(1, UNIT), Ok(0));
}

#[test]
fn no_quantity_is_estimated_at_price_zero() {
    assert_eq!(estimate_quantity(100 * UNIT, 0), Err(EngineError::ZeroPrice));
}

#[test]
fn a_quantity_beyond_the_range_is_refused() {
    assert_eq!(estimate_quantity(u64::MAX, 1), Err(EngineError::QuantityOutOfRange));
    assert_eq!(estimate_quantity(u64::MAX, 99_800_000), Ok(u64::MAX));
    assert_eq!(estimate_quantity(u64::MAX, 99_799_999), Err(EngineError::QuantityOutOfRange));
}

#[test]
fn the_profit_is_the_price_difference_times_the_quantity() {
    assert_eq!(compute_profit(110 * UNIT, 100 * UNIT, 2 * UNIT), 2_000_000_000);
    assert_eq!(compute_profit(10_280_000_000, 106 * UNIT, 94_150_943), -301_283_017);
    assert_eq!(compute_profit(5, 5, u64::MAX), 0);
    assert_eq!(compute_profit(3, 2, 99_999_999), 0);
    assert_eq!(compute_profit(2, 3, 99_999_999), 0);
}

#[test]
fn the_profit_of_the_largest_figures_fits() {
    let most: i128 = ((u64::MAX as u128) * (u64::MAX as u128) / 100_000_000) as i128;
    assert_eq!(most, 3_402_823_669_209_384_634_264_811_192_843);
    assert_eq!(compute_profit(u64::MAX, 0, u64::MAX), most);
    assert_eq!(compute_profit(0, u64::MAX, u64::MAX), -most);
}

#[test]
fn the_fraction_is_the_price_difference_over_the_entry_price() {
    assert_eq!(compute_fraction(110 * UNIT, 100 * UNIT), Ok(10_000_000));
    assert_eq!(compute_fraction(10_280_000_000, 106 * UNIT), Ok(-3_018_867));
    assert_eq!(compute_fraction(7, 7), Ok(0));
    assert_eq!(compute_fraction(u64::MAX, 1), Ok((u64::MAX as i128 - 1) * 100_000_000));
}

#[test]
fn no_fraction_is_computed_of_entry_price_zero() {
    assert_eq!(compute_fraction(5, 0), Err(EngineError::ZeroPrice));
}

#[test]
fn a_purchase_spends_the_configured_amount() {
    let state = AppState::new(config());
    assert_eq!(
        state.plan_order(&buy("BTCUSDT", 106 * UNIT)),
        OrderRequest {
            symbol: String::from("BTCUSDT"),
            side: OrderSide::Buy,
            size: OrderSize::Quote(100 * UNIT),
        }
    );
}

#[test]
fn a_sale_sells_the_position_s_quantity() {
    let state = AppState::new(config());
    assert_eq!(
        state.plan_order(&sell("BTCUSDT", 5, 94_150_943, 6)),
        OrderRequest {
            symbol: String::from("BTCUSDT"),
            side: OrderSide::Sell,
            size: OrderSize::Base(94_150_943),
        }
    );
}

#[test]
fn the_query_of_a_purchase_names_the_quote_amount() {
    let order = OrderRequest {
        symbol: String::from("BTCUSDT"),
        side: OrderSide::Buy,
        size: OrderSize::Quote(1_050_000_000),
    };
    assert_eq!(
        order_query(&order, 1_700_000_000_000),
        "symbol=BTCUSDT&side=BUY&type=MARKET&timestamp=1700000000000&recvWindow=5000&quoteOrderQty=10.5"
    );
}

#[test]
fn the_query_of_a_sale_names_the_quantity_with_four_places() {
    let order = OrderRequest {
        symbol: String::from("ETHUSDT"),
        side: OrderSide::Sell,
        size: OrderSize::Base(94_150_943),
    };
    assert_eq!(
        order_query(&order, 0),
        "symbol=ETHUSDT&side=SELL&type=MARKET&timestamp=0&recvWindow=5000&quantity=0.9415"
    );
}

#[test]
fn a_prepared_order_carries_the_signed_query_and_the_key() {
    let order = OrderRequest {
        symbol: String::from("BTCUSDT"),
        side: OrderSide::Buy,
        size: OrderSize::Quote(1_050_000_000),
    };
    assert_eq!(
        prepare_order_at(&config(), &order, 1_700_000_000_000),
        SignedOrder {
            query: String::from(
                "symbol=BTCUSDT&side=BUY&type=MARKET&timestamp=1700000000000&recvWindow=5000&quoteOrderQty=10.5&signature=8449301daa004fa9d4f132598f3116d21bd14770a4756d52f739a0af89b25236"
            ),
            api_key: String::from("key"),
        }
    );
}

#[test]
fn an_order_prepared_now_is_signed_over_its_own_query() {
    let order = OrderRequest {
        symbol: String::from("BTCUSDT"),
        side: OrderSide::Sell,
        size: OrderSize::Base(UNIT),
    };
    let signed = prepare_order(&config(), &order);
    let (query, signature) = signed.query.split_once("&signature=").unwrap();
    assert!(query.starts_with("symbol=BTCUSDT&side=SELL&type=MARKET&timestamp=1"));
    assert!(query.ends_with("&recvWindow=5000&quantity=1.0000"));
    assert_eq!(signature, sign_query(query, "secret"));
    assert_eq!(signed.api_key, "key");
}

#[test]
fn an_unconfirmed_order_changes_nothing() {
    let mut state = AppState::new(config());
    state.open_position("A", 100 * UNIT, UNIT, 1).unwrap();
    assert_eq!(
        state.settle_at(&buy("B", 106 * UNIT), 100 * UNIT, false, 5),
        Ok(Settlement::Unfilled)
    );
    assert_eq!(
        state.settle_at(&sell("A", 90 * UNIT, UNIT, 100 * UNIT), 0, false, 5),
        Ok(Settlement::Unfilled)
    );
    assert!(state.position("B").is_none());
    assert!(state.position("A").is_some());
    assert!(state.closed_trades().is_empty());
}

#[test]
fn a_confirmed_purchase_opens_a_position() {
    let mut state = AppState::new(config());
    state.set_running(true);
    state.analyze_tick_at("BTCUSDT", 100 * UNIT, 0);
    let opened = Trade {
        symbol: String::from("BTCUSDT"),
        buy_price: 106 * UNIT,
        peak_price: 106 * UNIT,
        quantity: 94_150_943,
        timestamp: 21,
    };
    assert_eq!(
        state.settle_at(&buy("BTCUSDT", 106 * UNIT), 100 * UNIT, true, 21),
        Ok(Settlement::Opened(opened.clone()))
    );
    assert_eq!(state.active_trades(), vec![opened]);
    assert!(state.window("BTCUSDT").is_empty());
}

#[test]
fn a_confirmed_purchase_of_a_held_symbol_is_refused() {
    let mut state = AppState::new(config());
    state.open_position("A", 100 * UNIT, UNIT, 1).unwrap();
    assert_eq!(
        state.settle_at(&buy("A", 106 * UNIT), 100 * UNIT, true, 2),
        Err(EngineError::PositionAlreadyOpen)
    );
    assert_eq!(state.position("A").unwrap().buy_price, 100 * UNIT);
}

#[test]
fn a_confirmed_purchase_at_an_unusable_price_is_refused() {
    let mut state = AppState::new(config());
    assert_eq!(state.settle_at(&buy("A", 0), 100 * UNIT, true, 2), Err(EngineError::ZeroPrice));
    assert_eq!(
        state.settle_at(&buy("A", 1), u64::MAX, true, 2),
        Err(EngineError::QuantityOutOfRange)
    );
    assert!(state.active_trades().is_empty());
}

#[test]
fn a_confirmed_sale_closes_the_position_and_records_the_trade() {
    let mut state = AppState::new(config());
    state.open_position("BTCUSDT", 106 * UNIT, 94_150_943, 21).unwrap();
    state.open_position("ETHUSDT", 10 * UNIT, UNIT, 22).unwrap();
    let record = ClosedTrade {
        symbol: String::from("BTCUSDT"),
        pnl_percent: -3_018_867,
        profit_usdt: -301_283_017,
        close_time: 30,
    };
    assert_eq!(
        state.settle_at(&sell("BTCUSDT", 10_280_000_000, 94_150_943, 106 * UNIT), 0, true, 30),
        Ok(Settlement::Closed(record.clone()))
    );
    assert_eq!(state.closed_trades(), vec![record]);
    assert!(state.position("BTCUSDT").is_none());
    assert!(state.position("ETHUSDT").is_some());
}

#[test]
fn a_confirmed_sale_without_a_position_is_refused() {
    let mut state = AppState::new(config());
    assert_eq!(
        state.settle_at(&sell("A", 90 * UNIT, UNIT, 100 * UNIT), 0, true, 3),
        Err(EngineError::NoOpenPosition)
    );
    assert!(state.closed_trades().is_empty());
}

#[test]
fn a_confirmed_sale_with_entry_price_zero_is_refused() {
    let mut state = AppState::new(config());
    state.open_position("A", 0, UNIT, 1).unwrap();
    assert_eq!(state.settle_at(&sell("A", 90, UNIT, 0), 0, true, 3), Err(EngineError::ZeroPrice));
    assert!(state.position("A").is_some());
    assert!(state.closed_trades().is_empty());
}

#[test]
fn settling_now_stamps_the_clock_s_reading() {
    let mut state = AppState::new(config());
    let outcome = state.settle(&buy("A", 100 * UNIT), 100 * UNIT, true);
    assert!(matches!(outcome, Ok(Settlement::Opened(_))));
    let trade = state.position("A").unwrap();
    assert_eq!(trade.quantity, 99_800_000);
    assert!(trade.timestamp > 1_600_000_000);
}

#[test]
fn from_signal_to_closed_trade() {
    let mut state = AppState::new(config());
    state.set_running(true);
    assert_eq!(state.analyze_tick_at("A", 100 * UNIT, 0), None);
    assert_eq!(state.analyze_tick_at("A", 103 * UNIT, 10), None);
    let entry = state.analyze_tick_at("A", 106 * UNIT, 20).unwrap();
    let order = state.plan_order(&entry);
    assert_eq!(order.size, OrderSize::Quote(100 * UNIT));
    state.settle_at(&entry, 100 * UNIT, true, 21).unwrap();
    assert_eq!(state.analyze_tick_at("A", 110 * UNIT, 22), None);
    let exit = state.analyze_tick_at("A", 106 * UNIT, 23).unwrap();
    assert_eq!(exit, sell("A", 106 * UNIT, 94_150_943, 106 * UNIT));
    state.settle_at(&exit, 0, true, 24).unwrap();
    assert_eq!(
        state.closed_trades(),
        vec![ClosedTrade {
            symbol: String::from("A"),
            pnl_percent: 0,
            profit_usdt: 0,
            close_time: 24,
        }]
    );
    assert_eq!(state.analyze_tick_at("A", 106 * UNIT, 25), None);
    assert_eq!(state.window("A").len(), 1);
}
