use pump_trader::engine::AppState;
use pump_trader::model::{Config, Trade, TradeAction};
use pump_trader::signal::{check_entry, check_exit, check_stale, PriceSample};

const UNIT: u64 = 100_000_000;

fn config() -> Config {
    Config {
        api_key: String::from("key"),
        api_secret: String::from("secret"),
        bot_token: String::from("token"),
        chat_id: String::from("42"),
        trade_amount: 0,
    }
}

fn running() -> AppState {
    let mut state = AppState::new(config());
    state.set_running(true);
    state
}

#[test]
fn three_rising_ticks_give_a_buy_and_clear_the_window() {
    let mut state = running();
    assert_eq!(state.analyze_tick_at("BTCUSDT", 100 * UNIT, 0), None);
    assert_eq!(state.analyze_tick_at("BTCUSDT", 103 * UNIT, 10), None);
    assert_eq!(
        state.window("BTCUSDT"),
        vec![
            PriceSample { time: 0, price: 100 * UNIT },
            PriceSample { time: 10, price: 103 * UNIT },
        ]
    );
    assert_eq!(
        state.analyze_tick_at("BTCUSDT", 106 * UNIT, 20),
        Some(TradeAction::Buy { symbol: String::from("BTCUSDT"), price: 106 * UNIT })
    );
    assert!(state.window("BTCUSDT").is_empty());
    assert_eq!(state.position("BTCUSDT"), None);
}

#[test]
fn a_fall_of_three_percent_below_the_peak_gives_a_sell() {
    let mut state = running();
    state.open_position("BTCUSDT", 106 * UNIT, 7 * UNIT, 1_000).unwrap();
    let action = state.analyze_tick_at("BTCUSDT", 10_280_000_000, 1_001);
    assert_eq!(
        action,
        Some(TradeAction::Sell {
            symbol: String::from("BTCUSDT"),
            price: 10_280_000_000,
            qty: 7 * UNIT,
            buy_price: 106 * UNIT,
        })
    );
}

#[test]
fn the_peak_follows_the_price_and_a_small_fall_gives_nothing() {
    let mut state = running();
    state.open_position("ETHUSDT", 100 * UNIT, 2 * UNIT, 5).unwrap();
    assert_eq!(state.analyze_tick_at("ETHUSDT", 110 * UNIT, 6), None);
    assert_eq!(
        state.position("ETHUSDT"),
        Some(Trade {
            symbol: String::from("ETHUSDT"),
            buy_price: 100 * UNIT,
            peak_price: 110 * UNIT,
            quantity: 2 * UNIT,
            timestamp: 5,
        })
    );
    assert_eq!(state.analyze_tick_at("ETHUSDT", 10_710_000_000, 7), None);
    assert_eq!(state.position("ETHUSDT").unwrap().peak_price, 110 * UNIT);
}

#[test]
fn a_sample_of_forty_seconds_ago_does_not_count() {
    let mut state = running();
    assert_eq!(state.analyze_tick_at("SOLUSDT", 100 * UNIT, 0), None);
    assert_eq!(state.analyze_tick_at("SOLUSDT", 120 * UNIT, 35), None);
    assert_eq!(state.analyze_tick_at("SOLUSDT", 130 * UNIT, 40), None);
    assert_eq!(
        state.window("SOLUSDT"),
        vec![
            PriceSample { time: 35, price: 120 * UNIT },
            PriceSample { time: 40, price: 130 * UNIT },
        ]
    );
}

#[test]
fn a_tick_while_detection_is_off_changes_nothing() {
    let mut state = AppState::new(config());
    state.open_position("ETHUSDT", 100 * UNIT, UNIT, 5).unwrap();
    assert_eq!(state.analyze_tick_at("BTCUSDT", 100 * UNIT, 0), None);
    assert_eq!(state.analyze_tick_at("BTCUSDT", 100 * UNIT, 0), None);
    assert_eq!(state.analyze_tick_at("ETHUSDT", 50 * UNIT, 1), None);
    assert_eq!(state.analyze_tick_at("ETHUSDT", 50 * UNIT, 1), None);
    assert!(state.window("BTCUSDT").is_empty());
    assert_eq!(state.position("ETHUSDT").unwrap().peak_price, 100 * UNIT);
    assert!(!state.is_running());
}

#[test]
fn windows_start_cold_when_detection_is_switched_on_again() {
    let mut state = running();
    assert_eq!(state.analyze_tick_at("BTCUSDT", 100 * UNIT, 0), None);
    state.set_running(false);
    assert_eq!(state.analyze_tick_at("BTCUSDT", 103 * UNIT, 5), None);
    assert_eq!(state.analyze_tick_at("BTCUSDT", 106 * UNIT, 10), None);
    state.set_running(true);
    assert_eq!(state.analyze_tick_at("BTCUSDT", 120 * UNIT, 15), None);
    assert_eq!(state.window("BTCUSDT").len(), 2);
}

#[test]
fn a_rise_of_exactly_five_percent_gives_a_buy() {
    let mut state = running();
    assert_eq!(state.analyze_tick_at("A", 100 * UNIT, 0), None);
    assert_eq!(state.analyze_tick_at("A", 101 * UNIT, 1), None);
    assert_eq!(
        state.analyze_tick_at("A", 105 * UNIT, 2),
        Some(TradeAction::Buy { symbol: String::from("A"), price: 105 * UNIT })
    );
}

#[test]
fn a_rise_of_just_under_five_percent_gives_nothing() {
    let mut state = running();
    assert_eq!(state.analyze_tick_at("A", 100 * UNIT, 0), None);
    assert_eq!(state.analyze_tick_at("A", 101 * UNIT, 1), None);
    assert_eq!(state.analyze_tick_at("A", 105 * UNIT - 1, 2), None);
    assert_eq!(state.window("A").len(), 3);
}

#[test]
fn two_samples_are_not_enough_for_a_buy() {
    let mut state = running();
    assert_eq!(state.analyze_tick_at("A", 100 * UNIT, 0), None);
    assert_eq!(state.analyze_tick_at("A", 200 * UNIT, 1), None);
    assert_eq!(state.window("A").len(), 2);
}

#[test]
fn a_negligible_oldest_price_gives_nothing() {
    let mut state = running();
    assert_eq!(state.analyze_tick_at("A", 1, 0), None);
    assert_eq!(state.analyze_tick_at("A", 5, 1), None);
    assert_eq!(state.analyze_tick_at("A", 10, 2), None);
    assert_eq!(state.window("A").len(), 3);
    let mut other = running();
    assert_eq!(other.analyze_tick_at("B", 2, 0), None);
    assert_eq!(other.analyze_tick_at("B", 2, 1), None);
    assert_eq!(
        other.analyze_tick_at("B", 3, 2),
        Some(TradeAction::Buy { symbol: String::from("B"), price: 3 })
    );
}

#[test]
fn a_sample_of_exactly_thirty_seconds_ago_still_counts() {
    let mut state = running();
    assert_eq!(state.analyze_tick_at("A", 100 * UNIT, 10), None);
    assert_eq!(state.analyze_tick_at("A", 101 * UNIT, 20), None);
    assert_eq!(
        state.analyze_tick_at("A", 110 * UNIT, 40),
        Some(TradeAction::Buy { symbol: String::from("A"), price: 110 * UNIT })
    );
    let mut late = running();
    assert_eq!(late.analyze_tick_at("A", 100 * UNIT, 10), None);
    assert_eq!(late.analyze_tick_at("A", 101 * UNIT, 20), None);
    assert_eq!(late.analyze_tick_at("A", 110 * UNIT, 41), None);
    assert_eq!(
        late.window("A"),
        vec![
            PriceSample { time: 20, price: 101 * UNIT },
            PriceSample { time: 41, price: 110 * UNIT },
        ]
    );
}

#[test]
fn a_clock_that_goes_back_drops_no_sample() {
    let mut state = running();
    assert_eq!(state.analyze_tick_at("A", 100 * UNIT, 50), None);
    assert_eq!(state.analyze_tick_at("A", 100 * UNIT, 10), None);
    assert_eq!(
        state.window("A"),
        vec![
            PriceSample { time: 50, price: 100 * UNIT },
            PriceSample { time: 10, price: 100 * UNIT },
        ]
    );
}

#[test]
fn a_fall_of_exactly_three_percent_gives_a_sell() {
    let mut state = running();
    state.open_position("A", 100 * UNIT, UNIT, 0).unwrap();
    assert_eq!(state.analyze_tick_at("A", 97 * UNIT + 1, 1), None);
    assert_eq!(
        state.analyze_tick_at("A", 97 * UNIT, 2),
        Some(TradeAction::Sell {
            symbol: String::from("A"),
            price: 97 * UNIT,
            qty: UNIT,
            buy_price: 100 * UNIT,
        })
    );
}

#[test]
fn the_position_stays_open_until_the_sale_is_settled() {
    let mut state = running();
    state.open_position("A", 100 * UNIT, UNIT, 0).unwrap();
    assert!(state.analyze_tick_at("A", 90 * UNIT, 1).is_some());
    assert!(state.position("A").is_some());
    assert!(state.analyze_tick_at("A", 91 * UNIT, 2).is_some());
    assert!(state.window("A").is_empty());
}

#[test]
fn a_position_at_price_zero_is_never_sold() {
    let mut state = running();
    state.open_position("A", 0, UNIT, 0).unwrap();
    assert_eq!(state.analyze_tick_at("A", 0, 1), None);
}

#[test]
fn the_peak_never_falls() {
    let mut state = running();
    state.open_position("A", 100 * UNIT, UNIT, 0).unwrap();
    let prices: [u64; 6] = [101, 105, 103, 104, 108, 106];
    let mut peak: u64 = 100 * UNIT;
    for (second, price) in prices.iter().enumerate() {
        state.analyze_tick_at("A", price * UNIT, second as u64);
        let now = state.position("A").unwrap().peak_price;
        assert!(now >= peak);
        assert!(now >= 100 * UNIT);
        peak = now;
    }
    assert_eq!(peak, 108 * UNIT);
}

#[test]
fn a_symbol_never_has_a_position_and_a_window() {
    let mut state = running();
    assert_eq!(state.analyze_tick_at("A", 100 * UNIT, 0), None);
    assert_eq!(state.window("A").len(), 1);
    state.open_position("A", 100 * UNIT, UNIT, 1).unwrap();
    assert!(state.window("A").is_empty());
    assert_eq!(state.analyze_tick_at("A", 101 * UNIT, 2), None);
    assert!(state.window("A").is_empty());
    assert!(state.position("A").is_some());
    state.close_position("A").unwrap();
    assert_eq!(state.analyze_tick_at("A", 101 * UNIT, 3), None);
    assert_eq!(state.window("A").len(), 1);
    assert!(state.position("A").is_none());
}

#[test]
fn symbols_are_tracked_apart() {
    let mut state = running();
    assert_eq!(state.analyze_tick_at("A", 100 * UNIT, 0), None);
    assert_eq!(state.analyze_tick_at("B", 100 * UNIT, 0), None);
    assert_eq!(state.analyze_tick_at("A", 110 * UNIT, 1), None);
    assert_eq!(state.analyze_tick_at("B", 100 * UNIT, 1), None);
    assert_eq!(
        state.analyze_tick_at("A", 120 * UNIT, 2),
        Some(TradeAction::Buy { symbol: String::from("A"), price: 120 * UNIT })
    );
    assert_eq!(state.analyze_tick_at("B", 100 * UNIT, 2), None);
    assert_eq!(state.window("B").len(), 3);
}

#[test]
fn a_tick_at_the_clock_s_reading_joins_the_window() {
    let mut state = running();
    assert_eq!(state.analyze_tick("A", 100 * UNIT), None);
    let window = state.window("A");
    assert_eq!(window.len(), 1);
    assert_eq!(window[0].price, 100 * UNIT);
    assert!(window[0].time > 1_600_000_000);
}

#[test]
fn the_exit_rule_compares_the_fall_with_three_percent_of_the_peak() {
    assert!(check_exit(100, 97));
    assert!(!check_exit(100, 98));
    assert!(check_exit(10_600_000_000, 10_280_000_000));
    assert!(!check_exit(11_000_000_000, 10_710_000_000));
    assert!(!check_exit(100, 100));
    assert!(!check_exit(100, 200));
    assert!(!check_exit(0, 0));
    assert!(check_exit(u64::MAX, 0));
    assert!(check_exit(1, 0));
}

#[test]
fn the_entry_rule_compares_the_rise_with_five_percent_of_the_oldest_price() {
    assert!(check_entry(100, 105));
    assert!(!check_entry(100, 104));
    assert!(check_entry(10_000_000_000, 10_600_000_000));
    assert!(!check_entry(100, 100));
    assert!(!check_entry(100, 50));
    assert!(!check_entry(0, 50));
    assert!(!check_entry(1, u64::MAX));
    assert!(check_entry(2, u64::MAX));
}

#[test]
fn a_sample_is_stale_after_more_than_thirty_seconds() {
    assert!(!check_stale(10, 10));
    assert!(!check_stale(10, 40));
    assert!(check_stale(10, 41));
    assert!(!check_stale(50, 10));
    assert!(check_stale(0, u64::MAX));
    assert!(!check_stale(u64::MAX, 0));
}

#[test]
fn a_copied_action_is_equal_to_the_action() {
    let buy = TradeAction::Buy { symbol: String::from("A"), price: 3 };
    assert_eq!(buy.clone(), buy);
    let sell = TradeAction::Sell { symbol: String::from("A"), price: 3, qty: 4, buy_price: 5 };
    assert_eq!(sell.clone(), sell);
    assert_ne!(buy, sell);
}
