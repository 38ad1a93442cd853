use pump_trader::engine::AppState;
use pump_trader::feed::{shard_symbols, SYMBOLS_PER_SOCKET};
use pump_trader::model::{Config, TradeAction};
use pump_trader::signal::PriceSample;

const UNIT: u64 = 100_000_000;

fn running() -> AppState {
    let mut state = AppState::new(Config {
        api_key: String::new(),
        api_secret: String::new(),
        bot_token: String::new(),
        chat_id: String::new(),
        trade_amount: 0,
    });
    state.set_running(true);
    state
}

fn texts(prices: &[&str]) -> Vec<String> {
    prices.iter().map(|p| String::from(*p)).collect()
}

fn names(count: usize) -> Vec<String> {
    (0..count).map(|i| format!("S{}USDT", i)).collect()
}

#[test]
fn a_deal_is_a_tick_at_its_price() {
    let mut state = running();
    assert_eq!(state.on_deal_at("A", "100", 0), None);
    assert_eq!(state.on_deal_at("A", "103.0", 10), None);
    assert_eq!(
        state.on_deal_at("A", "106.00", 20),
        Some(TradeAction::Buy { symbol: String::from("A"), price: 106 * UNIT })
    );
}

#[test]
fn a_deal_with_an_unreadable_price_is_dropped() {
    let mut state = running();
    assert_eq!(state.on_deal_at("A", "100", 0), None);
    for text in ["", "abc", "1e3", "-5", "NaN", "999999999999999999999"] {
        assert_eq!(state.on_deal_at("A", text, 1), None);
    }
    assert_eq!(state.window("A"), vec![PriceSample { time: 0, price: 100 * UNIT }]);
}

#[test]
fn a_deal_now_is_stamped_with_the_clock_s_reading() {
    let mut state = running();
    assert_eq!(state.on_deal("A", "0.5"), None);
    let window = state.window("A");
    assert_eq!(window.len(), 1);
    assert_eq!(window[0].price, UNIT / 2);
    assert!(window[0].time > 1_600_000_000);
}

#[test]
fn the_deals_of_a_message_are_handled_in_order() {
    let mut state = running();
    let actions = state.on_deals_at("A", &texts(&["100", "bad", "103", "106", "107", "108", "120"]), 5);
    assert_eq!(
        actions,
        vec![
            TradeAction::Buy { symbol: String::from("A"), price: 106 * UNIT },
            TradeAction::Buy { symbol: String::from("A"), price: 120 * UNIT },
        ]
    );
    assert!(state.window("A").is_empty());
    assert!(state.on_deals_at("A", &vec![], 6).is_empty());
}

#[test]
fn the_deals_of_a_message_now_share_one_reading_of_the_clock() {
    let mut state = running();
    let actions = state.on_deals("A", &texts(&["1", "x", "1.01"]));
    assert!(actions.is_empty());
    let window = state.window("A");
    assert_eq!(window.len(), 2);
    assert_eq!(window[0].time, window[1].time);
    assert!(window[0].time > 1_600_000_000);
}

#[test]
fn the_deals_of_a_held_symbol_may_give_a_sell() {
    let mut state = running();
    state.open_position("A", 100 * UNIT, UNIT, 0).unwrap();
    let actions = state.on_deals_at("A", &texts(&["110", "109", "106.7"]), 5);
    assert_eq!(
        actions,
        vec![TradeAction::Sell {
            symbol: String::from("A"),
            price: 10_670_000_000,
            qty: UNIT,
            buy_price: 100 * UNIT,
        }]
    );
}

#[test]
fn symbols_are_split_thirty_to_a_connection() {
    assert_eq!(SYMBOLS_PER_SOCKET, 30);
    assert!(shard_symbols(&vec![]).is_empty());
    assert_eq!(shard_symbols(&names(1)), vec![names(1)]);
    assert_eq!(shard_symbols(&names(30)), vec![names(30)]);
    let all = names(61);
    let shards = shard_symbols(&all);
    assert_eq!(shards.len(), 3);
    assert_eq!(shards[0], all[0..30].to_vec());
    assert_eq!(shards[1], all[30..60].to_vec());
    assert_eq!(shards[2], all[60..61].to_vec());
}

#[test]
fn every_symbol_lands_in_one_connection() {
    for count in [0usize, 29, 30, 31, 59, 60, 95] {
        let all = names(count);
        let shards = shard_symbols(&all);
        assert_eq!(shards.len(), (count + 29) / 30);
        assert!(shards.iter().all(|s| !s.is_empty() && s.len() <= 30));
        assert_eq!(shards.concat(), all);
    }
}
