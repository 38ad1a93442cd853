//! The market-data feed's side: from the deals of one message to the actions
//! they set off, and the split of the symbols over the feed's connections.

use crate::clock::get_timestamp_secs;
use crate::decimal::{decimal_reading, parse_decimal};
use crate::engine::{tick_action, tick_state, AppState, AppStateView};
use crate::model::{action_view, TradeAction, TradeActionView};
use vstd::prelude::*;

verus! {

/// Symbols that one connection of the feed subscribes to at most.
pub const SYMBOLS_PER_SOCKET: usize = 30;

/// The action that a deal yields: that of a tick at its price, and none for
/// a deal whose price cannot be read.
pub open spec fn deal_action(
    state: AppStateView,
    symbol: Seq<char>,
    price_text: Seq<char>,
    now: u64,
) -> Option<TradeActionView> {
    match decimal_reading(price_text) {
        Some(price) => tick_action(state, symbol, price, now),
        None => None,
    }
}

/// The state that a deal leaves behind: that of a tick at its price, and
/// the same state for a deal whose price cannot be read.
pub open spec fn deal_state(
    state: AppStateView,
    symbol: Seq<char>,
    price_text: Seq<char>,
    now: u64,
) -> AppStateView {
    match decimal_reading(price_text) {
        Some(price) => tick_state(state, symbol, price, now),
        None => state,
    }
}

/// The state after the deals of a message, handled one after the other.
pub open spec fn deals_state(
    state: AppStateView,
    symbol: Seq<char>,
    price_texts: Seq<Seq<char>>,
    now: u64,
) -> AppStateView
    decreases price_texts.len(),
{
    if price_texts.len() == 0 {
        state
    } else {
        deal_state(
            deals_state(state, symbol, price_texts.drop_last(), now),
            symbol,
            price_texts.last(),
            now,
        )
    }
}

/// The actions that the deals of a message yield, in the order of the deals.
pub open spec fn deals_actions(
    state: AppStateView,
    symbol: Seq<char>,
    price_texts: Seq<Seq<char>>,
    now: u64,
) -> Seq<TradeActionView>
    decreases price_texts.len(),
{
    if price_texts.len() == 0 {
        Seq::empty()
    } else {
        let earlier = deals_actions(state, symbol, price_texts.drop_last(), now);
        match deal_action(
            deals_state(state, symbol, price_texts.drop_last(), now),
            symbol,
            price_texts.last(),
            now,
        ) {
            Some(action) => earlier.push(action),
            None => earlier,
        }
    }
}

/// The views of a sequence of texts.
pub open spec fn text_views(texts: Seq<String>) -> Seq<Seq<char>> {
    texts.map_values(|t: String| t@)
}

/// The views of a sequence of actions.
pub open spec fn action_views(actions: Seq<TradeAction>) -> Seq<TradeActionView> {
    actions.map_values(|a: TradeAction| a@)
}

/// The symbols of the connection `shard`: the next thirty from where the
/// connections before it stopped, or as many as are left.
pub open spec fn shard_of(symbols: Seq<Seq<char>>, shard: int) -> Seq<Seq<char>> {
    symbols.subrange(
        shard * SYMBOLS_PER_SOCKET,
        if (shard + 1) * SYMBOLS_PER_SOCKET <= symbols.len() {
            (shard + 1) * SYMBOLS_PER_SOCKET
        } else {
            symbols.len() as int
        },
    )
}

/// Connections needed for a number of symbols.
pub open spec fn shard_count(symbols: nat) -> nat {
    (symbols + SYMBOLS_PER_SOCKET - 1) as nat / (SYMBOLS_PER_SOCKET as nat)
}

impl AppState {
    /// Handles one deal of the feed at the second `now`: a tick at the
    /// deal's price. A deal whose price is no decimal numeral within range
    /// is dropped.
    pub fn on_deal_at(&mut self, symbol: &str, price_text: &str, now: u64) -> (action: Option<
        TradeAction,
    >)
        requires
            old(self).wf(),
        ensures
            final(self).wf(),
            final(self)@ == deal_state(old(self)@, symbol@, price_text@, now),
            action_view(action) == deal_action(old(self)@, symbol@, price_text@, now),
    {
        match parse_decimal(price_text) {
            Some(price) => self.analyze_tick_at(symbol, price, now),
            None => None,
        }
    }

    /// Handles one deal of the feed at the current reading of the clock: see
    /// [`AppState::on_deal_at`], whose contract holds for that reading.
    pub fn on_deal(&mut self, symbol: &str, price_text: &str) -> (action: Option<TradeAction>)
        requires
            old(self).wf(),
        ensures
            final(self).wf(),
            exists|now: u64|
                final(self)@ == deal_state(old(self)@, symbol@, price_text@, now) && action_view(
                    action,
                ) == #[trigger] deal_action(old(self)@, symbol@, price_text@, now),
    {
        let now: u64 = get_timestamp_secs();
        self.on_deal_at(symbol, price_text, now)
    }

    /// Handles the deals of one message of the feed, in their order, at the
    /// second `now`, and gathers the actions they yield.
    pub fn on_deals_at(&mut self, symbol: &str, price_texts: &Vec<String>, now: u64) -> (actions:
        Vec<TradeAction>)
        requires
            old(self).wf(),
        ensures
            final(self).wf(),
            final(self)@ == deals_state(old(self)@, symbol@, text_views(price_texts@), now),
            action_views(actions@) == deals_actions(
                old(self)@,
                symbol@,
                text_views(price_texts@),
                now,
            ),
    {
        let ghost texts = text_views(price_texts@);
        let mut actions: Vec<TradeAction> = Vec::new();
        let mut i: usize = 0;
        assert(action_views(actions@) =~= Seq::<TradeActionView>::empty());
        while i < price_texts.len()
            invariant
                i <= price_texts.len(),
                texts == text_views(price_texts@),
                self.wf(),
                self@ == deals_state(old(self)@, symbol@, texts.take(i as int), now),
                action_views(actions@) == deals_actions(
                    old(self)@,
                    symbol@,
                    texts.take(i as int),
                    now,
                ),
            decreases price_texts.len() - i,
        {
            proof {
                assert(texts.take(i as int + 1).drop_last() =~= texts.take(i as int));
                assert(texts.take(i as int + 1).last() == price_texts@[i as int]@);
            }
            let ghost gathered = action_views(actions@);
            match self.on_deal_at(symbol, price_texts[i].as_str(), now) {
                Some(action) => {
                    actions.push(action);
                    assert(action_views(actions@) =~= gathered.push(action@));
                },
                None => {},
            }
            i += 1;
        }
        assert(texts.take(i as int) =~= texts);
        actions
    }

    /// Handles the deals of one message of the feed at the current reading
    /// of the clock: see [`AppState::on_deals_at`], whose contract holds for
    /// that reading.
    pub fn on_deals(&mut self, symbol: &str, price_texts: &Vec<String>) -> (actions: Vec<
        TradeAction,
    >)
        requires
            old(self).wf(),
        ensures
            final(self).wf(),
            exists|now: u64|
                final(self)@ == deals_state(old(self)@, symbol@, text_views(price_texts@), now)
                    && action_views(actions@) == #[trigger] deals_actions(
                    old(self)@,
                    symbol@,
                    text_views(price_texts@),
                    now,
                ),
    {
        let now: u64 = get_timestamp_secs();
        self.on_deals_at(symbol, price_texts, now)
    }
}

/// Splits the symbols over the feed's connections, thirty to each and the
/// rest to the last, keeping their order.
pub fn shard_symbols(symbols: &Vec<String>) -> (shards: Vec<Vec<String>>)
    ensures
        shards@.len() == shard_count(symbols@.len()),
        forall|shard: int|
            0 <= shard < shards@.len() ==> text_views(#[trigger] shards@[shard]@) == shard_of(
                text_views(symbols@),
                shard,
            ),
{
    let ghost all = text_views(symbols@);
    let mut shards: Vec<Vec<String>> = Vec::new();
    let mut current: Vec<String> = Vec::new();
    let mut i: usize = 0;
    assert(text_views(current@) =~= all.subrange(0, 0));
    while i < symbols.len()
        invariant
            i <= symbols.len(),
            all == text_views(symbols@),
            shards@.len() == i / SYMBOLS_PER_SOCKET,
            current@.len() == i % SYMBOLS_PER_SOCKET,
            text_views(current@) == all.subrange(i - current@.len(), i as int),
            forall|shard: int|
                0 <= shard < shards@.len() ==> text_views(#[trigger] shards@[shard]@) == shard_of(
                    all,
                    shard,
                ),
        decreases symbols.len() - i,
    {
        let ghost before = text_views(current@);
        current.push(symbols[i].clone());
        assert(text_views(current@) =~= before.push(symbols@[i as int]@));
        i += 1;
        assert(text_views(current@) =~= all.subrange(i - current@.len(), i as int));
        if current.len() == SYMBOLS_PER_SOCKET {
            let ghost filled = shards@.len() as int;
            assert(i == (filled + 1) * SYMBOLS_PER_SOCKET);
            assert(text_views(current@) == shard_of(all, filled));
            let ghost earlier = shards@;
            shards.push(current);
            assert forall|shard: int| 0 <= shard < shards@.len() implies text_views(
                #[trigger] shards@[shard]@,
            ) == shard_of(all, shard) by {
                if shard < filled {
                    assert(shards@[shard] == earlier[shard]);
                }
            }
            current = Vec::new();
            assert(text_views(current@) =~= all.subrange(i as int, i as int));
        }
    }
    if current.len() > 0 {
        let ghost filled = shards@.len() as int;
        assert(text_views(current@) == shard_of(all, filled));
        let ghost earlier = shards@;
        shards.push(current);
        assert forall|shard: int| 0 <= shard < shards@.len() implies text_views(
            #[trigger] shards@[shard]@,
        ) == shard_of(all, shard) by {
            if shard < filled {
                assert(shards@[shard] == earlier[shard]);
            }
        }
    }
    shards
}

} // verus!
