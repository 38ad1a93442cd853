//! The operator's console: what a message from the chat does to the trading
//! state and what is to be answered. Wording and sending the answer is the
//! caller's part.

use crate::decimal::{decimal_reading, parse_decimal};
use crate::engine::{AppState, AppStateView};
use crate::model::{closed_trade_views, trade_views, ClosedTradeView, ConfigView, Trade, TradeView};
use crate::text::same_text;
use vstd::prelude::*;

verus! {

/// A command of the operator.
#[derive(Clone, Copy, Debug, PartialEq, Eq, Structural)]
pub enum Command {
    Start,
    Run,
    Stop,
    Status,
    Report,
    Other,
}

/// The command that a message spells.
pub open spec fn command_of(text: Seq<char>) -> Command {
    if text == "/start"@ {
        Command::Start
    } else if text == "/run"@ {
        Command::Run
    } else if text == "/stop"@ {
        Command::Stop
    } else if text == "/status"@ {
        Command::Status
    } else if text == "/report"@ {
        Command::Report
    } else {
        Command::Other
    }
}

/// Reads the command that a message spells.
pub fn parse_command(text: &str) -> (command: Command)
    ensures
        command == command_of(text@),
{
    if same_text(text, "/start") {
        Command::Start
    } else if same_text(text, "/run") {
        Command::Run
    } else if same_text(text, "/stop") {
        Command::Stop
    } else if same_text(text, "/status") {
        Command::Status
    } else if same_text(text, "/report") {
        Command::Report
    } else {
        Command::Other
    }
}

/// The sum of the profits, as long as every partial sum from the oldest
/// trade on stays within the range of the result.
pub open spec fn checked_total(trades: Seq<ClosedTradeView>) -> Option<i128>
    decreases trades.len(),
{
    if trades.len() == 0 {
        Some(0i128)
    } else {
        match checked_total(trades.drop_last()) {
            Some(sum) => if i128::MIN <= sum + trades.last().profit_usdt <= i128::MAX {
                Some((sum + trades.last().profit_usdt) as i128)
            } else {
                None
            },
            None => None,
        }
    }
}

/// What the console answers.
#[derive(Debug, PartialEq, Eq)]
pub enum Reply {
    /// The message came from another chat than the operator's.
    Ignored,
    /// The amount was set and detection switched on.
    Engaged(u64),
    /// An amount was awaited and the message is none.
    InvalidAmount,
    /// The list of commands.
    Welcome,
    /// The operator is asked for the amount to trade with.
    AskAmount,
    /// Detection was switched off.
    Halted,
    /// Whether detection is on, and the open positions.
    Status { running: bool, trades: Vec<Trade> },
    /// The sum of all realised profits; none where it left the number range.
    Report { net_profit: Option<i128> },
    /// The message is no command.
    Unknown,
}

/// A `Reply` with its records as views.
pub enum ReplyView {
    Ignored,
    Engaged(u64),
    InvalidAmount,
    Welcome,
    AskAmount,
    Halted,
    Status { running: bool, trades: Seq<TradeView> },
    Report { net_profit: Option<i128> },
    Unknown,
}

impl View for Reply {
    type V = ReplyView;

    open spec fn view(&self) -> ReplyView {
        match *self {
            Reply::Ignored => ReplyView::Ignored,
            Reply::Engaged(amount) => ReplyView::Engaged(amount),
            Reply::InvalidAmount => ReplyView::InvalidAmount,
            Reply::Welcome => ReplyView::Welcome,
            Reply::AskAmount => ReplyView::AskAmount,
            Reply::Halted => ReplyView::Halted,
            Reply::Status { running, trades } => ReplyView::Status {
                running,
                trades: trade_views(trades@),
            },
            Reply::Report { net_profit } => ReplyView::Report { net_profit },
            Reply::Unknown => ReplyView::Unknown,
        }
    }
}

/// The answer to a message.
///
/// A message from another chat is ignored. While an amount is awaited every
/// message is read as one. Otherwise the message is read as a command.
pub open spec fn command_reply(state: AppStateView, text: Seq<char>, chat_id: Seq<char>) -> ReplyView {
    if chat_id != state.config.chat_id {
        ReplyView::Ignored
    } else if state.waiting_for_amount {
        match decimal_reading(text) {
            Some(amount) => ReplyView::Engaged(amount),
            None => ReplyView::InvalidAmount,
        }
    } else {
        match command_of(text) {
            Command::Start => ReplyView::Welcome,
            Command::Run => ReplyView::AskAmount,
            Command::Stop => ReplyView::Halted,
            Command::Status => ReplyView::Status {
                running: state.is_running,
                trades: state.active_trades,
            },
            Command::Report => ReplyView::Report {
                net_profit: checked_total(state.closed_trades),
            },
            Command::Other => ReplyView::Unknown,
        }
    }
}

/// The state that a message leaves behind.
///
/// An amount that was awaited is set, detection is switched on with it and
/// nothing is awaited any more. `/run` makes the console await an amount and
/// `/stop` switches detection off. Every other message changes nothing.
pub open spec fn command_state(state: AppStateView, text: Seq<char>, chat_id: Seq<char>) -> AppStateView {
    match command_reply(state, text, chat_id) {
        ReplyView::Engaged(amount) => AppStateView {
            config: ConfigView { trade_amount: amount, ..state.config },
            is_running: true,
            waiting_for_amount: false,
            ..state
        },
        ReplyView::AskAmount => AppStateView { waiting_for_amount: true, ..state },
        ReplyView::Halted => AppStateView { is_running: false, ..state },
        _ => state,
    }
}

impl AppState {
    /// The sum of all realised profits: see [`checked_total`].
    pub fn net_profit(&self) -> (total: Option<i128>)
        ensures
            total == checked_total(self@.closed_trades),
    {
        let trades = self.closed_trades();
        let ghost views = closed_trade_views(trades@);
        let mut sum: i128 = 0;
        let mut i: usize = 0;
        while i < trades.len()
            invariant
                i <= trades.len(),
                views == closed_trade_views(trades@),
                views == self@.closed_trades,
                checked_total(views.take(i as int)) == Some(sum),
            decreases trades.len() - i,
        {
            let ghost upto = views.take(i as int + 1);
            assert(upto.drop_last() =~= views.take(i as int));
            assert(upto.last().profit_usdt == trades[i as int].profit_usdt);
            match sum.checked_add(trades[i].profit_usdt) {
                Some(next) => {
                    sum = next;
                },
                None => {
                    proof {
                        assert(checked_total(upto) is None);
                        lemma_total_stays_lost(views, i as int + 1);
                    }
                    return None;
                },
            }
            i += 1;
        }
        assert(views.take(i as int) =~= views);
        Some(sum)
    }

    /// Handles one message of the chat `chat_id` and says what to answer:
    /// see [`command_reply`] and [`command_state`].
    pub fn process_user_command(&mut self, text: &str, chat_id: &str) -> (reply: Reply)
        requires
            old(self).wf(),
        ensures
            final(self).wf(),
            reply@ == command_reply(old(self)@, text@, chat_id@),
            final(self)@ == command_state(old(self)@, text@, chat_id@),
    {
        if !same_text(chat_id, self.config().chat_id.as_str()) {
            return Reply::Ignored;
        }
        if self.is_waiting_for_amount() {
            return match parse_decimal(text) {
                Some(amount) => {
                    self.set_trade_amount(amount);
                    self.set_waiting_for_amount(false);
                    self.set_running(true);
                    Reply::Engaged(amount)
                },
                None => Reply::InvalidAmount,
            };
        }
        match parse_command(text) {
            Command::Start => Reply::Welcome,
            Command::Run => {
                self.set_waiting_for_amount(true);
                Reply::AskAmount
            },
            Command::Stop => {
                self.set_running(false);
                Reply::Halted
            },
            Command::Status => Reply::Status {
                running: self.is_running(),
                trades: self.active_trades(),
            },
            Command::Report => Reply::Report { net_profit: self.net_profit() },
            Command::Other => Reply::Unknown,
        }
    }
}

/// Once a partial sum has left the range, every longer one has too.
proof fn lemma_total_stays_lost(trades: Seq<ClosedTradeView>, upto: int)
    requires
        0 <= upto <= trades.len(),
        checked_total(trades.take(upto)) is None,
    ensures
        checked_total(trades) is None,
    decreases trades.len() - upto,
{
    if upto < trades.len() {
        assert(trades.take(upto + 1).drop_last() =~= trades.take(upto));
        lemma_total_stays_lost(trades, upto + 1);
    } else {
        assert(trades.take(upto) =~= trades);
    }
}

} // verus!
