//! The risk gate: turns a signal into a concrete order intent, or blocks it.
//!
//! Momentum signals take the fast path: their exits are read from the
//! signal itself and no model is asked. Every other signal is put before
//! the risk agent and goes on only with its approval.

use vstd::prelude::*;
use crate::config::AppConfig;
use crate::decimal::format_fixed;
use crate::decimal::is_digit;
use crate::decimal::parse_decimal_chars;
use crate::decimal::parse_number;
use crate::decimal::spec_parse_number;
use crate::decimal::spec_format_fixed;
use crate::decimal::spec_parse_decimal;
use crate::events::AnalysisSignal;
use crate::events::OrderRequest;
use crate::exchange::types::AccountSummary;
use crate::json::json_number;
use crate::json::number_field;
use crate::text::append_str;
use crate::text::chars_of;
use crate::text::extract_json;
use crate::text::find_from;
use crate::text::lowercase;
use crate::text::occurs_at;
use crate::text::slice_chars;
use crate::text::spec_contains;
use crate::text::spec_extract_json;
use crate::text::spec_starts_with;
use crate::text::starts_with;
use crate::text::str_contains;
use crate::text::str_eq;
use crate::text::to_lowercase;

verus! {

/// `i` is where `needle` first stands in `hay`.
pub open spec fn is_first_occurrence(hay: Seq<char>, needle: Seq<char>, i: int) -> bool {
    occurs_at(hay, needle, i) && forall|j: int| 0 <= j < i ==> !occurs_at(hay, needle, j)
}

/// A character an amount is written with: a digit or the decimal point.
pub open spec fn is_amount_char(c: char) -> bool {
    is_digit(c) || c == '.'
}

/// Where the run of amount characters that starts at `from` ends.
pub open spec fn amount_run_end(s: Seq<char>, from: int) -> int
    decreases s.len() - from,
{
    if 0 <= from < s.len() && is_amount_char(s[from]) {
        amount_run_end(s, from + 1)
    } else {
        from
    }
}

/// The amount that follows a tag such as `tp=` in a text: right after the
/// first occurrence of the tag, past an optional `$`, the longest run of
/// digits and points, read as a decimal. `None` where the tag is missing or
/// no decimal follows it.
pub open spec fn spec_tagged_amount(text: Seq<char>, tag: Seq<char>) -> Option<i64> {
    if exists|i: int| is_first_occurrence(text, tag, i) {
        let at = choose|i: int| is_first_occurrence(text, tag, i);
        let after = at + tag.len();
        let start = if after < text.len() && text[after] == '$' {
            after + 1
        } else {
            after
        };
        spec_parse_decimal(text.subrange(start, amount_run_end(text, start)))
    } else {
        None
    }
}

/// The first occurrence is unique.
pub proof fn lemma_first_occurrence_unique(hay: Seq<char>, needle: Seq<char>, i: int, j: int)
    requires
        is_first_occurrence(hay, needle, i),
        is_first_occurrence(hay, needle, j),
    ensures
        i == j,
{
    if i < j {
        assert(!occurs_at(hay, needle, i));
    } else if j < i {
        assert(!occurs_at(hay, needle, j));
    }
}

/// A run of amount characters ends inside the text, at or after its start.
pub proof fn lemma_amount_run_bounds(s: Seq<char>, from: int)
    requires
        0 <= from <= s.len(),
    ensures
        from <= amount_run_end(s, from) <= s.len(),
    decreases s.len() - from,
{
    if from < s.len() && is_amount_char(s[from]) {
        lemma_amount_run_bounds(s, from + 1);
    }
}

/// Reads the amount that follows `tag` in `text`.
pub fn tagged_amount(text: &str, tag: &str) -> (r: Option<i64>)
    ensures
        r == spec_tagged_amount(text@, tag@),
{
    let t: Vec<char> = chars_of(text);
    let g: Vec<char> = chars_of(tag);
    match find_from(&t, &g, 0) {
        None => {
            proof {
                assert forall|i: int| !is_first_occurrence(t@, g@, i) by {
                    if occurs_at(t@, g@, i) {
                        assert(0 <= i);
                    }
                }
            }
            None
        },
        Some(at) => {
            proof {
                assert(is_first_occurrence(t@, g@, at as int));
                let chosen = choose|i: int| is_first_occurrence(t@, g@, i);
                lemma_first_occurrence_unique(t@, g@, at as int, chosen);
                assert(at + g@.len() <= t@.len());
            }
            let total: usize = t.len();
            assert(at + g@.len() <= total);
            let after: usize = at + g.len();
            let start: usize = if after < t.len() && t[after] == '$' {
                after + 1
            } else {
                after
            };
            let mut end: usize = start;
            while end < t.len() && is_amount(t[end])
                invariant
                    start <= end <= t.len(),
                    amount_run_end(t@, start as int) == amount_run_end(t@, end as int),
                decreases t.len() - end,
            {
                end = end + 1;
            }
            let run: Vec<char> = slice_chars(&t, start, end);
            parse_decimal_chars(&run)
        },
    }
}

fn is_amount(c: char) -> (r: bool)
    ensures
        r == is_amount_char(c),
{
    let n: u32 = c as u32;
    (48 <= n && n <= 57) || c == '.'
}

/// Whether the risk agent's reply approves: it says `approved` or `true`.
pub open spec fn spec_approves(reply: Seq<char>) -> bool {
    spec_contains(lowercase(reply), "approved"@) || spec_contains(lowercase(reply), "true"@)
}

/// Whether the risk agent's reply approves the trade.
pub fn approves(reply: &str) -> (r: bool)
    ensures
        r == spec_approves(reply@),
{
    let low: String = to_lowercase(reply);
    str_contains(low.as_str(), "approved") || str_contains(low.as_str(), "true")
}

/// The amount the JSON object in a reply gives under `key`; `None` where the
/// reply holds no object, the object no number under the key, or the number
/// lies beyond the range of an amount.
pub open spec fn spec_reply_amount(reply: Seq<char>, key: Seq<char>) -> Option<i64> {
    match spec_extract_json(reply) {
        Some(object) => match json_number(object, key) {
            Some(number) => spec_parse_number(number),
            None => None,
        },
        None => None,
    }
}

/// Reads the amount the JSON object in a reply gives under `key`.
pub fn reply_amount(reply: &str, key: &str) -> (r: Option<i64>)
    ensures
        r == spec_reply_amount(reply@, key@),
{
    match extract_json(reply) {
        Some(object) => match number_field(object.as_str(), key) {
            Some(number) => parse_number(number.as_str()),
            None => None,
        },
        None => None,
    }
}

/// A signal that asks for an order: it says `buy` or `sell`.
pub open spec fn is_actionable(signal: AnalysisSignal) -> bool {
    signal.signal@ == "buy"@ || signal.signal@ == "sell"@
}

/// A momentum signal: its thesis begins with `HFT`.
pub open spec fn is_fast_path(signal: AnalysisSignal) -> bool {
    spec_starts_with(signal.thesis@, "HFT"@)
}

/// The order intent the risk gate emits for a signal: the signal's symbol and
/// action, quantity left to execution, and the exits given.
pub open spec fn is_order_for(
    order: OrderRequest,
    signal: AnalysisSignal,
    order_type: Seq<char>,
    stop_loss: Option<i64>,
    take_profit: Option<i64>,
) -> bool {
    &&& order.symbol@ == signal.symbol@
    &&& order.action@ == signal.signal@
    &&& order.qty == 0
    &&& order.order_type@ == order_type
    &&& order.limit_price is None
    &&& order.stop_loss == stop_loss
    &&& order.take_profit == take_profit
}

/// How the risk gate starts on a signal.
#[derive(Debug)]
pub enum RiskStart {
    /// The signal asks for nothing: it is dropped.
    Blocked,
    /// Fast path: this order goes out at once.
    Order { order: OrderRequest },
    /// Fetch the account and put the signal before the risk agent.
    AskAgent,
}

/// An amount as a prompt shows it, `N/A` where it is unknown.
pub open spec fn spec_amount_text(amount: Option<i64>) -> Seq<char> {
    match amount {
        Some(a) => spec_format_fixed(a as int),
        None => "N/A"@,
    }
}

/// The question put to the risk agent.
pub open spec fn spec_risk_prompt(signal: AnalysisSignal, account: AccountSummary) -> Seq<char> {
    "Asset: "@ + signal.symbol@ + "\nAccount Cash: "@ + spec_amount_text(account.cash)
        + "\nPortfolio Value: "@ + spec_amount_text(account.portfolio_value) + "\nThesis: "@
        + signal.thesis@ + "\nQuant: N/A"@
}

fn amount_text(amount: Option<i64>) -> (r: String)
    ensures
        r@ == spec_amount_text(amount),
{
    match amount {
        Some(a) => format_fixed(a),
        None => "N/A".to_owned(),
    }
}

/// The risk gate.
pub struct RiskEngine {
    pub config: AppConfig,
}

impl RiskEngine {
    pub fn new(config: AppConfig) -> (e: Self)
        ensures
            e.config == config,
    {
        RiskEngine { config }
    }

    /// Starts on a signal.
    ///
    /// A signal that says neither `buy` nor `sell` is blocked. A momentum
    /// signal becomes an `hft_buy` order at once, with the exits its market
    /// context carries as `tp=` and `sl=`. Any other signal needs the risk
    /// agent.
    pub fn begin(signal: &AnalysisSignal) -> (start: RiskStart)
        ensures
            !is_actionable(*signal) ==> start is Blocked,
            is_actionable(*signal) && !is_fast_path(*signal) ==> start is AskAgent,
            is_actionable(*signal) && is_fast_path(*signal) ==> (start matches RiskStart::Order {
                order,
            } && is_order_for(
                order,
                *signal,
                "hft_buy"@,
                spec_tagged_amount(signal.market_context@, "sl="@),
                spec_tagged_amount(signal.market_context@, "tp="@),
            )),
    {
        if !(str_eq(signal.signal.as_str(), "buy") || str_eq(signal.signal.as_str(), "sell")) {
            return RiskStart::Blocked;
        }
        if starts_with(signal.thesis.as_str(), "HFT") {
            let order = OrderRequest {
                symbol: signal.symbol.clone(),
                action: signal.signal.clone(),
                qty: 0,
                order_type: "hft_buy".to_owned(),
                limit_price: None,
                stop_loss: tagged_amount(signal.market_context.as_str(), "sl="),
                take_profit: tagged_amount(signal.market_context.as_str(), "tp="),
            };
            RiskStart::Order { order }
        } else {
            RiskStart::AskAgent
        }
    }

    /// The question put to the risk agent for a signal and the account as
    /// fetched.
    pub fn risk_prompt(signal: &AnalysisSignal, account: &AccountSummary) -> (prompt: String)
        ensures
            prompt@ == spec_risk_prompt(*signal, *account),
    {
        let mut prompt: String = "Asset: ".to_owned();
        append_str(&mut prompt, signal.symbol.as_str());
        append_str(&mut prompt, "\nAccount Cash: ");
        let cash: String = amount_text(account.cash);
        append_str(&mut prompt, cash.as_str());
        append_str(&mut prompt, "\nPortfolio Value: ");
        let value: String = amount_text(account.portfolio_value);
        append_str(&mut prompt, value.as_str());
        append_str(&mut prompt, "\nThesis: ");
        append_str(&mut prompt, signal.thesis.as_str());
        append_str(&mut prompt, "\nQuant: N/A");
        prompt
    }

    /// Finishes on a signal with the risk agent's reply: an approving reply
    /// gives a `market` order with the exits the reply's JSON object names
    /// (each absent where the reply names none); any other reply blocks the
    /// trade.
    pub fn finish(signal: &AnalysisSignal, reply: &str) -> (r: Option<OrderRequest>)
        ensures
            !spec_approves(reply@) ==> r is None,
            spec_approves(reply@) ==> (r matches Some(order) && is_order_for(
                order,
                *signal,
                "market"@,
                spec_reply_amount(reply@, "stop_loss"@),
                spec_reply_amount(reply@, "take_profit"@),
            )),
    {
        if !approves(reply) {
            return None;
        }
        Some(
            OrderRequest {
                symbol: signal.symbol.clone(),
                action: signal.signal.clone(),
                qty: 0,
                order_type: "market".to_owned(),
                limit_price: None,
                stop_loss: reply_amount(reply, "stop_loss"),
                take_profit: reply_amount(reply, "take_profit"),
            },
        )
    }
}

} // verus!
