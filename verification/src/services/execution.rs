//! The agent-driven execution path: the execution agent names action,
//! quantity and order type, and the engine holds the order to the
//! configured limits before it is placed.
//!
//! Sells, and what follows the venue's acknowledgement, are those of the
//! fast path (`execution_fast`).

use vstd::prelude::*;
use crate::config::AppConfig;
use crate::decimal::parse_number;
use crate::decimal::spec_parse_number;
use crate::exchange::types::OrderType;
use crate::exchange::types::PlaceOrderRequest;
use crate::exchange::types::Side;
use crate::exchange::types::TimeInForce;
use crate::fixed::mul_div;
use crate::fixed::saturate;
use crate::fixed::saturated;
use crate::fixed::SCALE;
use crate::json::json_number;
use crate::json::json_string;
use crate::json::number_field;
use crate::json::string_field;
use crate::services::execution_fast::spec_sell_time_in_force;
use crate::text::extract_json;
use crate::text::lowercase;
use crate::text::spec_extract_json;
use crate::text::str_eq;
use crate::text::to_lowercase;

verus! {

/// What the execution agent asks for.
#[derive(Debug)]
pub struct ExecutionOutput {
    pub action: String,
    pub qty: i64,
    pub order_type: String,
}

/// The JSON object of an agent's reply: what stands between its first `{`
/// and last `}`, or the whole reply where it has no such part.
pub open spec fn spec_reply_object(reply: Seq<char>) -> Seq<char> {
    match spec_extract_json(reply) {
        Some(object) => object,
        None => reply,
    }
}

/// Whether a reply names all three of action, quantity and order type, the
/// quantity as a number within the range of an amount.
pub open spec fn spec_output_readable(reply: Seq<char>) -> bool {
    let object = spec_reply_object(reply);
    &&& json_string(object, "action"@) is Some
    &&& json_string(object, "order_type"@) is Some
    &&& json_number(object, "qty"@) matches Some(n) && spec_parse_number(n) is Some
}

/// Reads the execution agent's reply.
pub fn parse_execution_output(reply: &str) -> (r: Option<ExecutionOutput>)
    ensures
        r is Some == spec_output_readable(reply@),
        r matches Some(out) ==> {
            let object = spec_reply_object(reply@);
            &&& Some(out.action@) == json_string(object, "action"@)
            &&& Some(out.order_type@) == json_string(object, "order_type"@)
            &&& Some(out.qty) == spec_parse_number(json_number(object, "qty"@)->0)
        },
{
    let object: String = match extract_json(reply) {
        Some(o) => o,
        None => reply.to_owned(),
    };
    let action: String = match string_field(object.as_str(), "action") {
        Some(a) => a,
        None => {
            return None;
        },
    };
    let order_type: String = match string_field(object.as_str(), "order_type") {
        Some(t) => t,
        None => {
            return None;
        },
    };
    let qty: i64 = match number_field(object.as_str(), "qty") {
        Some(n) => match parse_number(n.as_str()) {
            Some(q) => q,
            None => {
                return None;
            },
        },
        None => {
            return None;
        },
    };
    Some(ExecutionOutput { action, qty, order_type })
}

/// The value of a quantity at a price, rounded down.
pub open spec fn spec_order_value(qty: int, price: int) -> int {
    (qty * price) / (SCALE as int)
}

/// The quantity that a value buys at a price, rounded down and pinned into
/// `i64`.
pub open spec fn spec_qty_for(value: int, price: int) -> int {
    saturated((value * SCALE) / price)
}

/// The quantity of an agent's order once its value is held between
/// `min_order` and `max_order`: an order below the minimum is raised to it,
/// an order above the maximum cut to it (the maximum wins where the two
/// cross); an order within the limits keeps the agent's quantity.
pub open spec fn spec_limited_qty(qty: i64, price: i64, min_order: i64, max_order: i64) -> int {
    let value = spec_order_value(qty as int, price as int);
    let raised_value = if value < min_order {
        min_order as int
    } else {
        value
    };
    let raised_qty = if value < min_order {
        spec_qty_for(min_order as int, price as int)
    } else {
        qty as int
    };
    if raised_value > max_order {
        spec_qty_for(max_order as int, price as int)
    } else {
        raised_qty
    }
}

/// The order type of an agent's order: a buy is always a limit order; a sell
/// is one where the agent says `limit`, whatever the case.
pub open spec fn spec_agent_order_type(action: Seq<char>, order_type: Seq<char>) -> OrderType {
    if action == "buy"@ || lowercase(order_type) == "limit"@ {
        OrderType::Limit
    } else {
        OrderType::Market
    }
}

/// What becomes of an agent's order.
#[derive(Debug)]
pub enum AgentPlan {
    /// The agent asked for something that is neither buy nor sell.
    InvalidAction,
    /// No positive price is known for the symbol.
    NoPrice,
    /// The buying power does not cover the order as the agent sized it.
    InsufficientFunds,
    /// Submit this order.
    Submit { order: PlaceOrderRequest, qty: i64 },
}

/// The agent's order as the engine places it.
pub open spec fn is_agent_order(
    order: PlaceOrderRequest,
    symbol: Seq<char>,
    action: Seq<char>,
    order_type: OrderType,
    qty: i64,
    price: i64,
    crypto: bool,
) -> bool {
    &&& order.symbol@ == symbol
    &&& order.side == if action == "buy"@ {
        Side::Buy
    } else {
        Side::Sell
    }
    &&& order.order_type == order_type
    &&& order.qty == Some(qty)
    &&& order.notional is None
    &&& order.limit_price == if order_type == OrderType::Limit {
        Some(price)
    } else {
        None::<i64>
    }
    &&& order.time_in_force == spec_sell_time_in_force(crypto)
}

/// The agent-driven execution engine.
pub struct ExecutionEngine {
    pub config: AppConfig,
}

impl ExecutionEngine {
    pub fn new(config: AppConfig) -> (e: Self)
        ensures
            e.config == config,
    {
        ExecutionEngine { config }
    }

    /// Turns the agent's wish into an order, priced at `estimated_price`
    /// (the newest bid) and checked against `buying_power`.
    ///
    /// Only `buy` and `sell` are taken. A buy whose value at the estimated
    /// price exceeds the buying power is refused. The order's value is then
    /// held to the configured minimum and maximum by adjusting the
    /// quantity. Crypto orders stay good till canceled, stock orders last
    /// the day.
    pub fn plan_agent_order(
        &self,
        symbol: &str,
        output: &ExecutionOutput,
        estimated_price: i64,
        buying_power: i64,
    ) -> (plan: AgentPlan)
        ensures
            ({
                let buy = output.action@ == "buy"@;
                let value = spec_order_value(output.qty as int, estimated_price as int);
                if !(buy || output.action@ == "sell"@) {
                    plan is InvalidAction
                } else if estimated_price <= 0 {
                    plan is NoPrice
                } else if buy && buying_power < value {
                    plan is InsufficientFunds
                } else {
                    &&& plan matches AgentPlan::Submit { order, qty }
                    &&& qty == spec_limited_qty(
                        output.qty,
                        estimated_price,
                        self.config.defaults.min_order_amount,
                        self.config.defaults.max_order_amount,
                    )
                    &&& is_agent_order(
                        order,
                        symbol@,
                        output.action@,
                        spec_agent_order_type(output.action@, output.order_type@),
                        qty,
                        estimated_price,
                        lowercase(self.config.trading_mode@) == "crypto"@,
                    )
                }
            }),
    {
        let buy: bool = str_eq(output.action.as_str(), "buy");
        if !(buy || str_eq(output.action.as_str(), "sell")) {
            return AgentPlan::InvalidAction;
        }
        if estimated_price <= 0 {
            return AgentPlan::NoPrice;
        }
        let value: i128 = mul_div(output.qty, estimated_price, SCALE);
        if buy && (buying_power as i128) < value {
            return AgentPlan::InsufficientFunds;
        }
        let min_order: i64 = self.config.defaults.min_order_amount;
        let max_order: i64 = self.config.defaults.max_order_amount;
        let mut qty: i64 = output.qty;
        let mut held: i128 = value;
        if value < min_order as i128 {
            held = min_order as i128;
            qty = saturate(mul_div(min_order, SCALE, estimated_price));
        }
        if held > max_order as i128 {
            qty = saturate(mul_div(max_order, SCALE, estimated_price));
        }
        let wants_limit: String = to_lowercase(output.order_type.as_str());
        let order_type: OrderType = if buy || str_eq(wants_limit.as_str(), "limit") {
            OrderType::Limit
        } else {
            OrderType::Market
        };
        let order = PlaceOrderRequest {
            symbol: symbol.to_owned(),
            side: if buy {
                Side::Buy
            } else {
                Side::Sell
            },
            order_type,
            qty: Some(qty),
            notional: None,
            time_in_force: if self.config.is_crypto() {
                TimeInForce::Gtc
            } else {
                TimeInForce::Day
            },
            limit_price: match order_type {
                OrderType::Limit => Some(estimated_price),
                OrderType::Market => None,
            },
        };
        AgentPlan::Submit { order, qty }
    }
}

/// The limits hold the order: for a positive price and `min_order <=
/// max_order` with a non-negative minimum, the value of the limited
/// quantity at the price is never above the maximum.
pub proof fn lemma_limited_value_below_max(qty: i64, price: i64, min_order: i64, max_order: i64)
    requires
        price > 0,
        0 <= min_order <= max_order,
    ensures
        spec_order_value(spec_limited_qty(qty, price, min_order, max_order), price as int)
            <= max_order,
{
    let value = spec_order_value(qty as int, price as int);
    lemma_value_of_qty_for(min_order as int, price as int);
    lemma_value_of_qty_for(max_order as int, price as int);
}

/// The quantity that a non-negative value buys is worth no more than the
/// value.
pub proof fn lemma_value_of_qty_for(value: int, price: int)
    requires
        price > 0,
        0 <= value <= i64::MAX,
    ensures
        spec_order_value(spec_qty_for(value, price), price) <= value,
{
    let exact = (value * SCALE) / price;
    vstd::arithmetic::div_mod::lemma_fundamental_div_mod(value * SCALE, price);
    assert(0 <= exact) by {
        assert(0 <= value * SCALE) by (nonlinear_arith)
            requires
                0 <= value,
                SCALE > 0,
        ;
        vstd::arithmetic::div_mod::lemma_div_pos_is_pos(value * SCALE, price);
    }
    let q = spec_qty_for(value, price);
    assert(0 <= q <= exact);
    assert(q * price <= value * SCALE) by (nonlinear_arith)
        requires
            0 <= q <= exact,
            price > 0,
            price * exact <= value * SCALE,
    ;
    vstd::arithmetic::div_mod::lemma_div_is_ordered(q * price, value * SCALE, SCALE as int);
    vstd::arithmetic::div_mod::lemma_div_multiples_vanish(value, SCALE as int);
    assert((SCALE * value) / (SCALE as int) == value);
    assert(value * SCALE == SCALE * value) by (nonlinear_arith);
}

} // verus!
