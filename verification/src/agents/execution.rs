//! The execution trader formats the final order.

use vstd::prelude::*;
use crate::agents::Agent;

verus! {

pub struct ExecutionAgent;

/// Name of the execution role.
pub const EXECUTION_NAME: &'static str = "Execution-Agent";

/// Standing instructions of the execution role.
pub const EXECUTION_PROMPT: &'static str = r#"You are an Execution Trader AI.
        
Format the final order based on the Risk Manager's output.
Output ONLY valid JSON. Do not include markdown formatting or chat text.

Output JSON:
{
    "action": "buy" | "sell",
    "symbol": "...",
    "qty": 10,
    "order_type": "market" | "limit",
    "limit_price": null
}
"#;

impl Agent for ExecutionAgent {
    fn name(&self) -> (r: &str)
        ensures
            r@ == EXECUTION_NAME@,
    {
        EXECUTION_NAME
    }

    fn system_prompt(&self) -> (r: &str)
        ensures
            r@ == EXECUTION_PROMPT@,
    {
        EXECUTION_PROMPT
    }
}

} // verus!
