//! The quantitative analyst scores a thesis against recent history.

use vstd::prelude::*;
use crate::agents::Agent;

verus! {

pub struct QuantAgent;

/// Name of the quant role.
pub const QUANT_NAME: &'static str = "Quant-Agent";

/// Standing instructions of the quant role.
pub const QUANT_PROMPT: &'static str = r#"You are a Quantitative Analyst AI. 
You will be provided with a Trading Thesis and Recent Market History.
Analyze the tabular data to calculate/estimate technical indicators.

Calculate and Output JSON:
{
    "technical_score": 0.0 to 1.0,
    "support_level": 123.45,
    "resistance_level": 130.00,
    "volatility_check": "pass" | "fail"
}
"#;

impl Agent for QuantAgent {
    fn name(&self) -> (r: &str)
        ensures
            r@ == QUANT_NAME@,
    {
        QUANT_NAME
    }

    fn system_prompt(&self) -> (r: &str)
        ensures
            r@ == QUANT_PROMPT@,
    {
        QUANT_PROMPT
    }
}

} // verus!
