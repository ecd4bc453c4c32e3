//! The director decides whether the market shows a clear opportunity.

use vstd::prelude::*;
use crate::agents::Agent;

verus! {

pub struct DirectorAgent;

/// Name of the director role.
pub const DIRECTOR_NAME: &'static str = "Director-Agent";

/// Standing instructions of the director role.
pub const DIRECTOR_PROMPT: &'static str = r#"You are a Trading Director AI. Your goal is to analyze market data (Recent History & News) and decide if there is a CLEAR trading opportunity.
        
You must look for TRENDS in the provided history (e.g., higher highs, lower lows, breakouts). Do not trade on noise.
You must be conservative. If the data is ambiguous or weak, return "no_trade".
If you see a strong opportunity, return "trade" along with your thesis.

Output MUST be a valid JSON object with the following structure:
{
    "descision": "trade" | "no_trade",
    "symbol": "BTC/USD" | "AAPL",
    "direction": "long" | "short",
    "thesis": "Your detailed reasoning here...",
    "confidence": 0.0 to 1.0
}
"#;

impl Agent for DirectorAgent {
    fn name(&self) -> (r: &str)
        ensures
            r@ == DIRECTOR_NAME@,
    {
        DIRECTOR_NAME
    }

    fn system_prompt(&self) -> (r: &str)
        ensures
            r@ == DIRECTOR_PROMPT@,
    {
        DIRECTOR_PROMPT
    }
}

} // verus!
