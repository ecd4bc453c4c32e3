//! The four language-model roles: who they are and how they are briefed.

pub mod director;
pub mod execution;
pub mod quant;
pub mod risk;




use vstd::prelude::*;

verus! {

/// A language-model role: its name and its standing instructions.
pub trait Agent {
    fn name(&self) -> &str;

    fn system_prompt(&self) -> &str;
}

} // verus!
