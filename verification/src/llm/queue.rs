//! Priority order of queued language-model requests.

use vstd::prelude::*;

verus! {

/// Priority level of a request.
#[derive(Clone, Copy, Debug, PartialEq, Eq, Structural)]
pub enum Priority {
    /// Pipeline continuations (quant, risk, execution after a signal).
    High,
    /// New analysis requests (director).
    Normal,
}

impl Priority {
    /// The label used in logs.
    pub fn label(&self) -> (r: &'static str)
        ensures
            r@ == (match *self {
                Priority::High => "HIGH"@,
                Priority::Normal => "NORMAL"@,
            }),
    {
        match self {
            Priority::High => "HIGH",
            Priority::Normal => "NORMAL",
        }
    }
}

/// Which queue is served next: a waiting high-priority request always goes
/// before a normal one; with both queues empty nothing is served.
pub fn next_priority(high_waiting: usize, normal_waiting: usize) -> (r: Option<Priority>)
    ensures
        r == if high_waiting > 0 {
            Some(Priority::High)
        } else if normal_waiting > 0 {
            Some(Priority::Normal)
        } else {
            None::<Priority>
        },
{
    if high_waiting > 0 {
        Some(Priority::High)
    } else if normal_waiting > 0 {
        Some(Priority::Normal)
    } else {
        None
    }
}

} // verus!
