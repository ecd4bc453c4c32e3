//! Request priorities of the language-model queue.

pub mod queue;

pub use queue::Priority;
