//! The commands.
pub mod encode;
pub mod print_completions;
pub mod worker;
pub mod worker_protocol;
