//! A verified core for a turn-based, tool-using model orchestration loop:
//! conversation protocol types, tool dispatch validation, a bounded todo
//! list, skill loading with progressive disclosure, token budgeting, and
//! subagent isolation.

pub mod agents;
pub mod budget;
pub mod config;
pub mod dispatch;
pub mod orchestrator;
pub mod protocol;
pub mod search;
pub mod skills;
pub mod subagent;
pub mod text;
pub mod tools;
pub mod todo;

pub use budget::calculate_max_tokens;
pub use config::get_system_prompt;
pub use text::safe_truncate;
