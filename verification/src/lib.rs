//! Verified decision logic of the Codex agent: rollout truncation at user-turn
//! boundaries, the Windows sandbox launch guard, the local web-search broker
//! endpoint and response handling, and the lenient parsing of web-search commands.

pub mod json;
pub mod launch_guard;
pub mod local_search;
pub mod protocol;
pub mod search_commands;
pub mod text;
pub mod truncation;
pub mod urls;
pub mod web_search_tool;
