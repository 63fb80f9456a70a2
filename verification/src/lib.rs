//! The logic of a web-search MCP server: the shared request throttle, the
//! DuckDuckGo Lite search as a state machine, reading hits out of a result
//! page, turning fetched pages into text, and the server's settings.
pub mod config;
pub mod models;
pub mod reader;
pub mod research;
pub mod results;
pub mod search;
pub mod text;
pub mod throttle;
pub mod tools;
pub mod user_agent;
