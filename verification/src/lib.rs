//! GPTVoice: the decisions and data handling behind a Discord to ChatGPT Voice relay.

pub mod browser;
pub mod config;
pub mod control;
pub mod discord;
pub mod flow;
pub mod ieee;
pub mod json;
pub mod latency;
pub mod launch;
pub mod mix;
pub mod panel;
pub mod pcm;
pub mod queue;
pub mod release;
pub mod runtime;
pub mod settings;
pub mod signal;
pub mod startup;
pub mod text;
pub mod threads;
pub mod transport;
pub mod visit;
pub mod voice;
