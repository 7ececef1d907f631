//! A status-bar HTTP health monitor: targets are normalised into absolute
//! URLs, each probe reply is classified as up or down, and the outcomes are
//! folded into one line of text.

pub mod laws;
pub mod monitor;
pub mod normalize;
pub mod probe;
pub mod render;
pub mod text;
pub mod vocab;
