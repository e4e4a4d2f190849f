//! State and rules of a small terminal dashboard: a tab bar with wraparound
//! navigation, a key-to-action table, and a history of CPU and memory usage
//! that is refreshed at most once per refresh interval.
//!
//! Nothing here touches a terminal, a clock or the operating system. A caller
//! reads events, the time and the raw measurements, hands them in as plain
//! values, and paints what the state says.

pub mod app;
pub mod input;
pub mod stats;
pub mod tabs;
pub mod ui;
