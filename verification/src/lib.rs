//! A small engine for Discord-style timestamp tokens.
//!
//! A user picks a local wall-clock time (`YYYY-MM-DDTHH:MM`) and a display
//! style; the engine turns them into a token `<t:EPOCH:STYLE>` that a chat
//! client renders as a localized, live-updating time string. The wall-clock
//! value is interpreted against a UTC offset captured once at startup.
//!
//! Holding the offset fixed for the whole session is deliberate, and it
//! settles daylight-saving edge cases by construction: under a fixed offset
//! every wall-clock value names exactly one instant, so no entered time
//! falls into a transition gap or is ambiguous. The price is that a host
//! offset change mid-session goes unnoticed until restart.

pub mod calendar;
pub mod decimal;
pub mod engine;
pub mod snapshot;
pub mod style;
