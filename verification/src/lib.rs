//! A terminal renderer for GitHub-style contribution calendars: a
//! week-by-weekday grid of activity levels laid out as an aligned,
//! colorized block of text, under a configurable palette and tile
//! style. Every rendering function carries a contract that pins its
//! output down to the byte.

pub mod calendar;
pub mod color;
pub mod config;
pub mod hexparse;
pub mod laws;
pub mod palette;
pub mod quartile;
pub mod style;
