//! Core engine of a terminal calendar dashboard: a Gregorian date utility
//! (day counts, weekday offsets, calendar-safe month navigation), a
//! week-by-weekday month grid builder, an append-only store of appointments
//! and to-do items with exact-day lookup, parsers for date-time strings and
//! comma-separated user commands, and fixed-width text rendering of the grid,
//! the lookups and a weather report.
//!
//! Presentation (terminal widgets, keyboard polling), persistence (the JSON
//! files) and the weather HTTP client are external collaborators: they hand
//! this engine plain values and consume the structs and strings it returns.

pub mod calendar;
pub mod commands;
pub mod dates;
pub mod grid;
pub mod logic;
pub mod parse;
pub mod render;
pub mod todo;
pub mod weather;
