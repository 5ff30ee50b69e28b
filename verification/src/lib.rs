//! Reads the pages of a substitution plan, keeps the rows of the latest crawl,
//! and applies them to the weekly timetable of a class.
//!
//! The caller fetches the pages and hands them to a [`crawl::Crawl`]; the rows
//! that it brings go into a [`Davinci`] store, which tells whether the plan has
//! changed and gives the timetable of a date with the plan applied to it.

pub mod change;
pub mod crawl;
pub mod date;
pub mod davinci;
pub mod digest;
pub mod engine;
pub mod extractor;
pub mod iteration;
pub mod page;
pub mod row;
pub mod schedule;
pub mod slot;
pub mod store;
pub mod telegram;
pub mod text;
pub mod timetable;
pub mod web;

pub use crate::davinci::{Data, Davinci};
pub use crate::row::Row;
