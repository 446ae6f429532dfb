//! Verified core of the soccer sentiment API: query validation, SQL planning
//! for the sentiment listing, and the shape of every reply the service sends.

pub mod json_column;
pub mod query;
pub mod reply;
pub mod text;
