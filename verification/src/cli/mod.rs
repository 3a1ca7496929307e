//! Plain data types shared with a presentation front end.

pub mod args;
pub mod output;
