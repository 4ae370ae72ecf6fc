//! Test messages of controlled length and structure for exercising a
//! message splitter, together with the command-line front end that selects
//! among them.

pub mod cli;
pub mod fixtures;
pub mod info;
pub mod text;
