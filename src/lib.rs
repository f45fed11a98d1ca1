//! Selects lines of log files by keyword, line range, head or tail window and
//! latest-N trimming, and renders them with zero-padded line numbers.
pub mod args;
pub mod command;
pub mod laws;
pub mod lines;
pub mod parse;
pub mod parser;
pub mod query;
pub mod text;
pub mod view;
