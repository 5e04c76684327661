//! A terminal SQL client: the state, key handling and data shaping of the
//! client, each function with a contract over a mathematical model of it.
pub mod seqs;
pub mod command;
pub mod results;
pub mod styles;
pub mod list;
pub mod tables;
pub mod tabs;
pub mod highlight;
pub mod pgtype;
pub mod db;
pub mod editor;
pub mod app;
pub mod classic;
pub mod playground;
