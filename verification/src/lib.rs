//! Core logic of a terminal reader for a read-later service: the documents
//! it lists, the tags it writes, the configuration it merges, the state of
//! the reading session and the text of the screen, each with a verified contract.

pub mod document;
pub mod hostname;
pub mod tags;
pub mod config;
pub mod ui;
pub mod api;
pub mod app;
pub mod keys;
