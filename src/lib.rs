//! Runtime core of a terminal browser for a package registry: the mode
//! state machine, the multi-key binding resolver, the registry of detail
//! fetches and the action reducer, each with a verified contract.
pub mod mode;
pub mod action;
pub mod data;
pub mod keys;
pub mod keybindings;
pub mod tasks;
pub mod text;
pub mod results;
pub mod summary;
pub mod views;
pub mod search_page;
pub mod app;
pub mod config;
pub mod keytext;
pub mod keyparse;
