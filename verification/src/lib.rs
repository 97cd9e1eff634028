pub mod action;
pub mod app;
pub mod cli;
pub mod config;
pub mod error;
pub mod executor;
pub mod lowercase;
pub mod models;
pub mod search;
pub mod text;
pub mod ui;
