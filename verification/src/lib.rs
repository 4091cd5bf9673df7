pub mod text;
pub mod json;
pub mod config;
pub mod command;
pub mod shell;
pub mod hub;
pub mod web;
pub mod icon;
pub mod probe;
