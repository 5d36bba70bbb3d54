//! The decision core of a terminal client for the NanoGPT API.

pub mod agent;
pub mod app_config;
pub mod chat;
pub mod chat_laws;
pub mod cli;
pub mod client;
pub mod client_laws;
pub mod commands;
pub mod commands_laws;
pub mod conversation;
pub mod home;
pub mod ident;
pub mod json;
pub mod json_laws;
pub mod letter;
pub mod lines;
pub mod model_mode;
pub mod model_mode_laws;
pub mod naming_laws;
pub mod number;
pub mod order;
pub mod search;
pub mod stamp;
pub mod starting_laws;
pub mod text;
pub mod text_laws;
pub mod tui;
pub mod wire;
