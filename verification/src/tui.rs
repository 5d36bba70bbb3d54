//! The full-screen chat: its state, what each key does to it, and what is drawn of it.

pub mod app;
pub mod chat_laws;
pub mod dialog_laws;
pub mod dialogs;
pub mod editor;
pub mod key_laws;
pub mod keys;
pub mod layout;
pub mod markdown;
pub mod markdown_laws;
pub mod paint;
pub mod pickers;
pub mod render;
pub mod screen;
pub mod screen_laws;
pub mod slash;
pub mod style;
pub mod typing;
