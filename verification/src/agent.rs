//! The agent: a model that works on files through tools.

pub mod call;
pub mod call_laws;
pub mod label;
pub mod outcome;
pub mod path;
pub mod path_laws;
pub mod entries;
pub mod looking;
pub mod looking_laws;
pub mod doing_laws;
pub mod changing;
pub mod running;
pub mod sessions;
pub mod turn;
pub mod xml;
pub mod xml_laws;
