//! A safety layer for a stateful, handle-based immediate-mode graphics API.
//!
//! The driver's global state machine (bind points, object tables, the error
//! flag and the stream of commands it receives) is modelled by an explicit
//! [`context::Context`] value that every operation takes; demo front ends
//! replay the recorded command stream against the real driver.

pub mod assets;
pub mod buffer;
pub mod context;
pub mod error;
pub mod mesh;
pub mod model;
pub mod render;
pub mod shader;
pub mod strutil;
pub mod sys;
pub mod texture;
pub mod types;
