//! Rendering core of a terminal user interface: a grid of character cells that
//! is diffed against each submitted frame, a capability interface for terminal
//! devices, and a portable model of terminal input.

pub mod arith;
pub mod backend;
pub mod buffer;
pub mod cell;
pub mod components;
pub mod draw;
pub mod error;
pub mod event;
pub mod geometry;
pub mod grid;
pub mod terminal;

pub use backend::{Backend, BackendSetter};
pub use error::{BError, BResult, UError, UResult};
pub use event::{IEvent, Key, KeyModifiers, MediaKey};
