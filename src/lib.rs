//! An interpreter that draws a user interface from a declarative description
//! and routes the surface's reports back into the application state through
//! named commands.
//!
//! - `context`: the application state.
//! - `expr`: value expressions, read from the state.
//! - `command`: commands, which change the state.
//! - `widget`: the description tree.
//! - `frame`: one frame's walk over the tree, with its model.
//! - `engine`: the frame driver.
//! - `laws`: properties of a frame, proved over the model.

use vstd::prelude::*;

pub mod command;
pub mod context;
pub mod engine;
pub mod expr;
pub mod frame;
pub mod laws;
pub mod widget;

verus! {

} // verus!
