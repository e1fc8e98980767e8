//! Key paths: ordered sequences of keys and indices that address a location
//! inside a nested, tree-shaped document, such as `orderBy.items.5.name`.
//!
//! An [`Item`] is one element of a path, a [`KeyPath`] is a sequence of items.
//! Paths are values: appending with `+` yields a new path. A path renders as
//! its items joined by dots; the rendering is meant for logs and messages and
//! is not parsed back.

pub mod builder;
pub mod item;
pub mod iter;
pub mod laws;
pub mod path;
pub mod render;

pub use builder::PathBuilder;
pub use item::{Item, ItemView};
pub use iter::KeyPathIter;
pub use path::KeyPath;
