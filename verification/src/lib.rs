//! A small entity/module toy library: named entities carry an ordered list of
//! modules (position, sprite, controls) and are advanced one tick at a time.
//!
//! The library never touches a window, a keyboard or a renderer. A tick takes
//! the keys that are held as a plain value and hands back the draw calls it
//! wants issued, in the order in which it wants them issued.

pub mod arith;
pub mod entity;
pub mod input;
pub mod laws;
pub mod module;
pub mod table;
pub mod texture;
pub mod vector;

pub use entity::{new_entity, DrawCall, Entity};
pub use input::{Input, Keys, KEY_DOWN, KEY_LEFT, KEY_RIGHT, KEY_UP};
pub use module::Module;
pub use texture::{LoadError, Texture, Tint};
pub use vector::Vector2D;
