//! The kinds of module an entity can carry.

use vstd::prelude::*;
use crate::input::Input;
use crate::texture::Texture;
use crate::vector::Vector2D;

verus! {

/// One module of an entity. An entity may hold none, one or many of each
/// kind.
#[derive(Debug, Clone, Copy, PartialEq, Eq, Structural)]
pub enum Module {
    /// Coordinates of the module's own, moved by the entity's accumulators on
    /// every tick.
    Position(Vector2D),
    /// An image, drawn once per tick.
    Sprite(Texture),
    /// Keyboard control, read once per tick.
    Controls(Input),
}

/// How many of the first `n` modules are sprites.
pub open spec fn sprites_before(modules: Seq<Module>, n: nat) -> nat
    decreases n,
{
    if n == 0 {
        0
    } else {
        sprites_before(modules, (n - 1) as nat) + if modules[n - 1] is Sprite {
            1nat
        } else {
            0nat
        }
    }
}

/// How many of the first `n` modules are controls.
pub open spec fn controls_before(modules: Seq<Module>, n: nat) -> nat
    decreases n,
{
    if n == 0 {
        0
    } else {
        controls_before(modules, (n - 1) as nat) + if modules[n - 1] is Controls {
            1nat
        } else {
            0nat
        }
    }
}

} // verus!
