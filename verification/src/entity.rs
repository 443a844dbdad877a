//! Entities and the tick that advances them.
//!
//! An entity owns a name, an identifier, two shared accumulators, a side table
//! of named values and an ordered list of modules. A tick walks the modules
//! once, in the order in which they were added, and lets each one act on the
//! state that the modules before it have left behind.

use vstd::prelude::*;
use crate::arith::{clamp, sat_add, sat_sub};
use crate::input::{axis_x, axis_y, Input, Keys};
use crate::laws::{lemma_pass_counts, lemma_pass_state, lemma_positions_at_rest};
use crate::module::{controls_before, sprites_before, Module};
use crate::table::{first_value, lookup, publish, publish_reading, Table, CTRL_X, CTRL_Y};
use crate::texture::{Texture, Tint};
use crate::vector::Vector2D;

verus! {

/// One request to the renderer: draw `texture` with its corner at `(x, y)`,
/// multiplied with `tint`.
#[derive(Debug, Clone, Copy, PartialEq, Eq, Structural)]
pub struct DrawCall {
    pub texture: Texture,
    pub x: i64,
    pub y: i64,
    pub tint: Tint,
}

/// A named, identified container of modules.
///
/// `val1` and `val2` are the shared accumulators: controls move them, sprites
/// and positions read them. An absent module list and an empty one are the
/// same state.
pub struct Entity {
    pub name: String,
    pub id: u32,
    pub val1: i64,
    pub val2: i64,
    pub vals: Vec<(String, i64)>,
    pub modules: Option<Vec<Module>>,
}

/// An entity as contracts see it.
#[verifier::ext_equal]
pub struct EntityView {
    pub name: Seq<char>,
    pub id: u32,
    pub val1: i64,
    pub val2: i64,
    pub vals: Table,
    pub modules: Seq<Module>,
}

/// What one tick has done after some of the modules: the accumulators and the
/// side table as they stand, the modules handled so far as they were left,
/// and the draw calls issued so far.
#[verifier::ext_equal]
pub struct Pass {
    pub val1: i64,
    pub val2: i64,
    pub vals: Table,
    pub modules: Seq<Module>,
    pub draws: Seq<DrawCall>,
}

impl Pass {
    /// Where a sprite is drawn in this state: at the accumulators, unless the
    /// side table names a coordinate. The first value named `ctrl_x` replaces
    /// the horizontal coordinate, the first named `ctrl_y` the vertical one.
    pub open spec fn draw_position(self) -> (i64, i64) {
        (
            match lookup(self.vals, CTRL_X@) {
                Some(x) => x,
                None => self.val1,
            },
            match lookup(self.vals, CTRL_Y@) {
                Some(y) => y,
                None => self.val2,
            },
        )
    }

    /// The state after one more module has been handled.
    ///
    /// - A sprite issues one draw call at `draw_position`, tinted opaque
    ///   white, and changes nothing.
    /// - Controls take the reading of the keys, publish it to the side table,
    ///   and fold it into the accumulators in screen coordinates, where `y`
    ///   grows downwards: `val1` gains the horizontal reading and `val2`
    ///   loses the vertical one.
    /// - A position gains the accumulators as they stand.
    pub open spec fn step(self, module: Module, keys: Keys) -> Pass {
        match module {
            Module::Sprite(texture) => Pass {
                modules: self.modules.push(module),
                draws: self.draws.push(
                    DrawCall {
                        texture,
                        x: self.draw_position().0,
                        y: self.draw_position().1,
                        tint: Tint::opaque_white(),
                    },
                ),
                ..self
            },
            Module::Controls(_) => {
                let reading = Input::reading(keys);
                Pass {
                    val1: clamp(self.val1 + reading.x_value),
                    val2: clamp(self.val2 - reading.y_value),
                    vals: publish(self.vals, reading.x_value, reading.y_value),
                    modules: self.modules.push(Module::Controls(reading)),
                    ..self
                }
            },
            Module::Position(vector) => Pass {
                modules: self.modules.push(
                    Module::Position(
                        Vector2D {
                            x: clamp(vector.x + self.val1),
                            y: clamp(vector.y + self.val2),
                        },
                    ),
                ),
                ..self
            },
        }
    }
}

impl EntityView {
    /// An entity as it is made: accumulators at zero, an empty side table and
    /// no modules.
    pub open spec fn fresh(name: Seq<char>, id: u32) -> EntityView {
        EntityView { name, id, val1: 0, val2: 0, vals: Seq::empty(), modules: Seq::empty() }
    }

    /// Nothing can move: both accumulators are at zero and every module is a
    /// position.
    pub open spec fn at_rest(self) -> bool {
        &&& self.val1 == 0
        &&& self.val2 == 0
        &&& forall|i: int| 0 <= i < self.modules.len() ==> self.modules[i] is Position
    }

    /// The state of a tick after the first `n` modules.
    pub open spec fn pass(self, keys: Keys, n: nat) -> Pass
        decreases n,
    {
        if n == 0 {
            Pass {
                val1: self.val1,
                val2: self.val2,
                vals: self.vals,
                modules: Seq::empty(),
                draws: Seq::empty(),
            }
        } else {
            self.pass(keys, (n - 1) as nat).step(self.modules[n - 1], keys)
        }
    }

    /// The entity after one tick with `keys` held.
    pub open spec fn tick(self, keys: Keys) -> EntityView {
        let end = self.pass(keys, self.modules.len());
        EntityView {
            val1: end.val1,
            val2: end.val2,
            vals: end.vals,
            modules: end.modules,
            ..self
        }
    }

    /// How many of the modules are sprites.
    pub open spec fn sprite_count(self) -> nat {
        sprites_before(self.modules, self.modules.len())
    }

    /// How many of the modules are controls.
    pub open spec fn controls_count(self) -> nat {
        controls_before(self.modules, self.modules.len())
    }

    /// The draw calls of one tick with `keys` held, in the order of issue.
    pub open spec fn draws(self, keys: Keys) -> Seq<DrawCall> {
        self.pass(keys, self.modules.len()).draws
    }
}

impl View for Entity {
    type V = EntityView;

    open spec fn view(&self) -> EntityView {
        EntityView {
            name: self.name@,
            id: self.id,
            val1: self.val1,
            val2: self.val2,
            vals: self.vals.deep_view(),
            modules: match self.modules {
                Some(modules) => modules@,
                None => Seq::empty(),
            },
        }
    }
}

/// Hands out the next identifier. The library promises nothing of the number:
/// not that it is new, not that it differs from the one before.
///
/// Calls `macroquad::prelude::rand::rand`, which steps a process-wide
/// pseudo-random generator and returns 32 bits of it. The call takes no
/// argument and cannot fail.
#[verifier::external_body]
fn fresh_id() -> (id: u32) {
    macroquad::prelude::rand::rand()
}

/// Makes an entity from a name and modules that are already built. The modules
/// keep their order. Without modules the list is left absent. The identifier
/// is drawn afresh and is not guaranteed to be unique.
pub fn new_entity(name: &str, modules: Vec<Module>) -> (entity: Entity)
    ensures
        entity@ == (EntityView { modules: modules@, ..EntityView::fresh(name@, entity.id) }),
        entity.modules is None <==> modules@.len() == 0,
{
    let id: u32 = fresh_id();
    Entity::with_id(name, id, modules)
}

impl Entity {
    /// Makes an entity without modules under a freshly drawn identifier.
    pub fn new(name: &str) -> (entity: Entity)
        ensures
            entity@ == EntityView::fresh(name@, entity.id),
            entity.modules is None,
    {
        new_entity(name, Vec::new())
    }

    /// Makes an entity under a given identifier. The modules keep their
    /// order; without modules the list is left absent.
    pub fn with_id(name: &str, id: u32, modules: Vec<Module>) -> (entity: Entity)
        ensures
            entity@ == (EntityView { modules: modules@, ..EntityView::fresh(name@, id) }),
            entity.modules is None <==> modules@.len() == 0,
    {
        let modules = if modules.len() == 0 {
            None
        } else {
            Some(modules)
        };
        let entity = Entity {
            name: name.to_owned(),
            id,
            val1: 0,
            val2: 0,
            vals: Vec::new(),
            modules,
        };
        assert(entity.vals.deep_view() =~= Seq::empty());
        entity
    }

    /// Appends one module to the end of the list, which is made on the first
    /// call. The modules that were there keep their places. Nothing is
    /// deduplicated and there is no limit.
    pub fn add_module(&mut self, new_module: Module)
        ensures
            final(self)@ == (EntityView {
                modules: old(self)@.modules.push(new_module),
                ..old(self)@
            }),
            final(self)@.modules.len() == old(self)@.modules.len() + 1,
            final(self)@.modules.last() == new_module,
            forall|i: int|
                0 <= i < old(self)@.modules.len() ==> final(self)@.modules[i] == old(
                    self,
                )@.modules[i],
            final(self).modules is Some,
    {
        let taken = self.modules.take();
        match taken {
            Some(mut modules) => {
                modules.push(new_module);
                self.modules = Some(modules);
            },
            None => {
                let mut modules: Vec<Module> = Vec::new();
                modules.push(new_module);
                self.modules = Some(modules);
            },
        }
    }

    /// Appends a named value to the end of the side table. A name that is
    /// already there is neither overwritten nor merged: the new pair stands
    /// behind it, and a lookup keeps finding the earlier one.
    pub fn add_value(&mut self, id: &str, val: i64)
        ensures
            final(self)@ == (EntityView { vals: old(self)@.vals.push((id@, val)), ..old(self)@ }),
            final(self).modules == old(self).modules,
    {
        self.vals.push((id.to_owned(), val));
        assert(self.vals.deep_view() =~= old(self).vals.deep_view().push((id@, val)));
    }

    /// The value of the first pair named `id` in the side table, if there is
    /// one.
    pub fn value(&self, id: &str) -> (found: Option<i64>)
        ensures
            found == lookup(self@.vals, id@),
    {
        first_value(&self.vals, id)
    }

    /// Advances the entity by one tick. `keys` are the mapped keys that are
    /// held during it. The modules are handled once each, strictly in list
    /// order, so a module sees what the modules before it have done in this
    /// tick and nothing of what those after it will do. The result is the
    /// draw calls of the tick in the order of issue.
    ///
    /// In sum: there is one draw call per sprite, and each accumulator has
    /// moved by the reading of its axis once per controls module, `val1` with
    /// the horizontal reading and `val2` against the vertical one, stopping
    /// at the ends of the coordinate range. The side table keeps its pairs
    /// and their names, and without controls their values too.
    ///
    /// An entity without modules is left as it is and draws nothing. So is
    /// one that holds only positions while both accumulators are at zero.
    pub fn update(&mut self, keys: Keys) -> (draws: Vec<DrawCall>)
        ensures
            final(self)@ == old(self)@.tick(keys),
            draws@ == old(self)@.draws(keys),
            final(self).modules is Some <==> old(self).modules is Some,
            final(self)@.modules.len() == old(self)@.modules.len(),
            draws@.len() == old(self)@.sprite_count(),
            final(self)@.val1 == clamp(
                old(self)@.val1 + old(self)@.controls_count() * axis_x(keys),
            ),
            final(self)@.val2 == clamp(
                old(self)@.val2 - old(self)@.controls_count() * axis_y(keys),
            ),
            final(self)@.vals.len() == old(self)@.vals.len(),
            forall|i: int|
                0 <= i < old(self)@.vals.len() ==> (#[trigger] final(self)@.vals[i]).0 == old(
                    self,
                )@.vals[i].0,
            old(self)@.controls_count() == 0 ==> final(self)@.vals == old(self)@.vals,
            old(self)@.at_rest() ==> final(self)@ == old(self)@ && draws@.len() == 0,
    {
        proof {
            lemma_pass_counts(old(self)@, keys, old(self)@.modules.len());
            lemma_pass_state(old(self)@, keys, old(self)@.modules.len());
            if old(self)@.at_rest() {
                lemma_positions_at_rest(old(self)@, keys);
            }
        }
        let mut draws: Vec<DrawCall> = Vec::new();
        let taken = self.modules.take();
        if let Some(mut modules) = taken {
            let ghost before = old(self)@;
            let mut i: usize = 0;
            assert(modules@.take(0) =~= Seq::empty());
            while i < modules.len()
                invariant
                    i <= modules.len(),
                    before == old(self)@,
                    before.modules.len() == modules.len(),
                    forall|j: int| i <= j < modules.len() ==> modules@[j] == before.modules[j],
                    self.name == old(self).name,
                    self.id == old(self).id,
                    before.pass(keys, i as nat) == (Pass {
                        val1: self.val1,
                        val2: self.val2,
                        vals: self.vals.deep_view(),
                        modules: modules@.take(i as int),
                        draws: draws@,
                    }),
                decreases modules.len() - i,
            {
                let ghost prior = before.pass(keys, i as nat);
                match modules[i] {
                    Module::Sprite(texture) => {
                        let x: i64 = match first_value(&self.vals, CTRL_X) {
                            Some(x) => x,
                            None => self.val1,
                        };
                        let y: i64 = match first_value(&self.vals, CTRL_Y) {
                            Some(y) => y,
                            None => self.val2,
                        };
                        draws.push(DrawCall { texture, x, y, tint: Tint::white() });
                    },
                    Module::Controls(mut controls) => {
                        controls.update(keys);
                        publish_reading(&mut self.vals, controls.x_value, controls.y_value);
                        self.val1 = sat_add(self.val1, controls.x_value);
                        self.val2 = sat_sub(self.val2, controls.y_value);
                        modules[i] = Module::Controls(controls);
                    },
                    Module::Position(mut vector) => {
                        vector.x = sat_add(vector.x, self.val1);
                        vector.y = sat_add(vector.y, self.val2);
                        modules[i] = Module::Position(vector);
                    },
                }
                assert(modules@.take(i + 1) =~= prior.step(before.modules[i as int], keys).modules);
                i += 1;
            }
            assert(modules@.take(i as int) =~= modules@);
            self.modules = Some(modules);
        }
        draws
    }
}

} // verus!
