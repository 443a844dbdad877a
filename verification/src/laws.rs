//! What holds of every tick.
//!
//! The contract of `Entity::update` describes a tick as a walk over the
//! modules. The lemmas here say what that walk amounts to: what each module
//! is left as, where each sprite is drawn, and what has become of the
//! accumulators and the side table.

use vstd::prelude::*;
use crate::arith::clamp;
use crate::entity::{DrawCall, EntityView, Pass};
use crate::input::{axis_x, axis_y, Input, Keys};
use crate::module::{controls_before, sprites_before, Module};
use crate::table::{lemma_lookup_published, lookup, publish, Table, CTRL_X, CTRL_Y};
use crate::texture::Tint;
use crate::vector::Vector2D;

verus! {

/// The entity after one tick for each snapshot in `keys`, first to last.
pub open spec fn after_ticks(entity: EntityView, keys: Seq<Keys>) -> EntityView
    decreases keys.len(),
{
    if keys.len() == 0 {
        entity
    } else {
        after_ticks(entity, keys.drop_last()).tick(keys.last())
    }
}

/// Publishing the same reading twice is publishing it once.
pub proof fn lemma_publish_twice(table: Table, x: i64, y: i64)
    ensures
        publish(publish(table, x, y), x, y) == publish(table, x, y),
{
    assert(publish(publish(table, x, y), x, y) =~= publish(table, x, y));
}

/// Within one tick the accumulators move once per controls module, all in the
/// same direction, and stop at the ends of the coordinate range. The side
/// table is as the tick found it until the first controls module, and holds
/// the published reading from then on.
pub proof fn lemma_pass_state(entity: EntityView, keys: Keys, n: nat)
    requires
        n <= entity.modules.len(),
    ensures
        entity.pass(keys, n).val1 == clamp(
            entity.val1 + controls_before(entity.modules, n) * axis_x(keys),
        ),
        entity.pass(keys, n).val2 == clamp(
            entity.val2 - controls_before(entity.modules, n) * axis_y(keys),
        ),
        controls_before(entity.modules, n) == 0 ==> entity.pass(keys, n).vals == entity.vals,
        controls_before(entity.modules, n) > 0 ==> entity.pass(keys, n).vals == publish(
            entity.vals,
            axis_x(keys),
            axis_y(keys),
        ),
    decreases n,
{
    if n > 0 {
        let m = (n - 1) as nat;
        lemma_pass_state(entity, keys, m);
        lemma_publish_twice(entity.vals, axis_x(keys), axis_y(keys));
        let k = controls_before(entity.modules, m);
        let dx = axis_x(keys);
        let dy = axis_y(keys);
        assert(k * dx == if dx == 1 {
            k as int
        } else if dx == 0 {
            0
        } else {
            -(k as int)
        }) by (nonlinear_arith)
            requires
                -1 <= dx <= 1,
        ;
        assert((k + 1) * dx == k * dx + dx) by (nonlinear_arith);
        assert(k * dy == if dy == 1 {
            k as int
        } else if dy == 0 {
            0
        } else {
            -(k as int)
        }) by (nonlinear_arith)
            requires
                -1 <= dy <= 1,
        ;
        assert((k + 1) * dy == k * dy + dy) by (nonlinear_arith);
    }
}

/// A tick leaves as many modules as it found, each of the kind it was, and
/// issues one draw call per sprite.
///
/// The module at `i` is left as follows. A sprite is as it was. Controls hold
/// the reading of the keys. A position has gained the accumulators as the
/// modules before it left them.
pub proof fn lemma_pass_modules(entity: EntityView, keys: Keys, n: nat, i: int)
    requires
        n <= entity.modules.len(),
        0 <= i < n,
    ensures
        entity.pass(keys, n).modules.len() == n,
        entity.pass(keys, n).draws.len() == sprites_before(entity.modules, n),
        entity.pass(keys, n).modules[i] == match entity.modules[i] {
            Module::Sprite(texture) => Module::Sprite(texture),
            Module::Controls(_) => Module::Controls(Input::reading(keys)),
            Module::Position(vector) => Module::Position(
                Vector2D {
                    x: clamp(vector.x + entity.pass(keys, i as nat).val1),
                    y: clamp(vector.y + entity.pass(keys, i as nat).val2),
                },
            ),
        },
    decreases n,
{
    lemma_pass_counts(entity, keys, (n - 1) as nat);
    if i < n - 1 {
        lemma_pass_modules(entity, keys, (n - 1) as nat, i);
    }
}

/// After `n` modules, `n` modules have been handled and one draw call has
/// been issued for each sprite among them.
pub proof fn lemma_pass_counts(entity: EntityView, keys: Keys, n: nat)
    requires
        n <= entity.modules.len(),
    ensures
        entity.pass(keys, n).modules.len() == n,
        entity.pass(keys, n).draws.len() == sprites_before(entity.modules, n),
    decreases n,
{
    if n > 0 {
        lemma_pass_counts(entity, keys, (n - 1) as nat);
    }
}

/// Draw calls come in the order of the sprites, and each is placed by the
/// state that the modules before its sprite have left: controls earlier in
/// the list have already moved the accumulators, controls later in the list
/// have not.
pub proof fn lemma_draw_order(entity: EntityView, keys: Keys, i: int)
    requires
        0 <= i < entity.modules.len(),
        entity.modules[i] is Sprite,
    ensures
        sprites_before(entity.modules, i as nat) < entity.draws(keys).len(),
        entity.draws(keys)[sprites_before(entity.modules, i as nat) as int] == (DrawCall {
            texture: entity.modules[i]->Sprite_0,
            x: entity.pass(keys, i as nat).draw_position().0,
            y: entity.pass(keys, i as nat).draw_position().1,
            tint: Tint::opaque_white(),
        }),
{
    lemma_draw_kept(entity, keys, entity.modules.len(), i);
}

/// The draw call of the sprite at `i` is the same in every later state of
/// the tick.
pub proof fn lemma_draw_kept(entity: EntityView, keys: Keys, n: nat, i: int)
    requires
        n <= entity.modules.len(),
        0 <= i < n,
        entity.modules[i] is Sprite,
    ensures
        sprites_before(entity.modules, i as nat) < entity.pass(keys, n).draws.len(),
        entity.pass(keys, n).draws[sprites_before(entity.modules, i as nat) as int] == (DrawCall {
            texture: entity.modules[i]->Sprite_0,
            x: entity.pass(keys, i as nat).draw_position().0,
            y: entity.pass(keys, i as nat).draw_position().1,
            tint: Tint::opaque_white(),
        }),
    decreases n,
{
    lemma_pass_counts(entity, keys, (n - 1) as nat);
    lemma_pass_counts(entity, keys, n);
    if i < n - 1 {
        lemma_draw_kept(entity, keys, (n - 1) as nat, i);
        lemma_sprites_before_grows(entity.modules, i as nat, (n - 1) as nat);
    }
}

/// The count of sprites among the first modules does not shrink as more
/// modules are counted, and grows past a sprite.
pub proof fn lemma_sprites_before_grows(modules: Seq<Module>, i: nat, n: nat)
    requires
        i <= n,
    ensures
        sprites_before(modules, i) <= sprites_before(modules, n),
        i < n && modules[i as int] is Sprite ==> sprites_before(modules, i) < sprites_before(
            modules,
            n,
        ),
    decreases n,
{
    if i < n {
        lemma_sprites_before_grows(modules, i, (n - 1) as nat);
    }
}

/// A sprite that stands before every controls module is drawn where the
/// state at the start of the tick puts it, whatever keys are held.
pub proof fn lemma_sprite_before_controls(entity: EntityView, keys: Keys, i: int)
    requires
        0 <= i < entity.modules.len(),
        entity.modules[i] is Sprite,
        controls_before(entity.modules, i as nat) == 0,
    ensures
        entity.draws(keys)[sprites_before(entity.modules, i as nat) as int] == (DrawCall {
            texture: entity.modules[i]->Sprite_0,
            x: entity.pass(keys, 0).draw_position().0,
            y: entity.pass(keys, 0).draw_position().1,
            tint: Tint::opaque_white(),
        }),
{
    lemma_draw_order(entity, keys, i);
    lemma_pass_state(entity, keys, i as nat);
}

/// A sprite that stands behind a controls module is drawn where this tick's
/// reading puts it: at the accumulators moved once per controls module before
/// it, or at the reading itself where the side table names the coordinate.
pub proof fn lemma_sprite_after_controls(entity: EntityView, keys: Keys, i: int)
    requires
        0 <= i < entity.modules.len(),
        entity.modules[i] is Sprite,
        controls_before(entity.modules, i as nat) > 0,
    ensures
        entity.draws(keys)[sprites_before(entity.modules, i as nat) as int] == ({
            let moved = controls_before(entity.modules, i as nat);
            DrawCall {
                texture: entity.modules[i]->Sprite_0,
                x: match lookup(entity.vals, CTRL_X@) {
                    Some(_) => axis_x(keys),
                    None => clamp(entity.val1 + moved * axis_x(keys)),
                },
                y: match lookup(entity.vals, CTRL_Y@) {
                    Some(_) => axis_y(keys),
                    None => clamp(entity.val2 - moved * axis_y(keys)),
                },
                tint: Tint::opaque_white(),
            }
        }),
{
    lemma_draw_order(entity, keys, i);
    lemma_pass_state(entity, keys, i as nat);
    lemma_lookup_published(entity.vals, axis_x(keys), axis_y(keys));
}

/// An entity that holds nothing but positions, with both accumulators at
/// zero, is left exactly as it was by a tick, and draws nothing.
pub proof fn lemma_positions_at_rest(entity: EntityView, keys: Keys)
    requires
        entity.at_rest(),
    ensures
        entity.tick(keys) == entity,
        entity.draws(keys).len() == 0,
{
    lemma_positions_at_rest_pass(entity, keys, entity.modules.len());
    assert(entity.modules.take(entity.modules.len() as int) =~= entity.modules);
    assert(entity.tick(keys) =~= entity);
}

/// The same for every state of the tick.
pub proof fn lemma_positions_at_rest_pass(entity: EntityView, keys: Keys, n: nat)
    requires
        n <= entity.modules.len(),
        entity.at_rest(),
    ensures
        entity.pass(keys, n) == (Pass {
            val1: 0,
            val2: 0,
            vals: entity.vals,
            modules: entity.modules.take(n as int),
            draws: Seq::empty(),
        }),
    decreases n,
{
    if n > 0 {
        lemma_positions_at_rest_pass(entity, keys, (n - 1) as nat);
        let prior = entity.pass(keys, (n - 1) as nat);
        let module = entity.modules[n - 1];
        assert(module is Position);
        assert(prior.step(module, keys).modules =~= entity.modules.take(n as int));
    } else {
        assert(entity.modules.take(0) =~= Seq::empty());
    }
}

/// An entity that holds nothing but positions, with both accumulators at
/// zero, is the same after any number of ticks, whatever keys are held in
/// each.
pub proof fn lemma_positions_stay_at_rest(entity: EntityView, keys: Seq<Keys>)
    requires
        entity.at_rest(),
    ensures
        after_ticks(entity, keys) == entity,
    decreases keys.len(),
{
    if keys.len() > 0 {
        lemma_positions_stay_at_rest(entity, keys.drop_last());
        lemma_positions_at_rest(entity, keys.last());
    }
}

} // verus!
