use motor::{new_entity, DrawCall, Entity, Input, Keys, Module, Texture, Tint, Vector2D};

const NONE: Keys = Keys { up: false, left: false, down: false, right: false };
const UP: Keys = Keys { up: true, left: false, down: false, right: false };
const LEFT: Keys = Keys { up: false, left: true, down: false, right: false };
const DOWN: Keys = Keys { up: false, left: false, down: true, right: false };
const RIGHT: Keys = Keys { up: false, left: false, down: false, right: true };

const WHITE: Tint = Tint { r: 255, g: 255, b: 255, a: 255 };

fn sprite(slot: u32) -> Module {
    Module::Sprite(Texture::load(Ok(slot)))
}

fn controls() -> Module {
    Module::Controls(Input::default())
}

fn position(x: i64, y: i64) -> Module {
    Module::Position(Vector2D { x, y })
}

fn draw(slot: u32, x: i64, y: i64) -> DrawCall {
    DrawCall { texture: Texture { texture: Some(slot) }, x, y, tint: WHITE }
}

fn modules_of(entity: &Entity) -> Vec<Module> {
    entity.modules.clone().unwrap_or_default()
}

#[test]
fn construction_scenario() {
    let player = new_entity("Player", Vec::new());
    assert_eq!(player.name, "Player");
    assert!(player.modules.is_none());
    assert!(modules_of(&player).is_empty());
    assert_eq!(player.val1, 0);
    assert_eq!(player.val2, 0);
    assert!(player.vals.is_empty());
    let id: u32 = player.id;
    assert_eq!(id, player.id);
}

#[test]
fn new_makes_an_entity_without_modules() {
    let player = Entity::new("Player");
    assert_eq!(player.name, "Player");
    assert!(player.modules.is_none());
    assert_eq!((player.val1, player.val2), (0, 0));
    assert!(player.vals.is_empty());
}

#[test]
fn an_empty_name_is_a_name() {
    let nameless = Entity::new("");
    assert_eq!(nameless.name, "");
}

#[test]
fn with_id_pins_the_identifier() {
    let a = Entity::with_id("A", 0, Vec::new());
    let b = Entity::with_id("B", u32::MAX, vec![sprite(1)]);
    assert_eq!(a.id, 0);
    assert_eq!(b.id, u32::MAX);
    assert_eq!(b.name, "B");
    assert!(a.modules.is_none());
    assert_eq!(b.modules, Some(vec![sprite(1)]));
}

#[test]
fn identifiers_are_drawn_for_each_entity() {
    let first = Entity::new("first");
    let second = new_entity("second", vec![controls()]);
    let ids: [u32; 2] = [first.id, second.id];
    assert_eq!(ids.len(), 2);
}

#[test]
fn new_entity_keeps_the_modules_in_order() {
    let given = vec![position(1, 2), controls(), sprite(4), controls(), position(1, 2)];
    let entity = new_entity("Entity", given.clone());
    assert_eq!(entity.name, "Entity");
    assert_eq!(entity.modules, Some(given));
    assert_eq!((entity.val1, entity.val2), (0, 0));
    assert!(entity.vals.is_empty());
}

#[test]
fn add_module_appends_at_the_tail() {
    let mut entity = Entity::new("Entity");
    entity.add_module(sprite(1));
    assert_eq!(entity.modules, Some(vec![sprite(1)]));
    entity.add_module(controls());
    assert_eq!(entity.modules, Some(vec![sprite(1), controls()]));
    entity.add_module(sprite(1));
    assert_eq!(entity.modules, Some(vec![sprite(1), controls(), sprite(1)]));
    entity.add_module(position(3, 4));
    assert_eq!(
        entity.modules,
        Some(vec![sprite(1), controls(), sprite(1), position(3, 4)])
    );
}

#[test]
fn add_module_touches_nothing_but_the_list() {
    let mut entity = Entity::with_id("Entity", 9, vec![controls()]);
    entity.val1 = 5;
    entity.val2 = -6;
    entity.add_value("speed", 3);
    entity.add_module(sprite(2));
    assert_eq!(entity.name, "Entity");
    assert_eq!(entity.id, 9);
    assert_eq!((entity.val1, entity.val2), (5, -6));
    assert_eq!(entity.vals, vec![("speed".to_string(), 3)]);
    assert_eq!(entity.modules, Some(vec![controls(), sprite(2)]));
}

#[test]
fn add_module_works_on_a_present_but_empty_list() {
    let mut entity = Entity::new("Entity");
    entity.modules = Some(Vec::new());
    entity.add_module(controls());
    assert_eq!(entity.modules, Some(vec![controls()]));
}

#[test]
fn add_value_appends_and_never_merges() {
    let mut entity = Entity::new("Entity");
    entity.add_value("speed", 3);
    entity.add_value("size", 1);
    entity.add_value("speed", 9);
    assert_eq!(
        entity.vals,
        vec![("speed".to_string(), 3), ("size".to_string(), 1), ("speed".to_string(), 9)]
    );
    assert!(entity.modules.is_none());
    assert_eq!((entity.val1, entity.val2), (0, 0));
}

#[test]
fn value_finds_the_first_pair_of_a_name() {
    let mut entity = Entity::new("Entity");
    assert_eq!(entity.value("speed"), None);
    entity.add_value("speed", 3);
    entity.add_value("speed", 9);
    entity.add_value("size", -1);
    assert_eq!(entity.value("speed"), Some(3));
    assert_eq!(entity.value("size"), Some(-1));
    assert_eq!(entity.value("Speed"), None);
}

#[test]
fn ordering_scenario() {
    let mut entity = new_entity("Player", vec![sprite(7), controls()]);
    assert_eq!((entity.val1, entity.val2), (0, 0));
    let draws = entity.update(RIGHT);
    assert_eq!(draws, vec![draw(7, 0, 0)]);
    assert_eq!((entity.val1, entity.val2), (1, 0));
}

#[test]
fn reordering_scenario() {
    let mut entity = new_entity("Player", vec![controls(), sprite(7)]);
    assert_eq!((entity.val1, entity.val2), (0, 0));
    let draws = entity.update(RIGHT);
    assert_eq!(draws, vec![draw(7, 1, 0)]);
    assert_eq!((entity.val1, entity.val2), (1, 0));
}

#[test]
fn a_sprite_before_controls_lags_one_tick_behind() {
    let mut entity = new_entity("Player", vec![sprite(7), controls()]);
    assert_eq!(entity.update(RIGHT), vec![draw(7, 0, 0)]);
    assert_eq!(entity.update(RIGHT), vec![draw(7, 1, 0)]);
    assert_eq!(entity.update(NONE), vec![draw(7, 2, 0)]);
    assert_eq!(entity.update(NONE), vec![draw(7, 2, 0)]);
}

#[test]
fn sprites_on_both_sides_of_controls_see_different_accumulators() {
    let mut entity = new_entity("Player", vec![sprite(1), controls(), sprite(2), controls(), sprite(3)]);
    assert_eq!(entity.update(LEFT), vec![draw(1, 0, 0), draw(2, -1, 0), draw(3, -2, 0)]);
    assert_eq!(entity.update(LEFT), vec![draw(1, -2, 0), draw(2, -3, 0), draw(3, -4, 0)]);
}

#[test]
fn up_lowers_the_vertical_accumulator_and_down_raises_it() {
    let mut entity = new_entity("Player", vec![controls(), sprite(1)]);
    assert_eq!(entity.update(UP), vec![draw(1, 0, -1)]);
    assert_eq!((entity.val1, entity.val2), (0, -1));
    assert_eq!(entity.update(DOWN), vec![draw(1, 0, 0)]);
    assert_eq!(entity.update(DOWN), vec![draw(1, 0, 1)]);
    assert_eq!((entity.val1, entity.val2), (0, 1));
}

#[test]
fn controls_hold_the_reading_of_the_tick() {
    let mut entity = new_entity("Player", vec![controls(), position(0, 0), controls()]);
    entity.update(Keys { up: true, left: true, down: false, right: false });
    let reading = Module::Controls(Input { x_value: -1, y_value: 1 });
    assert_eq!(entity.modules, Some(vec![reading, position(-1, -1), reading]));
    assert_eq!((entity.val1, entity.val2), (-2, -2));
    entity.update(NONE);
    let rest = Module::Controls(Input { x_value: 0, y_value: 0 });
    assert_eq!(entity.modules, Some(vec![rest, position(-3, -3), rest]));
    assert_eq!((entity.val1, entity.val2), (-2, -2));
}

#[test]
fn a_position_gains_the_accumulators_on_every_tick() {
    let mut entity = new_entity("Player", vec![controls(), position(10, 20)]);
    assert!(entity.update(RIGHT).is_empty());
    assert_eq!(entity.modules, Some(vec![Module::Controls(Input { x_value: 1, y_value: 0 }), position(11, 20)]));
    entity.update(RIGHT);
    assert_eq!(modules_of(&entity)[1], position(13, 20));
    entity.update(NONE);
    assert_eq!(modules_of(&entity)[1], position(15, 20));
    assert_eq!((entity.val1, entity.val2), (2, 0));
}

#[test]
fn a_position_before_controls_gains_the_accumulators_of_the_tick_before() {
    let mut entity = new_entity("Player", vec![position(0, 0), controls()]);
    entity.update(RIGHT);
    assert_eq!(modules_of(&entity)[0], position(0, 0));
    entity.update(RIGHT);
    assert_eq!(modules_of(&entity)[0], position(1, 0));
}

#[test]
fn a_position_alone_at_rest_stays_where_it_is() {
    let mut entity = new_entity("Rock", vec![position(3, -4)]);
    for held in [NONE, RIGHT, UP, LEFT, DOWN, NONE] {
        let draws = entity.update(held);
        assert!(draws.is_empty());
        assert_eq!(entity.modules, Some(vec![position(3, -4)]));
        assert_eq!((entity.val1, entity.val2), (0, 0));
        assert_eq!(entity.name, "Rock");
        assert!(entity.vals.is_empty());
    }
}

#[test]
fn a_position_moves_once_the_accumulators_are_set() {
    let mut entity = new_entity("Drifter", vec![position(3, -4)]);
    entity.val1 = 2;
    entity.val2 = -1;
    entity.update(NONE);
    entity.update(NONE);
    assert_eq!(entity.modules, Some(vec![position(7, -6)]));
    assert_eq!((entity.val1, entity.val2), (2, -1));
}

#[test]
fn an_entity_without_modules_is_left_alone() {
    let mut absent = Entity::with_id("Nobody", 4, Vec::new());
    absent.val1 = 8;
    absent.add_value("ctrl_x", 2);
    assert!(absent.update(RIGHT).is_empty());
    assert!(absent.modules.is_none());
    assert_eq!((absent.val1, absent.val2), (8, 0));
    assert_eq!(absent.vals, vec![("ctrl_x".to_string(), 2)]);
    assert_eq!(absent.id, 4);

    let mut empty = Entity::new("Nobody");
    empty.modules = Some(Vec::new());
    assert!(empty.update(RIGHT).is_empty());
    assert_eq!(empty.modules, Some(Vec::new()));
}

#[test]
fn a_sprite_changes_no_state() {
    let mut entity = new_entity("Still", vec![sprite(1), sprite(2)]);
    entity.val1 = 4;
    entity.val2 = 5;
    entity.add_value("speed", 3);
    assert_eq!(entity.update(RIGHT), vec![draw(1, 4, 5), draw(2, 4, 5)]);
    assert_eq!(entity.modules, Some(vec![sprite(1), sprite(2)]));
    assert_eq!((entity.val1, entity.val2), (4, 5));
    assert_eq!(entity.vals, vec![("speed".to_string(), 3)]);
}

#[test]
fn every_draw_call_is_tinted_opaque_white() {
    let mut entity = new_entity("Player", vec![sprite(1), controls(), sprite(2)]);
    entity.add_value("ctrl_x", 3);
    for call in entity.update(RIGHT) {
        assert_eq!(call.tint, Tint { r: 255, g: 255, b: 255, a: 255 });
        assert_eq!(call.tint, Tint::white());
    }
}

#[test]
fn the_empty_texture_is_drawn_like_any_other() {
    let mut entity = new_entity("Ghost", vec![Module::Sprite(Texture::default())]);
    assert_eq!(
        entity.update(NONE),
        vec![DrawCall { texture: Texture { texture: None }, x: 0, y: 0, tint: WHITE }]
    );
}

#[test]
fn the_side_table_places_a_sprite_where_it_names_a_coordinate() {
    let mut entity = new_entity("Pinned", vec![sprite(1)]);
    entity.val1 = 4;
    entity.val2 = 5;
    entity.add_value("ctrl_x", 40);
    assert_eq!(entity.update(NONE), vec![draw(1, 40, 5)]);
    entity.add_value("ctrl_y", 50);
    assert_eq!(entity.update(NONE), vec![draw(1, 40, 50)]);
}

#[test]
fn the_first_of_two_named_coordinates_places_the_sprite() {
    let mut entity = new_entity("Pinned", vec![sprite(1)]);
    entity.add_value("ctrl_x", 40);
    entity.add_value("ctrl_x", 41);
    entity.add_value("ctrl_y", 50);
    entity.add_value("ctrl_y", 51);
    assert_eq!(entity.update(RIGHT), vec![draw(1, 40, 50)]);
}

#[test]
fn controls_publish_the_reading_to_the_side_table() {
    let mut entity = new_entity("Player", vec![sprite(1), controls(), sprite(2)]);
    entity.add_value("ctrl_x", 40);
    entity.add_value("speed", 3);
    entity.add_value("ctrl_y", 50);
    entity.add_value("ctrl_x", 41);
    let held = Keys { up: true, left: false, down: false, right: true };
    assert_eq!(entity.update(held), vec![draw(1, 40, 50), draw(2, 1, 1)]);
    assert_eq!(
        entity.vals,
        vec![
            ("ctrl_x".to_string(), 1),
            ("speed".to_string(), 3),
            ("ctrl_y".to_string(), 1),
            ("ctrl_x".to_string(), 1),
        ]
    );
    assert_eq!((entity.val1, entity.val2), (1, -1));
    assert_eq!(entity.update(NONE), vec![draw(1, 1, 1), draw(2, 0, 0)]);
}

#[test]
fn controls_add_no_pair_to_the_side_table() {
    let mut entity = new_entity("Player", vec![controls()]);
    entity.update(RIGHT);
    assert!(entity.vals.is_empty());
    entity.add_value("ctrl_x", 9);
    entity.update(RIGHT);
    assert_eq!(entity.vals, vec![("ctrl_x".to_string(), 1)]);
    assert_eq!(entity.value("ctrl_y"), None);
}

#[test]
fn accumulators_stop_at_the_ends_of_the_range() {
    let mut entity = new_entity("Far", vec![controls(), sprite(1)]);
    entity.val1 = i64::MAX;
    entity.val2 = i64::MIN;
    assert_eq!(entity.update(Keys { up: true, left: false, down: false, right: true }), vec![draw(1, i64::MAX, i64::MIN)]);
    assert_eq!((entity.val1, entity.val2), (i64::MAX, i64::MIN));
    entity.update(Keys { up: false, left: true, down: true, right: false });
    assert_eq!((entity.val1, entity.val2), (i64::MAX - 1, i64::MIN + 1));
}

#[test]
fn positions_stop_at_the_ends_of_the_range() {
    let mut entity = new_entity("Far", vec![position(i64::MAX - 1, i64::MIN + 1)]);
    entity.val1 = 2;
    entity.val2 = -2;
    entity.update(NONE);
    assert_eq!(entity.modules, Some(vec![position(i64::MAX, i64::MIN)]));
    entity.update(NONE);
    assert_eq!(entity.modules, Some(vec![position(i64::MAX, i64::MIN)]));
}

#[test]
fn update_keeps_name_and_identifier() {
    let mut entity = Entity::with_id("Player", 77, vec![controls(), sprite(1), position(0, 0)]);
    entity.update(RIGHT);
    entity.update(UP);
    assert_eq!(entity.name, "Player");
    assert_eq!(entity.id, 77);
    assert_eq!(modules_of(&entity).len(), 3);
}
