//! Tests for the game engine: construction, placement, removal, and the
//! update pass.

use lockwars::cooldown::Cooldown;
use lockwars::game::Builder;
use lockwars::game::BuildError;
use lockwars::game::Cell;
use lockwars::game::Game;
use lockwars::game::GameError;
use lockwars::game::Settings;
use lockwars::object::Object;
use lockwars::object::ObjectKind;
use lockwars::object::OwnedObject;
use lockwars::player::Blueprint;
use lockwars::player::BlueprintKind;
use lockwars::player::Data;
use lockwars::player::Placement;
use lockwars::player::Player;
use lockwars::player::Players;

fn sample_settings() -> Settings {
    Settings { n_columns: 6, n_rows: 7, base_span: 2..5, max_keys: 1000 }
}

/// A catalog with a key generator, a fire attacker, and a barrier, and the
/// given initial key count.
fn player_data(keys: u32) -> Data {
    Data {
        keys,
        placements: vec![
            Placement {
                cooldown: Cooldown::new(1, 0),
                cost: 20,
                blueprint: Blueprint {
                    kind: BlueprintKind::Key { generation: 10, duration: 1 },
                    max_health: 100,
                },
            },
            Placement {
                cooldown: Cooldown::new(1, 0),
                cost: 40,
                blueprint: Blueprint {
                    kind: BlueprintKind::Fire { damage: 20, duration: 1 },
                    max_health: 100,
                },
            },
            Placement {
                cooldown: Cooldown::new(1, 0),
                cost: 20,
                blueprint: Blueprint { kind: BlueprintKind::Barrier {}, max_health: 3600 },
            },
        ],
    }
}

fn sample_game(left_keys: u32, right_keys: u32) -> Game {
    Builder::new(sample_settings())
        .unwrap()
        .players(Players { left: player_data(left_keys), right: player_data(right_keys) })
        .finish()
        .unwrap()
}

fn barrier(health: u32, owner: Player) -> OwnedObject {
    OwnedObject {
        object: Object {
            kind: ObjectKind::Barrier {},
            health,
            max_health: health,
        },
        owner,
    }
}

fn index_of(settings: &Settings, row: usize, column: usize) -> usize {
    row * 2 * settings.n_columns + column
}

#[test]
fn construction_rejects_zero_columns() {
    let result = Builder::new(Settings { n_columns: 0, ..sample_settings() });
    assert!(matches!(result, Err(BuildError::NoColumns)));
}

#[test]
fn construction_rejects_zero_rows() {
    let result = Builder::new(Settings { n_rows: 0, ..sample_settings() });
    assert!(matches!(result, Err(BuildError::NoRows)));
}

#[test]
fn construction_rejects_empty_base_span() {
    let result = Builder::new(Settings { base_span: 3..3, ..sample_settings() });
    assert!(matches!(result, Err(BuildError::EmptyBaseSpan)));
}

#[test]
fn construction_rejects_base_span_past_the_rows() {
    let result = Builder::new(Settings { base_span: 2..8, ..sample_settings() });
    assert!(matches!(result, Err(BuildError::BaseSpanOutOfRange)));
}

#[test]
fn construction_rejects_unaddressable_board() {
    let result = Builder::new(Settings { n_columns: usize::MAX / 2 + 1, ..sample_settings() });
    assert!(matches!(result, Err(BuildError::TooManyCells)));
    let result = Builder::new(
        Settings { n_columns: 1, n_rows: usize::MAX, base_span: 0..1, ..sample_settings() },
    );
    assert!(matches!(result, Err(BuildError::TooManyCells)));
}

#[test]
fn construction_starts_with_an_empty_board() {
    let game = sample_game(200, 200);
    assert_eq!(game.cells().len(), 7 * 12);
    assert!(game.cells().iter().all(|cell| cell.object.is_none()));
}

#[test]
fn builder_rejects_preset_outside_the_board() {
    let builder = Builder::new(sample_settings()).unwrap();
    let result = builder.object((7, 0), barrier(100, Player::Left));
    assert!(matches!(result, Err(BuildError::PresetOutOfBounds)));
}

#[test]
fn builder_presets_an_object() {
    let game = Builder::new(sample_settings())
        .unwrap()
        .object((3, 0), barrier(100, Player::Left))
        .unwrap()
        .players(Players { left: player_data(0), right: player_data(0) })
        .finish()
        .unwrap();
    let cell = &game.cells()[index_of(game.settings(), 3, 0)];
    assert!(matches!(
        cell.object,
        Some(OwnedObject { object: Object { health: 100, .. }, owner: Player::Left })
    ));
}

#[test]
fn finish_requires_player_data() {
    let builder = Builder::new(sample_settings()).unwrap();
    assert!(matches!(builder.finish(), Err(BuildError::MissingPlayers)));
}

#[test]
fn place_object_spends_the_exact_key_count() {
    // Placement 0 costs 20; the player owns exactly 20 keys.
    let mut game = sample_game(20, 0);
    let placed = game.place_object(Player::Left, (3, 0), 0, 1000).unwrap();
    assert!(placed);
    assert_eq!(game.players().left.keys, 0);
    assert!(game.cells()[index_of(game.settings(), 3, 0)].object.is_some());
}

#[test]
fn place_object_fails_while_the_placement_cools_down() {
    let mut game = sample_game(200, 0);
    assert!(game.place_object(Player::Left, (3, 0), 0, 1000).unwrap());
    assert_eq!(game.players().left.keys, 180);
    // The placement's cooldown was just reset, so a second immediate
    // attempt fails and the keys stay untouched.
    let placed = game.place_object(Player::Left, (3, 1), 0, 1000).unwrap();
    assert!(!placed);
    assert_eq!(game.players().left.keys, 180);
    assert!(game.cells()[index_of(game.settings(), 3, 1)].object.is_none());
}

#[test]
fn place_object_with_too_few_keys_changes_nothing() {
    // Placement 0 costs 20; the player owns only 10 keys.
    let mut game = sample_game(10, 0);
    let placed = game.place_object(Player::Left, (3, 0), 0, 1000).unwrap();
    assert!(!placed);
    assert_eq!(game.players().left.keys, 10);
    assert!(game.cells()[index_of(game.settings(), 3, 0)].object.is_none());
    // The placement's cooldown was not consumed either.
    assert_eq!(game.players().left.placements[0].cooldown, Cooldown::new(1, 0));
}

#[test]
fn place_object_rejects_an_invalid_index() {
    let mut game = sample_game(200, 0);
    let placed = game.place_object(Player::Left, (3, 0), 3, 1000).unwrap();
    assert!(!placed);
    assert_eq!(game.players().left.keys, 200);
}

#[test]
fn place_object_out_of_bounds_is_a_hard_failure() {
    let mut game = sample_game(200, 0);
    let result = game.place_object(Player::Left, (7, 0), 0, 1000);
    assert_eq!(result, Err(GameError::OutOfBounds));
    assert_eq!(game.players().left.keys, 200);
}

#[test]
fn place_object_overwrites_the_previous_occupant() {
    let mut game = sample_game(200, 0);
    assert!(game.place_object(Player::Left, (3, 0), 0, 1000).unwrap());
    // Placement 2 is a barrier; after its cooldown recovers it replaces the
    // key object in the same cell.
    assert!(game.place_object(Player::Left, (3, 0), 2, 2000).unwrap());
    let cell = &game.cells()[index_of(game.settings(), 3, 0)];
    assert!(matches!(
        cell.object,
        Some(OwnedObject {
            object: Object { kind: ObjectKind::Barrier {}, health: 3600, .. },
            owner: Player::Left,
        })
    ));
}

#[test]
fn placed_objects_start_with_a_not_ready_cooldown() {
    let data = player_data(0);
    let object = data.placements[0].generate_object(500);
    assert_eq!(object.health, 100);
    assert_eq!(object.max_health, 100);
    match object.kind {
        ObjectKind::Key { generation, cooldown } => {
            assert_eq!(generation, 10);
            assert!(!cooldown.is_over(500));
            assert!(cooldown.is_over(501));
        }
        _ => panic!("placement 0 must produce a key object"),
    }
}

#[test]
fn clear_cell_removes_the_object() {
    let mut game = sample_game(200, 0);
    assert!(game.place_object(Player::Left, (3, 0), 0, 1000).unwrap());
    game.clear_cell(Player::Left, (3, 0)).unwrap();
    assert!(game.cells()[index_of(game.settings(), 3, 0)].object.is_none());
}

#[test]
fn clear_cell_on_an_empty_cell_is_idempotent() {
    let mut game = sample_game(200, 0);
    assert!(game.clear_cell(Player::Left, (3, 0)).is_ok());
    assert!(game.cells()[index_of(game.settings(), 3, 0)].object.is_none());
    assert!(game.clear_cell(Player::Left, (3, 0)).is_ok());
    assert!(game.cells().iter().all(|cell| cell.object.is_none()));
    assert_eq!(game.players().left.keys, 200);
}

#[test]
fn clear_cell_out_of_bounds_is_a_hard_failure() {
    let mut game = sample_game(200, 0);
    assert_eq!(game.clear_cell(Player::Left, (0, 12)), Err(GameError::OutOfBounds));
}

#[test]
fn receive_damage_below_health_reduces_it() {
    let mut cell = Cell { object: Some(barrier(11, Player::Right)) };
    cell.receive_damage(10);
    match cell.object {
        Some(owned) => assert_eq!(owned.object.health, 1),
        None => panic!("the object must survive with one health"),
    }
}

#[test]
fn receive_damage_reaching_health_removes_the_object() {
    let mut cell = Cell { object: Some(barrier(10, Player::Right)) };
    cell.receive_damage(10);
    assert!(cell.object.is_none());
}

#[test]
fn receive_damage_on_an_empty_cell_does_nothing() {
    let mut cell = Cell::empty();
    cell.receive_damage(10);
    assert!(cell.object.is_none());
}

#[test]
fn update_generates_keys_clamped_at_max_keys() {
    // A key generator worth 10 keys, an owner at 10 keys, and a cap of 15:
    // one firing brings the owner to 15, not 20.
    let settings = Settings { max_keys: 15, ..sample_settings() };
    let generator = OwnedObject {
        object: Object {
            kind: ObjectKind::Key { generation: 10, cooldown: Cooldown::new(1, 0) },
            health: 100,
            max_health: 100,
        },
        owner: Player::Left,
    };
    let mut game = Builder::new(settings)
        .unwrap()
        .object((3, 0), generator)
        .unwrap()
        .players(Players { left: player_data(10), right: player_data(0) })
        .finish()
        .unwrap();
    game.update(1000).unwrap();
    assert_eq!(game.players().left.keys, 15);
    assert_eq!(game.players().right.keys, 0);
}

#[test]
fn update_does_not_generate_before_the_cooldown_fires() {
    let generator = OwnedObject {
        object: Object {
            kind: ObjectKind::Key { generation: 10, cooldown: Cooldown::new(500, 0) },
            health: 100,
            max_health: 100,
        },
        owner: Player::Left,
    };
    let mut game = Builder::new(sample_settings())
        .unwrap()
        .object((3, 0), generator)
        .unwrap()
        .players(Players { left: player_data(10), right: player_data(0) })
        .finish()
        .unwrap();
    game.update(100).unwrap();
    assert_eq!(game.players().left.keys, 10);
    game.update(500).unwrap();
    assert_eq!(game.players().left.keys, 20);
}

fn fire(damage: u32, owner: Player) -> OwnedObject {
    OwnedObject {
        object: Object {
            kind: ObjectKind::Fire { damage, cooldown: Cooldown::new(1, 0) },
            health: 100,
            max_health: 100,
        },
        owner,
    }
}

#[test]
fn update_damages_the_target_nearest_the_division_line() {
    // A left-owned fire in row 3; two right-owned objects in the same row,
    // one near the division line (column 6) and one far (column 9). Only
    // the near one is hit.
    let mut game = Builder::new(sample_settings())
        .unwrap()
        .object((3, 2), fire(5, Player::Left))
        .unwrap()
        .object((3, 6), barrier(100, Player::Right))
        .unwrap()
        .object((3, 9), barrier(100, Player::Right))
        .unwrap()
        .players(Players { left: player_data(0), right: player_data(0) })
        .finish()
        .unwrap();
    game.update(1000).unwrap();
    let near = &game.cells()[index_of(game.settings(), 3, 6)];
    let far = &game.cells()[index_of(game.settings(), 3, 9)];
    assert_eq!(near.object.unwrap().object.health, 95);
    assert_eq!(far.object.unwrap().object.health, 100);
}

#[test]
fn update_lets_fire_destroy_a_weak_target() {
    let mut game = Builder::new(sample_settings())
        .unwrap()
        .object((3, 2), fire(200, Player::Left))
        .unwrap()
        .object((3, 7), barrier(100, Player::Right))
        .unwrap()
        .players(Players { left: player_data(0), right: player_data(0) })
        .finish()
        .unwrap();
    game.update(1000).unwrap();
    assert!(game.cells()[index_of(game.settings(), 3, 7)].object.is_none());
}

#[test]
fn update_with_no_target_changes_no_other_cell() {
    let mut game = Builder::new(sample_settings())
        .unwrap()
        .object((3, 2), fire(5, Player::Left))
        .unwrap()
        .object((4, 6), barrier(100, Player::Right))
        .unwrap()
        .players(Players { left: player_data(0), right: player_data(0) })
        .finish()
        .unwrap();
    // The barrier sits in another row, so the fire finds no target.
    game.update(1000).unwrap();
    let bystander = &game.cells()[index_of(game.settings(), 4, 6)];
    assert_eq!(bystander.object.unwrap().object.health, 100);
}

#[test]
fn update_scans_right_to_left_for_a_right_owned_fire() {
    // A right-owned fire targets the left half, scanning from the division
    // line (column 5) toward column 0.
    let mut game = Builder::new(sample_settings())
        .unwrap()
        .object((2, 8), fire(7, Player::Right))
        .unwrap()
        .object((2, 5), barrier(50, Player::Left))
        .unwrap()
        .object((2, 1), barrier(50, Player::Left))
        .unwrap()
        .players(Players { left: player_data(0), right: player_data(0) })
        .finish()
        .unwrap();
    game.update(1000).unwrap();
    let near = &game.cells()[index_of(game.settings(), 2, 5)];
    let far = &game.cells()[index_of(game.settings(), 2, 1)];
    assert_eq!(near.object.unwrap().object.health, 43);
    assert_eq!(far.object.unwrap().object.health, 50);
}

#[test]
fn cell_accessor_checks_bounds() {
    let game = sample_game(0, 0);
    assert!(game.cell((6, 11)).is_some());
    assert!(game.cell((7, 0)).is_none());
    assert!(game.cell((0, 12)).is_none());
}
