use pizzatopia::components::editor::EditorState;
use pizzatopia::components::game::{AnimatedTile, SerializedObject, SpriteRenderData, Team};
use pizzatopia::components::graphics::SpriteSheetType;
use pizzatopia::components::physics::GravityDirection;
use pizzatopia::events::{Events, PlayerEvent};
use pizzatopia::states::load_level::LoadLevelState;
use pizzatopia::states::loading::LoadingState;
use pizzatopia::states::pizzatopia::{GameCommand, Pizzatopia};
use pizzatopia::states::{Completion, Trans};
use pizzatopia::systems::console::{ConsoleCommand, ConsoleInputSystem, REVIVE_HEALTH};
use pizzatopia::systems::graphics::{AnimatedTileSystem, CursorSpriteUpdateSystem, SpriteUpdateSystem, CURSOR_SPRITE};
use pizzatopia::systems::input::{InputManager, COOLDOWN_DELAY, REPEAT_DELAY};
use pizzatopia::systems::physics::CollisionDirection;
use pizzatopia::systems::player::{
    PlayerBody, PlayerCommands, PlayerInputSystem, PlayerKeys, DUCKING_MOVEMENT_BITS, JUMP_VELOCITY_BITS,
    MOVEMENT_BITS,
};
use pizzatopia::utils::{AxisSign, Vec2Bits};

fn v(x: f32, y: f32) -> Vec2Bits {
    Vec2Bits { x: x.to_bits(), y: y.to_bits() }
}

fn names(list: &[&str]) -> Vec<String> {
    list.iter().map(|s| s.to_string()).collect()
}

#[test]
fn game_input_counts_frames_held() {
    let mut input = InputManager::new(&names(&["jump", "horizontal"]));
    assert!(!input.is_action_down("jump"));
    assert!(input.record_frame(&vec![(String::from("jump"), None, Some(true)), (String::from("horizontal"), Some(0.5f32.to_bits()), None)]));
    assert_eq!(input.frame_counter, 1);
    assert!(input.is_action_down("jump"));
    assert!(input.is_action_down("horizontal"));
    assert_eq!(f32::from_bits(input.axis_value("horizontal")), 0.5);
    // First frame of a press: a repeat and a single press, whatever the clock says.
    assert!(input.repeat_press_after("jump", 0, REPEAT_DELAY, 2));
    assert!(input.is_action_single_press("jump"));
    assert_eq!(f32::from_bits(input.axis_repeat_press("horizontal", REPEAT_DELAY, 2)), 0.5);

    assert!(input.record_frame(&vec![(String::from("jump"), None, Some(true)), (String::from("horizontal"), Some((-0.0f32).to_bits()), None)]));
    assert!(!input.is_action_down("horizontal"));
    // Held: repeats only after the delay, on frames that are multiples of the period.
    assert!(!input.repeat_press_after("jump", 0, REPEAT_DELAY, 2));
    assert!(input.repeat_press_after("jump", 300, REPEAT_DELAY, 2));
    assert!(!input.repeat_press_after("jump", 300, REPEAT_DELAY, 3));
    assert!(!input.repeat_press_after("jump", 300, REPEAT_DELAY, 0));
    assert!(input.cooldown_press_after("jump", COOLDOWN_DELAY, COOLDOWN_DELAY));
    assert!(!input.cooldown_press_after("jump", 10, COOLDOWN_DELAY));
    assert!(input.is_valid_cooldown_press("jump", 0));
    assert!(!input.is_valid_cooldown_press("horizontal", 0));
    assert!(!input.is_valid_repeat_press("horizontal", 0, 1));

    assert!(input.record_frame(&vec![(String::from("jump"), None, None)]));
    assert!(!input.is_action_down("jump"));
    assert!(!input.repeat_press_after("jump", 1000, 0, 1));
    // Unknown inputs are never down.
    assert!(!input.is_action_down("fire"));
    assert_eq!(input.axis_value("fire"), 0);
    // A frame that names an unknown input is refused.
    assert!(!input.record_frame(&vec![(String::from("fire"), None, Some(true))]));
}

#[test]
fn console_first_word() {
    assert_eq!(ConsoleInputSystem::first_word("  revive now"), "revive");
    assert_eq!(ConsoleInputSystem::first_word("\treset\n"), "reset");
    assert_eq!(ConsoleInputSystem::first_word("\u{3000}warp 1 2"), "warp");
    assert_eq!(ConsoleInputSystem::first_word("   "), "");
    assert_eq!(ConsoleInputSystem::first_word(""), "");
}

#[test]
fn console_commands() {
    assert_eq!(ConsoleInputSystem::parse_command("reset"), Some(ConsoleCommand::Reset));
    assert_eq!(
        ConsoleInputSystem::parse_command(" revive please"),
        Some(ConsoleCommand::Player(PlayerEvent::Revive(REVIVE_HEALTH)))
    );
    assert_eq!(ConsoleInputSystem::parse_command("resets"), None);
    assert_eq!(ConsoleInputSystem::parse_command("Reset"), None);
    assert_eq!(ConsoleInputSystem::frame_command(Some("reset"), false, true), Some(ConsoleCommand::Reset));
    assert_eq!(ConsoleInputSystem::frame_command(Some("hello"), true, true), None);
    assert_eq!(ConsoleInputSystem::frame_command(None, true, true), Some(ConsoleCommand::Reset));
    assert_eq!(
        ConsoleInputSystem::frame_command(None, false, true),
        Some(ConsoleCommand::Player(PlayerEvent::Revive(5)))
    );
    assert_eq!(ConsoleInputSystem::frame_command(None, false, false), None);
}

#[test]
fn game_state_keys_and_events() {
    let mut debug = false;
    assert_eq!(Pizzatopia::window_event(true, true, true, &mut debug), Trans::Quit);
    assert!(!debug);
    assert_eq!(Pizzatopia::window_event(false, true, true, &mut debug), Trans::PushEditor);
    assert!(!debug);
    assert_eq!(Pizzatopia::window_event(false, false, true, &mut debug), Trans::Stay);
    assert!(debug);
    assert_eq!(Pizzatopia::window_event(false, false, true, &mut debug), Trans::Stay);
    assert!(!debug);

    assert_eq!(Pizzatopia::app_event(Events::Reset), GameCommand::ResetLevel);
    let fire = Events::FireProjectile(v(1.0, 2.0), v(12.0, 0.0), Team::BadGuys);
    assert_eq!(Pizzatopia::app_event(fire), GameCommand::FireProjectile(v(1.0, 2.0), v(12.0, 0.0), Team::BadGuys));
    let boxed = Events::CreateDamageBox(Some(3), v(1.0, 2.0), v(3.0, 4.0), Team::GoodGuys);
    assert_eq!(
        Pizzatopia::app_event(boxed),
        GameCommand::CreateDamageBox(Some(3), v(1.0, 2.0), v(3.0, 4.0), Team::GoodGuys)
    );
    assert_eq!(Pizzatopia::app_event(Events::SaveLevel), GameCommand::Nothing);
    assert!(Pizzatopia::refreshes_fps(0));
    assert!(Pizzatopia::refreshes_fps(40));
    assert!(!Pizzatopia::refreshes_fps(41));
}

#[test]
fn loading_states_wait_for_their_assets() {
    assert_eq!(LoadLevelState::update(Completion::Loading), Trans::Stay);
    assert_eq!(LoadLevelState::update(Completion::Complete), Trans::SwitchToGame);
    assert_eq!(LoadLevelState::update(Completion::Failed), Trans::SwitchToGame);
    assert_eq!(LoadingState::update(false, Completion::Complete), Trans::Stay);
    assert_eq!(LoadingState::update(true, Completion::Loading), Trans::Stay);
    assert_eq!(LoadingState::update(true, Completion::Failed), Trans::SwitchToGame);
    assert_eq!(LoadingState::update(true, Completion::Complete), Trans::SwitchToGame);
}

#[test]
fn animated_tiles_cycle_through_their_frames() {
    assert_eq!(AnimatedTileSystem::next_sprite(3, 3, 2), 4);
    assert_eq!(AnimatedTileSystem::next_sprite(4, 3, 2), 5);
    assert_eq!(AnimatedTileSystem::next_sprite(5, 3, 2), 3);
    assert_eq!(AnimatedTileSystem::next_sprite(7, 7, 0), 7);
    let mut sprite = 10;
    for _ in 0..4 {
        sprite = AnimatedTileSystem::next_sprite(sprite, 10, 3);
    }
    assert_eq!(sprite, 10);
    assert_eq!(AnimatedTile::default().num_frames, 0);
}

#[test]
fn cursor_sprite_follows_the_editor_mode() {
    let mut object = SerializedObject::default();
    object.sprite = Some(SpriteRenderData::new(SpriteSheetType::Snap, 9));
    let before = object;
    assert_eq!(
        CursorSpriteUpdateSystem::cursor_sprite(EditorState::EditMode, &mut object, Some(4)),
        (SpriteSheetType::Tiles, Some(CURSOR_SPRITE))
    );
    assert_eq!(object, before);
    assert_eq!(
        CursorSpriteUpdateSystem::cursor_sprite(EditorState::InsertMode, &mut object, Some(4)),
        (SpriteSheetType::Snap, Some(3))
    );
    assert_eq!(object.sprite, Some(SpriteRenderData::new(SpriteSheetType::Snap, 3)));
    object.sprite = None;
    assert_eq!(
        CursorSpriteUpdateSystem::cursor_sprite(EditorState::EditGameObject, &mut object, None),
        (SpriteSheetType::Tiles, None)
    );
    assert_eq!(object.sprite, Some(SpriteRenderData::new(SpriteSheetType::Tiles, 0)));
}

#[test]
fn characters_are_drawn_as_they_move() {
    assert_eq!(SpriteUpdateSystem::player_sprite(true), 1);
    assert_eq!(SpriteUpdateSystem::player_sprite(false), 0);

    // Walking left on the floor, oriented left: mirrored.
    let u = SpriteUpdateSystem::update(&v(-3.0, 0.0), (-1.0f32).to_bits(), 2.0f32.to_bits(), None);
    assert_eq!(u.walk_rate, Some(3.0f32.to_bits()));
    assert_eq!(f32::from_bits(u.scale_x), -2.0);
    assert!(!u.leaves_ground);
    assert_eq!(u.quarter_turns, 0);

    // Standing still: no walk, the scale stays, even when oriented the other way.
    let u = SpriteUpdateSystem::update(&v(0.0, -1.0), 1.0f32.to_bits(), (-2.0f32).to_bits(), None);
    assert_eq!(u.walk_rate, None);
    assert_eq!(f32::from_bits(u.scale_x), -2.0);
    assert!(u.leaves_ground);

    // On a wall (gravity from the left) moving up: that is walking along its ground.
    let u = SpriteUpdateSystem::update(
        &v(0.0, 4.0),
        1.0f32.to_bits(),
        (-2.0f32).to_bits(),
        Some(GravityDirection(CollisionDirection::FromLeft)),
    );
    assert_eq!(u.walk_rate, Some(4.0f32.to_bits()));
    assert_eq!(f32::from_bits(u.scale_x), 2.0);
    assert!(!u.leaves_ground);
    assert_eq!(u.quarter_turns, 1);
    let u = SpriteUpdateSystem::update(&v(0.0, 0.0), 1.0f32.to_bits(), 1.0f32.to_bits(), Some(GravityDirection(CollisionDirection::FromRight)));
    assert_eq!(u.quarter_turns, 3);
    let u = SpriteUpdateSystem::update(&v(0.0, 0.0), 1.0f32.to_bits(), 1.0f32.to_bits(), Some(GravityDirection(CollisionDirection::FromBottom)));
    assert_eq!(u.quarter_turns, 2);
}

fn keys() -> PlayerKeys {
    PlayerKeys { jump: false, jump_released: false, slow_motion: false, attack: false }
}

fn body() -> PlayerBody {
    PlayerBody {
        health: 3,
        intent_x: 0.0f32.to_bits(),
        attacking: false,
        has_orientation: true,
        on_ground: true,
        ducking: false,
        has_gravity: true,
    }
}

#[test]
fn player_constants() {
    assert_eq!(MOVEMENT_BITS, 0.3f32.to_bits());
    assert_eq!(DUCKING_MOVEMENT_BITS, (0.3f32 * 0.5).to_bits());
    assert_eq!(JUMP_VELOCITY_BITS, 13.0f32.to_bits());
}

#[test]
fn dead_players_do_nothing() {
    let mut b = body();
    b.health = 0;
    let mut k = keys();
    k.jump = true;
    assert_eq!(PlayerInputSystem::commands(k, b), None);
}

#[test]
fn player_commands() {
    let mut k = keys();
    k.jump = true;
    k.attack = true;
    k.slow_motion = true;
    let mut b = body();
    b.intent_x = (-0.8f32).to_bits();
    assert_eq!(
        PlayerInputSystem::commands(k, b),
        Some(PlayerCommands {
            start_attack: true,
            facing_right: Some(false),
            slow_motion: true,
            jump: true,
            movement: MOVEMENT_BITS,
            ground_bonus: AxisSign::Positive,
            writes_velocity: true,
        })
    );
    // In the air, ducking, mid-attack, no horizontal input, no gravity.
    b.on_ground = false;
    b.ducking = true;
    b.attacking = true;
    b.intent_x = (-0.0f32).to_bits();
    b.has_gravity = false;
    let c = PlayerInputSystem::commands(k, b).unwrap();
    assert!(!c.start_attack);
    assert_eq!(c.facing_right, None);
    assert!(!c.jump);
    assert_eq!(c.movement, DUCKING_MOVEMENT_BITS);
    assert_eq!(c.ground_bonus, AxisSign::Zero);
    assert!(!c.writes_velocity);
    b.on_ground = true;
    b.intent_x = 0.5f32.to_bits();
    let c = PlayerInputSystem::commands(k, b).unwrap();
    assert_eq!(c.ground_bonus, AxisSign::Negative);
    assert_eq!(c.facing_right, Some(true));
    b.has_orientation = false;
    assert_eq!(PlayerInputSystem::commands(k, b).unwrap().facing_right, None);
}

#[test]
fn letting_go_of_jump_cuts_the_rise() {
    assert!(PlayerInputSystem::cuts_jump(true, 5.0f32.to_bits()));
    assert!(!PlayerInputSystem::cuts_jump(false, 5.0f32.to_bits()));
    assert!(!PlayerInputSystem::cuts_jump(true, 0.0f32.to_bits()));
    assert!(!PlayerInputSystem::cuts_jump(true, (-2.0f32).to_bits()));
    assert!(!PlayerInputSystem::cuts_jump(true, f32::NAN.to_bits()));
}
