use pizzatopia::components::editor::{EditorCursorState, EditorState, TileLayer};
use pizzatopia::components::game::SerializedObject;
use pizzatopia::components::graphics::SpriteSheetType;
use pizzatopia::events::Events;
use pizzatopia::states::editor::{Editor, EditorCommand};
use pizzatopia::states::Trans;
use pizzatopia::systems::editor::{
    CursorInfo, CursorPositionSystem, CursorStep, CursorSizeSystem, CursorStateSystem, EditorButtonEventSystem,
    EditorButtonPresses, EditorEventHandlingSystem, EditorEvents, EditorKeys, NO_BLOCK,
};
use pizzatopia::utils::{AxisSign, EnumCycle, Vec2Bits};

fn v(x: f32, y: f32) -> Vec2Bits {
    Vec2Bits { x: x.to_bits(), y: y.to_bits() }
}

fn no_keys() -> EditorButtonPresses {
    EditorButtonPresses {
        layer_axis: AxisSign::Zero,
        save: false,
        load: false,
        cancel: false,
        accept: false,
        insert: false,
        start: false,
        one: false,
        two: false,
    }
}

fn cursor(state: EditorCursorState, x: f32, block: Option<u32>) -> CursorInfo {
    CursorInfo { state, position: v(x, 0.0), previous_block: block }
}

#[test]
fn blocked_editor_keys_raise_nothing() {
    let mut keys = no_keys();
    keys.save = true;
    keys.load = true;
    keys.cancel = true;
    let (editor, game) = EditorButtonEventSystem::frame_events(true, EditorState::EditMode, keys);
    assert!(editor.is_empty());
    assert!(game.is_empty());
}

#[test]
fn edit_mode_keys() {
    let mut keys = no_keys();
    keys.layer_axis = AxisSign::Negative;
    keys.save = true;
    keys.cancel = true;
    keys.accept = true;
    let (editor, game) = EditorButtonEventSystem::frame_events(false, EditorState::EditMode, keys);
    assert_eq!(
        editor,
        vec![EditorEvents::CycleActiveLayer(false), EditorEvents::SaveLevelToFile, EditorEvents::RemoveGameObject]
    );
    assert!(game.is_empty());

    let mut keys = no_keys();
    keys.start = true;
    keys.load = true;
    let (editor, game) = EditorButtonEventSystem::frame_events(false, EditorState::EditMode, keys);
    assert!(editor.is_empty());
    assert_eq!(game, vec![Events::LoadLevel, Events::OpenFilePickerUi]);
}

#[test]
fn insert_and_edit_mode_keys() {
    let mut keys = no_keys();
    keys.two = true;
    let (editor, _) = EditorButtonEventSystem::frame_events(false, EditorState::InsertMode, keys);
    assert_eq!(editor, vec![EditorEvents::ChangeInsertionGameObject(1)]);
    keys.accept = true;
    let (editor, _) = EditorButtonEventSystem::frame_events(false, EditorState::InsertMode, keys);
    assert_eq!(editor, vec![EditorEvents::AddGameObject]);
    let (editor, game) = EditorButtonEventSystem::frame_events(false, EditorState::EditGameObject, keys);
    assert_eq!(editor, vec![EditorEvents::AddGameObject, EditorEvents::ChangeState(EditorState::EditMode)]);
    assert!(game.is_empty());
}

#[test]
fn adding_places_the_object_at_each_free_cursor() {
    let cursors = vec![cursor(EditorCursorState::Normal, 64.0, None)];
    let out = EditorEventHandlingSystem::handle(
        EditorState::InsertMode,
        TileLayer::Middle,
        SerializedObject::default(),
        &vec![EditorEvents::AddGameObject, EditorEvents::SaveLevelToFile],
        &cursors,
    );
    assert_eq!(out.events, vec![Events::AddGameObject, Events::SaveLevel]);
    assert_eq!(out.insertion.pos, Some(v(64.0, 0.0)));
    assert_eq!(out.state, EditorState::InsertMode);
}

#[test]
fn a_cursor_on_an_object_cancels_the_rest_of_the_frame() {
    let cursors = vec![cursor(EditorCursorState::Error, 64.0, Some(5))];
    let out = EditorEventHandlingSystem::handle(
        EditorState::InsertMode,
        TileLayer::Middle,
        SerializedObject::default(),
        &vec![EditorEvents::AddGameObject, EditorEvents::ChangeState(EditorState::EditMode)],
        &cursors,
    );
    assert!(out.events.is_empty());
    assert_eq!(out.state, EditorState::InsertMode);
    assert_eq!(out.insertion, SerializedObject::default());
}

#[test]
fn removing_and_picking_up_objects() {
    let cursors = vec![cursor(EditorCursorState::Normal, 0.0, Some(9))];
    let out = EditorEventHandlingSystem::handle(
        EditorState::EditMode,
        TileLayer::Middle,
        SerializedObject::default(),
        &vec![EditorEvents::RemoveGameObject],
        &cursors,
    );
    assert_eq!(out.events, vec![Events::DeleteGameObject(9)]);

    let out = EditorEventHandlingSystem::handle(
        EditorState::EditMode,
        TileLayer::Middle,
        SerializedObject::default(),
        &vec![EditorEvents::ChangeState(EditorState::EditGameObject)],
        &cursors,
    );
    assert_eq!(out.events, vec![Events::EntityToInsertionGameObject(9), Events::DeleteGameObject(9)]);
    assert_eq!(out.state, EditorState::EditGameObject);

    // Nothing under the cursor: no pick-up, the mode stays.
    let empty = vec![cursor(EditorCursorState::Normal, 0.0, None)];
    let out = EditorEventHandlingSystem::handle(
        EditorState::EditMode,
        TileLayer::Middle,
        SerializedObject::default(),
        &vec![EditorEvents::ChangeState(EditorState::EditGameObject)],
        &empty,
    );
    assert!(out.events.is_empty());
    assert_eq!(out.state, EditorState::EditMode);
}

#[test]
fn entering_insert_mode_snaps_each_cursor() {
    let cursors = vec![cursor(EditorCursorState::Normal, 0.0, None), cursor(EditorCursorState::Normal, 1.0, None)];
    let out = EditorEventHandlingSystem::handle(
        EditorState::EditMode,
        TileLayer::Back,
        SerializedObject::default(),
        &vec![EditorEvents::ChangeState(EditorState::InsertMode), EditorEvents::CycleActiveLayer(true)],
        &cursors,
    );
    assert_eq!(out.state, EditorState::InsertMode);
    assert_eq!(out.snap_rounds, 1);
    assert_eq!(out.active_layer, TileLayer::Middle);
}

#[test]
fn layers_cycle_both_ways() {
    assert_eq!(TileLayer::Middle.next(), TileLayer::Front);
    assert_eq!(TileLayer::Front.next(), TileLayer::Back);
    assert_eq!(TileLayer::Back.next(), TileLayer::Middle);
    for layer in [TileLayer::Middle, TileLayer::Front, TileLayer::Back] {
        assert_eq!(layer.next().prev(), layer);
        assert_eq!(layer.prev().next(), layer);
    }
    assert_eq!(TileLayer::Middle.prev(), TileLayer::Back);
    assert_eq!(f32::from_bits(TileLayer::Middle.to_z_offset()), 0.0);
    assert_eq!(f32::from_bits(TileLayer::Front.to_z_offset()), 5.0);
    assert_eq!(f32::from_bits(TileLayer::Back.to_z_offset()), -5.0);
}

#[test]
fn sprite_sheets_cycle_both_ways() {
    let all = [
        SpriteSheetType::Tiles,
        SpriteSheetType::Didi,
        SpriteSheetType::Snap,
        SpriteSheetType::Ui,
        SpriteSheetType::Animation,
        SpriteSheetType::RollingHillsBg,
    ];
    for (i, sheet) in all.iter().enumerate() {
        assert_eq!(sheet.next(), all[(i + 1) % all.len()]);
        assert_eq!(sheet.next().prev(), *sheet);
        assert_eq!(sheet.number() as usize, i);
        assert_eq!(SpriteSheetType::from_number(i), *sheet);
    }
}

#[test]
fn cursor_state_flags_overlaps_outside_edit_mode() {
    assert_eq!(CursorStateSystem::cursor_state(EditorState::EditMode, true), EditorCursorState::Normal);
    assert_eq!(CursorStateSystem::cursor_state(EditorState::InsertMode, true), EditorCursorState::Error);
    assert_eq!(CursorStateSystem::cursor_state(EditorState::EditGameObject, false), EditorCursorState::Normal);
}

#[test]
fn cursor_steps_follow_the_axis_sign() {
    assert_eq!(CursorPositionSystem::step(0.7f32.to_bits(), false), CursorStep::Positive);
    assert_eq!(CursorPositionSystem::step((-0.2f32).to_bits(), false), CursorStep::Negative);
    assert_eq!(CursorPositionSystem::step(0.0f32.to_bits(), false), CursorStep::Zero);
    assert_eq!(CursorPositionSystem::step((-0.0f32).to_bits(), false), CursorStep::Zero);
    assert_eq!(CursorPositionSystem::step(0.7f32.to_bits(), true), CursorStep::Zero);
    assert_eq!(CursorPositionSystem::step(f32::NAN.to_bits(), false), CursorStep::NotANumber);
    assert_eq!(CursorPositionSystem::step(f32::NAN.to_bits(), true), CursorStep::Zero);
}

#[test]
fn cursor_steps_on_over_the_block_it_left() {
    assert!(CursorPositionSystem::steps_on(Some(4), Some(4), true));
    assert!(!CursorPositionSystem::steps_on(Some(4), Some(4), false));
    assert!(!CursorPositionSystem::steps_on(Some(4), Some(5), true));
    assert!(!CursorPositionSystem::steps_on(None, Some(4), true));
    assert!(CursorPositionSystem::steps_on(None, Some(NO_BLOCK), true));
    assert!(!CursorPositionSystem::steps_on(Some(4), None, true));
    assert!(CursorPositionSystem::hovers_object(EditorState::EditMode, Some(2)));
    assert!(!CursorPositionSystem::hovers_object(EditorState::InsertMode, Some(2)));
    assert!(!CursorPositionSystem::hovers_object(EditorState::EditMode, None));
}

#[test]
fn cursor_takes_the_size_of_what_it_is_on_or_holds() {
    let big = v(256.0, 128.0);
    assert_eq!(CursorSizeSystem::cursor_size(EditorState::EditMode, Some(1), Some(big), None), Some(big));
    assert_eq!(CursorSizeSystem::cursor_size(EditorState::EditMode, Some(1), None, None), None);
    assert_eq!(CursorSizeSystem::cursor_size(EditorState::EditMode, None, None, Some(big)), Some(v(64.0, 64.0)));
    assert_eq!(CursorSizeSystem::cursor_size(EditorState::InsertMode, Some(1), None, Some(big)), Some(big));
    assert_eq!(
        CursorSizeSystem::cursor_size(EditorState::EditGameObject, None, None, None),
        Some(v(128.0, 128.0))
    );
}

#[test]
fn editor_window_keys() {
    assert_eq!(Editor::window_event(true, true), Trans::Quit);
    assert_eq!(Editor::window_event(false, true), Trans::Pop);
    assert_eq!(Editor::window_event(false, false), Trans::Stay);
}

#[test]
fn editor_application_events() {
    assert_eq!(Editor::app_event(Events::AddGameObject), (EditorCommand::AddInsertionObject, Trans::Stay));
    assert_eq!(Editor::app_event(Events::DeleteGameObject(3)), (EditorCommand::DeleteObject(3), Trans::Stay));
    assert_eq!(Editor::app_event(Events::SaveLevel), (EditorCommand::SaveLevel, Trans::Stay));
    assert_eq!(Editor::app_event(Events::LoadLevel), (EditorCommand::Nothing, Trans::ReloadLevel));
    assert_eq!(
        Editor::app_event(Events::ChangeInsertionGameObject(1)),
        (EditorCommand::SetInsertion(SerializedObject::for_insertion(1)), Trans::Stay)
    );
    assert_eq!(
        Editor::app_event(Events::EntityToInsertionGameObject(8)),
        (EditorCommand::InsertionFromEntity(8), Trans::Stay)
    );
    assert_eq!(Editor::app_event(Events::OpenFilePickerUi), (EditorCommand::OpenFilePicker, Trans::Stay));
    assert_eq!(Editor::app_event(Events::Reset), (EditorCommand::Nothing, Trans::Stay));
    assert_eq!(Editor::app_event(Events::HoverGameObject), (EditorCommand::Nothing, Trans::Stay));
}

fn all_keys(modifier1: bool, modifier2: bool) -> EditorKeys {
    EditorKeys {
        modifier1,
        modifier2,
        vertical: AxisSign::Negative,
        save: true,
        load: true,
        cancel: true,
        accept: true,
        insert: true,
        start: true,
        one: true,
        two: true,
    }
}

#[test]
fn editor_keys_without_a_modifier() {
    let p = EditorButtonEventSystem::presses(all_keys(false, false));
    assert_eq!(p.layer_axis, AxisSign::Zero);
    assert!(p.save && p.load && p.cancel && p.accept && p.insert && p.start && p.one && p.two);
}

#[test]
fn editor_modifiers_hold_back_the_mode_keys() {
    let p = EditorButtonEventSystem::presses(all_keys(true, false));
    assert_eq!(p.layer_axis, AxisSign::Zero);
    assert!(p.save && p.load);
    assert!(!p.cancel && !p.accept && !p.insert && !p.start && !p.one && !p.two);
    let p = EditorButtonEventSystem::presses(all_keys(false, true));
    // The second modifier turns the vertical axis into a layer change.
    assert_eq!(p.layer_axis, AxisSign::Negative);
    assert!(p.save && p.load);
    assert!(!p.cancel && !p.accept && !p.insert && !p.start && !p.one && !p.two);
    let (editor, game) = EditorButtonEventSystem::frame_events(false, EditorState::EditMode, p);
    assert_eq!(editor, vec![EditorEvents::CycleActiveLayer(false), EditorEvents::SaveLevelToFile]);
    assert_eq!(game, vec![Events::LoadLevel]);
}
