use pizzatopia::components::editor::EditorState;
use pizzatopia::components::game::{AnimatedTile, Player, SerializedObject, SerializedObjectType, SpriteRenderData};
use pizzatopia::components::graphics::SpriteSheetType;
use pizzatopia::ui::current_actions::{ActionPackage, ActionRegion, ActionSlot, CurrentActionsUi, EditorActions};
use pizzatopia::ui::file_picker::{
    FilePickerButton, FilePickerButtonType, FilePickerFilename, FilePickerUi, FilePickerUiIndex, LabelHighlight,
    ITEMS_PER_COLUMN,
};
use pizzatopia::ui::tile_characteristics::{
    EditorButton, EditorButtonType, EditorFieldUiComponents, UiIndex, START_ID,
};
use pizzatopia::ui::{UiLayer, UiStack};
use pizzatopia::utils::AxisSign;

fn picker(n: u32) -> FilePickerUi {
    FilePickerUi::new((0..n).map(|i| 100 + i).collect(), 999)
}

fn actions() -> CurrentActionsUi {
    CurrentActionsUi::new((0..10u32).map(|i| ActionPackage::new(2 * i, 2 * i + 1)).collect())
}

fn panel() -> EditorFieldUiComponents {
    EditorFieldUiComponents::new(vec![1, 2], vec![3], vec![4, 5])
}

#[test]
fn file_picker_constructors() {
    let f = FilePickerFilename::new(String::from("level.ron"), String::from("assets/levels/level.ron"));
    assert_eq!(f.filename, "level.ron");
    assert_eq!(f.full_path, "assets/levels/level.ron");
    let b = FilePickerButton::new(FilePickerButtonType::EditableLabel, 3);
    assert_eq!(b.file_picker_button_type, FilePickerButtonType::EditableLabel);
    assert_eq!(b.id, 3);
    assert_eq!(FilePickerButtonType::default(), FilePickerButtonType::Label);
}

#[test]
fn file_picker_navigation_stays_on_the_names() {
    let mut index = FilePickerUiIndex { index: 0, selected_index: None, max_index: 20, items_per_column: ITEMS_PER_COLUMN };
    index.navigate(AxisSign::Zero, AxisSign::Positive);
    assert_eq!(index.index, 0);
    index.navigate(AxisSign::Zero, AxisSign::Negative);
    assert_eq!(index.index, 1);
    index.navigate(AxisSign::Positive, AxisSign::Zero);
    assert_eq!(index.index, 16);
    // A column further would pass the last name.
    index.navigate(AxisSign::Positive, AxisSign::Zero);
    assert_eq!(index.index, 16);
    index.navigate(AxisSign::Negative, AxisSign::Zero);
    assert_eq!(index.index, 1);
    index.navigate(AxisSign::Negative, AxisSign::Zero);
    assert_eq!(index.index, 1);
    let mut last = FilePickerUiIndex { index: 20, selected_index: Some(2), max_index: 20, items_per_column: 15 };
    last.navigate(AxisSign::Zero, AxisSign::Negative);
    assert_eq!(last.index, 20);
    assert_eq!(last.selected_index, Some(2));
}

#[test]
fn file_picker_clicks_and_keys() {
    let mut ui = picker(3);
    assert!(ui.blocks_all_other_input());
    assert!(!ui.should_destroy());
    assert_eq!(ui.handle_click(&FilePickerButton::new(FilePickerButtonType::Label, 2)), Some((102, 999)));
    assert_eq!(ui.ui_index.selected_index, Some(2));
    assert_eq!(ui.label_highlight(2), LabelHighlight::Selected);
    assert_eq!(ui.label_highlight(0), LabelHighlight::Highlighted);
    assert_eq!(ui.label_highlight(1), LabelHighlight::Plain);
    assert_eq!(ui.handle_click(&FilePickerButton::new(FilePickerButtonType::EditableLabel, 0)), None);
    assert_eq!(ui.ui_index.selected_index, None);

    // Down then accept clicks the second name.
    let r = ui.handle_input(false, false, AxisSign::Zero, AxisSign::Negative, true, false, &None, &mut name());
    assert_eq!(r, Some((101, 999)));
    assert_eq!(ui.label_highlight(1), LabelHighlight::SelectedAndHighlighted);
    // While the editable name has the keyboard, only start counts.
    let r = ui.handle_input(false, true, AxisSign::Zero, AxisSign::Negative, true, true, &None, &mut name());
    assert_eq!(r, None);
    assert_eq!(ui.ui_index.index, 1);
    assert!(!ui.should_destroy());
    ui.handle_input(false, false, AxisSign::Zero, AxisSign::Zero, false, true, &None, &mut name());
    assert!(ui.should_destroy());

    let mut other = picker(2);
    other.hover_start(&FilePickerButton::new(FilePickerButtonType::Label, 1));
    assert_eq!(other.ui_index.index, 1);
    other.handle_input(true, true, AxisSign::Zero, AxisSign::Zero, false, false, &None, &mut name());
    assert!(other.should_destroy());
}

#[test]
fn file_picker_removes_its_labels_then_the_name() {
    let ui = picker(2);
    assert_eq!(ui.entities_to_remove(vec![7]), vec![7, 100, 101, 999]);
}

#[test]
fn panel_clicks_change_the_object() {
    let mut ui = panel();
    let mut object = SerializedObject::default();
    ui.handle_click(&EditorButton::new(EditorButtonType::RightArrow, 2), &mut object, 8);
    assert_eq!(ui.ui_index, UiIndex { index: 2, active: true });
    assert_eq!(object.sprite, Some(SpriteRenderData::new(SpriteSheetType::Didi, 0)));
    ui.handle_click(&EditorButton::new(EditorButtonType::LeftArrow, 2), &mut object, 8);
    ui.handle_click(&EditorButton::new(EditorButtonType::LeftArrow, 2), &mut object, 8);
    assert_eq!(object.sprite, Some(SpriteRenderData::new(SpriteSheetType::RollingHillsBg, 0)));

    let mut object = SerializedObject::default();
    ui.handle_click(&EditorButton::new(EditorButtonType::LeftArrow, 3), &mut object, 3);
    assert_eq!(object.sprite.unwrap().number, 0);
    ui.handle_click(&EditorButton::new(EditorButtonType::RightArrow, 3), &mut object, 3);
    ui.handle_click(&EditorButton::new(EditorButtonType::RightArrow, 3), &mut object, 3);
    ui.handle_click(&EditorButton::new(EditorButtonType::RightArrow, 3), &mut object, 3);
    assert_eq!(object.sprite.unwrap().number, 2);

    // Turning the animation on, then counting frames within the sheet.
    let mut object = SerializedObject::default();
    object.sprite = Some(SpriteRenderData::new(SpriteSheetType::Tiles, 5));
    ui.handle_click(&EditorButton::new(EditorButtonType::RightArrow, START_ID), &mut object, 8);
    assert_eq!(
        object.object_type,
        SerializedObjectType::StaticTile { animation: Some(AnimatedTile { num_frames: 0, time_per_frame: 0 }) }
    );
    for _ in 0..5 {
        ui.handle_click(&EditorButton::new(EditorButtonType::RightArrow, START_ID + 1), &mut object, 8);
    }
    match object.object_type {
        SerializedObjectType::StaticTile { animation: Some(a) } => assert_eq!(a.num_frames, 2),
        _ => panic!("animation lost"),
    }
    ui.handle_click(&EditorButton::new(EditorButtonType::LeftArrow, START_ID), &mut object, 8);
    assert_eq!(object.object_type, SerializedObjectType::StaticTile { animation: None });

    // A character's player control toggles; a label click changes nothing.
    let mut object = SerializedObject::for_insertion(1);
    ui.handle_click(&EditorButton::new(EditorButtonType::RightArrow, START_ID), &mut object, 8);
    assert_eq!(object.object_type, SerializedObjectType::Player { is_player: Player(true) });
    let before = object;
    ui.handle_click(&EditorButton::new(EditorButtonType::Label, START_ID), &mut object, 8);
    assert_eq!(object, before);
}

#[test]
fn panel_keys_move_and_click() {
    let mut ui = panel();
    let mut object = SerializedObject::default();
    // Edit mode: ignored.
    ui.handle_input(EditorState::EditMode, true, false, AxisSign::Positive, AxisSign::Negative, &mut object, 8);
    assert_eq!(ui.ui_index, UiIndex { index: 0, active: false });
    // Down three rows, then the right arrow of row 3 steps the sprite.
    for _ in 0..3 {
        ui.handle_input(EditorState::InsertMode, true, false, AxisSign::Zero, AxisSign::Negative, &mut object, 8);
    }
    assert_eq!(ui.ui_index, UiIndex { index: 3, active: true });
    ui.handle_input(EditorState::InsertMode, true, false, AxisSign::Positive, AxisSign::Zero, &mut object, 8);
    assert_eq!(object.sprite.unwrap().number, 1);
    ui.handle_input(EditorState::InsertMode, false, true, AxisSign::Positive, AxisSign::Zero, &mut object, 8);
    assert_eq!(ui.ui_index, UiIndex { index: 3, active: false });
    assert_eq!(object.sprite.unwrap().number, 1);
    ui.hover_start(&EditorButton::new(EditorButtonType::Label, 6));
    assert_eq!(ui.ui_index, UiIndex { index: 6, active: true });
    ui.limit_index(EditorFieldUiComponents::property_rows(&object));
    assert_eq!(ui.ui_index.index, 4);
    ui.hover_stop();
    assert!(!ui.ui_index.active);
}

#[test]
fn panel_rows_and_capture() {
    let tile = SerializedObject::default();
    assert_eq!(EditorFieldUiComponents::property_rows(&tile), 5);
    let mut animated = tile;
    animated.object_type = SerializedObjectType::StaticTile { animation: Some(AnimatedTile::default()) };
    assert_eq!(EditorFieldUiComponents::property_rows(&animated), 7);
    assert_eq!(EditorFieldUiComponents::property_rows(&SerializedObject::for_insertion(1)), 5);
    assert!(!EditorFieldUiComponents::should_capture_input(EditorState::EditMode));
    assert!(EditorFieldUiComponents::should_capture_input(EditorState::InsertMode));
    assert_eq!(panel().entities_to_remove(vec![]), vec![1, 2, 3, 4, 5]);
    assert_eq!(EditorButtonType::default(), EditorButtonType::Label);
}

#[test]
fn offered_actions_follow_the_mode() {
    let mut ui = actions();
    ui.hover_game_object();
    ui.update(EditorState::EditMode);
    assert!(!ui.hover_game_object);
    let shown: Vec<bool> = ui.labels.iter().map(|p| p.show).collect();
    // Play, insert, edit object, delete, save, choose file.
    assert_eq!(shown, vec![true, true, false, true, false, true, false, false, true, true]);
    ui.update(EditorState::EditMode);
    let shown: Vec<bool> = ui.labels.iter().map(|p| p.show).collect();
    assert_eq!(shown, vec![true, true, false, false, false, false, false, false, true, true]);
    ui.update_component_visibility(EditorState::InsertMode);
    let shown: Vec<bool> = ui.labels.iter().map(|p| p.show).collect();
    assert_eq!(shown, vec![true, false, true, false, false, false, true, true, true, true]);
    assert!(EditorActions::from_position(9) == EditorActions::ChooseSaveFile);
    assert!(EditorActions::EnterPlayMode.is_visible(EditorState::EditGameObject, false));
}

#[test]
fn offered_actions_get_their_places() {
    let mut ui = actions();
    ui.update(EditorState::InsertMode);
    let layout = ui.layout();
    let bottom = |i: usize| Some(ActionSlot { region: ActionRegion::BottomLeft, index: i });
    assert_eq!(
        layout,
        vec![
            bottom(0),
            None,
            bottom(1),
            None,
            None,
            None,
            bottom(2),
            bottom(3),
            Some(ActionSlot { region: ActionRegion::TopMiddle, index: 0 }),
            Some(ActionSlot { region: ActionRegion::TopRight, index: 0 }),
        ]
    );
    assert_eq!(EditorActions::EnterPlayMode.button_text(), "LCTRL");
    assert_eq!(EditorActions::SaveLevel.button_text(), "INSERT");
    assert_eq!(EditorActions::ChooseSaveFile.button_text(), "ENTER");
    assert_eq!(EditorActions::InsertModeTile.button_text(), "");
}

#[test]
fn offered_actions_remove_key_then_label() {
    let ui = actions();
    let removed = ui.entities_to_remove(vec![42]);
    assert_eq!(removed.len(), 21);
    assert_eq!(removed[0], 42);
    assert_eq!(&removed[1..5], &[0, 1, 2, 3]);
}

fn stack_with_picker(done: bool) -> UiStack {
    let mut stack = UiStack::new();
    stack.stack.push(UiLayer::CurrentActions(actions()));
    stack.stack.push(UiLayer::TileCharacteristics(panel()));
    let mut p = picker(2);
    if done {
        p.handle_input(true, false, AxisSign::Zero, AxisSign::Zero, false, false, &None, &mut name());
    }
    stack.stack.push(UiLayer::FilePicker(p));
    stack
}

#[test]
fn ui_stack_routes_events() {
    let mut stack = UiStack::new();
    assert!(!stack.is_blocking_all_input());
    assert!(stack.receivers(EditorState::EditMode).is_empty());
    stack.stack.push(UiLayer::CurrentActions(actions()));
    stack.stack.push(UiLayer::TileCharacteristics(panel()));
    assert!(matches!(stack.top(), UiLayer::CurrentActions(_)));
    assert!(!stack.is_blocking_all_input());
    assert_eq!(stack.receivers(EditorState::EditMode), vec![0]);
    assert_eq!(stack.receivers(EditorState::InsertMode), vec![0, 1]);

    let stack = stack_with_picker(false);
    assert!(stack.is_blocking_all_input());
    assert_eq!(stack.receivers(EditorState::InsertMode), vec![0, 1, 2]);

    // A picker at the bottom of the stack keeps the events from the others.
    let mut stack = UiStack::new();
    stack.stack.push(UiLayer::FilePicker(picker(1)));
    stack.stack.push(UiLayer::CurrentActions(actions()));
    assert_eq!(stack.receivers(EditorState::InsertMode), vec![0]);
}

#[test]
fn ui_stack_drops_finished_interfaces() {
    let mut stack = stack_with_picker(false);
    assert!(stack.remove_destroyed().is_empty());
    assert_eq!(stack.stack.len(), 3);

    let mut stack = stack_with_picker(true);
    let removed = stack.remove_destroyed();
    assert_eq!(removed, vec![100, 101, 999]);
    assert_eq!(stack.stack.len(), 2);
    assert!(!stack.is_blocking_all_input());
    assert!(stack.stack.iter().all(|l| !l.should_destroy()));
    assert!(stack.stack[1].should_capture_input(EditorState::InsertMode));
    assert!(!stack.stack[1].should_capture_input(EditorState::EditMode));
    assert_eq!(stack.stack[1].entities_to_remove(vec![]), vec![1, 2, 3, 4, 5]);
}

fn name() -> FilePickerFilename {
    FilePickerFilename::new(String::from("old.ron"), String::from("levels/old.ron"))
}

#[test]
fn file_picker_start_keeps_the_typed_name() {
    let mut ui = picker(2);
    let mut chosen = name();
    ui.handle_input(false, false, AxisSign::Zero, AxisSign::Zero, false, false, &Some(String::from("new.ron")), &mut chosen);
    assert_eq!(chosen.filename, "old.ron");
    // Cancel closes without taking the typed name.
    ui.handle_input(false, false, AxisSign::Zero, AxisSign::Zero, false, true, &Some(String::from("new.ron")), &mut chosen);
    assert!(ui.should_destroy());
    assert_eq!(chosen.filename, "old.ron");
    let mut ui = picker(2);
    ui.handle_input(true, true, AxisSign::Zero, AxisSign::Zero, false, false, &Some(String::from("new.ron")), &mut chosen);
    assert!(ui.should_destroy());
    assert_eq!(chosen.filename, "new.ron");
    assert_eq!(chosen.full_path, "levels/old.ron");
    let mut ui = picker(2);
    ui.handle_input(true, false, AxisSign::Zero, AxisSign::Zero, false, false, &None, &mut chosen);
    assert_eq!(chosen.filename, "new.ron");
}
