//! The level editor's decisions: which editor events the keys raise in each
//! mode, and what those events do to the editor's state.
use vstd::prelude::*;

use crate::components::editor::{EditorCursorState, EditorState, TileLayer};
use crate::components::game::SerializedObject;
use crate::events::Events;
use crate::input::{INFINITY_BITS, MAGNITUDE_MASK};
use crate::systems::physics::{is_zero, SIGN_BIT};
use crate::ui::tile_characteristics::EditorButton;
use crate::utils::{AxisSign, EnumCycle, Vec2Bits, TILE_SIZE_BITS};

verus! {

/// Events raised in the editor.
#[derive(Clone, Copy, Debug, PartialEq, Eq, Structural)]
pub enum EditorEvents {
    AddGameObject,
    RemoveGameObject,
    SaveLevelToFile,
    ChangeInsertionGameObject(u8),
    SetInsertionGameObject(SerializedObject),
    ChangeState(EditorState),
    UiClick(EditorButton),
    /// Forward (`true`) or back through the tile layers.
    CycleActiveLayer(bool),
}

/// The keys read by the editor on a frame, each as a single press; the mode
/// keys are only counted when no editor modifier is held.
#[derive(Clone, Copy, Debug, PartialEq, Eq, Structural)]
pub struct EditorButtonPresses {
    /// The vertical axis with the second modifier held.
    pub layer_axis: AxisSign,
    pub save: bool,
    pub load: bool,
    pub cancel: bool,
    pub accept: bool,
    pub insert: bool,
    pub start: bool,
    pub one: bool,
    pub two: bool,
}

/// The editor's keys as read on a frame: whether each editor modifier is
/// held, the direction of the vertical axis's single press, and the single
/// presses of the other keys, before any modifier is taken into account.
#[derive(Clone, Copy, Debug, PartialEq, Eq, Structural)]
pub struct EditorKeys {
    pub modifier1: bool,
    pub modifier2: bool,
    pub vertical: AxisSign,
    pub save: bool,
    pub load: bool,
    pub cancel: bool,
    pub accept: bool,
    pub insert: bool,
    pub start: bool,
    pub one: bool,
    pub two: bool,
}

/// Turns the editor's key presses into editor and game events.
pub struct EditorButtonEventSystem;

impl EditorButtonEventSystem {
    /// The presses the editor acts on: the vertical axis changes the layer
    /// only with the second modifier held, saving and loading take no notice
    /// of the modifiers, and the mode keys count only while no editor modifier
    /// is held.
    pub open spec fn spec_presses(k: EditorKeys) -> EditorButtonPresses {
        let free = !k.modifier1 && !k.modifier2;
        EditorButtonPresses {
            layer_axis: if k.modifier2 {
                k.vertical
            } else {
                AxisSign::Zero
            },
            save: k.save,
            load: k.load,
            cancel: free && k.cancel,
            accept: free && k.accept,
            insert: free && k.insert,
            start: free && k.start,
            one: free && k.one,
            two: free && k.two,
        }
    }

    /// See `spec_presses`.
    pub fn presses(k: EditorKeys) -> (r: EditorButtonPresses)
        ensures
            r == Self::spec_presses(k),
    {
        let free = !k.modifier1 && !k.modifier2;
        EditorButtonPresses {
            layer_axis: if k.modifier2 {
                k.vertical
            } else {
                AxisSign::Zero
            },
            save: k.save,
            load: k.load,
            cancel: free && k.cancel,
            accept: free && k.accept,
            insert: free && k.insert,
            start: free && k.start,
            one: free && k.one,
            two: free && k.two,
        }
    }

    /// The editor events a frame raises: a layer change for the vertical axis
    /// with the second modifier, a save, then the mode's action: in edit mode
    /// `cancel` removes the object under the cursor, `accept` starts editing it,
    /// `insert` enters insert mode; in insert mode `cancel` goes back to edit
    /// mode, `accept` adds the object, `1` and `2` pick a tile or a character; while
    /// editing an object `cancel` goes back and `accept` puts it down and goes back.
    /// Nothing while a user interface holds all input.
    pub open spec fn spec_editor_events(blocked: bool, state: EditorState, p: EditorButtonPresses) -> Seq<EditorEvents> {
        if blocked {
            Seq::empty()
        } else {
            let layer = if p.layer_axis == AxisSign::Zero {
                Seq::empty()
            } else {
                seq![EditorEvents::CycleActiveLayer(p.layer_axis == AxisSign::Positive)]
            };
            let save = if p.save {
                seq![EditorEvents::SaveLevelToFile]
            } else {
                Seq::empty()
            };
            let mode = match state {
                EditorState::EditMode => if p.cancel {
                    seq![EditorEvents::RemoveGameObject]
                } else if p.accept {
                    seq![EditorEvents::ChangeState(EditorState::EditGameObject)]
                } else if p.insert {
                    seq![EditorEvents::ChangeState(EditorState::InsertMode)]
                } else {
                    Seq::empty()
                },
                EditorState::InsertMode => if p.cancel {
                    seq![EditorEvents::ChangeState(EditorState::EditMode)]
                } else if p.accept {
                    seq![EditorEvents::AddGameObject]
                } else if p.one {
                    seq![EditorEvents::ChangeInsertionGameObject(0)]
                } else if p.two {
                    seq![EditorEvents::ChangeInsertionGameObject(1)]
                } else {
                    Seq::empty()
                },
                EditorState::EditGameObject => if p.cancel {
                    seq![EditorEvents::ChangeState(EditorState::EditMode)]
                } else if p.accept {
                    seq![EditorEvents::AddGameObject, EditorEvents::ChangeState(EditorState::EditMode)]
                } else {
                    Seq::empty()
                },
            };
            layer + save + mode
        }
    }

    /// The game events a frame raises: loading a level, and in edit mode, when
    /// no other mode key is pressed, opening the file picker with `start`.
    pub open spec fn spec_game_events(blocked: bool, state: EditorState, p: EditorButtonPresses) -> Seq<Events> {
        if blocked {
            Seq::empty()
        } else {
            (if p.load {
                seq![Events::LoadLevel]
            } else {
                Seq::empty()
            }) + (if state == EditorState::EditMode && !p.cancel && !p.accept && !p.insert && p.start {
                seq![Events::OpenFilePickerUi]
            } else {
                Seq::empty()
            })
        }
    }

    /// The editor events and the game events of a frame, each in the order raised.
    pub fn frame_events(blocked: bool, state: EditorState, p: EditorButtonPresses) -> (r: (Vec<EditorEvents>, Vec<Events>))
        ensures
            r.0@ == Self::spec_editor_events(blocked, state, p),
            r.1@ == Self::spec_game_events(blocked, state, p),
    {
        let mut editor_events: Vec<EditorEvents> = Vec::new();
        let mut global_events: Vec<Events> = Vec::new();
        if blocked {
            proof {
                assert(editor_events@ =~= Self::spec_editor_events(blocked, state, p));
                assert(global_events@ =~= Self::spec_game_events(blocked, state, p));
            }
            return (editor_events, global_events);
        }
        match p.layer_axis {
            AxisSign::Zero => {},
            AxisSign::Positive => editor_events.push(EditorEvents::CycleActiveLayer(true)),
            AxisSign::Negative => editor_events.push(EditorEvents::CycleActiveLayer(false)),
        }
        if p.save {
            editor_events.push(EditorEvents::SaveLevelToFile);
        }
        if p.load {
            global_events.push(Events::LoadLevel);
        }
        match state {
            EditorState::EditMode => {
                if p.cancel {
                    editor_events.push(EditorEvents::RemoveGameObject);
                } else if p.accept {
                    editor_events.push(EditorEvents::ChangeState(EditorState::EditGameObject));
                } else if p.insert {
                    editor_events.push(EditorEvents::ChangeState(EditorState::InsertMode));
                } else if p.start {
                    global_events.push(Events::OpenFilePickerUi);
                }
            },
            EditorState::InsertMode => {
                if p.cancel {
                    editor_events.push(EditorEvents::ChangeState(EditorState::EditMode));
                } else if p.accept {
                    editor_events.push(EditorEvents::AddGameObject);
                } else if p.one {
                    editor_events.push(EditorEvents::ChangeInsertionGameObject(0));
                } else if p.two {
                    editor_events.push(EditorEvents::ChangeInsertionGameObject(1));
                }
            },
            EditorState::EditGameObject => {
                if p.cancel {
                    editor_events.push(EditorEvents::ChangeState(EditorState::EditMode));
                } else if p.accept {
                    editor_events.push(EditorEvents::AddGameObject);
                    editor_events.push(EditorEvents::ChangeState(EditorState::EditMode));
                }
            },
        }
        proof {
            assert(editor_events@ =~= Self::spec_editor_events(blocked, state, p));
            assert(global_events@ =~= Self::spec_game_events(blocked, state, p));
        }
        (editor_events, global_events)
    }
}

/// What the editor's event handling reads of a cursor.
#[derive(Clone, Copy, Debug, PartialEq, Eq, Structural)]
pub struct CursorInfo {
    pub state: EditorCursorState,
    pub position: Vec2Bits,
    /// The object the cursor was in, by id.
    pub previous_block: Option<u32>,
}

/// The editor state that its events change, and the game events they raise.
pub struct EditorHandlerState {
    pub state: EditorState,
    pub active_layer: TileLayer,
    pub insertion: SerializedObject,
    /// An event failed; the rest of the frame's events are skipped.
    pub cancelled: bool,
    pub events: Seq<Events>,
    /// Times every cursor is to be moved onto the insertion grid.
    pub snap_rounds: nat,
}

/// Adding an object: each cursor in a free spot puts the object where it is
/// and raises an addition; a cursor on an occupied spot cancels the rest.
pub open spec fn add_at_cursors(h: EditorHandlerState, cursors: Seq<CursorInfo>) -> EditorHandlerState
    decreases cursors.len(),
{
    if cursors.len() == 0 {
        h
    } else {
        let h1 = add_at_cursors(h, cursors.drop_last());
        let c = cursors.last();
        match c.state {
            EditorCursorState::Normal => EditorHandlerState {
                insertion: SerializedObject { pos: Some(c.position), ..h1.insertion },
                events: h1.events.push(Events::AddGameObject),
                ..h1
            },
            EditorCursorState::Error => EditorHandlerState { cancelled: true, ..h1 },
        }
    }
}

/// Removing: each cursor in an object raises its deletion.
pub open spec fn remove_at_cursors(events: Seq<Events>, cursors: Seq<CursorInfo>) -> Seq<Events>
    decreases cursors.len(),
{
    if cursors.len() == 0 {
        events
    } else {
        let e1 = remove_at_cursors(events, cursors.drop_last());
        match cursors.last().previous_block {
            Some(id) => e1.push(Events::DeleteGameObject(id)),
            None => e1,
        }
    }
}

/// Picking up objects to edit: each cursor in an object turns it into the
/// object to insert and deletes it; a cursor in none stops the change of mode.
pub open spec fn pick_up_at_cursors(events: Seq<Events>, change: bool, cursors: Seq<CursorInfo>) -> (Seq<Events>, bool)
    decreases cursors.len(),
{
    if cursors.len() == 0 {
        (events, change)
    } else {
        let (e1, c1) = pick_up_at_cursors(events, change, cursors.drop_last());
        match cursors.last().previous_block {
            Some(id) => (e1.push(Events::EntityToInsertionGameObject(id)).push(Events::DeleteGameObject(id)), c1),
            None => (e1, false),
        }
    }
}

/// The editor after one event, unless an earlier one was cancelled.
pub open spec fn apply_editor_event(h: EditorHandlerState, e: EditorEvents, cursors: Seq<CursorInfo>) -> EditorHandlerState {
    if h.cancelled {
        h
    } else {
        match e {
            EditorEvents::AddGameObject => add_at_cursors(h, cursors),
            EditorEvents::RemoveGameObject => EditorHandlerState { events: remove_at_cursors(h.events, cursors), ..h },
            EditorEvents::SaveLevelToFile => EditorHandlerState { events: h.events.push(Events::SaveLevel), ..h },
            EditorEvents::ChangeInsertionGameObject(id) => EditorHandlerState {
                events: h.events.push(Events::ChangeInsertionGameObject(id)),
                ..h
            },
            EditorEvents::SetInsertionGameObject(o) => EditorHandlerState {
                events: h.events.push(Events::SetInsertionGameObject(o)),
                ..h
            },
            EditorEvents::ChangeState(new_state) => match new_state {
                EditorState::EditGameObject => {
                    let (events, change) = pick_up_at_cursors(h.events, true, cursors);
                    EditorHandlerState { events, state: if change { new_state } else { h.state }, ..h }
                },
                EditorState::InsertMode => EditorHandlerState {
                    state: new_state,
                    snap_rounds: h.snap_rounds + 1,
                    ..h
                },
                EditorState::EditMode => EditorHandlerState { state: new_state, ..h },
            },
            EditorEvents::UiClick(_) => h,
            EditorEvents::CycleActiveLayer(forward) => EditorHandlerState {
                active_layer: if forward { h.active_layer.cycle_next() } else { h.active_layer.cycle_prev() },
                ..h
            },
        }
    }
}

/// The editor after a frame's events, in order.
pub open spec fn handle_events(h: EditorHandlerState, events: Seq<EditorEvents>, cursors: Seq<CursorInfo>) -> EditorHandlerState
    decreases events.len(),
{
    if events.len() == 0 {
        h
    } else {
        apply_editor_event(handle_events(h, events.drop_last(), cursors), events.last(), cursors)
    }
}

/// What the editor's event handling changed on a frame.
pub struct EditorEventOutcome {
    pub state: EditorState,
    pub active_layer: TileLayer,
    pub insertion: SerializedObject,
    /// Game events to raise, in order.
    pub events: Vec<Events>,
    /// Times every cursor is to be moved onto the insertion grid.
    pub snap_rounds: usize,
}

/// Applies the editor's events to its state.
pub struct EditorEventHandlingSystem;

impl EditorEventHandlingSystem {
    /// Handles a frame's editor events in order, given the cursors.
    pub fn handle(
        state: EditorState,
        active_layer: TileLayer,
        insertion: SerializedObject,
        editor_events: &Vec<EditorEvents>,
        cursors: &Vec<CursorInfo>,
    ) -> (r: EditorEventOutcome)
        ensures
            ({
                let h = handle_events(
                    EditorHandlerState { state, active_layer, insertion, cancelled: false, events: Seq::empty(), snap_rounds: 0 },
                    editor_events@,
                    cursors@,
                );
                &&& r.state == h.state
                &&& r.active_layer == h.active_layer
                &&& r.insertion == h.insertion
                &&& r.events@ == h.events
                &&& r.snap_rounds == h.snap_rounds
            }),
    {
        let ghost h0 = EditorHandlerState { state, active_layer, insertion, cancelled: false, events: Seq::empty(), snap_rounds: 0 };
        let mut state = state;
        let mut active_layer = active_layer;
        let mut insertion = insertion;
        let mut cancel_others = false;
        let mut events: Vec<Events> = Vec::new();
        let mut snap_rounds: usize = 0;
        let mut i: usize = 0;
        while i < editor_events.len()
            invariant
                i <= editor_events.len(),
                snap_rounds <= i,
                ({
                    let h = handle_events(h0, editor_events@.take(i as int), cursors@);
                    &&& state == h.state
                    &&& active_layer == h.active_layer
                    &&& insertion == h.insertion
                    &&& cancel_others == h.cancelled
                    &&& events@ == h.events
                    &&& snap_rounds == h.snap_rounds
                }),
            decreases editor_events.len() - i,
        {
            proof {
                assert(editor_events@.take(i + 1).drop_last() =~= editor_events@.take(i as int));
                assert(editor_events@.take(i + 1).last() == editor_events@[i as int]);
            }
            let ghost h_before = handle_events(h0, editor_events@.take(i as int), cursors@);
            if !cancel_others {
                match editor_events[i] {
                    EditorEvents::AddGameObject => {
                        let mut k: usize = 0;
                        while k < cursors.len()
                            invariant
                                k <= cursors.len(),
                                ({
                                    let h = add_at_cursors(h_before, cursors@.take(k as int));
                                    &&& state == h.state
                                    &&& active_layer == h.active_layer
                                    &&& insertion == h.insertion
                                    &&& cancel_others == h.cancelled
                                    &&& events@ == h.events
                                    &&& snap_rounds == h.snap_rounds
                                }),
                            decreases cursors.len() - k,
                        {
                            proof {
                                assert(cursors@.take(k + 1).drop_last() =~= cursors@.take(k as int));
                                assert(cursors@.take(k + 1).last() == cursors@[k as int]);
                            }
                            let cursor = cursors[k];
                            match cursor.state {
                                EditorCursorState::Normal => {
                                    insertion.pos = Some(cursor.position);
                                    events.push(Events::AddGameObject);
                                },
                                EditorCursorState::Error => {
                                    cancel_others = true;
                                },
                            }
                            k = k + 1;
                        }
                        proof {
                            assert(cursors@.take(cursors.len() as int) =~= cursors@);
                        }
                    },
                    EditorEvents::RemoveGameObject => {
                        let ghost e0 = events@;
                        let mut k: usize = 0;
                        while k < cursors.len()
                            invariant
                                k <= cursors.len(),
                                events@ == remove_at_cursors(e0, cursors@.take(k as int)),
                            decreases cursors.len() - k,
                        {
                            proof {
                                assert(cursors@.take(k + 1).drop_last() =~= cursors@.take(k as int));
                                assert(cursors@.take(k + 1).last() == cursors@[k as int]);
                            }
                            if let Some(id) = cursors[k].previous_block {
                                events.push(Events::DeleteGameObject(id));
                            }
                            k = k + 1;
                        }
                        proof {
                            assert(cursors@.take(cursors.len() as int) =~= cursors@);
                        }
                    },
                    EditorEvents::SaveLevelToFile => {
                        events.push(Events::SaveLevel);
                    },
                    EditorEvents::ChangeInsertionGameObject(id) => {
                        events.push(Events::ChangeInsertionGameObject(id));
                    },
                    EditorEvents::SetInsertionGameObject(serialized_object) => {
                        events.push(Events::SetInsertionGameObject(serialized_object));
                    },
                    EditorEvents::ChangeState(new_state) => {
                        let mut change = true;
                        match new_state {
                            EditorState::EditGameObject => {
                                let ghost e0 = events@;
                                let mut k: usize = 0;
                                while k < cursors.len()
                                    invariant
                                        k <= cursors.len(),
                                        (events@, change) == pick_up_at_cursors(e0, true, cursors@.take(k as int)),
                                    decreases cursors.len() - k,
                                {
                                    proof {
                                        assert(cursors@.take(k + 1).drop_last() =~= cursors@.take(k as int));
                                        assert(cursors@.take(k + 1).last() == cursors@[k as int]);
                                    }
                                    match cursors[k].previous_block {
                                        None => {
                                            change = false;
                                        },
                                        Some(id) => {
                                            events.push(Events::EntityToInsertionGameObject(id));
                                            events.push(Events::DeleteGameObject(id));
                                        },
                                    }
                                    k = k + 1;
                                }
                                proof {
                                    assert(cursors@.take(cursors.len() as int) =~= cursors@);
                                }
                            },
                            EditorState::InsertMode => {
                                snap_rounds = snap_rounds + 1;
                            },
                            _ => {},
                        }
                        if change {
                            state = new_state;
                        }
                    },
                    EditorEvents::UiClick(_) => {},
                    EditorEvents::CycleActiveLayer(forward) => {
                        let layer = active_layer;
                        active_layer = match forward {
                            true => layer.next(),
                            false => layer.prev(),
                        };
                    },
                }
            }
            i = i + 1;
        }
        proof {
            assert(editor_events@.take(editor_events.len() as int) =~= editor_events@);
        }
        EditorEventOutcome { state, active_layer, insertion, events, snap_rounds }
    }
}

/// The state of the editor cursor: in edit mode it is always free; while
/// inserting or editing an object it is in error when it overlaps another object.
/// Moves the editor cursor over the grid.
pub struct CursorPositionSystem;

/// Id standing for "no block" when the cursor was on none.
pub const NO_BLOCK: u32 = 999999;

/// The cursor's step along an axis, in grid cells: none, one forward, one
/// back, or not a number (an axis value that is not a number divided by its
/// own magnitude).
#[derive(Clone, Copy, Debug, PartialEq, Eq, Structural)]
pub enum CursorStep {
    Zero,
    Positive,
    Negative,
    NotANumber,
}

impl CursorPositionSystem {
    /// The cursor's step along an axis: the axis value divided by its
    /// magnitude, so its sign, or not a number for a value that is not a
    /// number; none while a user interface holds all input or the axis reads zero.
    pub open spec fn spec_step(axis: u32, blocked: bool) -> CursorStep {
        if blocked || is_zero(axis) {
            CursorStep::Zero
        } else if axis & MAGNITUDE_MASK > INFINITY_BITS {
            CursorStep::NotANumber
        } else if axis & SIGN_BIT == 0 {
            CursorStep::Positive
        } else {
            CursorStep::Negative
        }
    }

    /// See `spec_step`; `axis` is an `f32` bit pattern.
    pub fn step(axis: u32, blocked: bool) -> (r: CursorStep)
        ensures
            r == Self::spec_step(axis, blocked),
    {
        let magnitude = axis & MAGNITUDE_MASK;
        if blocked || magnitude == 0 {
            CursorStep::Zero
        } else if magnitude > INFINITY_BITS {
            CursorStep::NotANumber
        } else if axis & SIGN_BIT == 0 {
            CursorStep::Positive
        } else {
            CursorStep::Negative
        }
    }

    /// A moving cursor steps on over the block it was on before (`prev_block`),
    /// so that one move leaves a block however large it is.
    pub fn steps_on(prev_block: Option<u32>, block_at_cursor: Option<u32>, moving: bool) -> (r: bool)
        ensures
            r == (moving && block_at_cursor.is_some() && block_at_cursor.unwrap() == match prev_block {
                Some(b) => b,
                None => NO_BLOCK,
            }),
    {
        let prev = match prev_block {
            Some(b) => b,
            None => NO_BLOCK,
        };
        match block_at_cursor {
            Some(b) => moving && b == prev,
            None => false,
        }
    }

    /// In edit mode the cursor snaps to the block it lands on and reports
    /// hovering over it.
    pub fn hovers_object(state: EditorState, block_at_cursor: Option<u32>) -> (r: bool)
        ensures
            r == (state == EditorState::EditMode && block_at_cursor.is_some()),
    {
        match state {
            EditorState::EditMode => block_at_cursor.is_some(),
            _ => false,
        }
    }
}

/// Bit pattern of the `f32` value `64.0`: the editor's grid step, half a tile.
pub const EDITOR_GRID_SIZE_BITS: u32 = 0x4280_0000;

/// Sizes the editor cursor to what it is on or holds.
pub struct CursorSizeSystem;

impl CursorSizeSystem {
    /// The size (in world units, `f32` bit patterns) the cursor takes: in edit
    /// mode that of the block it was on, or one grid step when it was on none,
    /// and nothing changes when that block has no size; while inserting or
    /// editing, the size of the object it holds, a tile by default.
    pub fn cursor_size(
        state: EditorState,
        prev_block: Option<u32>,
        prev_block_size: Option<Vec2Bits>,
        insertion_size: Option<Vec2Bits>,
    ) -> (r: Option<Vec2Bits>)
        ensures
            r == (match state {
                EditorState::EditMode => if prev_block.is_some() {
                    prev_block_size
                } else {
                    Some(Vec2Bits { x: EDITOR_GRID_SIZE_BITS, y: EDITOR_GRID_SIZE_BITS })
                },
                _ => Some(match insertion_size {
                    Some(s) => s,
                    None => Vec2Bits { x: TILE_SIZE_BITS, y: TILE_SIZE_BITS },
                }),
            }),
    {
        match state {
            EditorState::EditMode => match prev_block {
                Some(_) => prev_block_size,
                None => Some(Vec2Bits { x: EDITOR_GRID_SIZE_BITS, y: EDITOR_GRID_SIZE_BITS }),
            },
            _ => Some(match insertion_size {
                Some(s) => s,
                None => Vec2Bits { x: TILE_SIZE_BITS, y: TILE_SIZE_BITS },
            }),
        }
    }
}

pub struct CursorStateSystem;

impl CursorStateSystem {
    pub fn cursor_state(state: EditorState, overlaps_an_object: bool) -> (r: EditorCursorState)
        ensures
            r == (if state != EditorState::EditMode && overlaps_an_object {
                EditorCursorState::Error
            } else {
                EditorCursorState::Normal
            }),
    {
        match state {
            EditorState::EditMode => EditorCursorState::Normal,
            EditorState::EditGameObject | EditorState::InsertMode => {
                if overlaps_an_object {
                    EditorCursorState::Error
                } else {
                    EditorCursorState::Normal
                }
            },
        }
    }
}

/// In insert mode, with neither cancel nor accept pressed, the number keys
/// pick the object to insert: `1` picks the first one (the grass tile), and
/// `2`, without `1`, the second one (the character). The pick is the last
/// editor event of the frame, after any layer change and save, and it raises
/// no game event of its own.
pub proof fn lemma_number_keys_pick_the_insertion_object(p: EditorButtonPresses)
    requires
        !p.cancel,
        !p.accept,
        p.one || p.two,
    ensures
        ({
            let events = EditorButtonEventSystem::spec_editor_events(false, EditorState::InsertMode, p);
            &&& events.len() >= 1
            &&& p.one ==> events.last() == EditorEvents::ChangeInsertionGameObject(0)
            &&& !p.one ==> events.last() == EditorEvents::ChangeInsertionGameObject(1)
            &&& EditorButtonEventSystem::spec_game_events(false, EditorState::InsertMode, p) == (if p.load {
                seq![Events::LoadLevel]
            } else {
                Seq::<Events>::empty()
            })
        }),
{
    let events = EditorButtonEventSystem::spec_editor_events(false, EditorState::InsertMode, p);
    let pick = if p.one {
        EditorEvents::ChangeInsertionGameObject(0)
    } else {
        EditorEvents::ChangeInsertionGameObject(1)
    };
    let layer: Seq<EditorEvents> = if p.layer_axis == AxisSign::Zero {
        Seq::empty()
    } else {
        seq![EditorEvents::CycleActiveLayer(p.layer_axis == AxisSign::Positive)]
    };
    let save: Seq<EditorEvents> = if p.save {
        seq![EditorEvents::SaveLevelToFile]
    } else {
        Seq::empty()
    };
    assert(events == layer + save + seq![pick]);
    assert(EditorButtonEventSystem::spec_game_events(false, EditorState::InsertMode, p) =~= (if p.load {
        seq![Events::LoadLevel]
    } else {
        Seq::<Events>::empty()
    }));
}

/// While a user interface holds all input the editor's keys raise nothing, and
/// otherwise a frame raises at most one layer change, one save and two mode events.
pub proof fn lemma_button_events_bounded(blocked: bool, state: EditorState, p: EditorButtonPresses)
    ensures
        blocked ==> EditorButtonEventSystem::spec_editor_events(blocked, state, p) == Seq::<EditorEvents>::empty(),
        blocked ==> EditorButtonEventSystem::spec_game_events(blocked, state, p) == Seq::<Events>::empty(),
        EditorButtonEventSystem::spec_editor_events(blocked, state, p).len() <= 4,
        EditorButtonEventSystem::spec_game_events(blocked, state, p).len() <= 2,
{
}

/// The keys of a frame, when no user interface holds the input: a layer
/// change comes first, then a save; the mode's action comes last. In edit mode
/// `cancel` removes the object, else `accept` starts editing it, else `insert`
/// enters insert mode, else `start` opens the file picker (a game event); in
/// insert mode `cancel` returns to edit mode, else `accept` adds the object; while
/// editing an object `cancel` returns to edit mode, and else `accept` adds the
/// object and then returns to edit mode. `load` is always the first game event.
pub proof fn lemma_mode_keys(state: EditorState, p: EditorButtonPresses)
    ensures
        ({
            let events = EditorButtonEventSystem::spec_editor_events(false, state, p);
            let game = EditorButtonEventSystem::spec_game_events(false, state, p);
            &&& p.layer_axis != AxisSign::Zero ==> events.len() >= 1 && events[0]
                == EditorEvents::CycleActiveLayer(p.layer_axis == AxisSign::Positive)
            &&& p.save ==> events.contains(EditorEvents::SaveLevelToFile)
            &&& p.load ==> game.len() >= 1 && game[0] == Events::LoadLevel
            &&& state == EditorState::EditMode && p.cancel ==> events.len() >= 1 && events.last()
                == EditorEvents::RemoveGameObject
            &&& state == EditorState::EditMode && !p.cancel && p.accept ==> events.len() >= 1 && events.last()
                == EditorEvents::ChangeState(EditorState::EditGameObject)
            &&& state == EditorState::EditMode && !p.cancel && !p.accept && p.insert ==> events.len() >= 1
                && events.last() == EditorEvents::ChangeState(EditorState::InsertMode)
            &&& state == EditorState::EditMode && !p.cancel && !p.accept && !p.insert && p.start ==> game.len() >= 1
                && game.last() == Events::OpenFilePickerUi
            &&& !(state == EditorState::EditMode && !p.cancel && !p.accept && !p.insert && p.start) ==> !game.contains(
                Events::OpenFilePickerUi,
            )
            &&& state == EditorState::InsertMode && p.cancel ==> events.len() >= 1 && events.last()
                == EditorEvents::ChangeState(EditorState::EditMode)
            &&& state == EditorState::InsertMode && !p.cancel && p.accept ==> events.len() >= 1 && events.last()
                == EditorEvents::AddGameObject
            &&& state == EditorState::EditGameObject && p.cancel ==> events.len() >= 1 && events.last()
                == EditorEvents::ChangeState(EditorState::EditMode)
            &&& state == EditorState::EditGameObject && !p.cancel && p.accept ==> events.len() >= 2 && events[events.len()
                - 2] == EditorEvents::AddGameObject && events.last() == EditorEvents::ChangeState(EditorState::EditMode)
            &&& !p.cancel && !p.accept && !p.insert && !p.one && !p.two ==> events.len() == (if p.layer_axis
                == AxisSign::Zero {
                0int
            } else {
                1int
            }) + (if p.save {
                1int
            } else {
                0int
            })
        }),
{
    let events = EditorButtonEventSystem::spec_editor_events(false, state, p);
    let game = EditorButtonEventSystem::spec_game_events(false, state, p);
    let layer: Seq<EditorEvents> = if p.layer_axis == AxisSign::Zero {
        Seq::empty()
    } else {
        seq![EditorEvents::CycleActiveLayer(p.layer_axis == AxisSign::Positive)]
    };
    let save: Seq<EditorEvents> = if p.save {
        seq![EditorEvents::SaveLevelToFile]
    } else {
        Seq::empty()
    };
    let mode = events.subrange((layer.len() + save.len()) as int, events.len() as int);
    assert(events == layer + save + mode);
    if p.layer_axis != AxisSign::Zero {
        assert(events[0] == layer[0]);
    }
    if p.save {
        assert(events[layer.len() as int] == EditorEvents::SaveLevelToFile);
    }
    let load: Seq<Events> = if p.load {
        seq![Events::LoadLevel]
    } else {
        Seq::empty()
    };
    let open: Seq<Events> = if state == EditorState::EditMode && !p.cancel && !p.accept && !p.insert && p.start {
        seq![Events::OpenFilePickerUi]
    } else {
        Seq::empty()
    };
    assert(game == load + open);
    if p.load {
        assert(game[0] == Events::LoadLevel);
    }
    if !(state == EditorState::EditMode && !p.cancel && !p.accept && !p.insert && p.start) {
        assert(game =~= load);
        if game.contains(Events::OpenFilePickerUi) {
            let k = choose|k: int| 0 <= k < game.len() && game[k] == Events::OpenFilePickerUi;
            assert(game[k] == load[k]);
        }
    }
}

/// Once an event is cancelled, the rest of the frame's events change nothing.
pub proof fn lemma_cancel_is_final(h: EditorHandlerState, events: Seq<EditorEvents>, cursors: Seq<CursorInfo>)
    requires
        h.cancelled,
    ensures
        handle_events(h, events, cursors) == h,
    decreases events.len(),
{
    if events.len() > 0 {
        lemma_cancel_is_final(h, events.drop_last(), cursors);
    }
}

/// Picking up objects keeps the change of mode exactly when every cursor is in an object.
pub proof fn lemma_pick_up_needs_objects(events: Seq<Events>, cursors: Seq<CursorInfo>)
    ensures
        pick_up_at_cursors(events, true, cursors).1 == (forall|k: int|
            0 <= k < cursors.len() ==> (#[trigger] cursors[k]).previous_block.is_some()),
    decreases cursors.len(),
{
    if cursors.len() > 0 {
        let init = cursors.drop_last();
        lemma_pick_up_needs_objects(events, init);
        let all = forall|k: int| 0 <= k < cursors.len() ==> (#[trigger] cursors[k]).previous_block.is_some();
        let all_init = forall|k: int| 0 <= k < init.len() ==> (#[trigger] init[k]).previous_block.is_some();
        if all {
            assert forall|k: int| 0 <= k < init.len() implies (#[trigger] init[k]).previous_block.is_some() by {
                assert(init[k] == cursors[k]);
            }
            assert(cursors[cursors.len() - 1].previous_block.is_some());
        } else {
            let k = choose|k: int| 0 <= k < cursors.len() && !(#[trigger] cursors[k]).previous_block.is_some();
            if k < cursors.len() - 1 {
                assert(init[k] == cursors[k]);
                assert(!all_init);
            } else {
                assert(cursors.last().previous_block.is_none());
            }
        }
    }
}

/// Going back to edit mode always succeeds; editing objects starts exactly
/// when every cursor is in an object; insert mode is always entered.
pub proof fn lemma_mode_changes(h: EditorHandlerState, cursors: Seq<CursorInfo>)
    requires
        !h.cancelled,
    ensures
        apply_editor_event(h, EditorEvents::ChangeState(EditorState::EditMode), cursors).state == EditorState::EditMode,
        apply_editor_event(h, EditorEvents::ChangeState(EditorState::InsertMode), cursors).state == EditorState::InsertMode,
        (apply_editor_event(h, EditorEvents::ChangeState(EditorState::EditGameObject), cursors).state
            == EditorState::EditGameObject) <== (forall|k: int|
            0 <= k < cursors.len() ==> (#[trigger] cursors[k]).previous_block.is_some()),
        !(forall|k: int| 0 <= k < cursors.len() ==> (#[trigger] cursors[k]).previous_block.is_some()) ==> apply_editor_event(
            h,
            EditorEvents::ChangeState(EditorState::EditGameObject),
            cursors,
        ).state == h.state,
{
    lemma_pick_up_needs_objects(h.events, cursors);
}

} // verus!
