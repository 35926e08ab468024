//! The editor's list of the actions that the current mode offers, each with
//! the key that triggers it.
use vstd::prelude::*;

use crate::components::editor::EditorState;

verus! {

/// The actions the editor can offer, in the order they are listed.
#[derive(Clone, Copy, Debug, PartialEq, Eq, Structural)]
pub enum EditorActions {
    EnterPlayMode,
    EnterInsertMode,
    EnterEditModeFromInsert,
    EnterEditGameObject,
    PlaceEditGameObject,
    DeleteEditGameObject,
    InsertModePlayer,
    InsertModeTile,
    SaveLevel,
    ChooseSaveFile,
}

/// Number of editor actions.
pub const ACTION_COUNT: usize = 10;

impl EditorActions {
    /// The action at a position of the list.
    pub open spec fn at_position(i: int) -> EditorActions {
        if i == 0 {
            EditorActions::EnterPlayMode
        } else if i == 1 {
            EditorActions::EnterInsertMode
        } else if i == 2 {
            EditorActions::EnterEditModeFromInsert
        } else if i == 3 {
            EditorActions::EnterEditGameObject
        } else if i == 4 {
            EditorActions::PlaceEditGameObject
        } else if i == 5 {
            EditorActions::DeleteEditGameObject
        } else if i == 6 {
            EditorActions::InsertModePlayer
        } else if i == 7 {
            EditorActions::InsertModeTile
        } else if i == 8 {
            EditorActions::SaveLevel
        } else {
            EditorActions::ChooseSaveFile
        }
    }

    /// The action at a position of the list.
    pub fn from_position(i: usize) -> (r: EditorActions)
        requires
            i < ACTION_COUNT,
        ensures
            r == Self::at_position(i as int),
    {
        if i == 0 {
            EditorActions::EnterPlayMode
        } else if i == 1 {
            EditorActions::EnterInsertMode
        } else if i == 2 {
            EditorActions::EnterEditModeFromInsert
        } else if i == 3 {
            EditorActions::EnterEditGameObject
        } else if i == 4 {
            EditorActions::PlaceEditGameObject
        } else if i == 5 {
            EditorActions::DeleteEditGameObject
        } else if i == 6 {
            EditorActions::InsertModePlayer
        } else if i == 7 {
            EditorActions::InsertModeTile
        } else if i == 8 {
            EditorActions::SaveLevel
        } else {
            EditorActions::ChooseSaveFile
        }
    }

    /// Whether the action is offered in an editor state, `hover` telling whether
    /// the cursor is on an object: entering insert mode from edit mode, going back
    /// to edit mode and choosing a tile or a character in insert mode, editing or
    /// deleting the object under the cursor in edit mode, placing or deleting the
    /// object being edited; playing, saving and choosing the file always.
    pub open spec fn visible(self, state: EditorState, hover: bool) -> bool {
        match self {
            EditorActions::EnterInsertMode => state == EditorState::EditMode,
            EditorActions::EnterEditModeFromInsert => state == EditorState::InsertMode,
            EditorActions::EnterEditGameObject => state == EditorState::EditMode && hover,
            EditorActions::PlaceEditGameObject => state == EditorState::EditGameObject,
            EditorActions::DeleteEditGameObject => (state == EditorState::EditMode && hover) || state
                == EditorState::EditGameObject,
            EditorActions::InsertModeTile => state == EditorState::InsertMode,
            EditorActions::InsertModePlayer => state == EditorState::InsertMode,
            EditorActions::EnterPlayMode => true,
            EditorActions::SaveLevel | EditorActions::ChooseSaveFile => true,
        }
    }

    /// Whether the action is offered in an editor state.
    pub fn is_visible(&self, state: EditorState, hover: bool) -> (r: bool)
        ensures
            r == self.visible(state, hover),
    {
        match self {
            EditorActions::EnterInsertMode => match state {
                EditorState::EditMode => true,
                _ => false,
            },
            EditorActions::EnterEditModeFromInsert => match state {
                EditorState::InsertMode => true,
                _ => false,
            },
            EditorActions::EnterEditGameObject => match state {
                EditorState::EditMode => hover,
                _ => false,
            },
            EditorActions::PlaceEditGameObject => match state {
                EditorState::EditGameObject => true,
                _ => false,
            },
            EditorActions::DeleteEditGameObject => match state {
                EditorState::EditMode => hover,
                EditorState::EditGameObject => true,
                _ => false,
            },
            EditorActions::InsertModeTile => match state {
                EditorState::InsertMode => true,
                _ => false,
            },
            EditorActions::InsertModePlayer => match state {
                EditorState::InsertMode => true,
                _ => false,
            },
            EditorActions::EnterPlayMode => true,
            EditorActions::SaveLevel | EditorActions::ChooseSaveFile => true,
        }
    }
}

/// The key and the label of an action, by entity id, and whether they are shown.
#[derive(Clone, Copy, Debug, PartialEq, Eq, Structural)]
pub struct ActionPackage {
    pub button: u32,
    pub label: u32,
    pub show: bool,
}

impl ActionPackage {
    pub fn new(button: u32, label: u32) -> (r: ActionPackage)
        ensures
            r == (ActionPackage { button, label, show: false }),
    {
        ActionPackage { button, label, show: false }
    }
}

/// The list of offered actions: one package per action, in list order.
pub struct CurrentActionsUi {
    pub labels: Vec<ActionPackage>,
    pub hover_game_object: bool,
}

impl CurrentActionsUi {
    /// One package per action.
    pub open spec fn wf(&self) -> bool {
        self.labels.len() == ACTION_COUNT
    }

    /// The list over the given packages, one per action in list order.
    pub fn new(labels: Vec<ActionPackage>) -> (r: Self)
        requires
            labels.len() == ACTION_COUNT,
        ensures
            r.wf(),
            r.labels@ == labels@,
            !r.hover_game_object,
    {
        CurrentActionsUi { labels, hover_game_object: false }
    }

    /// The cursor is on an object this frame.
    pub fn hover_game_object(&mut self)
        ensures
            final(self).labels@ == old(self).labels@,
            final(self).hover_game_object,
    {
        self.hover_game_object = true;
    }

    /// Shows exactly the actions the state offers; the entities stay the same.
    pub fn update_component_visibility(&mut self, state: EditorState)
        requires
            old(self).wf(),
        ensures
            final(self).wf(),
            final(self).hover_game_object == old(self).hover_game_object,
            forall|i: int| 0 <= i < ACTION_COUNT ==> (#[trigger] final(self).labels@[i]) == (ActionPackage {
                show: EditorActions::at_position(i).visible(state, old(self).hover_game_object),
                ..old(self).labels@[i]
            }),
    {
        let mut i: usize = 0;
        while i < ACTION_COUNT
            invariant
                self.wf(),
                i <= ACTION_COUNT,
                self.hover_game_object == old(self).hover_game_object,
                forall|j: int| 0 <= j < i ==> (#[trigger] self.labels@[j]) == (ActionPackage {
                    show: EditorActions::at_position(j).visible(state, old(self).hover_game_object),
                    ..old(self).labels@[j]
                }),
                forall|j: int| i <= j < ACTION_COUNT ==> (#[trigger] self.labels@[j]) == old(self).labels@[j],
            decreases ACTION_COUNT - i,
        {
            let action = EditorActions::from_position(i);
            let pack = self.labels[i];
            let show = action.is_visible(state, self.hover_game_object);
            self.labels.set(i, ActionPackage { button: pack.button, label: pack.label, show });
            i = i + 1;
        }
    }

    /// A frame of the list: the shown actions follow the state, then the hover
    /// flag is cleared for the next frame.
    pub fn update(&mut self, state: EditorState)
        requires
            old(self).wf(),
        ensures
            final(self).wf(),
            !final(self).hover_game_object,
            forall|i: int| 0 <= i < ACTION_COUNT ==> (#[trigger] final(self).labels@[i]) == (ActionPackage {
                show: EditorActions::at_position(i).visible(state, old(self).hover_game_object),
                ..old(self).labels@[i]
            }),
    {
        self.update_component_visibility(state);
        self.hover_game_object = false;
    }

    /// Adds the list's entities to those to remove: key then label, action by action.
    pub fn entities_to_remove(&self, to_remove: Vec<u32>) -> (r: Vec<u32>)
        ensures
            r@.len() == to_remove@.len() + 2 * self.labels.len(),
            r@.take(to_remove@.len() as int) == to_remove@,
            forall|i: int| 0 <= i < self.labels.len() ==> r@[to_remove@.len() + 2 * i] == (#[trigger] self.labels@[i]).button
                && r@[to_remove@.len() + 2 * i + 1] == self.labels@[i].label,
    {
        let mut to_remove = to_remove;
        let ghost start = to_remove@;
        let mut i: usize = 0;
        while i < self.labels.len()
            invariant
                i <= self.labels.len(),
                to_remove@.len() == start.len() + 2 * i,
                to_remove@.take(start.len() as int) == start,
                forall|j: int| 0 <= j < i ==> to_remove@[start.len() + 2 * j] == (#[trigger] self.labels@[j]).button
                    && to_remove@[start.len() + 2 * j + 1] == self.labels@[j].label,
            decreases self.labels.len() - i,
        {
            let pack = self.labels[i];
            let ghost before = to_remove@;
            to_remove.push(pack.button);
            to_remove.push(pack.label);
            proof {
                assert(to_remove@.take(start.len() as int) =~= before.take(start.len() as int));
            }
            i = i + 1;
        }
        to_remove
    }
}

/// Where on the screen an offered action is listed.
#[derive(Clone, Copy, Debug, PartialEq, Eq, Structural)]
pub enum ActionRegion {
    /// The list of the mode's actions, bottom left, from the bottom up.
    BottomLeft,
    /// Saving, at the top in the middle.
    TopMiddle,
    /// Choosing the file, at the top right.
    TopRight,
}

/// The place of a shown action: its region and how many shown actions of the
/// same region come before it.
#[derive(Clone, Copy, Debug, PartialEq, Eq, Structural)]
pub struct ActionSlot {
    pub region: ActionRegion,
    pub index: usize,
}

impl EditorActions {
    /// The region an action is listed in.
    pub open spec fn region(self) -> ActionRegion {
        match self {
            EditorActions::SaveLevel => ActionRegion::TopMiddle,
            EditorActions::ChooseSaveFile => ActionRegion::TopRight,
            _ => ActionRegion::BottomLeft,
        }
    }

    /// The key shown on an action's button.
    pub fn button_text(&self) -> (r: &'static str)
        ensures
            r@ == match *self {
                EditorActions::EnterPlayMode => "LCTRL"@,
                EditorActions::SaveLevel => "INSERT"@,
                EditorActions::ChooseSaveFile => "ENTER"@,
                _ => ""@,
            },
    {
        match self {
            EditorActions::EnterPlayMode => "LCTRL",
            EditorActions::SaveLevel => "INSERT",
            EditorActions::ChooseSaveFile => "ENTER",
            _ => "",
        }
    }
}

/// How many of the first `i` packages are shown and listed in `region`.
pub open spec fn shown_before(labels: Seq<ActionPackage>, i: int, region: ActionRegion) -> nat
    decreases i,
{
    if i <= 0 {
        0
    } else {
        shown_before(labels, i - 1, region) + (if labels[i - 1].show && EditorActions::at_position(i - 1).region()
            == region {
            1nat
        } else {
            0nat
        })
    }
}

/// No more packages are counted than were looked at.
proof fn lemma_shown_before_bounded(labels: Seq<ActionPackage>, i: int, region: ActionRegion)
    requires
        0 <= i,
    ensures
        shown_before(labels, i, region) <= i,
    decreases i,
{
    if i > 0 {
        lemma_shown_before_bounded(labels, i - 1, region);
    }
}

/// Counting over more packages never counts fewer.
proof fn lemma_shown_before_monotonic(labels: Seq<ActionPackage>, i: int, j: int, region: ActionRegion)
    requires
        0 <= i <= j,
    ensures
        shown_before(labels, i, region) <= shown_before(labels, j, region),
    decreases j - i,
{
    if i < j {
        lemma_shown_before_monotonic(labels, i, j - 1, region);
    }
}

/// Two shown actions of the same region never share a place: the one listed
/// first comes first in its region too.
pub proof fn lemma_layout_places_are_distinct(labels: Seq<ActionPackage>, i: int, j: int)
    requires
        0 <= i < j,
        labels[i].show,
        labels[j].show,
        EditorActions::at_position(i).region() == EditorActions::at_position(j).region(),
    ensures
        shown_before(labels, i, EditorActions::at_position(i).region()) < shown_before(
            labels,
            j,
            EditorActions::at_position(j).region(),
        ),
{
    let region = EditorActions::at_position(i).region();
    assert(shown_before(labels, i + 1, region) == shown_before(labels, i, region) + 1);
    lemma_shown_before_monotonic(labels, i + 1, j, region);
}

impl CurrentActionsUi {
    /// Where each action is listed: the shown ones get the next place of their
    /// region in list order, the hidden ones none.
    pub fn layout(&self) -> (r: Vec<Option<ActionSlot>>)
        requires
            self.wf(),
        ensures
            r@.len() == ACTION_COUNT,
            forall|i: int| 0 <= i < ACTION_COUNT ==> (#[trigger] r@[i]) == (if self.labels@[i].show {
                Some(ActionSlot {
                    region: EditorActions::at_position(i).region(),
                    index: shown_before(self.labels@, i, EditorActions::at_position(i).region()) as usize,
                })
            } else {
                None
            }),
    {
        let mut r: Vec<Option<ActionSlot>> = Vec::new();
        let mut bottom_left: usize = 0;
        let mut top_middle: usize = 0;
        let mut top_right: usize = 0;
        let mut i: usize = 0;
        while i < ACTION_COUNT
            invariant
                self.wf(),
                i <= ACTION_COUNT,
                r@.len() == i,
                bottom_left == shown_before(self.labels@, i as int, ActionRegion::BottomLeft),
                top_middle == shown_before(self.labels@, i as int, ActionRegion::TopMiddle),
                top_right == shown_before(self.labels@, i as int, ActionRegion::TopRight),
                forall|j: int| 0 <= j < i ==> (#[trigger] r@[j]) == (if self.labels@[j].show {
                    Some(ActionSlot {
                        region: EditorActions::at_position(j).region(),
                        index: shown_before(self.labels@, j, EditorActions::at_position(j).region()) as usize,
                    })
                } else {
                    None
                }),
            decreases ACTION_COUNT - i,
        {
            proof {
                lemma_shown_before_bounded(self.labels@, i as int, ActionRegion::BottomLeft);
                lemma_shown_before_bounded(self.labels@, i as int, ActionRegion::TopMiddle);
                lemma_shown_before_bounded(self.labels@, i as int, ActionRegion::TopRight);
            }
            let action = EditorActions::from_position(i);
            let pack = self.labels[i];
            if pack.show {
                match action {
                    EditorActions::SaveLevel => {
                        r.push(Some(ActionSlot { region: ActionRegion::TopMiddle, index: top_middle }));
                        top_middle = top_middle + 1;
                    },
                    EditorActions::ChooseSaveFile => {
                        r.push(Some(ActionSlot { region: ActionRegion::TopRight, index: top_right }));
                        top_right = top_right + 1;
                    },
                    _ => {
                        r.push(Some(ActionSlot { region: ActionRegion::BottomLeft, index: bottom_left }));
                        bottom_left = bottom_left + 1;
                    },
                }
            } else {
                r.push(None);
            }
            i = i + 1;
        }
        r
    }
}

/// In every state the list offers playing, saving and choosing the file; insert
/// mode offers exactly going back, tiles and characters besides those, and the
/// object under the cursor can be edited only in edit mode.
pub proof fn lemma_offered_actions(state: EditorState, hover: bool)
    ensures
        EditorActions::EnterPlayMode.visible(state, hover),
        EditorActions::SaveLevel.visible(state, hover),
        EditorActions::ChooseSaveFile.visible(state, hover),
        state == EditorState::InsertMode ==> forall|i: int| 0 <= i < ACTION_COUNT ==> (#[trigger] EditorActions::at_position(i)).visible(state, hover)
            == (EditorActions::at_position(i) != EditorActions::EnterInsertMode
                && EditorActions::at_position(i) != EditorActions::EnterEditGameObject
                && EditorActions::at_position(i) != EditorActions::PlaceEditGameObject
                && EditorActions::at_position(i) != EditorActions::DeleteEditGameObject),
        EditorActions::EnterEditGameObject.visible(state, hover) ==> state == EditorState::EditMode,
{
}

} // verus!
