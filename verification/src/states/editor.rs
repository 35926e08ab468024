//! The level editor state: what its keys and events do.
use vstd::prelude::*;

use crate::components::game::SerializedObject;
use crate::events::Events;
use crate::states::Trans;

verus! {

/// The level editor, on top of the game.
pub struct Editor;

/// What the editor does to the level with an application event.
#[derive(Clone, Copy, Debug, PartialEq, Eq, Structural)]
pub enum EditorCommand {
    Nothing,
    /// Put a copy of the object being inserted into the level.
    AddInsertionObject,
    DeleteObject(u32),
    SaveLevel,
    /// The object to insert from now on.
    SetInsertion(SerializedObject),
    /// Insert from now on objects like the one with this id.
    InsertionFromEntity(u32),
    OpenFilePicker,
}

impl Editor {
    /// On a window event the exit key quits, else the editor key leaves the editor.
    pub fn window_event(exit: bool, editor: bool) -> (r: Trans)
        ensures
            r == (if exit {
                Trans::Quit
            } else if editor {
                Trans::Pop
            } else {
                Trans::Stay
            }),
    {
        if exit {
            Trans::Quit
        } else if editor {
            Trans::Pop
        } else {
            Trans::Stay
        }
    }

    /// What an application event does: loading a level leaves the editor to
    /// load it; a choice key sets the object to insert by its parity; the
    /// other editor events go to the level; the rest are ignored.
    pub fn app_event(event: Events) -> (r: (EditorCommand, Trans))
        ensures
            r == match event {
                Events::AddGameObject => (EditorCommand::AddInsertionObject, Trans::Stay),
                Events::DeleteGameObject(id) => (EditorCommand::DeleteObject(id), Trans::Stay),
                Events::SaveLevel => (EditorCommand::SaveLevel, Trans::Stay),
                Events::LoadLevel => (EditorCommand::Nothing, Trans::ReloadLevel),
                Events::ChangeInsertionGameObject(id) => (
                    EditorCommand::SetInsertion(SerializedObject::spec_for_insertion(id)),
                    Trans::Stay,
                ),
                Events::SetInsertionGameObject(o) => (EditorCommand::SetInsertion(o), Trans::Stay),
                Events::EntityToInsertionGameObject(id) => (EditorCommand::InsertionFromEntity(id), Trans::Stay),
                Events::OpenFilePickerUi => (EditorCommand::OpenFilePicker, Trans::Stay),
                _ => (EditorCommand::Nothing, Trans::Stay),
            },
    {
        match event {
            Events::AddGameObject => (EditorCommand::AddInsertionObject, Trans::Stay),
            Events::DeleteGameObject(id) => (EditorCommand::DeleteObject(id), Trans::Stay),
            Events::SaveLevel => (EditorCommand::SaveLevel, Trans::Stay),
            Events::LoadLevel => (EditorCommand::Nothing, Trans::ReloadLevel),
            Events::ChangeInsertionGameObject(id) => (
                EditorCommand::SetInsertion(SerializedObject::for_insertion(id)),
                Trans::Stay,
            ),
            Events::SetInsertionGameObject(o) => (EditorCommand::SetInsertion(o), Trans::Stay),
            Events::EntityToInsertionGameObject(id) => (EditorCommand::InsertionFromEntity(id), Trans::Stay),
            Events::OpenFilePickerUi => (EditorCommand::OpenFilePicker, Trans::Stay),
            _ => (EditorCommand::Nothing, Trans::Stay),
        }
    }
}

} // verus!
