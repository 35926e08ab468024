//! The level file picker: a grid of file names in columns, navigated with the
//! arrows, and an editable name at the top.
use vstd::prelude::*;

use crate::utils::AxisSign;

verus! {

/// Directory of the game's assets.
pub const DIR_ASSETS: &'static str = "assets";

/// Directory of the levels, inside the assets.
pub const DIR_LEVELS: &'static str = "levels";

/// Number of file names per column.
pub const ITEMS_PER_COLUMN: usize = 15;

/// Index of a label that no label has, standing for "none selected".
pub const NO_SELECTION: usize = 99999;

/// The level file the editor saves to and loads from.
pub struct FilePickerFilename {
    pub filename: String,
    pub full_path: String,
}

impl FilePickerFilename {
    pub fn new(filename: String, full_path: String) -> (r: FilePickerFilename)
        ensures
            r.filename@ == filename@,
            r.full_path@ == full_path@,
    {
        FilePickerFilename { filename, full_path }
    }
}

/// The kind of a button of the file picker.
#[derive(Clone, Copy, Debug, PartialEq, Eq, Structural)]
pub enum FilePickerButtonType {
    Label,
    EditableLabel,
}

impl Default for FilePickerButtonType {
    fn default() -> (r: Self)
        ensures
            r == FilePickerButtonType::Label,
    {
        FilePickerButtonType::Label
    }
}

/// A button of the file picker: its kind and the index of its file name.
#[derive(Clone, Copy, Debug, PartialEq, Eq, Structural)]
pub struct FilePickerButton {
    pub file_picker_button_type: FilePickerButtonType,
    pub id: usize,
}

impl FilePickerButton {
    pub fn new(file_picker_button_type: FilePickerButtonType, id: usize) -> (r: FilePickerButton)
        ensures
            r == (FilePickerButton { file_picker_button_type, id }),
    {
        FilePickerButton { file_picker_button_type, id }
    }
}

/// Where the highlight and the selection are in the grid of file names.
#[derive(Clone, Copy, Debug, PartialEq, Eq, Structural)]
pub struct FilePickerUiIndex {
    pub index: usize,
    pub selected_index: Option<usize>,
    pub max_index: usize,
    pub items_per_column: usize,
}

impl Default for FilePickerUiIndex {
    fn default() -> (r: Self)
        ensures
            r == (FilePickerUiIndex { index: 0, selected_index: None, max_index: 0, items_per_column: 0 }),
    {
        FilePickerUiIndex { index: 0, selected_index: None, max_index: 0, items_per_column: 0 }
    }
}

impl FilePickerUiIndex {
    /// The highlight after one arrow input: up and down move it by one within
    /// the names; right moves it a column on when that stays before the last
    /// name, left a column back when there is one.
    pub open spec fn spec_navigate(self, horizontal: AxisSign, vertical: AxisSign) -> FilePickerUiIndex {
        let i1: usize = if vertical == AxisSign::Positive && self.index > 0 {
            (self.index - 1) as usize
        } else if vertical == AxisSign::Negative && self.index < self.max_index {
            (self.index + 1) as usize
        } else {
            self.index
        };
        let i2: usize = if horizontal == AxisSign::Positive && i1 + self.items_per_column < self.max_index {
            (i1 + self.items_per_column) as usize
        } else if horizontal == AxisSign::Negative && i1 >= self.items_per_column {
            (i1 - self.items_per_column) as usize
        } else {
            i1
        };
        FilePickerUiIndex { index: i2, ..self }
    }

    /// Moves the highlight for one arrow input.
    pub fn navigate(&mut self, horizontal: AxisSign, vertical: AxisSign)
        requires
            old(self).index <= old(self).max_index,
            old(self).max_index + old(self).items_per_column <= usize::MAX,
        ensures
            *final(self) == old(self).spec_navigate(horizontal, vertical),
    {
        if vertical == AxisSign::Positive && self.index > 0 {
            self.index = self.index - 1;
        } else if vertical == AxisSign::Negative && self.index < self.max_index {
            self.index = self.index + 1;
        }
        if horizontal == AxisSign::Positive && self.index + self.items_per_column < self.max_index {
            self.index = self.index + self.items_per_column;
        } else if horizontal == AxisSign::Negative && self.index >= self.items_per_column {
            self.index = self.index - self.items_per_column;
        }
    }
}

/// The highlight stays on a name: navigation never moves it past the last one.
pub proof fn lemma_navigation_stays_in_grid(ui: FilePickerUiIndex, horizontal: AxisSign, vertical: AxisSign)
    requires
        ui.index <= ui.max_index,
        ui.max_index + ui.items_per_column <= usize::MAX,
    ensures
        ui.spec_navigate(horizontal, vertical).index <= ui.max_index,
        ui.spec_navigate(horizontal, vertical).max_index == ui.max_index,
        ui.spec_navigate(horizontal, vertical).selected_index == ui.selected_index,
{
}

/// Up and down move the highlight by exactly one name, stopping at the first
/// and the last; right and left move it by exactly one column, when that stays
/// before the last name or at or after the first. The selection and the grid
/// are left alone.
pub proof fn lemma_arrows_move_one_step(ui: FilePickerUiIndex)
    requires
        ui.index <= ui.max_index,
        ui.max_index + ui.items_per_column <= usize::MAX,
    ensures
        ui.index > 0 ==> ui.spec_navigate(AxisSign::Zero, AxisSign::Positive).index == ui.index - 1,
        ui.index == 0 ==> ui.spec_navigate(AxisSign::Zero, AxisSign::Positive).index == 0,
        ui.index < ui.max_index ==> ui.spec_navigate(AxisSign::Zero, AxisSign::Negative).index == ui.index + 1,
        ui.index == ui.max_index ==> ui.spec_navigate(AxisSign::Zero, AxisSign::Negative).index == ui.max_index,
        ui.spec_navigate(AxisSign::Zero, AxisSign::Zero) == ui,
        ui.index + ui.items_per_column < ui.max_index ==> ui.spec_navigate(AxisSign::Positive, AxisSign::Zero).index
            == ui.index + ui.items_per_column,
        ui.index + ui.items_per_column >= ui.max_index ==> ui.spec_navigate(AxisSign::Positive, AxisSign::Zero).index
            == ui.index,
        ui.index >= ui.items_per_column ==> ui.spec_navigate(AxisSign::Negative, AxisSign::Zero).index == ui.index
            - ui.items_per_column,
        ui.index < ui.items_per_column ==> ui.spec_navigate(AxisSign::Negative, AxisSign::Zero).index == ui.index,
        forall|h: AxisSign, v: AxisSign|
            #![trigger ui.spec_navigate(h, v)]
            ui.spec_navigate(h, v).selected_index == ui.selected_index && ui.spec_navigate(h, v).max_index
                == ui.max_index && ui.spec_navigate(h, v).items_per_column == ui.items_per_column,
{
}

/// Both arrows at once: the vertical step is taken first, then the horizontal
/// step from where it led.
pub proof fn lemma_vertical_then_horizontal(ui: FilePickerUiIndex, horizontal: AxisSign, vertical: AxisSign)
    ensures
        ui.spec_navigate(horizontal, vertical) == ui.spec_navigate(AxisSign::Zero, vertical).spec_navigate(
            horizontal,
            AxisSign::Zero,
        ),
{
}

/// How a file name label is highlighted.
#[derive(Clone, Copy, Debug, PartialEq, Eq, Structural)]
pub enum LabelHighlight {
    /// Selected and under the highlight.
    SelectedAndHighlighted,
    Selected,
    Highlighted,
    Plain,
}

/// The file picker; its entities are held by id.
pub struct FilePickerUi {
    pub labels: Vec<u32>,
    pub editable_label: Option<u32>,
    pub ui_index: FilePickerUiIndex,
    pub should_destroy: bool,
}

impl FilePickerUi {
    /// One label per file name, the editable name, and the highlight on a name.
    pub open spec fn wf(&self) -> bool {
        &&& self.labels.len() == self.ui_index.max_index + 1
        &&& self.ui_index.index <= self.ui_index.max_index
        &&& self.ui_index.max_index + self.ui_index.items_per_column <= usize::MAX
        &&& self.editable_label.is_some()
    }

    /// A picker over the given labels (at least one), with the first one highlighted.
    pub fn new(labels: Vec<u32>, editable_label: u32) -> (r: Self)
        requires
            1 <= labels.len() <= usize::MAX - ITEMS_PER_COLUMN,
        ensures
            r.wf(),
            r.labels@ == labels@,
            r.editable_label == Some(editable_label),
            r.ui_index == (FilePickerUiIndex {
                index: 0,
                selected_index: None,
                max_index: (labels.len() - 1) as usize,
                items_per_column: ITEMS_PER_COLUMN,
            }),
            !r.should_destroy,
    {
        let max_index = labels.len() - 1;
        FilePickerUi {
            labels,
            editable_label: Some(editable_label),
            ui_index: FilePickerUiIndex { index: 0, selected_index: None, max_index, items_per_column: ITEMS_PER_COLUMN },
            should_destroy: false,
        }
    }

    /// Adds the picker's entities to those to remove: the labels, then the editable name.
    pub fn entities_to_remove(&self, to_remove: Vec<u32>) -> (r: Vec<u32>)
        requires
            self.editable_label.is_some(),
        ensures
            r@ == to_remove@ + self.labels@ + seq![self.editable_label.unwrap()],
    {
        let mut to_remove = to_remove;
        let ghost start = to_remove@;
        let mut i: usize = 0;
        while i < self.labels.len()
            invariant
                i <= self.labels.len(),
                to_remove@ == start + self.labels@.take(i as int),
            decreases self.labels.len() - i,
        {
            to_remove.push(self.labels[i]);
            proof {
                assert(self.labels@.take(i + 1) =~= self.labels@.take(i as int).push(self.labels@[i as int]));
            }
            i = i + 1;
        }
        assert(self.labels@.take(self.labels.len() as int) =~= self.labels@);
        match self.editable_label {
            Some(e) => to_remove.push(e),
            None => {},
        }
        assert(to_remove@ =~= start + self.labels@ + seq![self.editable_label.unwrap()]);
        to_remove
    }

    /// The picker keeps all other input to itself.
    pub fn blocks_all_other_input(&self) -> (r: bool)
        ensures
            r,
    {
        true
    }

    /// The picker is done and should be removed.
    pub fn should_destroy(&self) -> (r: bool)
        ensures
            r == self.should_destroy,
    {
        self.should_destroy
    }

    /// The pointer entered a button: its name gets the highlight.
    pub fn hover_start(&mut self, button: &FilePickerButton)
        ensures
            final(self).ui_index == (FilePickerUiIndex { index: button.id, ..old(self).ui_index }),
            final(self).labels == old(self).labels,
            final(self).editable_label == old(self).editable_label,
            final(self).should_destroy == old(self).should_destroy,
    {
        self.ui_index.index = button.id;
    }

    /// A click: the editable name deselects; a name gets selected, and the
    /// result is the pair of labels (the clicked one, the editable one) whose
    /// text is to be copied from the first to the second.
    pub fn handle_click(&mut self, button: &FilePickerButton) -> (r: Option<(u32, u32)>)
        requires
            old(self).editable_label.is_some(),
            button.file_picker_button_type == FilePickerButtonType::Label ==> button.id < old(self).labels.len(),
        ensures
            final(self).labels == old(self).labels,
            final(self).editable_label == old(self).editable_label,
            final(self).should_destroy == old(self).should_destroy,
            button.file_picker_button_type == FilePickerButtonType::EditableLabel ==> r.is_none()
                && final(self).ui_index == (FilePickerUiIndex { selected_index: None, ..old(self).ui_index }),
            button.file_picker_button_type == FilePickerButtonType::Label ==> r == Some(
                (old(self).labels@[button.id as int], old(self).editable_label.unwrap()),
            ) && final(self).ui_index == (FilePickerUiIndex { selected_index: Some(button.id), ..old(self).ui_index }),
    {
        match button.file_picker_button_type {
            FilePickerButtonType::EditableLabel => {
                self.ui_index.selected_index = None;
                return None;
            },
            _ => {},
        }
        self.ui_index.selected_index = Some(button.id);
        let label_entity = self.labels[button.id];
        match self.editable_label {
            Some(editable_entity) => Some((label_entity, editable_entity)),
            None => None,
        }
    }

    /// Keyboard input on the picker: `start` closes it, and the name typed in
    /// the editable label (`editable_text`, when it has one) becomes the chosen
    /// file name; while the editable name has the keyboard nothing else is
    /// read; otherwise the arrows move the highlight, `accept` clicks the
    /// highlighted name and `cancel` closes the picker. The result is the
    /// click's pair of labels, if any.
    pub fn handle_input(
        &mut self,
        start: bool,
        editable_selected: bool,
        horizontal: AxisSign,
        vertical: AxisSign,
        accept: bool,
        cancel: bool,
        editable_text: &Option<String>,
        filename: &mut FilePickerFilename,
    ) -> (r: Option<(u32, u32)>)
        requires
            old(self).wf(),
        ensures
            final(self).wf(),
            final(filename).full_path@ == old(filename).full_path@,
            final(filename).filename@ == (match editable_text {
                Some(text) => if start {
                    text@
                } else {
                    old(filename).filename@
                },
                None => old(filename).filename@,
            }),
            final(self).labels == old(self).labels,
            final(self).editable_label == old(self).editable_label,
            editable_selected ==> r.is_none() && final(self).ui_index == old(self).ui_index
                && final(self).should_destroy == (old(self).should_destroy || start),
            !editable_selected ==> ({
                let moved = old(self).ui_index.spec_navigate(horizontal, vertical);
                &&& final(self).should_destroy == (old(self).should_destroy || start || cancel)
                &&& accept ==> r == Some((old(self).labels@[moved.index as int], old(self).editable_label.unwrap()))
                    && final(self).ui_index == (FilePickerUiIndex { selected_index: Some(moved.index), ..moved })
                &&& !accept ==> r.is_none() && final(self).ui_index == moved
            }),
    {
        if start {
            match editable_text {
                Some(text) => {
                    filename.filename = text.clone();
                },
                None => {},
            }
            self.should_destroy = true;
        }
        if editable_selected {
            return None;
        }
        self.ui_index.navigate(horizontal, vertical);
        let mut result = None;
        if accept {
            let button_info = FilePickerButton::new(FilePickerButtonType::Label, self.ui_index.index);
            result = self.handle_click(&button_info);
        }
        if cancel {
            self.should_destroy = true;
        }
        result
    }

    /// How the label at `i` is highlighted.
    pub fn label_highlight(&self, i: usize) -> (r: LabelHighlight)
        ensures
            r == ({
                let selected = match self.ui_index.selected_index {
                    Some(s) => s,
                    None => NO_SELECTION,
                };
                if i == selected && selected == self.ui_index.index {
                    LabelHighlight::SelectedAndHighlighted
                } else if i == selected {
                    LabelHighlight::Selected
                } else if i == self.ui_index.index {
                    LabelHighlight::Highlighted
                } else {
                    LabelHighlight::Plain
                }
            }),
    {
        let selected_index = match self.ui_index.selected_index {
            Some(s) => s,
            None => NO_SELECTION,
        };
        if i == selected_index && selected_index == self.ui_index.index {
            LabelHighlight::SelectedAndHighlighted
        } else if i == selected_index {
            LabelHighlight::Selected
        } else if i == self.ui_index.index {
            LabelHighlight::Highlighted
        } else {
            LabelHighlight::Plain
        }
    }
}

} // verus!
