//! The editor's property panel: rows of a label between a left and a right
//! arrow, which change the object that is about to be placed.
use vstd::prelude::*;

use crate::components::editor::EditorState;
use crate::components::game::{AnimatedTile, SerializedObject, SerializedObjectType, SpriteRenderData, Player};
use crate::utils::{AxisSign, EnumCycle};

verus! {

/// Row of the first property that depends on the kind of object.
pub const START_ID: usize = 4;

/// Number of rows in the panel.
pub const ROW_COUNT: usize = 10;

/// The part of a row a button is.
#[derive(Clone, Copy, Debug, PartialEq, Eq, Structural)]
pub enum EditorButtonType {
    Label,
    RightArrow,
    LeftArrow,
}

impl Default for EditorButtonType {
    fn default() -> (r: Self)
        ensures
            r == EditorButtonType::Label,
    {
        EditorButtonType::Label
    }
}

/// A button of the panel: which part of which row.
#[derive(Clone, Copy, Debug, PartialEq, Eq, Structural)]
pub struct EditorButton {
    pub editor_button_type: EditorButtonType,
    pub id: usize,
}

impl EditorButton {
    pub fn new(editor_button_type: EditorButtonType, id: usize) -> (r: EditorButton)
        ensures
            r == (EditorButton { editor_button_type, id }),
    {
        EditorButton { editor_button_type, id }
    }
}

/// The highlighted row, and whether the panel has the focus.
#[derive(Clone, Copy, Debug, PartialEq, Eq, Structural)]
pub struct UiIndex {
    pub index: usize,
    pub active: bool,
}

impl Default for UiIndex {
    fn default() -> (r: Self)
        ensures
            r == (UiIndex { index: 0, active: false }),
    {
        UiIndex { index: 0, active: false }
    }
}

/// The step an arrow makes: back for the left one, forward otherwise.
pub open spec fn arrow_step(t: EditorButtonType) -> int {
    if t == EditorButtonType::LeftArrow {
        -1
    } else {
        1
    }
}

/// Sprite number after a click on the sprite-number row: the right arrow
/// steps forward up to the last sprite of the sheet, the left one back down to zero.
pub open spec fn sprite_after_click(sprite: SpriteRenderData, t: EditorButtonType, sprite_count: usize) -> SpriteRenderData {
    SpriteRenderData {
        number: match t {
            EditorButtonType::Label => sprite.number,
            EditorButtonType::RightArrow => if sprite.number + 1 <= sprite_count - 1 {
                (sprite.number + 1) as usize
            } else {
                (sprite_count - 1) as usize
            },
            EditorButtonType::LeftArrow => if sprite.number != 0 {
                (sprite.number - 1) as usize
            } else {
                sprite.number
            },
        },
        ..sprite
    }
}

/// The animation's frame count after an arrow click: one step, kept between
/// zero and the sprites that follow the tile's own in its sheet.
pub open spec fn frames_after_click(
    frames: usize,
    t: EditorButtonType,
    sprite: Option<SpriteRenderData>,
    sprite_count: usize,
) -> usize {
    let result = arrow_step(t) + (frames as i32);
    let clamped = match sprite {
        Some(sp) => {
            let max = (sprite_count as i32) - ((sp.number as i32) + 1);
            let low = if result < 0 { 0 } else { result };
            if low < max { low } else { max }
        },
        None => result,
    };
    (clamped as i32) as usize
}

/// The object after a click on a button of the panel: the sprite-sheet row
/// cycles the sheet, the sprite-number row steps the number, the first kind
/// row turns a tile's animation or a character's player control on or off,
/// and the next one steps the animation's frame count. The size rows and the
/// animation speed row are not handled here.
pub open spec fn object_after_click(o: SerializedObject, b: EditorButton, sprite_count: usize) -> SerializedObject {
    let t = b.editor_button_type;
    let o1 = if b.id == 2 && o.sprite.is_some() {
        SerializedObject {
            sprite: Some(SpriteRenderData {
                sheet: match t {
                    EditorButtonType::Label => o.sprite.unwrap().sheet,
                    EditorButtonType::RightArrow => o.sprite.unwrap().sheet.cycle_next(),
                    EditorButtonType::LeftArrow => o.sprite.unwrap().sheet.cycle_prev(),
                },
                ..o.sprite.unwrap()
            }),
            ..o
        }
    } else if b.id == 3 && o.sprite.is_some() {
        SerializedObject { sprite: Some(sprite_after_click(o.sprite.unwrap(), t, sprite_count)), ..o }
    } else {
        o
    };
    if t == EditorButtonType::Label {
        o1
    } else {
        match o1.object_type {
            SerializedObjectType::StaticTile { animation } => if b.id == START_ID {
                SerializedObject {
                    object_type: SerializedObjectType::StaticTile {
                        animation: if animation.is_some() {
                            None
                        } else {
                            Some(AnimatedTile { num_frames: 0, time_per_frame: 0 })
                        },
                    },
                    ..o1
                }
            } else if b.id == START_ID + 1 && animation.is_some() {
                SerializedObject {
                    object_type: SerializedObjectType::StaticTile {
                        animation: Some(AnimatedTile {
                            num_frames: frames_after_click(animation.unwrap().num_frames, t, o.sprite, sprite_count),
                            ..animation.unwrap()
                        }),
                    },
                    ..o1
                }
            } else {
                o1
            },
            SerializedObjectType::Player { is_player } => if b.id == START_ID {
                SerializedObject {
                    object_type: SerializedObjectType::Player { is_player: Player(!is_player.0) },
                    ..o1
                }
            } else {
                o1
            },
        }
    }
}

/// A click can be handled without an arithmetic overflow.
pub open spec fn click_in_range(o: SerializedObject, b: EditorButton, sprite_count: usize) -> bool {
    &&& (b.id == 3 && b.editor_button_type == EditorButtonType::RightArrow && o.sprite.is_some()) ==> {
        &&& sprite_count >= 1
        &&& o.sprite.unwrap().number < usize::MAX
    }
    &&& (b.id == START_ID + 1 && b.editor_button_type != EditorButtonType::Label) ==> match o.object_type {
        SerializedObjectType::StaticTile { animation: Some(anim) } => {
            &&& i32::MIN <= arrow_step(b.editor_button_type) + (anim.num_frames as i32) <= i32::MAX
            &&& o.sprite.is_some() ==> {
                &&& (o.sprite.unwrap().number as i32) < i32::MAX
                &&& i32::MIN <= (sprite_count as i32) - ((o.sprite.unwrap().number as i32) + 1) <= i32::MAX
            }
        },
        _ => true,
    }
}

/// The property panel of the editor; its entities are held by id.
pub struct EditorFieldUiComponents {
    pub labels: Vec<u32>,
    pub left_arrows: Vec<u32>,
    pub right_arrows: Vec<u32>,
    pub ui_index: UiIndex,
}

impl EditorFieldUiComponents {
    /// A panel of the given entities, with the first row highlighted and no focus.
    pub fn new(labels: Vec<u32>, left_arrows: Vec<u32>, right_arrows: Vec<u32>) -> (r: Self)
        ensures
            r.labels@ == labels@,
            r.left_arrows@ == left_arrows@,
            r.right_arrows@ == right_arrows@,
            r.ui_index == (UiIndex { index: 0, active: false }),
    {
        EditorFieldUiComponents { labels, left_arrows, right_arrows, ui_index: UiIndex::default() }
    }

    /// Adds the panel's entities to those to remove: labels, then left arrows, then right arrows.
    pub fn entities_to_remove(&self, to_remove: Vec<u32>) -> (r: Vec<u32>)
        ensures
            r@ == to_remove@ + self.labels@ + self.left_arrows@ + self.right_arrows@,
    {
        let mut to_remove = to_remove;
        let ghost start = to_remove@;
        let mut i: usize = 0;
        while i < self.labels.len()
            invariant
                i <= self.labels.len(),
                to_remove@ == start + self.labels@.take(i as int),
            decreases self.labels.len() - i,
        {
            to_remove.push(self.labels[i]);
            proof {
                assert(self.labels@.take(i + 1) =~= self.labels@.take(i as int).push(self.labels@[i as int]));
            }
            i = i + 1;
        }
        assert(self.labels@.take(self.labels.len() as int) =~= self.labels@);
        let ghost mid = to_remove@;
        let mut i: usize = 0;
        while i < self.left_arrows.len()
            invariant
                i <= self.left_arrows.len(),
                to_remove@ == mid + self.left_arrows@.take(i as int),
            decreases self.left_arrows.len() - i,
        {
            to_remove.push(self.left_arrows[i]);
            proof {
                assert(self.left_arrows@.take(i + 1) =~= self.left_arrows@.take(i as int).push(self.left_arrows@[i as int]));
            }
            i = i + 1;
        }
        assert(self.left_arrows@.take(self.left_arrows.len() as int) =~= self.left_arrows@);
        let ghost last = to_remove@;
        let mut i: usize = 0;
        while i < self.right_arrows.len()
            invariant
                i <= self.right_arrows.len(),
                to_remove@ == last + self.right_arrows@.take(i as int),
            decreases self.right_arrows.len() - i,
        {
            to_remove.push(self.right_arrows[i]);
            proof {
                assert(self.right_arrows@.take(i + 1) =~= self.right_arrows@.take(i as int).push(self.right_arrows@[i as int]));
            }
            i = i + 1;
        }
        assert(self.right_arrows@.take(self.right_arrows.len() as int) =~= self.right_arrows@);
        to_remove
    }

    /// The panel takes input only while an object is being edited or inserted.
    pub fn should_capture_input(state: EditorState) -> (r: bool)
        ensures
            r == (state != EditorState::EditMode),
    {
        match state {
            EditorState::EditGameObject | EditorState::InsertMode => true,
            EditorState::EditMode => false,
        }
    }

    /// The pointer entered a button: its row is highlighted and the panel has the focus.
    pub fn hover_start(&mut self, button: &EditorButton)
        ensures
            final(self).ui_index == (UiIndex { index: button.id, active: true }),
            final(self).labels == old(self).labels,
            final(self).left_arrows == old(self).left_arrows,
            final(self).right_arrows == old(self).right_arrows,
    {
        self.ui_index.active = true;
        self.ui_index.index = button.id;
    }

    /// The pointer left a button: the panel loses the focus.
    pub fn hover_stop(&mut self)
        ensures
            final(self).ui_index == (UiIndex { active: false, ..old(self).ui_index }),
            final(self).labels == old(self).labels,
            final(self).left_arrows == old(self).left_arrows,
            final(self).right_arrows == old(self).right_arrows,
    {
        self.ui_index.active = false;
    }

    /// A click on a button: its row gets highlighted and the focus, and the
    /// object about to be placed changes as `object_after_click` says.
    pub fn handle_click(&mut self, button: &EditorButton, object: &mut SerializedObject, sprite_count: usize)
        requires
            click_in_range(*old(object), *button, sprite_count),
        ensures
            final(self).ui_index == (UiIndex { index: button.id, active: true }),
            final(self).labels == old(self).labels,
            final(self).left_arrows == old(self).left_arrows,
            final(self).right_arrows == old(self).right_arrows,
            *final(object) == object_after_click(*old(object), *button, sprite_count),
    {
        self.ui_index.index = button.id;
        self.ui_index.active = true;
        let sprite_render = object.sprite;
        if button.id == 2 {
            if let Some(sprite) = object.sprite {
                let sheet = match button.editor_button_type {
                    EditorButtonType::Label => sprite.sheet,
                    EditorButtonType::RightArrow => sprite.sheet.next(),
                    EditorButtonType::LeftArrow => sprite.sheet.prev(),
                };
                object.sprite = Some(SpriteRenderData { sheet, number: sprite.number });
            }
        } else if button.id == 3 {
            if let Some(sprite) = object.sprite {
                let number = match button.editor_button_type {
                    EditorButtonType::Label => sprite.number,
                    EditorButtonType::RightArrow => {
                        let next = sprite.number + 1;
                        let last = sprite_count - 1;
                        if next <= last {
                            next
                        } else {
                            last
                        }
                    },
                    EditorButtonType::LeftArrow => {
                        if sprite.number != 0 {
                            sprite.number - 1
                        } else {
                            sprite.number
                        }
                    },
                };
                object.sprite = Some(SpriteRenderData { sheet: sprite.sheet, number });
            }
        }
        match button.editor_button_type {
            EditorButtonType::Label => {},
            EditorButtonType::RightArrow | EditorButtonType::LeftArrow => {
                let sign: i32 = match button.editor_button_type {
                    EditorButtonType::LeftArrow => -1,
                    _ => 1,
                };
                match object.object_type {
                    SerializedObjectType::StaticTile { animation } => {
                        if button.id == START_ID {
                            if animation.is_some() {
                                object.object_type = SerializedObjectType::StaticTile { animation: None };
                            } else {
                                object.object_type = SerializedObjectType::StaticTile {
                                    animation: Some(AnimatedTile::default()),
                                };
                            }
                        } else if button.id == START_ID + 1 {
                            if let Some(anim) = animation {
                                let mut result: i32 = sign + anim.num_frames as i32;
                                if let Some(sprite) = sprite_render {
                                    let max: i32 = sprite_count as i32 - (sprite.number as i32 + 1);
                                    if result < 0 {
                                        result = 0;
                                    }
                                    if result > max {
                                        result = max;
                                    }
                                }
                                object.object_type = SerializedObjectType::StaticTile {
                                    animation: Some(AnimatedTile {
                                        num_frames: result as usize,
                                        time_per_frame: anim.time_per_frame,
                                    }),
                                };
                            }
                        }
                    },
                    SerializedObjectType::Player { is_player } => {
                        if button.id == START_ID {
                            object.object_type = SerializedObjectType::Player { is_player: Player(!is_player.0) };
                        }
                    },
                }
            },
        }
    }
}

/// The arrow an axis points at: right for a positive axis, left for a negative one.
pub open spec fn arrow_for(horizontal: AxisSign) -> EditorButtonType {
    match horizontal {
        AxisSign::Positive => EditorButtonType::RightArrow,
        AxisSign::Negative => EditorButtonType::LeftArrow,
        AxisSign::Zero => EditorButtonType::Label,
    }
}

/// The highlighted row after a vertical move while the modifier is held: up
/// moves to the previous row (not past the first), down to the next one.
pub open spec fn row_after_move(index: usize, vertical: AxisSign) -> usize {
    match vertical {
        AxisSign::Positive => if index > 0 { (index - 1) as usize } else { index },
        AxisSign::Negative => (index + 1) as usize,
        AxisSign::Zero => index,
    }
}

/// Number of property rows the panel shows for an object: four general ones,
/// then for a tile whether it is animated (and, if it is, its frame count and
/// speed), for a character whether the player controls it.
pub open spec fn spec_property_rows(o: SerializedObject) -> usize {
    match o.object_type {
        SerializedObjectType::StaticTile { animation } => if animation.is_some() { 7 } else { 5 },
        SerializedObjectType::Player { .. } => 5,
    }
}

impl EditorFieldUiComponents {
    /// Keyboard input on the panel while an object is edited or inserted: with
    /// the modifier held the panel takes the focus, the vertical axis moves the
    /// highlighted row and the horizontal one clicks that row's arrow; on the
    /// update the modifier is released the panel loses the focus.
    pub fn handle_input(
        &mut self,
        state: EditorState,
        modifier_down: bool,
        modifier_just_released: bool,
        horizontal: AxisSign,
        vertical: AxisSign,
        object: &mut SerializedObject,
        sprite_count: usize,
    )
        requires
            state != EditorState::EditMode && modifier_down && vertical == AxisSign::Negative
                ==> old(self).ui_index.index < usize::MAX,
            state != EditorState::EditMode && modifier_down && horizontal != AxisSign::Zero ==> click_in_range(
                *old(object),
                EditorButton {
                    editor_button_type: arrow_for(horizontal),
                    id: row_after_move(old(self).ui_index.index, vertical),
                },
                sprite_count,
            ),
        ensures
            final(self).labels == old(self).labels,
            final(self).left_arrows == old(self).left_arrows,
            final(self).right_arrows == old(self).right_arrows,
            state == EditorState::EditMode ==> final(self).ui_index == old(self).ui_index && *final(object) == *old(object),
            state != EditorState::EditMode && modifier_down ==> final(self).ui_index == (UiIndex {
                index: row_after_move(old(self).ui_index.index, vertical),
                active: true,
            }),
            state != EditorState::EditMode && modifier_down ==> *final(object) == (if horizontal == AxisSign::Zero {
                *old(object)
            } else {
                object_after_click(
                    *old(object),
                    EditorButton {
                        editor_button_type: arrow_for(horizontal),
                        id: row_after_move(old(self).ui_index.index, vertical),
                    },
                    sprite_count,
                )
            }),
            state != EditorState::EditMode && !modifier_down ==> *final(object) == *old(object)
                && final(self).ui_index == (if modifier_just_released {
                UiIndex { active: false, ..old(self).ui_index }
            } else {
                old(self).ui_index
            }),
    {
        match state {
            EditorState::EditGameObject | EditorState::InsertMode => {
                if modifier_down {
                    self.ui_index.active = true;
                    match vertical {
                        AxisSign::Positive => {
                            if self.ui_index.index > 0 {
                                self.ui_index.index = self.ui_index.index - 1;
                            }
                        },
                        AxisSign::Negative => {
                            self.ui_index.index = self.ui_index.index + 1;
                        },
                        AxisSign::Zero => {},
                    }
                    let arrow_direction = match horizontal {
                        AxisSign::Positive => EditorButtonType::RightArrow,
                        AxisSign::Negative => EditorButtonType::LeftArrow,
                        AxisSign::Zero => EditorButtonType::Label,
                    };
                    match arrow_direction {
                        EditorButtonType::RightArrow | EditorButtonType::LeftArrow => {
                            let button_action = EditorButton::new(arrow_direction, self.ui_index.index);
                            self.handle_click(&button_action, object, sprite_count);
                        },
                        _ => {},
                    }
                } else if modifier_just_released {
                    self.ui_index.active = false;
                }
            },
            _ => {},
        }
    }

    /// Number of property rows the panel shows for an object.
    pub fn property_rows(object: &SerializedObject) -> (r: usize)
        ensures
            r == spec_property_rows(*object),
    {
        let mut counter: usize = START_ID;
        match object.object_type {
            SerializedObjectType::StaticTile { animation } => {
                counter = counter + 1;
                if animation.is_some() {
                    counter = counter + 2;
                }
            },
            SerializedObjectType::Player { .. } => {
                counter = counter + 1;
            },
        }
        counter
    }

    /// Keeps the highlighted row among the `row_count` rows shown.
    pub fn limit_index(&mut self, row_count: usize)
        requires
            row_count >= 1,
        ensures
            final(self).ui_index == (UiIndex {
                index: if old(self).ui_index.index < row_count { old(self).ui_index.index } else { (row_count - 1) as usize },
                ..old(self).ui_index
            }),
            final(self).labels == old(self).labels,
            final(self).left_arrows == old(self).left_arrows,
            final(self).right_arrows == old(self).right_arrows,
    {
        let last = row_count - 1;
        if self.ui_index.index > last {
            self.ui_index.index = last;
        }
    }
}

/// Clicking a label changes nothing of the object.
pub proof fn lemma_label_click_keeps_object(o: SerializedObject, id: usize, sprite_count: usize)
    ensures
        object_after_click(o, EditorButton { editor_button_type: EditorButtonType::Label, id }, sprite_count) == o,
{
    if id == 2 && o.sprite.is_some() {
        assert(o.sprite.unwrap() == SpriteRenderData { sheet: o.sprite.unwrap().sheet, ..o.sprite.unwrap() });
    }
}

/// The right arrow of the sprite-sheet row undoes the left one, and the other way round.
pub proof fn lemma_sheet_arrows_undo(o: SerializedObject, sprite_count: usize)
    requires
        o.sprite.is_some(),
    ensures
        object_after_click(
            object_after_click(o, EditorButton { editor_button_type: EditorButtonType::LeftArrow, id: 2 }, sprite_count),
            EditorButton { editor_button_type: EditorButtonType::RightArrow, id: 2 },
            sprite_count,
        ) == o,
        object_after_click(
            object_after_click(o, EditorButton { editor_button_type: EditorButtonType::RightArrow, id: 2 }, sprite_count),
            EditorButton { editor_button_type: EditorButtonType::LeftArrow, id: 2 },
            sprite_count,
        ) == o,
{
    crate::components::graphics::lemma_sprite_sheet_cycle(o.sprite.unwrap().sheet);
}

/// Clicking an arrow of the first kind row twice gives back the object: it
/// turns a tile's animation, or a character's player control, off and on.
pub proof fn lemma_kind_toggle_twice(o: SerializedObject, t: EditorButtonType, sprite_count: usize)
    requires
        t != EditorButtonType::Label,
        o.object_type matches SerializedObjectType::StaticTile { animation } ==> (animation.is_none() || animation
            == Some(AnimatedTile { num_frames: 0, time_per_frame: 0 })),
    ensures
        object_after_click(
            object_after_click(o, EditorButton { editor_button_type: t, id: START_ID }, sprite_count),
            EditorButton { editor_button_type: t, id: START_ID },
            sprite_count,
        ) == o,
{
}

/// The frame count an arrow click leaves is never negative and never passes
/// the sprites that follow the tile's own, when there are any.
pub proof fn lemma_frames_stay_in_sheet(frames: usize, t: EditorButtonType, sprite: SpriteRenderData, sprite_count: usize)
    requires
        t != EditorButtonType::Label,
        sprite.number < sprite_count <= i32::MAX,
        frames <= i32::MAX - 1,
    ensures
        frames_after_click(frames, t, Some(sprite), sprite_count) + sprite.number < sprite_count,
{
}

} // verus!
