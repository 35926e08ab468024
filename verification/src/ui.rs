//! The editor's user interfaces, kept on a stack that decides which of them
//! sees an event and which are done.
pub mod current_actions;
pub mod file_picker;
pub mod tile_characteristics;

use vstd::prelude::*;

use crate::components::editor::EditorState;
use crate::ui::current_actions::{ActionPackage, CurrentActionsUi};
use crate::ui::file_picker::FilePickerUi;
use crate::ui::tile_characteristics::EditorFieldUiComponents;

verus! {

/// A user interface on the editor's stack.
pub enum UiLayer {
    CurrentActions(CurrentActionsUi),
    TileCharacteristics(EditorFieldUiComponents),
    FilePicker(FilePickerUi),
}

/// The key and label entities of a list of actions, action by action.
pub open spec fn action_entities(labels: Seq<ActionPackage>) -> Seq<u32> {
    Seq::new(
        (2 * labels.len()) as nat,
        |k: int|
            if k % 2 == 0 {
                labels[k / 2].button
            } else {
                labels[k / 2].label
            },
    )
}

impl UiLayer {
    /// A file picker knows its editable name.
    pub open spec fn wf(&self) -> bool {
        match self {
            UiLayer::FilePicker(f) => f.editable_label.is_some(),
            _ => true,
        }
    }

    /// Only the file picker keeps all input to itself.
    pub open spec fn spec_blocks(&self) -> bool {
        self is FilePicker
    }

    /// The property panel takes input only outside edit mode; the others always do.
    pub open spec fn spec_captures(&self, state: EditorState) -> bool {
        match self {
            UiLayer::TileCharacteristics(_) => state != EditorState::EditMode,
            _ => true,
        }
    }

    /// Only a file picker can be done.
    pub open spec fn spec_destroy(&self) -> bool {
        match self {
            UiLayer::FilePicker(f) => f.should_destroy,
            _ => false,
        }
    }

    /// The entities the interface is drawn with, in the order they are removed.
    pub open spec fn spec_entities(&self) -> Seq<u32> {
        match self {
            UiLayer::CurrentActions(c) => action_entities(c.labels@),
            UiLayer::TileCharacteristics(t) => t.labels@ + t.left_arrows@ + t.right_arrows@,
            UiLayer::FilePicker(f) => f.labels@ + seq![f.editable_label.unwrap()],
        }
    }

    pub fn blocks_all_other_input(&self) -> (r: bool)
        ensures
            r == self.spec_blocks(),
    {
        match self {
            UiLayer::FilePicker(f) => f.blocks_all_other_input(),
            _ => false,
        }
    }

    pub fn should_capture_input(&self, state: EditorState) -> (r: bool)
        ensures
            r == self.spec_captures(state),
    {
        match self {
            UiLayer::TileCharacteristics(_) => EditorFieldUiComponents::should_capture_input(state),
            _ => true,
        }
    }

    pub fn should_destroy(&self) -> (r: bool)
        ensures
            r == self.spec_destroy(),
    {
        match self {
            UiLayer::FilePicker(f) => f.should_destroy(),
            _ => false,
        }
    }

    /// Adds the interface's entities to those to remove.
    pub fn entities_to_remove(&self, to_remove: Vec<u32>) -> (r: Vec<u32>)
        requires
            self.wf(),
        ensures
            r@ == to_remove@ + self.spec_entities(),
    {
        match self {
            UiLayer::CurrentActions(c) => {
                let ghost start = to_remove@;
                let r = c.entities_to_remove(to_remove);
                assert forall|k: int| 0 <= k < r@.len() implies #[trigger] r@[k] == (start + action_entities(c.labels@))[k] by {
                    if k < start.len() {
                        assert(r@.take(start.len() as int)[k] == r@[k]);
                    } else {
                        let i = (k - start.len()) / 2;
                        assert(0 <= i < c.labels.len());
                        let p = c.labels@[i];
                        assert(r@[start.len() + 2 * i] == p.button && r@[start.len() + 2 * i + 1] == p.label);
                    }
                }
                assert(r@ =~= start + action_entities(c.labels@));
                r
            },
            UiLayer::TileCharacteristics(t) => t.entities_to_remove(to_remove),
            UiLayer::FilePicker(f) => f.entities_to_remove(to_remove),
        }
    }
}

/// The editor's user interfaces, the first one on top.
pub struct UiStack {
    pub stack: Vec<UiLayer>,
}

/// The interface at `i` sees an event: it takes input in this state, and no
/// interface before it both takes input and keeps all of it.
pub open spec fn receives(layers: Seq<UiLayer>, state: EditorState, i: int) -> bool {
    &&& layers[i].spec_captures(state)
    &&& forall|j: int| 0 <= j < i ==> !(#[trigger] layers[j].spec_captures(state) && layers[j].spec_blocks())
}

/// The interfaces that are not done, in order.
pub open spec fn kept_layers(layers: Seq<UiLayer>) -> Seq<UiLayer>
    decreases layers.len(),
{
    if layers.len() == 0 {
        Seq::empty()
    } else {
        (if layers[0].spec_destroy() {
            Seq::empty()
        } else {
            seq![layers[0]]
        }) + kept_layers(layers.drop_first())
    }
}

/// The entities of the interfaces that are done, the last interface's first.
pub open spec fn removed_entities(layers: Seq<UiLayer>) -> Seq<u32>
    decreases layers.len(),
{
    if layers.len() == 0 {
        Seq::empty()
    } else {
        removed_entities(layers.drop_first()) + (if layers[0].spec_destroy() {
            layers[0].spec_entities()
        } else {
            Seq::empty()
        })
    }
}

impl UiStack {
    pub open spec fn wf(&self) -> bool {
        forall|i: int| 0 <= i < self.stack@.len() ==> (#[trigger] self.stack@[i]).wf()
    }

    /// An empty stack.
    pub fn new() -> (r: Self)
        ensures
            r.stack@.len() == 0,
            r.wf(),
    {
        UiStack { stack: Vec::new() }
    }

    /// The interface on top.
    pub fn top(&self) -> (r: &UiLayer)
        requires
            self.stack@.len() > 0,
        ensures
            *r == self.stack@[0],
    {
        &self.stack[0]
    }

    /// Some interface keeps all input to itself.
    pub fn is_blocking_all_input(&self) -> (r: bool)
        ensures
            r == exists|i: int| 0 <= i < self.stack@.len() && (#[trigger] self.stack@[i]).spec_blocks(),
    {
        let mut i: usize = 0;
        while i < self.stack.len()
            invariant
                i <= self.stack.len(),
                forall|j: int| 0 <= j < i ==> !(#[trigger] self.stack@[j]).spec_blocks(),
            decreases self.stack.len() - i,
        {
            if self.stack[i].blocks_all_other_input() {
                return true;
            }
            i = i + 1;
        }
        false
    }

    /// The positions of the interfaces an event goes to, in stack order.
    pub fn receivers(&self, state: EditorState) -> (r: Vec<usize>)
        ensures
            forall|k: int| 0 <= k < r@.len() ==> r@[k] < self.stack@.len() && receives(self.stack@, state, r@[k] as int),
            forall|k1: int, k2: int| 0 <= k1 < k2 < r@.len() ==> r@[k1] < r@[k2],
            forall|i: int| 0 <= i < self.stack@.len() && receives(self.stack@, state, i) ==> r@.contains(i as usize),
    {
        let mut r: Vec<usize> = Vec::new();
        let mut i: usize = 0;
        while i < self.stack.len()
            invariant
                i <= self.stack.len(),
                forall|j: int| 0 <= j < i ==> !(#[trigger] self.stack@[j].spec_captures(state) && self.stack@[j].spec_blocks()),
                forall|k: int| 0 <= k < r@.len() ==> r@[k] < i && receives(self.stack@, state, r@[k] as int),
                forall|k1: int, k2: int| 0 <= k1 < k2 < r@.len() ==> r@[k1] < r@[k2],
                forall|j: int| 0 <= j < i && receives(self.stack@, state, j) ==> r@.contains(j as usize),
            decreases self.stack.len() - i,
        {
            let layer = &self.stack[i];
            if layer.should_capture_input(state) {
                let ghost before = r@;
                r.push(i);
                proof {
                    assert(r@[r@.len() - 1] == i);
                    assert forall|j: int| 0 <= j <= i && receives(self.stack@, state, j) implies r@.contains(j as usize) by {
                        if j == i {
                            assert(r@[r@.len() - 1] == j as usize);
                        } else {
                            assert(before.contains(j as usize));
                            let k = choose|k: int| 0 <= k < before.len() && before[k] == j as usize;
                            assert(r@[k] == j as usize);
                        }
                    }
                }
                if layer.blocks_all_other_input() {
                    proof {
                        assert forall|j: int| 0 <= j < self.stack@.len() && receives(self.stack@, state, j) implies r@.contains(j as usize) by {
                            if j > i {
                                assert(self.stack@[i as int].spec_captures(state) && self.stack@[i as int].spec_blocks());
                            }
                        }
                    }
                    return r;
                }
            }
            i = i + 1;
        }
        r
    }

    /// Takes the interfaces that are done off the stack and returns their
    /// entities, to be removed: those of the lowest interface first.
    pub fn remove_destroyed(&mut self) -> (r: Vec<u32>)
        requires
            old(self).wf(),
        ensures
            final(self).stack@ == kept_layers(old(self).stack@),
            final(self).wf(),
            r@ == removed_entities(old(self).stack@),
    {
        let ghost layers = self.stack@;
        let mut entities: Vec<u32> = Vec::new();
        let mut i: usize = self.stack.len();
        proof {
            assert(layers.skip(i as int) =~= Seq::<UiLayer>::empty());
            assert(layers.take(i as int) =~= layers);
            assert(kept_layers(Seq::<UiLayer>::empty()) =~= Seq::<UiLayer>::empty());
            assert(self.stack@ =~= layers.take(i as int) + kept_layers(layers.skip(i as int)));
        }
        while i > 0
            invariant
                i <= layers.len(),
                forall|k: int| 0 <= k < layers.len() ==> (#[trigger] layers[k]).wf(),
                self.stack@ == layers.take(i as int) + kept_layers(layers.skip(i as int)),
                forall|k: int| 0 <= k < self.stack@.len() ==> (#[trigger] self.stack@[k]).wf(),
                entities@ == removed_entities(layers.skip(i as int)),
            decreases i,
        {
            i = i - 1;
            proof {
                assert(layers.skip(i as int).drop_first() =~= layers.skip(i + 1));
                assert(layers.skip(i as int)[0] == layers[i as int]);
                assert(layers.take(i + 1) =~= layers.take(i as int).push(layers[i as int]));
                assert(self.stack@[i as int] == layers[i as int]);
            }
            if self.stack[i].should_destroy() {
                let layer = self.stack.remove(i);
                proof {
                    assert(self.stack@ =~= layers.take(i as int) + kept_layers(layers.skip(i as int)));
                }
                entities = layer.entities_to_remove(entities);
            } else {
                proof {
                    assert(self.stack@ =~= layers.take(i as int) + kept_layers(layers.skip(i as int)));
                }
            }
        }
        proof {
            assert(layers.skip(0) =~= layers);
            assert(layers.take(0) =~= Seq::<UiLayer>::empty());
            assert(self.stack@ =~= kept_layers(layers));
        }
        entities
    }
}

/// While no interface keeps all input to itself, an event reaches exactly
/// the interfaces that take input.
pub proof fn lemma_no_blocker_reaches_all_capturing(layers: Seq<UiLayer>, state: EditorState, i: int)
    requires
        0 <= i < layers.len(),
        forall|j: int| 0 <= j < layers.len() ==> !(#[trigger] layers[j]).spec_blocks(),
    ensures
        receives(layers, state, i) == layers[i].spec_captures(state),
{
}

/// An interface that takes input and keeps all of it hides the events from
/// every interface after it.
pub proof fn lemma_blocker_hides_later_layers(layers: Seq<UiLayer>, state: EditorState, b: int, i: int)
    requires
        0 <= b < i < layers.len(),
        layers[b].spec_captures(state),
        layers[b].spec_blocks(),
    ensures
        !receives(layers, state, i),
{
}

/// No interface that is done stays on the stack, and every one that is not
/// done stays.
pub proof fn lemma_kept_layers_are_live(layers: Seq<UiLayer>)
    ensures
        forall|k: int| 0 <= k < kept_layers(layers).len() ==> !(#[trigger] kept_layers(layers)[k]).spec_destroy(),
        forall|k: int| 0 <= k < layers.len() && !(#[trigger] layers[k]).spec_destroy() ==> kept_layers(layers).contains(layers[k]),
    decreases layers.len(),
{
    if layers.len() > 0 {
        let rest = layers.drop_first();
        lemma_kept_layers_are_live(rest);
        let head: Seq<UiLayer> = if layers[0].spec_destroy() {
            Seq::empty()
        } else {
            seq![layers[0]]
        };
        assert(kept_layers(layers) == head + kept_layers(rest));
        assert forall|k: int| 0 <= k < kept_layers(layers).len() implies !(#[trigger] kept_layers(layers)[k]).spec_destroy() by {
            if k >= head.len() {
                assert(kept_layers(layers)[k] == kept_layers(rest)[k - head.len()]);
            }
        }
        assert forall|k: int| 0 <= k < layers.len() && !(#[trigger] layers[k]).spec_destroy() implies kept_layers(layers).contains(layers[k]) by {
            if k == 0 {
                assert(kept_layers(layers)[0] == layers[0]);
            } else {
                assert(rest[k - 1] == layers[k]);
                assert(kept_layers(rest).contains(layers[k]));
                let m = choose|m: int| 0 <= m < kept_layers(rest).len() && kept_layers(rest)[m] == layers[k];
                assert(kept_layers(layers)[m + head.len()] == layers[k]);
            }
        }
    }
}

} // verus!
