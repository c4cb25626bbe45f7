//! Linear undo/redo history over the annotation list.
//!
//! The history records reversible edits as [`HistoryAction`] values on two
//! stacks. Undoing an `Add` pops the list's last element; undoing a
//! `Remove` re-inserts the removed value. Any new forward edit clears the
//! redo stack. The whole behaviour of each operation is captured by the
//! spec transition functions below ([`undo_step`], [`redo_step`]), which
//! the laws at the end of this module reason about.

use vstd::prelude::*;

use crate::annotations::Annotation;

verus! {

/// One reversible edit of the annotation list.
#[derive(Debug, Clone, Copy)]
pub enum HistoryAction {
    /// An annotation was appended to the list.
    Add(Annotation),
    /// An annotation was removed from the given index.
    Remove(usize, Annotation),
}

/// The two stacks of linear undo/redo.
#[derive(Debug)]
pub struct History {
    undo_stack: Vec<HistoryAction>,
    redo_stack: Vec<HistoryAction>,
}

/// A history together with the annotation list it edits, as one
/// mathematical state. The spec transition functions below describe every
/// history operation as a function on this state.
pub struct EditorState {
    pub undo: Seq<HistoryAction>,
    pub redo: Seq<HistoryAction>,
    pub list: Seq<Annotation>,
}

/// The state of a freshly created (or freshly cleared) session.
pub open spec fn empty_state() -> EditorState {
    EditorState { undo: Seq::empty(), redo: Seq::empty(), list: Seq::empty() }
}

/// The combined state of a history and the list it governs.
pub open spec fn state_of(h: History, list: Seq<Annotation>) -> EditorState {
    EditorState { undo: h.undo_actions(), redo: h.redo_actions(), list }
}

/// Recording an appended annotation: pushes `Add` and invalidates redo.
pub open spec fn push_add_step(s: EditorState, a: Annotation) -> EditorState {
    EditorState { undo: s.undo.push(HistoryAction::Add(a)), redo: Seq::empty(), list: s.list }
}

/// Recording a removal: pushes `Remove` and invalidates redo.
pub open spec fn push_remove_step(s: EditorState, index: usize, a: Annotation) -> EditorState {
    EditorState {
        undo: s.undo.push(HistoryAction::Remove(index, a)),
        redo: Seq::empty(),
        list: s.list,
    }
}

/// Whether `undo` may run on this state without faulting: undoing a
/// recorded removal re-inserts at the recorded index, so that index must
/// still be within the list.
pub open spec fn undo_ok(s: EditorState) -> bool {
    s.undo.len() > 0 ==> match s.undo.last() {
        HistoryAction::Add(_) => true,
        HistoryAction::Remove(index, _) => index <= s.list.len(),
    }
}

/// One `undo`: pops the most recent action and reverses it. Undoing an
/// `Add` drops the list's last element (when there is one) and records the
/// dropped value for redo; undoing a `Remove` re-inserts the recorded
/// value. An empty undo stack leaves the state unchanged.
pub open spec fn undo_step(s: EditorState) -> EditorState {
    if s.undo.len() == 0 {
        s
    } else {
        match s.undo.last() {
            HistoryAction::Add(_) => EditorState {
                undo: s.undo.drop_last(),
                redo: if s.list.len() > 0 {
                    s.redo.push(HistoryAction::Add(s.list.last()))
                } else {
                    s.redo
                },
                list: if s.list.len() > 0 {
                    s.list.drop_last()
                } else {
                    s.list
                },
            },
            HistoryAction::Remove(index, a) => EditorState {
                undo: s.undo.drop_last(),
                redo: s.redo.push(HistoryAction::Remove(index, a)),
                list: s.list.insert(index as int, a),
            },
        }
    }
}

/// One `redo`: pops the most recent undone action and replays it. A
/// `Remove` whose recorded index is out of range skips the list mutation
/// but still moves back to the undo stack. An empty redo stack leaves the
/// state unchanged.
pub open spec fn redo_step(s: EditorState) -> EditorState {
    if s.redo.len() == 0 {
        s
    } else {
        match s.redo.last() {
            HistoryAction::Add(a) => EditorState {
                undo: s.undo.push(HistoryAction::Add(a)),
                redo: s.redo.drop_last(),
                list: s.list.push(a),
            },
            HistoryAction::Remove(index, a) => EditorState {
                undo: s.undo.push(HistoryAction::Remove(index, a)),
                redo: s.redo.drop_last(),
                list: if index < s.list.len() {
                    s.list.remove(index as int)
                } else {
                    s.list
                },
            },
        }
    }
}

/// One canvas commit: the annotation is appended to the list and recorded
/// with [`History::push_add`], which invalidates redo.
pub open spec fn commit_step(s: EditorState, a: Annotation) -> EditorState {
    EditorState {
        undo: s.undo.push(HistoryAction::Add(a)),
        redo: Seq::empty(),
        list: s.list.push(a),
    }
}

/// A whole sequence of commits, in order.
pub open spec fn commit_all(s: EditorState, anns: Seq<Annotation>) -> EditorState
    decreases anns.len(),
{
    if anns.len() == 0 {
        s
    } else {
        commit_step(commit_all(s, anns.drop_last()), anns.last())
    }
}

/// `n` undos in a row.
pub open spec fn undo_n(s: EditorState, n: nat) -> EditorState
    decreases n,
{
    if n == 0 {
        s
    } else {
        undo_n(undo_step(s), (n - 1) as nat)
    }
}

/// The undo records of a list whose every element was committed in order.
pub open spec fn adds_of(list: Seq<Annotation>) -> Seq<HistoryAction> {
    list.map_values(|a: Annotation| HistoryAction::Add(a))
}

/// Committing a sequence of annotations appends them to the list, records
/// one `Add` per annotation in order, and (if there was at least one)
/// leaves nothing to redo.
proof fn lemma_commit_all_shape(s: EditorState, anns: Seq<Annotation>)
    ensures
        commit_all(s, anns).list == s.list + anns,
        commit_all(s, anns).undo == s.undo + adds_of(anns),
        anns.len() > 0 ==> commit_all(s, anns).redo.len() == 0,
        anns.len() == 0 ==> commit_all(s, anns) == s,
    decreases anns.len(),
{
    if anns.len() == 0 {
        assert(s.list + anns =~= s.list);
        assert(s.undo + adds_of(anns) =~= s.undo);
    } else {
        lemma_commit_all_shape(s, anns.drop_last());
        assert((s.list + anns.drop_last()).push(anns.last()) =~= s.list + anns);
        assert((s.undo + adds_of(anns.drop_last())).push(HistoryAction::Add(anns.last())) =~= s.undo
            + adds_of(anns));
    }
}

/// In a state whose undo stack records exactly one `Add` per list element,
/// undoing once per element empties both the list and the undo stack.
proof fn lemma_undo_matched_adds(s: EditorState)
    requires
        s.undo == adds_of(s.list),
    ensures
        undo_n(s, s.list.len()).undo.len() == 0,
        undo_n(s, s.list.len()).list.len() == 0,
    decreases s.list.len(),
{
    if s.list.len() > 0 {
        let s1 = undo_step(s);
        assert(s.undo.last() == HistoryAction::Add(s.list.last()));
        assert(s1.list == s.list.drop_last());
        assert(s1.undo =~= adds_of(s1.list));
        lemma_undo_matched_adds(s1);
    }
}

/// Law: committing any sequence of annotations onto a fresh session and
/// then undoing the same number of times returns the annotation list to
/// its pre-sequence state (empty), with nothing left to undo.
pub proof fn lemma_commits_then_undos(anns: Seq<Annotation>)
    ensures
        undo_n(commit_all(empty_state(), anns), anns.len()).list.len() == 0,
        undo_n(commit_all(empty_state(), anns), anns.len()).undo.len() == 0,
{
    lemma_commit_all_shape(empty_state(), anns);
    let s = commit_all(empty_state(), anns);
    assert(s.list =~= anns);
    assert(s.undo =~= adds_of(s.list));
    lemma_undo_matched_adds(s);
}

/// Law: one undo followed by one redo restores the annotation list
/// exactly, for any single recorded action whose undo applies cleanly:
/// the list is non-empty when the recorded action is an `Add` (its tail
/// is what the `Add` appended), and a recorded `Remove`'s index is within
/// the list.
pub proof fn lemma_undo_redo_roundtrip(s: EditorState)
    requires
        s.undo.len() > 0,
        s.undo.last() matches HistoryAction::Add(_) ==> s.list.len() > 0,
        undo_ok(s),
    ensures
        redo_step(undo_step(s)).list == s.list,
{
    let s1 = undo_step(s);
    match s.undo.last() {
        HistoryAction::Add(_) => {
            assert(redo_step(s1).list =~= s.list);
        },
        HistoryAction::Remove(index, a) => {
            assert(s1.list == s.list.insert(index as int, a));
            assert(redo_step(s1).list =~= s.list);
        },
    }
}

/// Law: any new forward edit (recording an add or a remove) after an undo
/// clears the redo stack, so nothing can be redone.
pub proof fn lemma_new_edit_clears_redo(s: EditorState, index: usize, a: Annotation)
    ensures
        push_add_step(undo_step(s), a).redo.len() == 0,
        push_remove_step(undo_step(s), index, a).redo.len() == 0,
{
}

impl Default for History {
    /// A history with both stacks empty.
    fn default() -> (h: Self)
        ensures
            h.undo_actions() == Seq::<HistoryAction>::empty(),
            h.redo_actions() == Seq::<HistoryAction>::empty(),
    {
        History { undo_stack: Vec::new(), redo_stack: Vec::new() }
    }
}

impl History {
    /// The recorded actions that `undo` will pop, oldest first.
    pub closed spec fn undo_actions(&self) -> Seq<HistoryAction> {
        self.undo_stack@
    }

    /// The undone actions that `redo` will pop, oldest first.
    pub closed spec fn redo_actions(&self) -> Seq<HistoryAction> {
        self.redo_stack@
    }

    pub fn new() -> (h: Self)
        ensures
            h.undo_actions() == Seq::<HistoryAction>::empty(),
            h.redo_actions() == Seq::<HistoryAction>::empty(),
    {
        Self::default()
    }

    /// Record that `annotation` was appended to the list.
    pub fn push_add(&mut self, annotation: Annotation)
        ensures
            final(self).undo_actions() == old(self).undo_actions().push(
                HistoryAction::Add(annotation),
            ),
            final(self).redo_actions() == Seq::<HistoryAction>::empty(),
    {
        self.undo_stack.push(HistoryAction::Add(annotation));
        self.redo_stack.clear();
    }

    /// Record that `annotation` was removed from `index`.
    pub fn push_remove(&mut self, index: usize, annotation: Annotation)
        ensures
            final(self).undo_actions() == old(self).undo_actions().push(
                HistoryAction::Remove(index, annotation),
            ),
            final(self).redo_actions() == Seq::<HistoryAction>::empty(),
    {
        self.undo_stack.push(HistoryAction::Remove(index, annotation));
        self.redo_stack.clear();
    }

    pub fn can_undo(&self) -> (r: bool)
        ensures
            r == (self.undo_actions().len() > 0),
    {
        self.undo_stack.len() > 0
    }

    pub fn can_redo(&self) -> (r: bool)
        ensures
            r == (self.redo_actions().len() > 0),
    {
        self.redo_stack.len() > 0
    }

    /// Undo the most recent action against `annotations`; returns whether
    /// an action was undone. A no-op (returning `false`) on an empty undo
    /// stack.
    pub fn undo(&mut self, annotations: &mut Vec<Annotation>) -> (r: bool)
        requires
            undo_ok(state_of(*old(self), old(annotations)@)),
        ensures
            state_of(*final(self), final(annotations)@) == undo_step(
                state_of(*old(self), old(annotations)@),
            ),
            r == (old(self).undo_actions().len() > 0),
    {
        if let Some(action) = self.undo_stack.pop() {
            match action {
                HistoryAction::Add(_) => {
                    if let Some(removed) = annotations.pop() {
                        self.redo_stack.push(HistoryAction::Add(removed));
                    }
                },
                HistoryAction::Remove(index, annotation) => {
                    annotations.insert(index, annotation.clone());
                    self.redo_stack.push(HistoryAction::Remove(index, annotation));
                },
            }
            true
        } else {
            false
        }
    }

    /// Redo the most recently undone action against `annotations`; returns
    /// whether an action was redone. A no-op (returning `false`) on an
    /// empty redo stack.
    pub fn redo(&mut self, annotations: &mut Vec<Annotation>) -> (r: bool)
        ensures
            state_of(*final(self), final(annotations)@) == redo_step(
                state_of(*old(self), old(annotations)@),
            ),
            r == (old(self).redo_actions().len() > 0),
    {
        if let Some(action) = self.redo_stack.pop() {
            match action {
                HistoryAction::Add(annotation) => {
                    annotations.push(annotation.clone());
                    self.undo_stack.push(HistoryAction::Add(annotation));
                },
                HistoryAction::Remove(index, annotation) => {
                    if index < annotations.len() {
                        annotations.remove(index);
                    }
                    self.undo_stack.push(HistoryAction::Remove(index, annotation));
                },
            }
            true
        } else {
            false
        }
    }

    /// Empty both stacks (used when a new image loads).
    pub fn clear(&mut self)
        ensures
            final(self).undo_actions() == Seq::<HistoryAction>::empty(),
            final(self).redo_actions() == Seq::<HistoryAction>::empty(),
    {
        self.undo_stack.clear();
        self.redo_stack.clear();
    }
}

} // verus!
