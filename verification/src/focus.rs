//! Focus stacks: what was focused, most recent last.

use vstd::prelude::*;
use crate::ids::{remove_id, without, Key};

verus! {

/// The things that have had focus, ordered by recency, and whether the most
/// recent one has it now.
///
/// Taking focus away keeps the history: the stack still knows what to give
/// focus back to.
#[derive(Debug)]
pub struct FocusStack<T> {
    /// What has had focus, each thing once, the most recent last.
    pub stack: Vec<T>,
    /// Whether the last thing on the stack has focus now.
    pub focused: bool,
}

/// A focus stack as a mathematical value.
#[verifier::ext_equal]
pub struct FocusStackView<T> {
    pub stack: Seq<T>,
    pub focused: bool,
}

impl<T> View for FocusStack<T> {
    type V = FocusStackView<T>;

    open spec fn view(&self) -> FocusStackView<T> {
        FocusStackView { stack: self.stack@, focused: self.focused }
    }
}

impl<T> FocusStackView<T> {
    /// The stack on which nothing has ever had focus.
    pub open spec fn empty() -> FocusStackView<T> {
        FocusStackView { stack: Seq::empty(), focused: false }
    }

    /// The stack after `focus` took focus: it moves, or is pushed, to the
    /// most recent end.
    pub open spec fn with_focus(self, focus: T) -> FocusStackView<T> {
        FocusStackView { stack: without(self.stack, focus).push(focus), focused: true }
    }

    /// The stack after focus was taken away. The history stays.
    pub open spec fn without_focus(self) -> FocusStackView<T> {
        FocusStackView { stack: self.stack, focused: false }
    }

    /// What has focus now.
    pub open spec fn current_focus(self) -> Option<T> {
        if self.focused && self.stack.len() > 0 {
            Some(self.stack.last())
        } else {
            None
        }
    }

    /// The stack after `gone` ceased to exist.
    pub open spec fn forgetting(self, gone: T) -> FocusStackView<T> {
        FocusStackView { stack: without(self.stack, gone), focused: self.focused }
    }
}

impl<T: Key> FocusStack<T> {
    /// A stack on which nothing has ever had focus.
    pub fn new() -> (stack: FocusStack<T>)
        ensures
            stack@ == FocusStackView::<T>::empty(),
    {
        FocusStack { stack: Vec::new(), focused: false }
    }

    /// Gives focus to `focus`.
    pub fn set_focus(&mut self, focus: T)
        ensures
            final(self)@ == old(self)@.with_focus(focus),
    {
        remove_id(&mut self.stack, focus);
        self.stack.push(focus);
        self.focused = true;
    }

    /// Takes focus away from whatever has it. The history stays.
    pub fn unset_focus(&mut self)
        ensures
            final(self)@ == old(self)@.without_focus(),
    {
        self.focused = false;
    }

    /// What has focus now.
    pub fn current_focus(&self) -> (focus: Option<T>)
        ensures
            focus == self@.current_focus(),
    {
        if self.focused && self.stack.len() > 0 {
            Some(self.stack[self.stack.len() - 1])
        } else {
            None
        }
    }

    /// Drops `gone` from the history.
    pub fn forget(&mut self, gone: T)
        ensures
            final(self)@ == old(self)@.forgetting(gone),
    {
        remove_id(&mut self.stack, gone);
    }
}

/// After focus is given to something, that thing has focus, it is the most
/// recent entry of the history, and it is there once.
pub proof fn set_focus_puts_on_top<T>(stack: FocusStackView<T>, focus: T)
    ensures
        stack.with_focus(focus).current_focus() == Some(focus),
        stack.with_focus(focus).stack.last() == focus,
        !stack.with_focus(focus).stack.drop_last().contains(focus),
{
    let rest = without(stack.stack, focus);
    assert(stack.with_focus(focus).stack.drop_last() == rest);
    if rest.contains(focus) {
        let i = choose|i: int| 0 <= i < rest.len() && rest[i] == focus;
        stack.stack.lemma_filter_pred(|t: T| t != focus, i);
        assert(false);
    }
}

/// Taking focus away changes nothing of the history, and leaves nothing
/// focused.
pub proof fn unset_focus_keeps_history<T>(stack: FocusStackView<T>)
    ensures
        stack.without_focus().stack == stack.stack,
        stack.without_focus().current_focus() is None,
{
}

} // verus!
