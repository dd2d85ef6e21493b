//! A form field that picks one item of a list.
use vstd::prelude::*;
use crate::event::Key;

verus! {

/// A field that shows one of `items`, chosen with the left and right keys
/// while the focus is on it. `transform` gives the text shown for an item.
#[derive(Debug, Default)]
pub struct SelectField<T, F> {
    pub selected_idx: usize,
    pub label: String,
    pub index: u8,
    pub items: Vec<T>,
    pub transform: F,
}

/// The selection after `key` is pressed while the field holds `len` items and
/// `selected` is chosen; `focused` tells whether the focus is on the field.
pub open spec fn selection_after(selected: usize, len: nat, focused: bool, key: Key) -> int {
    if !focused {
        selected as int
    } else {
        match key {
            Key::Left => if selected > 0 {
                selected - 1
            } else {
                0
            },
            Key::Right => if selected + 1 < len {
                selected + 1
            } else {
                selected as int
            },
            _ => selected as int,
        }
    }
}

impl<T, F> SelectField<T, F> {
    /// The selection points at an item, or at the start of an empty list.
    pub open spec fn wf(&self) -> bool {
        if self.items@.len() == 0 {
            self.selected_idx == 0
        } else {
            self.selected_idx < self.items@.len()
        }
    }

    /// Moves the selection one item left or right, if the focus, at
    /// `focus_index`, is on this field; it stays within the list.
    pub fn handle_event(&mut self, focus_index: u8, key: Key)
        ensures
            final(self).items == old(self).items,
            final(self).label == old(self).label,
            final(self).index == old(self).index,
            final(self).transform == old(self).transform,
            final(self).selected_idx == selection_after(
                old(self).selected_idx,
                old(self).items@.len(),
                old(self).index == focus_index,
                key,
            ),
            old(self).wf() ==> final(self).wf(),
    {
        if self.index != focus_index {
            return;
        }
        match key {
            Key::Left => {
                if self.selected_idx > 0 {
                    self.selected_idx = self.selected_idx - 1;
                }
            },
            Key::Right => {
                if self.selected_idx < self.items.len() && self.selected_idx + 1 < self.items.len() {
                    self.selected_idx = self.selected_idx + 1;
                }
            },
            _ => {},
        }
    }

    /// The selected item.
    pub fn get_value(&self) -> (r: T) where T: Clone
        requires
            self.selected_idx < self.items@.len(),
        ensures
            cloned(self.items@[self.selected_idx as int], r),
    {
        self.items[self.selected_idx].clone()
    }
}

} // verus!
