use vstd::prelude::*;

use crate::keyboard::{FunctionKey, KeyboardKey};
use crate::menu_items::menu_item::{
    cycle_next, cycle_prev, lemma_cycle_next, lemma_cycle_prev, unhandled, ItemModel, MenuItem,
    PressResult,
};

verus! {

/// The abstract state of a list item: its entries, the committed entry and
/// the entry being edited.
pub struct ListView {
    pub label: Seq<char>,
    pub entries: Seq<Seq<char>>,
    pub selected: int,
    pub pending: int,
}

impl ListView {
    pub open spec fn wf(self) -> bool {
        &&& 0 <= self.selected < self.entries.len()
        &&& 0 <= self.pending < self.entries.len()
    }

    pub open spec fn label_text(self, is_focused: bool) -> Seq<char> {
        let shown = if is_focused {
            self.pending
        } else {
            self.selected
        };
        self.label + seq![':', ' '] + self.entries[shown]
    }

    /// Unfocused, ENTER starts an edit from the committed entry. Focused,
    /// LEFT and RIGHT cycle the pending entry, ENTER commits it and BACK
    /// discards it. Every other key is left alone.
    pub open spec fn pressed(self, key: Option<FunctionKey>, is_focused: bool) -> (
        ListView,
        PressResult,
    ) {
        let n = self.entries.len() as int;
        if key == Some(FunctionKey::ENTER) {
            if is_focused {
                (ListView { selected: self.pending, ..self }, PressResult { handled: true, focus: false })
            } else {
                (ListView { pending: self.selected, ..self }, PressResult { handled: true, focus: true })
            }
        } else if is_focused && key == Some(FunctionKey::BACK) {
            (ListView { pending: self.selected, ..self }, PressResult { handled: true, focus: false })
        } else if is_focused && key == Some(FunctionKey::LEFT) {
            (
                ListView { pending: cycle_prev(self.pending, n), ..self },
                PressResult { handled: true, focus: true },
            )
        } else if is_focused && key == Some(FunctionKey::RIGHT) {
            (
                ListView { pending: cycle_next(self.pending, n), ..self },
                PressResult { handled: true, focus: true },
            )
        } else {
            (self, unhandled(is_focused))
        }
    }
}

impl ListView {
    /// The state after `k` presses of `key` while focused.
    pub open spec fn pressed_times(self, key: Option<FunctionKey>, k: nat) -> ListView
        decreases k,
    {
        if k == 0 {
            self
        } else {
            self.pressed(key, true).0.pressed_times(key, (k - 1) as nat)
        }
    }

    /// The state after pressing each of `keys` in turn while focused.
    pub open spec fn pressed_all(self, keys: Seq<FunctionKey>) -> ListView
        decreases keys.len(),
    {
        if keys.len() == 0 {
            self
        } else {
            self.pressed(Some(keys[0]), true).0.pressed_all(keys.drop_first())
        }
    }
}

/// `k` presses of RIGHT move the pending entry `k` places forward, cyclically.
proof fn lemma_right_times(l: ListView, k: nat)
    requires
        l.wf(),
    ensures
        l.pressed_times(Some(FunctionKey::RIGHT), k) == (ListView {
            pending: (l.pending + k) % (l.entries.len() as int),
            ..l
        }),
    decreases k,
{
    let n = l.entries.len() as int;
    if k == 0 {
        vstd::arithmetic::div_mod::lemma_small_mod(l.pending as nat, n as nat);
    } else {
        let l1 = l.pressed(Some(FunctionKey::RIGHT), true).0;
        lemma_cycle_next(l.pending, n);
        lemma_right_times(l1, (k - 1) as nat);
        vstd::arithmetic::div_mod::lemma_add_mod_noop_right(k - 1, l.pending + 1, n);
        assert((k - 1) + (l.pending + 1) == l.pending + k);
    }
}

/// `k` presses of LEFT move the pending entry `k` places backward, cyclically.
proof fn lemma_left_times(l: ListView, k: nat)
    requires
        l.wf(),
    ensures
        l.pressed_times(Some(FunctionKey::LEFT), k) == (ListView {
            pending: (l.pending - k) % (l.entries.len() as int),
            ..l
        }),
    decreases k,
{
    let n = l.entries.len() as int;
    if k == 0 {
        vstd::arithmetic::div_mod::lemma_small_mod(l.pending as nat, n as nat);
    } else {
        let l1 = l.pressed(Some(FunctionKey::LEFT), true).0;
        lemma_cycle_prev(l.pending, n);
        lemma_left_times(l1, (k - 1) as nat);
        vstd::arithmetic::div_mod::lemma_add_mod_noop_right(-(k - 1), l.pending - 1, n);
        assert(-(k - 1) + (l.pending - 1) == l.pending - k);
    }
}

/// Pressing RIGHT, or LEFT, once per entry while editing comes back to the
/// entry the edit was at.
pub proof fn lemma_list_ring(l: ListView)
    requires
        l.wf(),
    ensures
        l.pressed_times(Some(FunctionKey::RIGHT), l.entries.len()) == l,
        l.pressed_times(Some(FunctionKey::LEFT), l.entries.len()) == l,
{
    let n = l.entries.len() as int;
    lemma_right_times(l, l.entries.len());
    lemma_left_times(l, l.entries.len());
    vstd::arithmetic::div_mod::lemma_mod_add_multiples_vanish(l.pending, n);
    vstd::arithmetic::div_mod::lemma_mod_sub_multiples_vanish(l.pending, n);
    vstd::arithmetic::div_mod::lemma_small_mod(l.pending as nat, n as nat);
}

/// LEFT and RIGHT while editing only move the pending entry.
proof fn lemma_arrows_keep_committed(l: ListView, keys: Seq<FunctionKey>)
    requires
        l.wf(),
        forall|i: int|
            0 <= i < keys.len() ==> #[trigger] keys[i] == FunctionKey::LEFT || keys[i]
                == FunctionKey::RIGHT,
    ensures
        l.pressed_all(keys).wf(),
        l.pressed_all(keys) == (ListView { pending: l.pressed_all(keys).pending, ..l }),
    decreases keys.len(),
{
    if keys.len() > 0 {
        let n = l.entries.len() as int;
        let l1 = l.pressed(Some(keys[0]), true).0;
        assert(keys[0] == FunctionKey::LEFT || keys[0] == FunctionKey::RIGHT);
        assert(l1.wf());
        let rest = keys.drop_first();
        assert forall|i: int| 0 <= i < rest.len() implies #[trigger] rest[i] == FunctionKey::LEFT
            || rest[i] == FunctionKey::RIGHT by {
            assert(rest[i] == keys[i + 1]);
        }
        lemma_arrows_keep_committed(l1, rest);
    }
}

/// ENTER starts an edit; whatever LEFT and RIGHT presses follow, BACK then
/// leaves the committed entry as it was, and ENTER commits the last pending
/// entry instead.
pub proof fn lemma_list_commit_cancel(l: ListView, keys: Seq<FunctionKey>)
    requires
        l.wf(),
        forall|i: int|
            0 <= i < keys.len() ==> #[trigger] keys[i] == FunctionKey::LEFT || keys[i]
                == FunctionKey::RIGHT,
    ensures
        l.pressed(Some(FunctionKey::ENTER), false).1 == (PressResult { handled: true, focus: true }),
        ({
            let editing = l.pressed(Some(FunctionKey::ENTER), false).0.pressed_all(keys);
            &&& editing.selected == l.selected
            &&& editing.pressed(Some(FunctionKey::BACK), true) == (
                ListView { pending: l.selected, ..editing },
                PressResult { handled: true, focus: false },
            )
            &&& editing.pressed(Some(FunctionKey::ENTER), true) == (
                ListView { selected: editing.pending, ..editing },
                PressResult { handled: true, focus: false },
            )
        }),
{
    let entered = l.pressed(Some(FunctionKey::ENTER), false).0;
    lemma_arrows_keep_committed(entered, keys);
}

/// An item that selects one entry out of a list of strings.
pub struct ListMenuItem {
    label: String,
    entries: Vec<String>,
    selected_entry_idx: usize,
    focus_selected_entry_idx: usize,
}

impl View for ListMenuItem {
    type V = ListView;

    closed spec fn view(&self) -> ListView {
        ListView {
            label: self.label@,
            entries: self.entries@.map_values(|e: String| e@),
            selected: self.selected_entry_idx as int,
            pending: self.focus_selected_entry_idx as int,
        }
    }
}

impl ListMenuItem {
    /// Builds a list item with the first entry selected; fails on an empty list.
    pub fn new(label: String, entries: Vec<String>) -> (r: Result<ListMenuItem, &'static str>)
        ensures
            entries@.len() == 0 ==> r == Err::<ListMenuItem, &'static str>(
                "At least one entry required",
            ),
            entries@.len() > 0 ==> r is Ok && r->Ok_0@ == (ListView {
                label: label@,
                entries: entries@.map_values(|e: String| e@),
                selected: 0,
                pending: 0,
            }),
            r is Ok ==> r->Ok_0@.wf(),
    {
        if entries.len() == 0 {
            Err("At least one entry required")
        } else {
            Ok(ListMenuItem { label, entries, selected_entry_idx: 0, focus_selected_entry_idx: 0 })
        }
    }

    pub fn get_selected_entry_idx(&self) -> (r: usize)
        ensures
            r == self@.selected,
    {
        self.selected_entry_idx
    }

    /// Selects (and commits) entry `selected_entry_idx`; an index past the
    /// end is refused and leaves the item unchanged.
    pub fn set_selected_entry_idx(&mut self, selected_entry_idx: usize) -> (r: Result<
        (),
        &'static str,
    >)
        requires
            old(self)@.wf(),
        ensures
            final(self)@.wf(),
            selected_entry_idx >= old(self)@.entries.len() ==> r == Err::<(), &'static str>(
                "Selected entry idx must be between 0 and entries.len()",
            ) && final(self)@ == old(self)@,
            selected_entry_idx < old(self)@.entries.len() ==> r is Ok && final(self)@ == (ListView {
                selected: selected_entry_idx as int,
                pending: selected_entry_idx as int,
                ..old(self)@
            }),
    {
        if selected_entry_idx >= self.entries.len() {
            Err("Selected entry idx must be between 0 and entries.len()")
        } else {
            self.selected_entry_idx = selected_entry_idx;
            self.focus_selected_entry_idx = selected_entry_idx;
            Ok(())
        }
    }

    /// Commits the next entry, wrapping to the first after the last.
    pub fn select_next_entry(&mut self)
        requires
            old(self)@.wf(),
        ensures
            final(self)@ == (ListView {
                selected: cycle_next(old(self)@.selected, old(self)@.entries.len() as int),
                pending: cycle_next(old(self)@.selected, old(self)@.entries.len() as int),
                ..old(self)@
            }),
            final(self)@.wf(),
    {
        self.selected_entry_idx = if self.selected_entry_idx == self.entries.len() - 1 {
            0
        } else {
            self.selected_entry_idx + 1
        };
        self.focus_selected_entry_idx = self.selected_entry_idx;
    }

    /// Commits the previous entry, wrapping to the last before the first.
    pub fn select_prev_entry(&mut self)
        requires
            old(self)@.wf(),
        ensures
            final(self)@ == (ListView {
                selected: cycle_prev(old(self)@.selected, old(self)@.entries.len() as int),
                pending: cycle_prev(old(self)@.selected, old(self)@.entries.len() as int),
                ..old(self)@
            }),
            final(self)@.wf(),
    {
        self.selected_entry_idx = if self.selected_entry_idx == 0 {
            self.entries.len() - 1
        } else {
            self.selected_entry_idx - 1
        };
        self.focus_selected_entry_idx = self.selected_entry_idx;
    }

    /// Moves the pending entry forward, wrapping to the first.
    pub fn select_focused_next_entry(&mut self)
        requires
            old(self)@.wf(),
        ensures
            final(self)@ == (ListView {
                pending: cycle_next(old(self)@.pending, old(self)@.entries.len() as int),
                ..old(self)@
            }),
            final(self)@.wf(),
    {
        self.focus_selected_entry_idx = if self.focus_selected_entry_idx == self.entries.len() - 1 {
            0
        } else {
            self.focus_selected_entry_idx + 1
        };
    }

    /// Moves the pending entry backward, wrapping to the last.
    pub fn select_focused_prev_entry(&mut self)
        requires
            old(self)@.wf(),
        ensures
            final(self)@ == (ListView {
                pending: cycle_prev(old(self)@.pending, old(self)@.entries.len() as int),
                ..old(self)@
            }),
            final(self)@.wf(),
    {
        self.focus_selected_entry_idx = if self.focus_selected_entry_idx == 0 {
            self.entries.len() - 1
        } else {
            self.focus_selected_entry_idx - 1
        };
    }

    /// The committed entry.
    pub fn get_selected_entry(&self) -> (r: &str)
        requires
            self@.wf(),
        ensures
            r@ == self@.entries[self@.selected],
    {
        self.entries[self.selected_entry_idx].as_str()
    }

    /// The entry being edited.
    pub fn get_focused_selected_entry(&self) -> (r: &str)
        requires
            self@.wf(),
        ensures
            r@ == self@.entries[self@.pending],
    {
        self.entries[self.focus_selected_entry_idx].as_str()
    }
}

impl MenuItem for ListMenuItem {
    open spec fn model(&self) -> ItemModel {
        ItemModel::List(self@)
    }

    fn get_label(&self, is_focused: bool) -> (r: String) {
        let selected_entry = if is_focused {
            self.get_focused_selected_entry()
        } else {
            self.get_selected_entry()
        };
        let mut label_str = self.label.clone();
        proof {
            reveal_strlit(": ");
        }
        label_str.append(": ");
        label_str.append(selected_entry);
        label_str
    }

    fn press(&mut self, key: &KeyboardKey, is_focused: bool) -> (r: PressResult) {
        if key.function_key == Some(FunctionKey::ENTER) {
            if is_focused {
                self.selected_entry_idx = self.focus_selected_entry_idx;
            } else {
                self.focus_selected_entry_idx = self.selected_entry_idx;
            }
            PressResult { handled: true, focus: !is_focused }
        } else if is_focused && key.function_key == Some(FunctionKey::BACK) {
            self.focus_selected_entry_idx = self.selected_entry_idx;
            PressResult { handled: true, focus: false }
        } else if is_focused && key.function_key == Some(FunctionKey::LEFT) {
            self.select_focused_prev_entry();
            PressResult { handled: true, focus: true }
        } else if is_focused && key.function_key == Some(FunctionKey::RIGHT) {
            self.select_focused_next_entry();
            PressResult { handled: true, focus: true }
        } else {
            PressResult { handled: false, focus: is_focused }
        }
    }

    fn is_focusable(&self) -> (r: bool) {
        true
    }
}

} // verus!
