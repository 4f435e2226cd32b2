use vstd::prelude::*;

use crate::keyboard::{FunctionKey, KeyboardKey};
use crate::menu_items::menu_item::{
    cycle_next, cycle_prev, lemma_cycle_next, lemma_cycle_prev, unhandled, ItemModel, MenuItem,
    PressResult,
};

verus! {

/// The abstract state of a range item: a committed value, the value being
/// edited, and the ring of values `min, min + step, ..., max` they move on.
pub struct RangeView {
    pub label: Seq<char>,
    pub value: int,
    pub pending: int,
    pub min: int,
    pub max: int,
    pub step: int,
}

/// The character of a decimal digit.
pub open spec fn digit_char(d: int) -> char {
    seq!['0', '1', '2', '3', '4', '5', '6', '7', '8', '9'][d]
}

/// The decimal text of a natural number, without leading zeros.
pub open spec fn decimal(n: nat) -> Seq<char>
    decreases n,
{
    if n < 10 {
        seq![digit_char(n as int)]
    } else {
        decimal(n / 10) + seq![digit_char((n % 10) as int)]
    }
}

impl RangeView {
    /// Whether `v` is one of `min, min + step, ..., max`.
    pub open spec fn on_ring(self, v: int) -> bool {
        &&& self.min <= v <= self.max
        &&& (v - self.min) % self.step == 0
    }

    pub open spec fn wf(self) -> bool {
        &&& 0 <= self.min < self.max <= u32::MAX
        &&& 0 < self.step
        &&& (self.max - self.min) % self.step == 0
        &&& self.on_ring(self.value)
        &&& self.on_ring(self.pending)
    }

    /// The value after `v` on the ring: one step up, or back to `min` past `max`.
    pub open spec fn next(self, v: int) -> int {
        if v + self.step > self.max {
            self.min
        } else {
            v + self.step
        }
    }

    /// The value before `v` on the ring: one step down, or `max` from `min`.
    pub open spec fn prev(self, v: int) -> int {
        if v == self.min {
            self.max
        } else {
            v - self.step
        }
    }

    /// How many distinct values the ring holds.
    pub open spec fn ring_len(self) -> int {
        (self.max - self.min) / self.step + 1
    }

    pub open spec fn label_text(self, is_focused: bool) -> Seq<char> {
        let shown = if is_focused {
            self.pending
        } else {
            self.value
        };
        self.label + seq![':', ' '] + decimal(shown as nat)
    }

    /// Unfocused, ENTER starts an edit from the committed value. Focused,
    /// LEFT and RIGHT move the pending value around the ring, ENTER commits it
    /// and BACK discards it. Every other key is left alone.
    pub open spec fn pressed(self, key: Option<FunctionKey>, is_focused: bool) -> (
        RangeView,
        PressResult,
    ) {
        if key == Some(FunctionKey::ENTER) {
            if is_focused {
                (RangeView { value: self.pending, ..self }, PressResult { handled: true, focus: false })
            } else {
                (RangeView { pending: self.value, ..self }, PressResult { handled: true, focus: true })
            }
        } else if is_focused && key == Some(FunctionKey::BACK) {
            (RangeView { pending: self.value, ..self }, PressResult { handled: true, focus: false })
        } else if is_focused && key == Some(FunctionKey::LEFT) {
            (
                RangeView { pending: self.prev(self.pending), ..self },
                PressResult { handled: true, focus: true },
            )
        } else if is_focused && key == Some(FunctionKey::RIGHT) {
            (
                RangeView { pending: self.next(self.pending), ..self },
                PressResult { handled: true, focus: true },
            )
        } else {
            (self, unhandled(is_focused))
        }
    }
}

/// One step up from a value below `max` stays on the ring.
proof fn lemma_step_up(r: RangeView, v: int)
    requires
        r.wf(),
        r.on_ring(v),
        v < r.max,
    ensures
        v + r.step <= r.max,
        r.on_ring(v + r.step),
{
    let a = (v - r.min) / r.step;
    let b = (r.max - r.min) / r.step;
    vstd::arithmetic::div_mod::lemma_fundamental_div_mod(v - r.min, r.step);
    vstd::arithmetic::div_mod::lemma_fundamental_div_mod(r.max - r.min, r.step);
    assert(v - r.min == r.step * a);
    assert(r.max - r.min == r.step * b);
    assert(a < b) by (nonlinear_arith)
        requires
            r.step * a < r.step * b,
            r.step > 0,
    ;
    assert(r.step * (a + 1) <= r.step * b) by (nonlinear_arith)
        requires
            a + 1 <= b,
            r.step > 0,
    ;
    assert(v + r.step - r.min == (a + 1) * r.step) by (nonlinear_arith)
        requires
            v - r.min == r.step * a,
    ;
    vstd::arithmetic::div_mod::lemma_mod_multiples_basic(a + 1, r.step);
}

/// One step down from a value above `min` stays on the ring.
proof fn lemma_step_down(r: RangeView, v: int)
    requires
        r.wf(),
        r.on_ring(v),
        v > r.min,
    ensures
        v - r.step >= r.min,
        r.on_ring(v - r.step),
{
    let a = (v - r.min) / r.step;
    vstd::arithmetic::div_mod::lemma_fundamental_div_mod(v - r.min, r.step);
    assert(v - r.min == r.step * a);
    assert(a >= 1) by (nonlinear_arith)
        requires
            r.step * a > 0,
            r.step > 0,
    ;
    assert(v - r.step - r.min == (a - 1) * r.step) by (nonlinear_arith)
        requires
            v - r.min == r.step * a,
    ;
    vstd::arithmetic::div_mod::lemma_mod_multiples_basic(a - 1, r.step);
}

impl RangeView {
    /// The value `p` steps above `min`.
    pub open spec fn value_at(self, p: int) -> int {
        self.min + p * self.step
    }

    /// The state after `k` presses of `key` while focused.
    pub open spec fn pressed_times(self, key: Option<FunctionKey>, k: nat) -> RangeView
        decreases k,
    {
        if k == 0 {
            self
        } else {
            self.pressed(key, true).0.pressed_times(key, (k - 1) as nat)
        }
    }

    /// The state after pressing each of `keys` in turn while focused.
    pub open spec fn pressed_all(self, keys: Seq<FunctionKey>) -> RangeView
        decreases keys.len(),
    {
        if keys.len() == 0 {
            self
        } else {
            self.pressed(Some(keys[0]), true).0.pressed_all(keys.drop_first())
        }
    }
}

/// The ring has `ring_len` values, `min` at position 0 and `max` at the
/// last; `next` and `prev` move one position around it.
proof fn lemma_positions(r: RangeView, p: int)
    requires
        r.wf(),
        0 <= p < r.ring_len(),
    ensures
        r.ring_len() >= 2,
        r.value_at(r.ring_len() - 1) == r.max,
        r.on_ring(r.value_at(p)),
        r.next(r.value_at(p)) == r.value_at(cycle_next(p, r.ring_len())),
        r.prev(r.value_at(p)) == r.value_at(cycle_prev(p, r.ring_len())),
{
    let b = (r.max - r.min) / r.step;
    let step = r.step;
    vstd::arithmetic::div_mod::lemma_fundamental_div_mod(r.max - r.min, step);
    assert(r.max - r.min == step * b);
    assert(b >= 1) by (nonlinear_arith)
        requires
            step * b > 0,
            step > 0,
    ;
    assert(b * step == step * b) by (nonlinear_arith);
    assert(0 <= p * step <= b * step) by (nonlinear_arith)
        requires
            0 <= p <= b,
            step > 0,
    ;
    assert((p + 1) * step == p * step + step) by (nonlinear_arith);
    assert((p - 1) * step == p * step - step) by (nonlinear_arith);
    assert(0 * step == 0) by (nonlinear_arith);
    vstd::arithmetic::div_mod::lemma_mod_multiples_basic(p, step);
    assert(r.value_at(p) - r.min == p * step);
    if p < b {
        assert((p + 1) * step <= b * step) by (nonlinear_arith)
            requires
                p + 1 <= b,
                step > 0,
        ;
    }
    if p > 0 {
        assert(p * step >= step) by (nonlinear_arith)
            requires
                p >= 1,
                step > 0,
        ;
    }
}

/// The position of a value on the ring.
proof fn lemma_position_of(r: RangeView, v: int) -> (p: int)
    requires
        r.wf(),
        r.on_ring(v),
    ensures
        0 <= p < r.ring_len(),
        r.value_at(p) == v,
{
    let p = (v - r.min) / r.step;
    let b = (r.max - r.min) / r.step;
    vstd::arithmetic::div_mod::lemma_fundamental_div_mod(v - r.min, r.step);
    vstd::arithmetic::div_mod::lemma_fundamental_div_mod(r.max - r.min, r.step);
    vstd::arithmetic::div_mod::lemma_div_pos_is_pos(v - r.min, r.step);
    assert(p <= b) by (nonlinear_arith)
        requires
            r.step * p <= r.step * b,
            r.step > 0,
    ;
    assert(p * r.step == r.step * p) by (nonlinear_arith);
    p
}

/// `k` presses of RIGHT move the pending value `k` positions up the ring.
proof fn lemma_right_times(r: RangeView, p: int, k: nat)
    requires
        r.wf(),
        0 <= p < r.ring_len(),
        r.pending == r.value_at(p),
    ensures
        r.pressed_times(Some(FunctionKey::RIGHT), k) == (RangeView {
            pending: r.value_at((p + k) % r.ring_len()),
            ..r
        }),
    decreases k,
{
    let n = r.ring_len();
    lemma_positions(r, p);
    if k == 0 {
        vstd::arithmetic::div_mod::lemma_small_mod(p as nat, n as nat);
    } else {
        let r1 = r.pressed(Some(FunctionKey::RIGHT), true).0;
        let q = cycle_next(p, n);
        lemma_positions(r, q);
        lemma_right_times(r1, q, (k - 1) as nat);
        lemma_cycle_next(p, n);
        vstd::arithmetic::div_mod::lemma_add_mod_noop_right(k - 1, p + 1, n);
        assert((k - 1) + (p + 1) == p + k);
    }
}

/// `k` presses of LEFT move the pending value `k` positions down the ring.
proof fn lemma_left_times(r: RangeView, p: int, k: nat)
    requires
        r.wf(),
        0 <= p < r.ring_len(),
        r.pending == r.value_at(p),
    ensures
        r.pressed_times(Some(FunctionKey::LEFT), k) == (RangeView {
            pending: r.value_at((p - k) % r.ring_len()),
            ..r
        }),
    decreases k,
{
    let n = r.ring_len();
    lemma_positions(r, p);
    if k == 0 {
        vstd::arithmetic::div_mod::lemma_small_mod(p as nat, n as nat);
    } else {
        let r1 = r.pressed(Some(FunctionKey::LEFT), true).0;
        let q = cycle_prev(p, n);
        lemma_positions(r, q);
        lemma_left_times(r1, q, (k - 1) as nat);
        lemma_cycle_prev(p, n);
        vstd::arithmetic::div_mod::lemma_add_mod_noop_right(-(k - 1), p - 1, n);
        assert(-(k - 1) + (p - 1) == p - k);
    }
}

/// Pressing RIGHT, or LEFT, once per value of the ring while editing comes
/// back to the value the edit was at.
pub proof fn lemma_range_ring(r: RangeView)
    requires
        r.wf(),
    ensures
        r.pressed_times(Some(FunctionKey::RIGHT), r.ring_len() as nat) == r,
        r.pressed_times(Some(FunctionKey::LEFT), r.ring_len() as nat) == r,
{
    let n = r.ring_len();
    let p = lemma_position_of(r, r.pending);
    lemma_right_times(r, p, n as nat);
    lemma_left_times(r, p, n as nat);
    vstd::arithmetic::div_mod::lemma_mod_add_multiples_vanish(p, n);
    vstd::arithmetic::div_mod::lemma_mod_sub_multiples_vanish(p, n);
    vstd::arithmetic::div_mod::lemma_small_mod(p as nat, n as nat);
    assert(p + n == n + p);
    assert(p - n == -n + p);
}

/// LEFT and RIGHT while editing only move the pending value.
proof fn lemma_arrows_keep_committed(r: RangeView, keys: Seq<FunctionKey>)
    requires
        r.wf(),
        forall|i: int|
            0 <= i < keys.len() ==> #[trigger] keys[i] == FunctionKey::LEFT || keys[i]
                == FunctionKey::RIGHT,
    ensures
        r.pressed_all(keys).wf(),
        r.pressed_all(keys) == (RangeView { pending: r.pressed_all(keys).pending, ..r }),
    decreases keys.len(),
{
    if keys.len() > 0 {
        let r1 = r.pressed(Some(keys[0]), true).0;
        assert(keys[0] == FunctionKey::LEFT || keys[0] == FunctionKey::RIGHT);
        let p = lemma_position_of(r, r.pending);
        lemma_positions(r, p);
        lemma_positions(r, cycle_next(p, r.ring_len()));
        lemma_positions(r, cycle_prev(p, r.ring_len()));
        assert(r1.wf());
        let rest = keys.drop_first();
        assert forall|i: int| 0 <= i < rest.len() implies #[trigger] rest[i] == FunctionKey::LEFT
            || rest[i] == FunctionKey::RIGHT by {
            assert(rest[i] == keys[i + 1]);
        }
        lemma_arrows_keep_committed(r1, rest);
    }
}

/// ENTER starts an edit; whatever LEFT and RIGHT presses follow, BACK then
/// leaves the committed value as it was, and ENTER commits the last pending
/// value instead.
pub proof fn lemma_range_commit_cancel(r: RangeView, keys: Seq<FunctionKey>)
    requires
        r.wf(),
        forall|i: int|
            0 <= i < keys.len() ==> #[trigger] keys[i] == FunctionKey::LEFT || keys[i]
                == FunctionKey::RIGHT,
    ensures
        r.pressed(Some(FunctionKey::ENTER), false).1 == (PressResult { handled: true, focus: true }),
        ({
            let editing = r.pressed(Some(FunctionKey::ENTER), false).0.pressed_all(keys);
            &&& editing.value == r.value
            &&& editing.pressed(Some(FunctionKey::BACK), true) == (
                RangeView { pending: r.value, ..editing },
                PressResult { handled: true, focus: false },
            )
            &&& editing.pressed(Some(FunctionKey::ENTER), true) == (
                RangeView { value: editing.pending, ..editing },
                PressResult { handled: true, focus: false },
            )
        }),
{
    let entered = r.pressed(Some(FunctionKey::ENTER), false).0;
    lemma_arrows_keep_committed(entered, keys);
}

/// The character of one decimal digit, as a string.
fn digit_str(d: u32) -> (r: &'static str)
    requires
        d < 10,
    ensures
        r@ == seq![digit_char(d as int)],
{
    proof {
        reveal_strlit("0");
        reveal_strlit("1");
        reveal_strlit("2");
        reveal_strlit("3");
        reveal_strlit("4");
        reveal_strlit("5");
        reveal_strlit("6");
        reveal_strlit("7");
        reveal_strlit("8");
        reveal_strlit("9");
    }
    match d {
        0 => "0",
        1 => "1",
        2 => "2",
        3 => "3",
        4 => "4",
        5 => "5",
        6 => "6",
        7 => "7",
        8 => "8",
        _ => "9",
    }
}

/// Appends the decimal text of `n`.
fn push_decimal(s: &mut String, n: u32)
    ensures
        final(s)@ == old(s)@ + decimal(n as nat),
    decreases n,
{
    if n >= 10 {
        push_decimal(s, n / 10);
    }
    s.append(digit_str(n % 10));
}

/// An item holding a number that steps through a fixed ring of values.
pub struct RangeMenuItem {
    label: String,
    value: u32,
    focused_value: u32,
    max_value: u32,
    min_value: u32,
    step_size: u32,
}

impl View for RangeMenuItem {
    type V = RangeView;

    closed spec fn view(&self) -> RangeView {
        RangeView {
            label: self.label@,
            value: self.value as int,
            pending: self.focused_value as int,
            min: self.min_value as int,
            max: self.max_value as int,
            step: self.step_size as int,
        }
    }
}

impl RangeMenuItem {
    /// Builds a range item whose value starts at `min_value`. Fails when the
    /// bounds are equal or reversed, or when `step_size` does not divide
    /// `max_value - min_value` exactly (a zero step divides nothing).
    pub fn new(label: String, min_value: u32, max_value: u32, step_size: u32) -> (r: Result<
        RangeMenuItem,
        &'static str,
    >)
        ensures
            min_value == max_value ==> r == Err::<RangeMenuItem, &'static str>(
                "Min and max value can't be equal",
            ),
            min_value > max_value ==> r == Err::<RangeMenuItem, &'static str>(
                "Max value must be bigger than min value",
            ),
            min_value < max_value && (step_size == 0 || (max_value - min_value) % (
            step_size as int) != 0) ==> r == Err::<RangeMenuItem, &'static str>(
                "The step size doesn't allow traversing min_value to max_value without any reminder",
            ),
            min_value < max_value && step_size > 0 && (max_value - min_value) % (step_size as int)
                == 0 ==> r is Ok && r->Ok_0@ == (RangeView {
                label: label@,
                value: min_value as int,
                pending: min_value as int,
                min: min_value as int,
                max: max_value as int,
                step: step_size as int,
            }),
            r is Ok ==> r->Ok_0@.wf(),
    {
        if min_value == max_value {
            Err("Min and max value can't be equal")
        } else if min_value > max_value {
            Err("Max value must be bigger than min value")
        } else if step_size == 0 || (max_value - min_value) % step_size != 0 {
            Err(
                "The step size doesn't allow traversing min_value to max_value without any reminder",
            )
        } else {
            let item = RangeMenuItem {
                label,
                value: min_value,
                focused_value: min_value,
                min_value,
                max_value,
                step_size,
            };
            assert(item@.on_ring(min_value as int)) by {
                vstd::arithmetic::div_mod::lemma_mod_self_0(step_size as int);
                assert(0int % (step_size as int) == 0);
            }
            Ok(item)
        }
    }

    /// The committed value.
    pub fn get_value(&self) -> (r: u32)
        ensures
            r == self@.value,
    {
        self.value
    }

    /// Commits the next value on the ring.
    pub fn select_next_value(&mut self)
        requires
            old(self)@.wf(),
        ensures
            final(self)@ == (RangeView {
                value: old(self)@.next(old(self)@.value),
                pending: old(self)@.next(old(self)@.value),
                ..old(self)@
            }),
            final(self)@.wf(),
    {
        let new_value = self.next_of(self.value);
        self.value = new_value;
        self.focused_value = new_value;
    }

    /// Commits the previous value on the ring.
    pub fn select_prev_value(&mut self)
        requires
            old(self)@.wf(),
        ensures
            final(self)@ == (RangeView {
                value: old(self)@.prev(old(self)@.value),
                pending: old(self)@.prev(old(self)@.value),
                ..old(self)@
            }),
            final(self)@.wf(),
    {
        let new_value = self.prev_of(self.value);
        self.value = new_value;
        self.focused_value = new_value;
    }

    /// Moves the pending value to the next one on the ring.
    pub fn select_focused_next_value(&mut self)
        requires
            old(self)@.wf(),
        ensures
            final(self)@ == (RangeView {
                pending: old(self)@.next(old(self)@.pending),
                ..old(self)@
            }),
            final(self)@.wf(),
    {
        self.focused_value = self.next_of(self.focused_value);
    }

    /// Moves the pending value to the previous one on the ring.
    pub fn select_focused_prev_value(&mut self)
        requires
            old(self)@.wf(),
        ensures
            final(self)@ == (RangeView {
                pending: old(self)@.prev(old(self)@.pending),
                ..old(self)@
            }),
            final(self)@.wf(),
    {
        self.focused_value = self.prev_of(self.focused_value);
    }

    fn next_of(&self, v: u32) -> (r: u32)
        requires
            self@.wf(),
            self@.on_ring(v as int),
        ensures
            r as int == self@.next(v as int),
            self@.on_ring(r as int),
    {
        if self.max_value - v < self.step_size {
            proof {
                if v < self.max_value {
                    lemma_step_up(self@, v as int);
                }
                vstd::arithmetic::div_mod::lemma_mod_self_0(self.step_size as int);
                assert(0int % (self.step_size as int) == 0);
            }
            self.min_value
        } else {
            proof {
                lemma_step_up(self@, v as int);
            }
            v + self.step_size
        }
    }

    fn prev_of(&self, v: u32) -> (r: u32)
        requires
            self@.wf(),
            self@.on_ring(v as int),
        ensures
            r as int == self@.prev(v as int),
            self@.on_ring(r as int),
    {
        if v == self.min_value {
            self.max_value
        } else {
            proof {
                lemma_step_down(self@, v as int);
            }
            v - self.step_size
        }
    }

    fn enter(&mut self, is_focused: bool) -> (r: PressResult)
        requires
            old(self)@.wf(),
        ensures
            (final(self)@, r) == old(self)@.pressed(Some(FunctionKey::ENTER), is_focused),
            final(self)@.wf(),
    {
        if is_focused {
            self.value = self.focused_value;
        } else {
            self.focused_value = self.value;
        }
        PressResult { focus: !is_focused, handled: true }
    }

    fn back(&mut self) -> (r: PressResult)
        requires
            old(self)@.wf(),
        ensures
            (final(self)@, r) == old(self)@.pressed(Some(FunctionKey::BACK), true),
            final(self)@.wf(),
    {
        self.focused_value = self.value;
        PressResult { handled: true, focus: false }
    }

    fn left(&mut self) -> (r: PressResult)
        requires
            old(self)@.wf(),
        ensures
            (final(self)@, r) == old(self)@.pressed(Some(FunctionKey::LEFT), true),
            final(self)@.wf(),
    {
        self.select_focused_prev_value();
        PressResult { focus: true, handled: true }
    }

    fn right(&mut self) -> (r: PressResult)
        requires
            old(self)@.wf(),
        ensures
            (final(self)@, r) == old(self)@.pressed(Some(FunctionKey::RIGHT), true),
            final(self)@.wf(),
    {
        self.select_focused_next_value();
        PressResult { focus: true, handled: true }
    }
}

impl MenuItem for RangeMenuItem {
    open spec fn model(&self) -> ItemModel {
        ItemModel::Range(self@)
    }

    fn get_label(&self, is_focused: bool) -> (r: String) {
        let value = if is_focused {
            self.focused_value
        } else {
            self.value
        };
        let mut label_str = self.label.clone();
        proof {
            reveal_strlit(": ");
        }
        label_str.append(": ");
        push_decimal(&mut label_str, value);
        label_str
    }

    fn press(&mut self, key: &KeyboardKey, is_focused: bool) -> (r: PressResult) {
        let r = if key.function_key == Some(FunctionKey::ENTER) {
            self.enter(is_focused)
        } else if is_focused && key.function_key == Some(FunctionKey::BACK) {
            self.back()
        } else if is_focused && key.function_key == Some(FunctionKey::LEFT) {
            self.left()
        } else if is_focused && key.function_key == Some(FunctionKey::RIGHT) {
            self.right()
        } else {
            PressResult { focus: is_focused, handled: false }
        };
        r
    }

    fn is_focusable(&self) -> (r: bool) {
        true
    }
}

} // verus!
