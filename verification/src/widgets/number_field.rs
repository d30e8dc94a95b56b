//! Numeric field with increment / decrement (bind buttons in the UI).

use vstd::prelude::*;
use crate::input::{Key, KeyEvent};

verus! {

#[derive(Debug, Clone)]
pub struct NumberField {
    pub value: i64,
    pub min: i64,
    pub max: i64,
    pub step: i64,
}

/// `v` clamped into `[lo, hi]`.
pub open spec fn clamp_int(v: int, lo: int, hi: int) -> int {
    if v < lo { lo } else if v > hi { hi } else { v }
}

/// `v` saturated into the range of `i64`.
pub open spec fn saturate_i64(v: int) -> int {
    clamp_int(v, i64::MIN as int, i64::MAX as int)
}

/// The value after one increment.
pub open spec fn incremented(value: int, step: int, max: int) -> int {
    let s = saturate_i64(value + step);
    if s < max { s } else { max }
}

/// The value after one decrement.
pub open spec fn decremented(value: int, step: int, min: int) -> int {
    let s = saturate_i64(value - step);
    if s > min { s } else { min }
}

/// The field after one key: Up / Right increment, Down / Left decrement, other keys
/// change nothing.
pub open spec fn number_key_result(n: NumberField, key: Key) -> NumberField {
    NumberField {
        value: (if key == Key::Up || key == Key::Right {
            incremented(n.value as int, n.step as int, n.max as int)
        } else if key == Key::Down || key == Key::Left {
            decremented(n.value as int, n.step as int, n.min as int)
        } else {
            n.value as int
        }) as i64,
        ..n
    }
}

/// On a field whose value lies in `[min, max]` with a non-negative step: Up and Right
/// raise the value by exactly the step when that stays within `max` and stop at `max`
/// otherwise; Down and Left lower it by the step, stopping at `min`; the value stays
/// in `[min, max]`, and the bounds and step never change.
pub proof fn lemma_number_step(n: NumberField, key: Key)
    requires
        n.min <= n.value <= n.max,
        n.step >= 0,
    ensures
        ({
            let r = number_key_result(n, key);
            &&& r.min == n.min && r.max == n.max && r.step == n.step
            &&& n.min <= r.value <= n.max
            &&& (key == Key::Up || key == Key::Right) ==>
                r.value == (if n.value + n.step <= n.max { n.value + n.step } else { n.max as int })
            &&& (key == Key::Down || key == Key::Left) ==>
                r.value == (if n.value - n.step >= n.min { n.value - n.step } else { n.min as int })
            &&& !(key == Key::Up || key == Key::Right || key == Key::Down || key == Key::Left) ==> r == n
        }),
{
}

fn saturating_add_i64(a: i64, b: i64) -> (r: i64)
    ensures
        r == saturate_i64(a + b),
{
    if b >= 0 {
        if a > i64::MAX - b { i64::MAX } else { a + b }
    } else {
        if a < i64::MIN - b { i64::MIN } else { a + b }
    }
}

fn saturating_sub_i64(a: i64, b: i64) -> (r: i64)
    ensures
        r == saturate_i64(a - b),
{
    if b >= 0 {
        if a < i64::MIN + b { i64::MIN } else { a - b }
    } else {
        if a > i64::MAX + b { i64::MAX } else { a - b }
    }
}

impl NumberField {
    /// The value is clamped into `[min, max]`; the step is at least 1.
    pub fn new(value: i64, min: i64, max: i64, step: i64) -> (r: Self)
        requires
            min <= max,
        ensures
            r.value == clamp_int(value as int, min as int, max as int),
            r.min == min,
            r.max == max,
            r.step == if step < 1 { 1 } else { step },
    {
        let v = if value < min { min } else if value > max { max } else { value };
        NumberField { value: v, min, max, step: if step < 1 { 1 } else { step } }
    }

    /// Add `step` (saturating), then cap at `max`.
    pub fn increment(&mut self)
        ensures
            final(self).value == incremented(old(self).value as int, old(self).step as int, old(self).max as int),
            final(self).min == old(self).min,
            final(self).max == old(self).max,
            final(self).step == old(self).step,
    {
        let s = saturating_add_i64(self.value, self.step);
        self.value = if s < self.max { s } else { self.max };
    }

    /// Subtract `step` (saturating), then floor at `min`.
    pub fn decrement(&mut self)
        ensures
            final(self).value == decremented(old(self).value as int, old(self).step as int, old(self).min as int),
            final(self).min == old(self).min,
            final(self).max == old(self).max,
            final(self).step == old(self).step,
    {
        let s = saturating_sub_i64(self.value, self.step);
        self.value = if s > self.min { s } else { self.min };
    }

    /// Up/Right increment, Down/Left decrement; returns whether the key was handled.
    pub fn apply_key(&mut self, key: Key) -> (r: bool)
        ensures
            r == (key == Key::Up || key == Key::Right || key == Key::Down || key == Key::Left),
            final(self).value == if key == Key::Up || key == Key::Right {
                incremented(old(self).value as int, old(self).step as int, old(self).max as int)
            } else if key == Key::Down || key == Key::Left {
                decremented(old(self).value as int, old(self).step as int, old(self).min as int)
            } else {
                old(self).value as int
            },
            final(self).min == old(self).min,
            final(self).max == old(self).max,
            final(self).step == old(self).step,
    {
        self.apply_key_event(&KeyEvent::new(key))
    }

    /// Same as [`Self::apply_key`] for an event (modifiers ignored).
    pub fn apply_key_event(&mut self, ev: &KeyEvent) -> (r: bool)
        ensures
            r == (ev.key == Key::Up || ev.key == Key::Right || ev.key == Key::Down || ev.key == Key::Left),
            *final(self) == number_key_result(*old(self), ev.key),
    {
        match ev.key {
            Key::Up | Key::Right => {
                self.increment();
                true
            },
            Key::Down | Key::Left => {
                self.decrement();
                true
            },
            _ => false,
        }
    }
}

} // verus!
