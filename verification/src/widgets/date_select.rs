//! Calendar date field (year / month / day) — composite keyboard widget (no drawing).

use vstd::prelude::*;
use crate::input::{Key, KeyEvent};

verus! {

/// Proleptic Gregorian leap year.
pub open spec fn is_leap_year_spec(year: int) -> bool {
    (year % 4 == 0 && year % 100 != 0) || year % 400 == 0
}

/// Days in `month` (1–12) of `year`; any other month counts 31 days.
pub open spec fn days_in_month_spec(year: int, month: int) -> int {
    if month == 1 || month == 3 || month == 5 || month == 7 || month == 8 || month == 10 || month == 12 {
        31
    } else if month == 4 || month == 6 || month == 9 || month == 11 {
        30
    } else if month == 2 {
        if is_leap_year_spec(year) { 29 } else { 28 }
    } else {
        31
    }
}

/// The calendar's month lengths: April, June, September and November have 30 days;
/// February has 29 days in years divisible by 4 but not by 100, or by 400, and 28
/// otherwise; every other month has 31. A year's months add up to 366 days in a
/// leap year and 365 otherwise.
pub proof fn lemma_month_lengths(year: int)
    ensures
        forall|m: int| m == 4 || m == 6 || m == 9 || m == 11 ==> #[trigger] days_in_month_spec(year, m) == 30,
        forall|m: int| m == 1 || m == 3 || m == 5 || m == 7 || m == 8 || m == 10 || m == 12
            ==> #[trigger] days_in_month_spec(year, m) == 31,
        days_in_month_spec(year, 2) == 29 <==> (year % 4 == 0 && (year % 100 != 0 || year % 400 == 0)),
        days_in_month_spec(year, 2) == 28 || days_in_month_spec(year, 2) == 29,
        days_in_month_spec(year, 1) + days_in_month_spec(year, 2) + days_in_month_spec(year, 3)
            + days_in_month_spec(year, 4) + days_in_month_spec(year, 5) + days_in_month_spec(year, 6)
            + days_in_month_spec(year, 7) + days_in_month_spec(year, 8) + days_in_month_spec(year, 9)
            + days_in_month_spec(year, 10) + days_in_month_spec(year, 11) + days_in_month_spec(year, 12)
            == if year % 4 == 0 && (year % 100 != 0 || year % 400 == 0) { 366int } else { 365int },
{
}

/// `d` divides `-x` exactly when it divides `x`.
proof fn lemma_divides_neg(x: int, d: int)
    requires
        d > 0,
    ensures
        ((-x) % d == 0) == (x % d == 0),
{
    let q = x / d;
    let r = x % d;
    vstd::arithmetic::div_mod::lemma_fundamental_div_mod(x, d);
    vstd::arithmetic::div_mod::lemma_mod_bound(x, d);
    if r == 0 {
        assert(-x == (-q) * d + 0) by (nonlinear_arith)
            requires x == d * q + r, r == 0;
        vstd::arithmetic::div_mod::lemma_fundamental_div_mod_converse(-x, d, -q, 0);
    } else {
        assert(-x == (-q - 1) * d + (d - r)) by (nonlinear_arith)
            requires x == d * q + r;
        vstd::arithmetic::div_mod::lemma_fundamental_div_mod_converse(-x, d, -q - 1, d - r);
    }
}

/// Whether `d` divides `year`.
fn divides(year: i32, d: i32) -> (r: bool)
    requires
        d > 0,
    ensures
        r == (year as int % d as int == 0),
{
    if year >= 0 {
        let y = year as u32;
        let m = y % (d as u32);
        m == 0
    } else {
        let x: i64 = -(year as i64);
        let m = (x as u64) % (d as u64);
        proof { lemma_divides_neg(year as int, d as int); }
        m == 0
    }
}

/// Proleptic Gregorian calendar: leap years.
pub fn is_leap_year(year: i32) -> (r: bool)
    ensures
        r == is_leap_year_spec(year as int),
{
    (divides(year, 4) && !divides(year, 100)) || divides(year, 400)
}

/// Days in `month` (1–12) for `year`.
pub fn days_in_month(year: i32, month: u8) -> (r: u8)
    ensures
        r == days_in_month_spec(year as int, month as int),
{
    match month {
        1 | 3 | 5 | 7 | 8 | 10 | 12 => 31,
        4 | 6 | 9 | 11 => 30,
        2 => if is_leap_year(year) { 29 } else { 28 },
        _ => 31,
    }
}

/// Which sub-field has focus for Left/Right/Tab navigation.
#[derive(Debug, Clone, Copy, PartialEq, Eq, Structural)]
pub enum DateField {
    Year,
    Month,
    Day,
}

#[derive(Debug, Clone, Copy, PartialEq, Eq, Structural)]
pub enum DateSelectAction {
    /// Any of year / month / day changed.
    Changed,
}

/// Single date value with keyboard-driven editing.
#[derive(Debug, Clone, PartialEq, Eq, Structural)]
pub struct DateSelect {
    pub year: i32,
    /// 1–12
    pub month: u8,
    /// 1–31 (clamped to the real calendar when month/year change)
    pub day: u8,
    pub focus: DateField,
    pub min_year: i32,
    pub max_year: i32,
}

/// `v` clamped into `[lo, hi]`.
pub open spec fn clamp_i(v: int, lo: int, hi: int) -> int {
    if v < lo { lo } else if v > hi { hi } else { v }
}

/// The focus after Tab / Right.
pub open spec fn next_field(f: DateField) -> DateField {
    match f {
        DateField::Year => DateField::Month,
        DateField::Month => DateField::Day,
        DateField::Day => DateField::Year,
    }
}

/// The focus after Left.
pub open spec fn prev_field(f: DateField) -> DateField {
    match f {
        DateField::Year => DateField::Day,
        DateField::Month => DateField::Year,
        DateField::Day => DateField::Month,
    }
}

/// Month counted from year 0: `year * 12 + (month - 1)`.
pub open spec fn month_index(year: int, month: int) -> int {
    year * 12 + month - 1
}

/// Whether an Up (`delta == 1`) or Down (`delta == -1`) on the focused field is
/// possible, and the date after it (year, month, day).
pub open spec fn bumped(d: DateSelect, delta: int) -> Option<(int, int, int)> {
    match d.focus {
        DateField::Year => {
            let ny = clamp_i(d.year + delta, d.min_year as int, d.max_year as int);
            if ny == d.year {
                None
            } else {
                Some((ny, d.month as int, clamp_i(d.day as int, 1, days_in_month_spec(ny, d.month as int))))
            }
        },
        DateField::Month => {
            let k = month_index(d.year as int, d.month as int) + delta;
            let y = k / 12;
            let m = k % 12 + 1;
            if y < d.min_year || y > d.max_year {
                None
            } else {
                Some((y, m, clamp_i(d.day as int, 1, days_in_month_spec(y, m))))
            }
        },
        DateField::Day => {
            let dmax = days_in_month_spec(d.year as int, d.month as int);
            let nd0 = d.day + delta;
            let nd = if nd0 < 1 { dmax } else if nd0 > dmax { 1 } else { nd0 };
            if nd == d.day {
                None
            } else {
                Some((d.year as int, d.month as int, nd))
            }
        },
    }
}

/// Up and Down keep a valid date valid and move it by one step of the focused field:
/// the year by exactly one (month kept), the month to the next or previous calendar
/// month (across year ends), the day by one within its month (wrapping from the last
/// day to the first and back); the day is clamped into the new month, and the year
/// stays within its limits.
pub proof fn lemma_bump_one_step(d: DateSelect, delta: int)
    requires
        delta == 1 || delta == -1,
        1 <= d.month <= 12,
        1 <= d.day <= days_in_month_spec(d.year as int, d.month as int),
        d.min_year <= d.year <= d.max_year,
    ensures
        bumped(d, delta) matches Some((y, m, dd)) ==> {
            &&& 1 <= m <= 12
            &&& 1 <= dd <= days_in_month_spec(y, m)
            &&& d.min_year <= y <= d.max_year
            &&& d.focus == DateField::Year ==> y == d.year + delta && m == d.month
            &&& d.focus == DateField::Month ==> y * 12 + m == d.year * 12 + d.month + delta
            &&& d.focus == DateField::Day ==> y == d.year && m == d.month
                && (delta == 1 ==> dd == (if d.day == days_in_month_spec(d.year as int, d.month as int) { 1 } else { d.day + 1 }))
                && (delta == -1 ==> dd == (if d.day == 1 { days_in_month_spec(d.year as int, d.month as int) } else { d.day - 1 }))
        },
{
    if d.focus == DateField::Month {
        let k = month_index(d.year as int, d.month as int) + delta;
        assert(k == 12 * (k / 12) + k % 12);
        assert(0 <= k % 12 < 12);
    }
}

/// Arithmetic of a bump stays within `i32` (the field routines would otherwise overflow).
pub open spec fn bump_in_range(d: DateSelect, delta: int) -> bool {
    match d.focus {
        DateField::Year => i32::MIN <= d.year + delta <= i32::MAX && d.min_year <= d.max_year,
        DateField::Month => i32::MIN <= (month_index(d.year as int, d.month as int) + delta) / 12 <= i32::MAX,
        DateField::Day => true,
    }
}

/// The date selector and action after one key: Up/Down adjust the focused field,
/// Tab / Right move focus forward, Left backward; other keys do nothing.
pub open spec fn date_key_result(d: DateSelect, key: Key) -> (DateSelect, Option<DateSelectAction>) {
    match key {
        Key::Tab | Key::Right => (DateSelect { focus: next_field(d.focus), ..d }, None),
        Key::Left => (DateSelect { focus: prev_field(d.focus), ..d }, None),
        Key::Up | Key::Down => {
            let delta: int = if key == Key::Up { 1 } else { -1 };
            match bumped(d, delta) {
                Some((y, m, dd)) => (DateSelect { year: y as i32, month: m as u8, day: dd as u8, ..d }, Some(DateSelectAction::Changed)),
                None => (d, None),
            }
        },
        _ => (d, None),
    }
}

impl DateSelect {
    /// The month is clamped into 1–12 and the day into the month; the year range is 1970–2100.
    pub fn new(year: i32, month: u8, day: u8) -> (r: Self)
        ensures
            r.year == year,
            r.month == clamp_i(month as int, 1, 12),
            r.day == clamp_i(day as int, 1, days_in_month_spec(year as int, clamp_i(month as int, 1, 12))),
            r.focus == DateField::Day,
            r.min_year == 1970,
            r.max_year == 2100,
    {
        let m = if month < 1 { 1 } else if month > 12 { 12 } else { month };
        let mut s = DateSelect { year, month: m, day, focus: DateField::Day, min_year: 1970, max_year: 2100 };
        s.normalize_day();
        s
    }

    fn normalize_day(&mut self)
        ensures
            *final(self) == (DateSelect {
                day: clamp_i(old(self).day as int, 1, days_in_month_spec(old(self).year as int, old(self).month as int)) as u8,
                ..*old(self)
            }),
    {
        let dmax = days_in_month(self.year, self.month);
        self.day = if self.day < 1 { 1 } else if self.day > dmax { dmax } else { self.day };
    }

    fn bump_year(&mut self, delta: i32) -> (changed: bool)
        requires
            old(self).focus == DateField::Year,
            bump_in_range(*old(self), delta as int),
        ensures
            changed == bumped(*old(self), delta as int) is Some,
            changed ==> bumped(*old(self), delta as int) == Some(
                (final(self).year as int, final(self).month as int, final(self).day as int),
            ),
            !changed ==> *final(self) == *old(self),
            final(self).focus == old(self).focus,
            final(self).min_year == old(self).min_year,
            final(self).max_year == old(self).max_year,
    {
        let y = self.year + delta;
        let ny = if y < self.min_year { self.min_year } else if y > self.max_year { self.max_year } else { y };
        if ny == self.year {
            return false;
        }
        self.year = ny;
        self.normalize_day();
        true
    }

    fn bump_month(&mut self, delta: i32) -> (changed: bool)
        requires
            old(self).focus == DateField::Month,
            delta == 1 || delta == -1,
            bump_in_range(*old(self), delta as int),
        ensures
            changed == bumped(*old(self), delta as int) is Some,
            changed ==> bumped(*old(self), delta as int) == Some(
                (final(self).year as int, final(self).month as int, final(self).day as int),
            ),
            !changed ==> *final(self) == *old(self),
            final(self).focus == old(self).focus,
            final(self).min_year == old(self).min_year,
            final(self).max_year == old(self).max_year,
    {
        let ghost k = month_index(self.year as int, self.month as int) + delta;
        let mut m: i32 = self.month as i32 - 1;
        let mut y: i32 = self.year;
        m = m + delta;
        if m < 0 {
            m = m + 12;
            y = y - 1;
        }
        while m >= 12
            invariant
                0 <= m <= 255,
                y * 12 + m == k,
                i32::MIN <= y <= k / 12,
                k / 12 <= i32::MAX,
            decreases m,
        {
            m = m - 12;
            y = y + 1;
        }
        assert(y == k / 12 && m == k % 12);
        if y < self.min_year || y > self.max_year {
            return false;
        }
        self.year = y;
        self.month = (m + 1) as u8;
        self.normalize_day();
        true
    }

    fn bump_day(&mut self, delta: i32) -> (changed: bool)
        requires
            old(self).focus == DateField::Day,
            delta == 1 || delta == -1,
        ensures
            changed == bumped(*old(self), delta as int) is Some,
            changed ==> bumped(*old(self), delta as int) == Some(
                (final(self).year as int, final(self).month as int, final(self).day as int),
            ),
            !changed ==> *final(self) == *old(self),
            final(self).focus == old(self).focus,
            final(self).min_year == old(self).min_year,
            final(self).max_year == old(self).max_year,
    {
        let dmax = days_in_month(self.year, self.month) as i32;
        let mut d: i32 = self.day as i32 + delta;
        if d < 1 {
            d = dmax;
        } else if d > dmax {
            d = 1;
        }
        let nd = d as u8;
        if nd == self.day {
            return false;
        }
        self.day = nd;
        true
    }

    /// Up/Down adjust the focused field; Tab / Right move focus forward, Left backward;
    /// every other key does nothing. Returns `Some(Changed)` exactly when the date changed.
    pub fn apply_key_event(&mut self, ev: &KeyEvent) -> (r: Option<DateSelectAction>)
        requires
            ev.key == Key::Up ==> bump_in_range(*old(self), 1),
            ev.key == Key::Down ==> bump_in_range(*old(self), -1),
        ensures
            (*final(self), r) == date_key_result(*old(self), ev.key),
    {
        match ev.key {
            Key::Tab | Key::Right => {
                self.focus = match self.focus {
                    DateField::Year => DateField::Month,
                    DateField::Month => DateField::Day,
                    DateField::Day => DateField::Year,
                };
                None
            },
            Key::Left => {
                self.focus = match self.focus {
                    DateField::Year => DateField::Day,
                    DateField::Month => DateField::Year,
                    DateField::Day => DateField::Month,
                };
                None
            },
            Key::Up | Key::Down => {
                let delta: i32 = if ev.key == Key::Up { 1 } else { -1 };
                let changed = match self.focus {
                    DateField::Year => self.bump_year(delta),
                    DateField::Month => self.bump_month(delta),
                    DateField::Day => self.bump_day(delta),
                };
                if changed { Some(DateSelectAction::Changed) } else { None }
            },
            _ => None,
        }
    }
}

} // verus!
