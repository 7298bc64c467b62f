//! The wall-clock time record and its fixed-width decimal renderings.

use vstd::prelude::*;

verus! {

/// A wall-clock time, with every field a plain binary value, never BCD:
/// seconds (0–59), minutes (0–59), hours (0–23), weekday (device-defined 1–7
/// code, passed through unmodified), day of the month (1–31), month (1–12)
/// and two-digit year (0–99, century implied).
#[derive(Clone, Copy, Debug, PartialEq, Eq, Structural, Default)]
pub struct DS3231Time {
    pub secs: u8,
    pub mins: u8,
    pub hours: u8,
    /// Weekday
    pub wday: u8,
    /// Day of the month
    pub mday: u8,
    pub month: u8,
    pub year: u8,
}

/// The ASCII tens digit of a two-digit decimal value.
pub open spec fn tens_digit(v: u8) -> u8 {
    (0x30 + v as int / 10) as u8
}

/// The ASCII ones digit of a decimal value.
pub open spec fn ones_digit(v: u8) -> u8 {
    (0x30 + v as int % 10) as u8
}

/// The buffer `buf0` after rendering `hi` into its first two bytes and `lo`
/// into its next two, each right-aligned in its two-character slot: a value
/// below ten writes only its ones digit and leaves the tens byte at its prior
/// value; a two-digit value writes both digits.
pub open spec fn rendered_pairs(buf0: Seq<u8>, hi: u8, lo: u8) -> Seq<u8> {
    let b1 = if hi < 10 {
        buf0.update(1, ones_digit(hi))
    } else {
        buf0.update(0, tens_digit(hi)).update(1, ones_digit(hi))
    };
    if lo < 10 {
        b1.update(3, ones_digit(lo))
    } else {
        b1.update(2, tens_digit(lo)).update(3, ones_digit(lo))
    }
}

/// Renders `v` right-aligned into the two-character slot `buf[pos]`,
/// `buf[pos + 1]`: the ones digit always, the tens digit only when `v` has
/// two digits, leaving `buf[pos]` at its prior value otherwise.
fn render_pair(v: u8, buf: &mut [u8], pos: usize)
    requires
        v <= 99,
        pos + 2 <= old(buf).len(),
    ensures
        v < 10 ==> final(buf)@ == old(buf)@.update(pos + 1, ones_digit(v)),
        v >= 10 ==> final(buf)@ == old(buf)@.update(pos as int, tens_digit(v)).update(
            pos + 1,
            ones_digit(v),
        ),
{
    if v < 10 {
        buf[pos + 1] = 0x30 + v;
    } else {
        buf[pos] = 0x30 + v / 10;
        buf[pos + 1] = 0x30 + v % 10;
    }
}

impl DS3231Time {
    /// Renders hours and minutes as two consecutive two-character decimal
    /// pairs into the first four bytes of `buf`.
    pub fn get_hour_min(&self, buf: &mut [u8])
        requires
            self.hours <= 99,
            self.mins <= 99,
            old(buf).len() >= 4,
        ensures
            final(buf)@ == rendered_pairs(old(buf)@, self.hours, self.mins),
    {
        render_pair(self.hours, buf, 0);
        render_pair(self.mins, buf, 2);
    }

    /// Renders minutes and seconds as two consecutive two-character decimal
    /// pairs into the first four bytes of `buf`.
    pub fn get_simple(&self, buf: &mut [u8])
        requires
            self.mins <= 99,
            self.secs <= 99,
            old(buf).len() >= 4,
        ensures
            final(buf)@ == rendered_pairs(old(buf)@, self.mins, self.secs),
    {
        render_pair(self.mins, buf, 0);
        render_pair(self.secs, buf, 2);
    }
}

} // verus!
