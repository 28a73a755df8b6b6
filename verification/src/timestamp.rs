//! Calendar timestamps as plain values, and their ISO-8601 rendering.

use vstd::prelude::*;
use vstd::string::StringExecFns;

verus! {

/// The decimal digit characters: `digit_char(d)` is the character for the
/// digit `d`.
pub open spec fn digit_char(d: int) -> char {
    if d == 0 {
        '0'
    } else if d == 1 {
        '1'
    } else if d == 2 {
        '2'
    } else if d == 3 {
        '3'
    } else if d == 4 {
        '4'
    } else if d == 5 {
        '5'
    } else if d == 6 {
        '6'
    } else if d == 7 {
        '7'
    } else if d == 8 {
        '8'
    } else {
        '9'
    }
}

/// The one-character string for a decimal digit.
fn digit_str(d: u32) -> (r: &'static str)
    requires
        d <= 9,
    ensures
        r@ == seq![digit_char(d as int)],
{
    let r: &'static str = if d == 0 {
        "0"
    } else if d == 1 {
        "1"
    } else if d == 2 {
        "2"
    } else if d == 3 {
        "3"
    } else if d == 4 {
        "4"
    } else if d == 5 {
        "5"
    } else if d == 6 {
        "6"
    } else if d == 7 {
        "7"
    } else if d == 8 {
        "8"
    } else {
        "9"
    };
    proof {
        reveal_strlit("0");
        reveal_strlit("1");
        reveal_strlit("2");
        reveal_strlit("3");
        reveal_strlit("4");
        reveal_strlit("5");
        reveal_strlit("6");
        reveal_strlit("7");
        reveal_strlit("8");
        reveal_strlit("9");
        assert(r@ =~= seq![digit_char(d as int)]);
    }
    r
}

/// Appends the two-digit, zero-padded decimal form of `v`.
fn push_two_digits(s: &mut String, v: u32)
    requires
        v <= 99,
    ensures
        final(s)@ == old(s)@ + seq![digit_char(v as int / 10), digit_char(v as int % 10)],
{
    s.append(digit_str(v / 10));
    s.append(digit_str(v % 10));
    proof {
        assert(s@ =~= old(s)@ + seq![digit_char(v as int / 10), digit_char(v as int % 10)]);
    }
}

/// A server-local wall-clock timestamp, second precision, held as plain
/// calendar fields. `created_at` of a tweet is one of these.
#[derive(Clone, Copy, PartialEq, Eq, Structural, Debug)]
pub struct Timestamp {
    pub year: i32,
    pub month: u8,
    pub day: u8,
    pub hour: u8,
    pub minute: u8,
    pub second: u8,
}

impl Timestamp {
    /// The fields lie in their calendar ranges.
    pub open spec fn wf(self) -> bool {
        &&& 1 <= self.month <= 12
        &&& 1 <= self.day <= 31
        &&& self.hour <= 23
        &&& self.minute <= 59
        &&& self.second <= 59
    }

    /// The ISO-8601 rendering `YYYY-MM-DDTHH:MM:SS`, character by
    /// character.
    pub open spec fn iso(self) -> Seq<char> {
        seq![
            digit_char(self.year as int / 1000 % 10),
            digit_char(self.year as int / 100 % 10),
            digit_char(self.year as int / 10 % 10),
            digit_char(self.year as int % 10),
            '-',
            digit_char(self.month as int / 10),
            digit_char(self.month as int % 10),
            '-',
            digit_char(self.day as int / 10),
            digit_char(self.day as int % 10),
            'T',
            digit_char(self.hour as int / 10),
            digit_char(self.hour as int % 10),
            ':',
            digit_char(self.minute as int / 10),
            digit_char(self.minute as int % 10),
            ':',
            digit_char(self.second as int / 10),
            digit_char(self.second as int % 10),
        ]
    }

    /// The ISO-8601 form, e.g. `2024-01-01T00:00:00`. Four-digit years
    /// only: that is all the format can carry.
    pub fn to_iso_string(&self) -> (r: String)
        requires
            self.wf(),
            0 <= self.year <= 9999,
        ensures
            r@ == self.iso(),
    {
        let y = self.year as u32;
        let mut s = String::new();
        s.append(digit_str(y / 1000 % 10));
        s.append(digit_str(y / 100 % 10));
        s.append(digit_str(y / 10 % 10));
        s.append(digit_str(y % 10));
        s.append("-");
        push_two_digits(&mut s, self.month as u32);
        s.append("-");
        push_two_digits(&mut s, self.day as u32);
        s.append("T");
        push_two_digits(&mut s, self.hour as u32);
        s.append(":");
        push_two_digits(&mut s, self.minute as u32);
        s.append(":");
        push_two_digits(&mut s, self.second as u32);
        proof {
            reveal_strlit("-");
            reveal_strlit("T");
            reveal_strlit(":");
            assert(s@ =~= self.iso());
        }
        s
    }
}

} // verus!
