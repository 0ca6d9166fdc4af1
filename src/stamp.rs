//! The identifier of a run, derived from the UTC time at which it started.
use vstd::prelude::*;
use vstd::string::*;
use crate::text::{decimal, decimal_text};

verus! {

/// A UTC calendar time, to the second.
#[derive(Debug, Clone, Copy, PartialEq, Eq, Structural)]
pub struct RunStamp {
    pub year: i32,
    pub month: u32,
    pub day: u32,
    pub hour: u32,
    pub minute: u32,
    pub second: u32,
}

/// `s` left-padded with zeros to at least `width` characters.
pub open spec fn zero_padded(s: Seq<char>, width: nat) -> Seq<char> {
    if s.len() < width {
        Seq::new((width - s.len()) as nat, |i: int| '0') + s
    } else {
        s
    }
}

/// The year as a calendar format writes it: four digits at least, with a
/// sign outside the years 0 to 9999.
pub open spec fn year_text(y: int) -> Seq<char> {
    if 0 <= y <= 9999 {
        zero_padded(decimal(y as nat), 4)
    } else if y > 9999 {
        "+"@ + decimal(y as nat)
    } else {
        "-"@ + zero_padded(decimal((-y) as nat), 4)
    }
}

pub open spec fn two_digits(n: u32) -> Seq<char> {
    zero_padded(decimal(n as nat), 2)
}

/// `backup-YYYYMMDDTHHMMSS`.
pub open spec fn run_id(t: RunStamp) -> Seq<char> {
    "backup-"@ + year_text(t.year as int) + two_digits(t.month) + two_digits(t.day) + "T"@
        + two_digits(t.hour) + two_digits(t.minute) + two_digits(t.second)
}

/// Renders `n` in decimal, left-padded with zeros to `width` characters.
pub fn padded_decimal(n: u64, width: usize) -> (r: String)
    ensures
        r@ == zero_padded(decimal(n as nat), width as nat),
{
    let digits = decimal_text(n);
    let len = digits.as_str().unicode_len();
    if len >= width {
        return digits;
    }
    let mut r = String::new();
    let mut i: usize = 0;
    while i < width - len
        invariant
            len < width,
            i <= width - len,
            r@ == Seq::new(i as nat, |k: int| '0'),
        decreases width - len - i,
    {
        r.append("0");
        proof {
            reveal_strlit("0");
        }
        assert(r@ =~= Seq::new((i + 1) as nat, |k: int| '0'));
        i = i + 1;
    }
    r.append(digits.as_str());
    r
}

impl RunStamp {
    /// The identifier of a run started at this time: `backup-YYYYMMDDTHHMMSS`.
    pub fn backup_id(&self) -> (r: String)
        ensures
            r@ == run_id(*self),
    {
        let mut r = String::from_str("backup-");
        if self.year >= 0 && self.year <= 9999 {
            let y = padded_decimal(self.year as u64, 4);
            r.append(y.as_str());
        } else if self.year > 9999 {
            r.append("+");
            let y = decimal_text(self.year as u64);
            r.append(y.as_str());
        } else {
            r.append("-");
            let y = padded_decimal((0 - (self.year as i64)) as u64, 4);
            r.append(y.as_str());
        }
        let m = padded_decimal(self.month as u64, 2);
        r.append(m.as_str());
        let d = padded_decimal(self.day as u64, 2);
        r.append(d.as_str());
        r.append("T");
        let h = padded_decimal(self.hour as u64, 2);
        r.append(h.as_str());
        let mi = padded_decimal(self.minute as u64, 2);
        r.append(mi.as_str());
        let s = padded_decimal(self.second as u64, 2);
        r.append(s.as_str());
        r
    }
}

} // verus!
