//! The clock reading of a snapshot and its rendering.
//!
//! The whole domain runs on one wall clock, eight hours ahead of UTC. A
//! reading is rendered as `HH:MM:SS.mmm`.

use vstd::prelude::*;
use vstd::string::StringExecFns;

verus! {

/// Seconds in a day.
pub const SECONDS_PER_DAY: u64 = 86_400;

/// Seconds by which the wall clock runs ahead of UTC.
pub const CLOCK_OFFSET: u64 = 28_800;

/// The character of one decimal digit.
pub open spec fn digit(d: nat) -> char
    recommends
        d < 10,
{
    if d == 0 {
        '0'
    } else if d == 1 {
        '1'
    } else if d == 2 {
        '2'
    } else if d == 3 {
        '3'
    } else if d == 4 {
        '4'
    } else if d == 5 {
        '5'
    } else if d == 6 {
        '6'
    } else if d == 7 {
        '7'
    } else if d == 8 {
        '8'
    } else {
        '9'
    }
}

/// The decimal numeral of `n`: most significant digit first, no leading
/// zero but for `0` itself.
pub open spec fn decimal(n: nat) -> Seq<char>
    decreases n,
{
    if n < 10 {
        seq![digit(n)]
    } else {
        decimal(n / 10).push(digit(n % 10))
    }
}

/// `count` zeros.
pub open spec fn zeros(count: nat) -> Seq<char> {
    Seq::new(count, |i: int| '0')
}

/// The decimal numeral of `n`, with zeros in front until it is at least
/// `width` characters long. A numeral that is longer is left as it is.
pub open spec fn padded(n: nat, width: nat) -> Seq<char> {
    let numeral = decimal(n);
    if numeral.len() >= width {
        numeral
    } else {
        zeros((width - numeral.len()) as nat) + numeral
    }
}

/// A clock reading: whole seconds since the epoch, in UTC, and the
/// millisecond within the second.
#[derive(Clone, Copy, Debug, PartialEq, Eq, Structural)]
pub struct Time {
    pub timestamp: u64,
    pub ms: u16,
}

impl Time {
    /// Seconds since the last midnight on the wall clock.
    pub open spec fn spec_second_of_day(self) -> nat {
        ((self.timestamp + CLOCK_OFFSET) % (SECONDS_PER_DAY as int)) as nat
    }

    /// Hour of the day on the wall clock, `0..=23`.
    pub open spec fn spec_hour(self) -> nat {
        self.spec_second_of_day() / 3600
    }

    /// Minute of the hour, `0..=59`.
    pub open spec fn spec_minute(self) -> nat {
        (self.spec_second_of_day() % 3600) / 60
    }

    /// Second of the minute, `0..=59`.
    pub open spec fn spec_second(self) -> nat {
        self.spec_second_of_day() % 60
    }

    /// The reading as text: `HH:MM:SS.mmm`, each part padded with zeros.
    pub open spec fn text(self) -> Seq<char> {
        padded(self.spec_hour(), 2) + seq![':'] + padded(self.spec_minute(), 2) + seq![':']
            + padded(self.spec_second(), 2) + seq!['.'] + padded(self.ms as nat, 3)
    }

    /// Seconds since the last midnight on the wall clock. The offset is
    /// added to the second of the UTC day, so no timestamp overflows.
    pub fn second_of_day(&self) -> (seconds: u64)
        ensures
            seconds == self.spec_second_of_day(),
            seconds < SECONDS_PER_DAY,
    {
        (self.timestamp % SECONDS_PER_DAY + CLOCK_OFFSET) % SECONDS_PER_DAY
    }

    /// Renders the reading as `HH:MM:SS.mmm`.
    pub fn to_string(&self) -> (rendered: String)
        ensures
            rendered@ == self.text(),
    {
        let seconds = self.second_of_day();
        let hour = seconds / 3600;
        let minute = (seconds - hour * 3600) / 60;
        let second = seconds % 60;
        let mut rendered = String::new();
        push_padded(&mut rendered, hour, 2);
        rendered.append(":");
        push_padded(&mut rendered, minute, 2);
        rendered.append(":");
        push_padded(&mut rendered, second, 2);
        rendered.append(".");
        push_padded(&mut rendered, self.ms as u64, 3);
        proof {
            reveal_strlit(":");
            reveal_strlit(".");
            assert(":"@ =~= seq![':']);
            assert("."@ =~= seq!['.']);
            assert(rendered@ =~= self.text());
        }
        rendered
    }
}

/// The one-character text of a decimal digit.
fn digit_str(d: u64) -> (text: &'static str)
    requires
        d < 10,
    ensures
        text@ == seq![digit(d as nat)],
{
    proof {
        reveal_strlit("0");
        reveal_strlit("1");
        reveal_strlit("2");
        reveal_strlit("3");
        reveal_strlit("4");
        reveal_strlit("5");
        reveal_strlit("6");
        reveal_strlit("7");
        reveal_strlit("8");
        reveal_strlit("9");
    }
    let text = if d == 0 {
        "0"
    } else if d == 1 {
        "1"
    } else if d == 2 {
        "2"
    } else if d == 3 {
        "3"
    } else if d == 4 {
        "4"
    } else if d == 5 {
        "5"
    } else if d == 6 {
        "6"
    } else if d == 7 {
        "7"
    } else if d == 8 {
        "8"
    } else {
        "9"
    };
    assert(text@ =~= seq![digit(d as nat)]);
    text
}

/// Number of digits in the decimal numeral of `n`.
fn decimal_len(n: u64) -> (len: usize)
    ensures
        len == decimal(n as nat).len(),
        1 <= len <= 20,
    decreases n,
{
    if n < 10 {
        1
    } else {
        let shorter = decimal_len(n / 10);
        proof {
            lemma_decimal_len_bound(n as nat);
        }
        shorter + 1
    }
}

/// A number below `2^64` has at most twenty digits.
proof fn lemma_decimal_len_bound(n: nat)
    requires
        n <= u64::MAX,
    ensures
        decimal(n).len() <= 20,
{
    reveal_with_fuel(decimal, 21);
}

/// Appends the decimal numeral of `n`.
fn push_decimal(out: &mut String, n: u64)
    ensures
        final(out)@ == old(out)@ + decimal(n as nat),
    decreases n,
{
    if n >= 10 {
        push_decimal(out, n / 10);
    }
    out.append(digit_str(n % 10));
    proof {
        if n >= 10 {
            assert(out@ =~= old(out)@ + decimal((n / 10) as nat).push(digit((n % 10) as nat)));
        } else {
            assert(out@ =~= old(out)@ + seq![digit(n as nat)]);
        }
    }
}

/// Appends the decimal numeral of `n`, padded with zeros to `width`.
fn push_padded(out: &mut String, n: u64, width: usize)
    ensures
        final(out)@ == old(out)@ + padded(n as nat, width as nat),
{
    let len = decimal_len(n);
    let mut filled: usize = len;
    while filled < width
        invariant
            len <= filled,
            filled <= width || filled == len,
            out@ == old(out)@ + zeros((filled - len) as nat),
        decreases width - filled,
    {
        out.append("0");
        proof {
            reveal_strlit("0");
            assert(out@ =~= old(out)@ + zeros((filled + 1 - len) as nat));
        }
        filled = filled + 1;
    }
    push_decimal(out, n);
    proof {
        assert(out@ =~= old(out)@ + padded(n as nat, width as nat));
    }
}

} // verus!
