use vstd::prelude::*;

verus! {

/// One timestamped unit of transcribed text. `start` and `stop` are offsets
/// into the transcribed buffer, in centisecond ticks.
#[derive(Debug, Clone)]
pub struct Text {
    pub text: String,
    pub start: i64,
    pub stop: i64,
}

/// The decimal digit character for `d < 10`.
pub open spec fn digit_char(d: nat) -> char {
    if d == 0 {
        '0'
    } else if d == 1 {
        '1'
    } else if d == 2 {
        '2'
    } else if d == 3 {
        '3'
    } else if d == 4 {
        '4'
    } else if d == 5 {
        '5'
    } else if d == 6 {
        '6'
    } else if d == 7 {
        '7'
    } else if d == 8 {
        '8'
    } else {
        '9'
    }
}

/// The decimal digits of `n`, most significant first, with no leading zero.
pub open spec fn digits(n: nat) -> Seq<char>
    decreases n,
{
    if n < 10 {
        seq![digit_char(n)]
    } else {
        digits(n / 10) + seq![digit_char(n % 10)]
    }
}

/// The decimal rendering of `n`, with a leading `-` when it is negative.
pub open spec fn decimal(n: int) -> Seq<char> {
    if n < 0 {
        seq!['-'] + digits((-n) as nat)
    } else {
        digits(n as nat)
    }
}

/// The display line of a segment: `[<start> - <stop>]: <text>`.
pub open spec fn line_of(start: int, stop: int, text: Seq<char>) -> Seq<char> {
    seq!['['] + decimal(start) + seq![' ', '-', ' '] + decimal(stop) + seq![']', ':', ' ']
        + text
}

fn digit_str(d: u64) -> (r: &'static str)
    requires
        d < 10,
    ensures
        r@ == seq![digit_char(d as nat)],
{
    proof {
        reveal_strlit("0");
        reveal_strlit("1");
        reveal_strlit("2");
        reveal_strlit("3");
        reveal_strlit("4");
        reveal_strlit("5");
        reveal_strlit("6");
        reveal_strlit("7");
        reveal_strlit("8");
        reveal_strlit("9");
    }
    if d == 0 {
        "0"
    } else if d == 1 {
        "1"
    } else if d == 2 {
        "2"
    } else if d == 3 {
        "3"
    } else if d == 4 {
        "4"
    } else if d == 5 {
        "5"
    } else if d == 6 {
        "6"
    } else if d == 7 {
        "7"
    } else if d == 8 {
        "8"
    } else {
        "9"
    }
}

fn push_digits(out: &mut String, n: u64)
    ensures
        final(out)@ == old(out)@ + digits(n as nat),
    decreases n,
{
    if n >= 10 {
        push_digits(out, n / 10);
    }
    out.append(digit_str(n % 10));
    assert(final(out)@ =~= old(out)@ + digits(n as nat));
}

/// Appends the decimal rendering of `n` to `out`.
pub fn push_decimal(out: &mut String, n: i64)
    ensures
        final(out)@ == old(out)@ + decimal(n as int),
{
    if n < 0 {
        proof {
            reveal_strlit("-");
        }
        out.append("-");
        let magnitude: u64 = (0i128 - n as i128) as u64;
        push_digits(out, magnitude);
        assert(final(out)@ =~= old(out)@ + decimal(n as int));
    } else {
        push_digits(out, n as u64);
    }
}

impl Text {
    /// The display and export line of this segment: `[<start> - <stop>]: <text>`.
    pub fn to_line(&self) -> (r: String)
        ensures
            r@ == line_of(self.start as int, self.stop as int, self.text@),
    {
        proof {
            reveal_strlit("[");
            reveal_strlit(" - ");
            reveal_strlit("]: ");
        }
        let mut out = String::from_str("[");
        push_decimal(&mut out, self.start);
        out.append(" - ");
        push_decimal(&mut out, self.stop);
        out.append("]: ");
        out.append(self.text.as_str());
        assert(out@ =~= line_of(self.start as int, self.stop as int, self.text@));
        out
    }
}

} // verus!
