//! Human-readable rendering of byte counts and millisecond durations,
//! built on a verified decimal printer.

use vstd::prelude::*;
use vstd::string::StringExecFns;

verus! {

/// The character for one decimal digit.
pub open spec fn digit_char(d: int) -> char {
    if d == 0 {
        '0'
    } else if d == 1 {
        '1'
    } else if d == 2 {
        '2'
    } else if d == 3 {
        '3'
    } else if d == 4 {
        '4'
    } else if d == 5 {
        '5'
    } else if d == 6 {
        '6'
    } else if d == 7 {
        '7'
    } else if d == 8 {
        '8'
    } else {
        '9'
    }
}

/// The decimal digits of `n`, most significant first, with no leading
/// zeros (except for `n == 0`, which is the single digit `0`).
pub open spec fn dec_digits(n: nat) -> Seq<char>
    decreases n,
{
    if n < 10 {
        seq![digit_char(n as int)]
    } else {
        dec_digits(n / 10) + seq![digit_char((n % 10) as int)]
    }
}

/// Exactly `width` decimal digits of `n`, zero-padded on the left;
/// digits of `n` beyond `width` are dropped.
pub open spec fn padded_digits(n: nat, width: nat) -> Seq<char>
    decreases width,
{
    if width == 0 {
        Seq::empty()
    } else {
        padded_digits(n / 10, (width - 1) as nat) + seq![digit_char((n % 10) as int)]
    }
}

/// The fractional digits of `n / 10^width`: `n` zero-padded on the left
/// to `width` digits, with trailing zeros removed.
pub open spec fn frac_digits(n: nat, width: nat) -> Seq<char>
    decreases width,
{
    if width == 0 {
        Seq::empty()
    } else if n % 10 == 0 {
        frac_digits(n / 10, (width - 1) as nat)
    } else {
        padded_digits(n, width)
    }
}

/// The decimal rendering of `q + r / 10^width`: the integer part, then a
/// point and the fractional digits, the point and fraction omitted when
/// `r` is zero.
pub open spec fn decimal_text(q: nat, r: nat, width: nat) -> Seq<char> {
    if r == 0 {
        dec_digits(q)
    } else {
        dec_digits(q) + "."@ + frac_digits(r, width)
    }
}

/// The human-readable rendering of a byte count: plain bytes below one
/// thousand, kilobytes (dividing by 1000) below one million, megabytes
/// (dividing by 1000000) above, with no larger tier.
pub open spec fn size_text(bytes: nat) -> Seq<char> {
    if bytes < 1000 {
        dec_digits(bytes) + " bytes"@
    } else if bytes < 1000000 {
        decimal_text(bytes / 1000, bytes % 1000, 3) + " KB"@
    } else {
        decimal_text(bytes / 1000000, bytes % 1000000, 6) + " MB"@
    }
}

/// The human-readable rendering of a millisecond count, decomposed by
/// integer division into minutes, seconds and milliseconds.
pub open spec fn time_text(ms: nat) -> Seq<char> {
    dec_digits(ms / 60000) + "m "@ + dec_digits((ms / 1000) % 60) + "s "@ + dec_digits(ms % 1000)
        + "ms"@
}

/// A run of `n` spaces.
pub open spec fn spaces(n: nat) -> Seq<char>
    decreases n,
{
    if n == 0 {
        Seq::empty()
    } else {
        spaces((n - 1) as nat) + seq![' ']
    }
}

pub proof fn lemma_spaces_len(n: nat)
    ensures
        spaces(n).len() == n,
    decreases n,
{
    if n > 0 {
        lemma_spaces_len((n - 1) as nat);
    }
}

fn digit_str(d: u64) -> (r: &'static str)
    requires
        d < 10,
    ensures
        r@ == seq![digit_char(d as int)],
{
    proof {
        reveal_strlit("0");
        reveal_strlit("1");
        reveal_strlit("2");
        reveal_strlit("3");
        reveal_strlit("4");
        reveal_strlit("5");
        reveal_strlit("6");
        reveal_strlit("7");
        reveal_strlit("8");
        reveal_strlit("9");
    }
    let r = match d {
        0 => "0",
        1 => "1",
        2 => "2",
        3 => "3",
        4 => "4",
        5 => "5",
        6 => "6",
        7 => "7",
        8 => "8",
        _ => "9",
    };
    proof {
        assert(r@ =~= seq![digit_char(d as int)]);
    }
    r
}

/// Render `n` in decimal.
pub fn u64_to_string(n: u64) -> (r: String)
    ensures
        r@ == dec_digits(n as nat),
    decreases n,
{
    if n < 10 {
        digit_str(n).to_owned()
    } else {
        let mut s = u64_to_string(n / 10);
        s.append(digit_str(n % 10));
        s
    }
}

fn padded_str(n: u64, width: u64) -> (r: String)
    ensures
        r@ == padded_digits(n as nat, width as nat),
    decreases width,
{
    if width == 0 {
        String::new()
    } else {
        let mut s = padded_str(n / 10, width - 1);
        s.append(digit_str(n % 10));
        s
    }
}

fn frac_str(n: u64, width: u64) -> (r: String)
    ensures
        r@ == frac_digits(n as nat, width as nat),
    decreases width,
{
    if width == 0 {
        String::new()
    } else if n % 10 == 0 {
        frac_str(n / 10, width - 1)
    } else {
        padded_str(n, width)
    }
}

fn decimal_str(q: u64, r: u64, width: u64) -> (s: String)
    ensures
        s@ == decimal_text(q as nat, r as nat, width as nat),
{
    let mut s = u64_to_string(q);
    if r != 0 {
        s.append(".");
        let f = frac_str(r, width);
        s.append(f.as_str());
        proof {
            assert(s@ =~= decimal_text(q as nat, r as nat, width as nat));
        }
    }
    s
}

/// Render a byte count in its human-readable form.
pub fn human_readable_size(bytes: u64) -> (r: String)
    ensures
        r@ == size_text(bytes as nat),
{
    if bytes < 1_000 {
        let mut s = u64_to_string(bytes);
        s.append(" bytes");
        s
    } else if bytes < 1_000_000 {
        let mut s = decimal_str(bytes / 1_000, bytes % 1_000, 3);
        s.append(" KB");
        s
    } else {
        let mut s = decimal_str(bytes / 1_000_000, bytes % 1_000_000, 6);
        s.append(" MB");
        s
    }
}

/// Render a millisecond count in its human-readable form.
pub fn human_readable_time(milliseconds: u64) -> (r: String)
    ensures
        r@ == time_text(milliseconds as nat),
{
    let minutes = milliseconds / 60_000;
    let seconds = (milliseconds / 1_000) % 60;
    let millis = milliseconds % 1_000;
    let mut s = u64_to_string(minutes);
    s.append("m ");
    let sec = u64_to_string(seconds);
    s.append(sec.as_str());
    s.append("s ");
    let ms = u64_to_string(millis);
    s.append(ms.as_str());
    s.append("ms");
    proof {
        assert(s@ =~= time_text(milliseconds as nat));
    }
    s
}

/// Append `n` spaces to `s`.
pub fn push_spaces(s: &mut String, n: usize)
    ensures
        final(s)@ == old(s)@ + spaces(n as nat),
{
    proof {
        assert(s@ =~= old(s)@ + spaces(0));
    }
    let mut i: usize = 0;
    while i < n
        invariant
            i <= n,
            s@ == old(s)@ + spaces(i as nat),
        decreases n - i,
    {
        s.append(" ");
        proof {
            reveal_strlit(" ");
            assert(old(s)@ + spaces(i as nat) + " "@ =~= old(s)@ + spaces((i + 1) as nat));
        }
        i = i + 1;
    }
}

} // verus!
