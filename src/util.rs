use vstd::prelude::*;

verus! {

/// The character of one decimal digit.
pub open spec fn digit_char(d: int) -> char {
    if d == 0 {
        '0'
    } else if d == 1 {
        '1'
    } else if d == 2 {
        '2'
    } else if d == 3 {
        '3'
    } else if d == 4 {
        '4'
    } else if d == 5 {
        '5'
    } else if d == 6 {
        '6'
    } else if d == 7 {
        '7'
    } else if d == 8 {
        '8'
    } else {
        '9'
    }
}

/// Decimal text of a natural number, without leading zeros.
pub open spec fn decimal(n: nat) -> Seq<char>
    decreases n,
{
    if n < 10 {
        seq![digit_char(n as int)]
    } else {
        decimal(n / 10).push(digit_char((n % 10) as int))
    }
}

/// Left-pads a text with `0` up to two characters.
pub open spec fn pad2(s: Seq<char>) -> Seq<char> {
    if s.len() < 2 {
        seq!['0'] + s
    } else {
        s
    }
}

/// `HH:MM:SS` text of a non-negative number of seconds; the hours field grows
/// past two digits when needed.
pub open spec fn hms_text(secs: int) -> Seq<char> {
    pad2(decimal((secs / 3600) as nat)) + seq![':'] + pad2(decimal((secs % 3600 / 60) as nat))
        + seq![':'] + pad2(decimal((secs % 60) as nat))
}

/// Seconds from `now` until `release`, or zero when `release` is not later.
pub open spec fn seconds_until(release: int, now: int) -> int {
    if release - now <= 0 {
        0
    } else if release - now > i64::MAX {
        i64::MAX as int
    } else {
        release - now
    }
}

proof fn lemma_decimal_len(n: nat)
    ensures
        decimal(n).len() >= 1,
        decimal(n).len() < 2 <==> n < 10,
    decreases n,
{
    if n >= 10 {
        lemma_decimal_len(n / 10);
    }
}

fn digit_str(d: u64) -> (r: &'static str)
    requires
        d < 10,
    ensures
        r@ == seq![digit_char(d as int)],
{
    proof {
        reveal_strlit("0");
        reveal_strlit("1");
        reveal_strlit("2");
        reveal_strlit("3");
        reveal_strlit("4");
        reveal_strlit("5");
        reveal_strlit("6");
        reveal_strlit("7");
        reveal_strlit("8");
        reveal_strlit("9");
    }
    if d == 0 {
        "0"
    } else if d == 1 {
        "1"
    } else if d == 2 {
        "2"
    } else if d == 3 {
        "3"
    } else if d == 4 {
        "4"
    } else if d == 5 {
        "5"
    } else if d == 6 {
        "6"
    } else if d == 7 {
        "7"
    } else if d == 8 {
        "8"
    } else {
        "9"
    }
}

/// Appends the decimal text of `n`.
pub fn push_decimal(out: &mut String, n: u64)
    ensures
        final(out)@ == old(out)@ + decimal(n as nat),
    decreases n,
{
    if n >= 10 {
        push_decimal(out, n / 10);
    }
    let d = digit_str(n % 10);
    out.append(d);
    assert(final(out)@ =~= old(out)@ + decimal(n as nat));
}

fn push_pad2(out: &mut String, n: u64)
    ensures
        final(out)@ == old(out)@ + pad2(decimal(n as nat)),
{
    proof {
        lemma_decimal_len(n as nat);
        reveal_strlit("0");
    }
    if n < 10 {
        out.append("0");
    }
    push_decimal(out, n);
    assert(final(out)@ =~= old(out)@ + pad2(decimal(n as nat)));
}

/// Appends one field of a duration: two digits at least when `n` is not
/// negative, else `-` and the digits of its magnitude.
fn push_field(out: &mut String, n: i64)
    ensures
        n >= 0 ==> final(out)@ == old(out)@ + pad2(decimal(n as nat)),
{
    if n < 0 {
        proof {
            reveal_strlit("-");
        }
        out.append("-");
        push_decimal(out, (-(n as i128)) as u64);
    } else {
        push_pad2(out, n as u64);
    }
}

/// Formats a number of seconds as zero-padded `HH:MM:SS`. Callers clamp
/// negative durations to zero first; a negative input gives each field with
/// its sign.
pub fn to_hms(seconds: i64) -> (r: String)
    ensures
        seconds >= 0 ==> r@ == hms_text(seconds as int),
{
    let h = seconds / 3600;
    let m = seconds % 3600 / 60;
    let s = seconds % 60;
    let mut out = String::new();
    push_field(&mut out, h);
    proof {
        reveal_strlit(":");
    }
    out.append(":");
    push_field(&mut out, m);
    out.append(":");
    push_field(&mut out, s);
    assert(seconds >= 0 ==> out@ =~= hms_text(seconds as int));
    out
}

/// Whole seconds left until `release`, clamped at zero.
pub fn seconds_left(release: i64, now: i64) -> (r: i64)
    ensures
        r as int == seconds_until(release as int, now as int),
        r >= 0,
{
    let diff: i128 = release as i128 - now as i128;
    if diff <= 0 {
        0
    } else if diff > i64::MAX as i128 {
        i64::MAX
    } else {
        diff as i64
    }
}

} // verus!
