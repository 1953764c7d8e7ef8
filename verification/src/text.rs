//! Decimal rendering of integers, as used in names, paths and messages.
use vstd::prelude::*;

verus! {

/// The character of one decimal digit.
pub open spec fn digit_char(d: nat) -> char {
    if d == 0 { '0' }
    else if d == 1 { '1' }
    else if d == 2 { '2' }
    else if d == 3 { '3' }
    else if d == 4 { '4' }
    else if d == 5 { '5' }
    else if d == 6 { '6' }
    else if d == 7 { '7' }
    else if d == 8 { '8' }
    else { '9' }
}

/// The decimal representation of `n`, without leading zeros.
pub open spec fn decimal(n: nat) -> Seq<char>
    decreases n,
{
    if n < 10 {
        seq![digit_char(n)]
    } else {
        decimal(n / 10).push(digit_char(n % 10))
    }
}

/// `s` left-padded with `'0'` up to `width` characters.
pub open spec fn zero_padded(s: Seq<char>, width: nat) -> Seq<char> {
    if s.len() >= width {
        s
    } else {
        Seq::new((width - s.len()) as nat, |i: int| '0') + s
    }
}

fn digit_str(d: u64) -> (s: &'static str)
    requires
        d < 10,
    ensures
        s@ == seq![digit_char(d as nat)],
{
    proof {
        reveal_strlit("0");
        reveal_strlit("1");
        reveal_strlit("2");
        reveal_strlit("3");
        reveal_strlit("4");
        reveal_strlit("5");
        reveal_strlit("6");
        reveal_strlit("7");
        reveal_strlit("8");
        reveal_strlit("9");
    }
    if d == 0 { "0" }
    else if d == 1 { "1" }
    else if d == 2 { "2" }
    else if d == 3 { "3" }
    else if d == 4 { "4" }
    else if d == 5 { "5" }
    else if d == 6 { "6" }
    else if d == 7 { "7" }
    else if d == 8 { "8" }
    else { "9" }
}

/// Renders `n` in decimal, as `format!("{}", n)` does.
pub fn u64_to_string(n: u64) -> (s: String)
    ensures
        s@ == decimal(n as nat),
    decreases n,
{
    if n < 10 {
        String::from_str(digit_str(n))
    } else {
        let mut s = u64_to_string(n / 10);
        s.append(digit_str(n % 10));
        s
    }
}

/// Renders `n` in decimal, padded with zeros to `width` characters, as
/// `format!("{:03}", n)` does for a width of three.
pub fn u64_to_padded_string(n: u64, width: usize) -> (s: String)
    ensures
        s@ == zero_padded(decimal(n as nat), width as nat),
{
    let digits = u64_to_string(n);
    let len = digits.as_str().unicode_len();
    if len >= width {
        digits
    } else {
        let mut s = String::new();
        let mut i: usize = 0;
        while i < width - len
            invariant
                i <= width - len,
                len == decimal(n as nat).len(),
                len < width,
                s@ == Seq::new(i as nat, |j: int| '0'),
            decreases width - len - i,
        {
            s.append(digit_str(0));
            i = i + 1;
            assert(s@ =~= Seq::new(i as nat, |j: int| '0'));
        }
        s.append(digits.as_str());
        assert(s@ =~= zero_padded(decimal(n as nat), width as nat));
        s
    }
}


/// The fractional part of a millisecond count below one second, as `Debug`
/// of a `Duration` prints it: a point and the digits without trailing zeros.
pub open spec fn millis_fraction(f: nat) -> Seq<char> {
    if f == 0 {
        Seq::empty()
    } else if f % 100 == 0 {
        seq!['.', digit_char(f / 100)]
    } else if f % 10 == 0 {
        seq!['.', digit_char(f / 100), digit_char((f / 10) % 10)]
    } else {
        seq!['.', digit_char(f / 100), digit_char((f / 10) % 10), digit_char(f % 10)]
    }
}

/// How `Debug` prints a `Duration` of `ms` milliseconds.
pub open spec fn duration_text(ms: nat) -> Seq<char> {
    if ms >= 1000 {
        decimal(ms / 1000) + millis_fraction(ms % 1000) + seq!['s']
    } else if ms > 0 {
        decimal(ms) + seq!['m', 's']
    } else {
        seq!['0', 'n', 's']
    }
}

/// Renders a millisecond duration as `format!("{:?}", Duration::from_millis(ms))` does.
pub fn duration_to_string(ms: u64) -> (s: String)
    ensures
        s@ == duration_text(ms as nat),
{
    proof {
        reveal_strlit(".");
        reveal_strlit("s");
        reveal_strlit("ms");
        reveal_strlit("0ns");
    }
    if ms >= 1000 {
        let mut s = u64_to_string(ms / 1000);
        let f = ms % 1000;
        if f != 0 {
            s.append(".");
            s.append(digit_str(f / 100));
            if f % 100 != 0 {
                s.append(digit_str((f / 10) % 10));
                if f % 10 != 0 {
                    s.append(digit_str(f % 10));
                }
            }
        }
        s.append("s");
        assert(s@ =~= duration_text(ms as nat));
        s
    } else if ms > 0 {
        let mut s = u64_to_string(ms);
        s.append("ms");
        assert(s@ =~= duration_text(ms as nat));
        s
    } else {
        String::from_str("0ns")
    }
}

} // verus!
