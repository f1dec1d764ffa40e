//! Text frames written to a client: decimal rendering of integers and the
//! identity and progress frames built from it.

use vstd::prelude::*;

verus! {

/// The ASCII character of a decimal digit.
pub open spec fn digit_char(d: int) -> char {
    if d == 0 { '0' }
    else if d == 1 { '1' }
    else if d == 2 { '2' }
    else if d == 3 { '3' }
    else if d == 4 { '4' }
    else if d == 5 { '5' }
    else if d == 6 { '6' }
    else if d == 7 { '7' }
    else if d == 8 { '8' }
    else { '9' }
}

/// The decimal digits of `n`, most significant first, without leading zeros.
pub open spec fn decimal(n: nat) -> Seq<char>
    decreases n,
{
    if n < 10 {
        seq![digit_char(n as int)]
    } else {
        decimal(n / 10).push(digit_char((n % 10) as int))
    }
}

/// The decimal text of a signed integer: a minus sign before negative values.
pub open spec fn signed_decimal(v: int) -> Seq<char> {
    if v < 0 {
        seq!['-'] + decimal((-v) as nat)
    } else {
        decimal(v as nat)
    }
}

/// The frame that tells a client the id it was registered under.
pub open spec fn identity_text(id: u64) -> Seq<char> {
    seq!['I', 'D', ':', ' '] + decimal(id as nat)
}

/// The frame that reports one finished job to its subscriber.
pub open spec fn progress_text(value: i32) -> Seq<char> {
    seq!['P', 'R', 'O', 'G', 'R', 'E', 'S', 'S', ':', ' '] + signed_decimal(value as int)
}

fn digit_str(d: u64) -> (r: &'static str)
    requires
        d < 10,
    ensures
        r@ == seq![digit_char(d as int)],
{
    proof {
        reveal_strlit("0");
        reveal_strlit("1");
        reveal_strlit("2");
        reveal_strlit("3");
        reveal_strlit("4");
        reveal_strlit("5");
        reveal_strlit("6");
        reveal_strlit("7");
        reveal_strlit("8");
        reveal_strlit("9");
    }
    if d == 0 { "0" }
    else if d == 1 { "1" }
    else if d == 2 { "2" }
    else if d == 3 { "3" }
    else if d == 4 { "4" }
    else if d == 5 { "5" }
    else if d == 6 { "6" }
    else if d == 7 { "7" }
    else if d == 8 { "8" }
    else { "9" }
}

/// Appends the decimal digits of `n` to `s`.
pub fn push_decimal(s: &mut String, n: u64)
    ensures
        final(s)@ == old(s)@ + decimal(n as nat),
    decreases n,
{
    if n >= 10 {
        push_decimal(s, n / 10);
    }
    s.append(digit_str(n % 10));
    proof {
        if n >= 10 {
            assert(old(s)@ + decimal(n as nat) =~= old(s)@ + decimal((n / 10) as nat) + seq![
                digit_char((n % 10) as int),
            ]);
        } else {
            assert(n % 10 == n);
        }
    }
}

/// Appends the decimal text of `v` to `s`, with a minus sign if `v` is negative.
pub fn push_signed_decimal(s: &mut String, v: i32)
    ensures
        final(s)@ == old(s)@ + signed_decimal(v as int),
{
    if v < 0 {
        proof {
            reveal_strlit("-");
        }
        s.append("-");
        let magnitude: u64 = (0i64 - v as i64) as u64;
        push_decimal(s, magnitude);
        assert(old(s)@ + signed_decimal(v as int) =~= old(s)@ + seq!['-'] + decimal(
            magnitude as nat,
        ));
    } else {
        push_decimal(s, v as u64);
    }
}

/// The frame `ID: <id>` sent to a client when its connection opens.
pub fn identity_frame(id: u64) -> (r: String)
    ensures
        r@ == identity_text(id),
{
    proof {
        reveal_strlit("ID: ");
    }
    let mut s = String::from_str("ID: ");
    push_decimal(&mut s, id);
    s
}

/// The frame `PROGRESS: <value>` that reports one finished job.
pub fn progress_frame(value: i32) -> (r: String)
    ensures
        r@ == progress_text(value),
{
    proof {
        reveal_strlit("PROGRESS: ");
    }
    let mut s = String::from_str("PROGRESS: ");
    push_signed_decimal(&mut s, value);
    s
}

} // verus!
