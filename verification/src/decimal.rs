//! Decimal rendering of unsigned integers, used wherever the library
//! embeds a number in a URL, a query pair or an address string.

use vstd::prelude::*;
use vstd::string::StringExecFns;

verus! {

/// The character for one decimal digit.
pub open spec fn digit_char(d: int) -> char {
    if d == 0 {
        '0'
    } else if d == 1 {
        '1'
    } else if d == 2 {
        '2'
    } else if d == 3 {
        '3'
    } else if d == 4 {
        '4'
    } else if d == 5 {
        '5'
    } else if d == 6 {
        '6'
    } else if d == 7 {
        '7'
    } else if d == 8 {
        '8'
    } else {
        '9'
    }
}

/// The decimal rendering of `n`, most significant digit first, with no
/// leading zeros (and a single `'0'` for zero).
pub open spec fn dec_seq(n: int) -> Seq<char>
    decreases n,
{
    if n < 10 {
        seq![digit_char(n)]
    } else {
        dec_seq(n / 10).push(digit_char(n % 10))
    }
}

fn digit_str(d: u64) -> (r: &'static str)
    requires
        d < 10,
    ensures
        r@ == seq![digit_char(d as int)],
{
    proof {
        reveal_strlit("0");
        reveal_strlit("1");
        reveal_strlit("2");
        reveal_strlit("3");
        reveal_strlit("4");
        reveal_strlit("5");
        reveal_strlit("6");
        reveal_strlit("7");
        reveal_strlit("8");
        reveal_strlit("9");
    }
    let r = match d {
        0 => "0",
        1 => "1",
        2 => "2",
        3 => "3",
        4 => "4",
        5 => "5",
        6 => "6",
        7 => "7",
        8 => "8",
        _ => "9",
    };
    proof {
        assert(r@ =~= seq![digit_char(d as int)]);
    }
    r
}

fn push_dec(n: u64, out: &mut String)
    ensures
        final(out)@ == old(out)@ + dec_seq(n as int),
    decreases n,
{
    if n >= 10 {
        push_dec(n / 10, out);
    }
    out.append(digit_str(n % 10));
    proof {
        assert(out@ =~= old(out)@ + dec_seq(n as int));
    }
}

/// Renders `n` in decimal.
pub fn u64_to_dec_string(n: u64) -> (s: String)
    ensures
        s@ == dec_seq(n as int),
{
    let mut s = String::new();
    push_dec(n, &mut s);
    proof {
        assert(s@ =~= dec_seq(n as int));
    }
    s
}

/// Renders `n` in decimal.
pub fn u32_to_dec_string(n: u32) -> (s: String)
    ensures
        s@ == dec_seq(n as int),
{
    u64_to_dec_string(n as u64)
}

/// Renders `n` in decimal.
pub fn u16_to_dec_string(n: u16) -> (s: String)
    ensures
        s@ == dec_seq(n as int),
{
    u64_to_dec_string(n as u64)
}

} // verus!
