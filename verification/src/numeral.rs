//! Decimal rendering of machine integers, for the canonical printer.

use vstd::prelude::*;
use vstd::string::StringExecFns;

verus! {

/// The decimal digit character for `d`.
pub open spec fn dec_digit(d: int) -> char
    recommends
        0 <= d <= 9,
{
    if d == 0 {
        '0'
    } else if d == 1 {
        '1'
    } else if d == 2 {
        '2'
    } else if d == 3 {
        '3'
    } else if d == 4 {
        '4'
    } else if d == 5 {
        '5'
    } else if d == 6 {
        '6'
    } else if d == 7 {
        '7'
    } else if d == 8 {
        '8'
    } else {
        '9'
    }
}

/// The decimal numeral of `n`, most significant digit first.
pub open spec fn dec_seq(n: int) -> Seq<char>
    recommends
        n >= 0,
    decreases n,
{
    if n < 10 {
        seq![dec_digit(n)]
    } else {
        dec_seq(n / 10) + seq![dec_digit(n % 10)]
    }
}

fn push_digit(d: u128, out: &mut String)
    requires
        d < 10,
    ensures
        final(out)@ == old(out)@ + seq![dec_digit(d as int)],
{
    proof {
        reveal_strlit("0");
        reveal_strlit("1");
        reveal_strlit("2");
        reveal_strlit("3");
        reveal_strlit("4");
        reveal_strlit("5");
        reveal_strlit("6");
        reveal_strlit("7");
        reveal_strlit("8");
        reveal_strlit("9");
    }
    if d == 0 {
        out.append("0");
        proof {
            assert(out@ =~= old(out)@ + seq![dec_digit(d as int)]);
        }
    } else if d == 1 {
        out.append("1");
        proof {
            assert(out@ =~= old(out)@ + seq![dec_digit(d as int)]);
        }
    } else if d == 2 {
        out.append("2");
        proof {
            assert(out@ =~= old(out)@ + seq![dec_digit(d as int)]);
        }
    } else if d == 3 {
        out.append("3");
        proof {
            assert(out@ =~= old(out)@ + seq![dec_digit(d as int)]);
        }
    } else if d == 4 {
        out.append("4");
        proof {
            assert(out@ =~= old(out)@ + seq![dec_digit(d as int)]);
        }
    } else if d == 5 {
        out.append("5");
        proof {
            assert(out@ =~= old(out)@ + seq![dec_digit(d as int)]);
        }
    } else if d == 6 {
        out.append("6");
        proof {
            assert(out@ =~= old(out)@ + seq![dec_digit(d as int)]);
        }
    } else if d == 7 {
        out.append("7");
        proof {
            assert(out@ =~= old(out)@ + seq![dec_digit(d as int)]);
        }
    } else if d == 8 {
        out.append("8");
        proof {
            assert(out@ =~= old(out)@ + seq![dec_digit(d as int)]);
        }
    } else {
        out.append("9");
        proof {
            assert(out@ =~= old(out)@ + seq![dec_digit(d as int)]);
        }
    }
}

/// Appends the decimal numeral of `n`.
pub fn push_dec(n: u128, out: &mut String)
    ensures
        final(out)@ == old(out)@ + dec_seq(n as int),
    decreases n,
{
    if n >= 10 {
        push_dec(n / 10, out);
        push_digit(n % 10, out);
        proof {
            assert(out@ =~= old(out)@ + dec_seq(n as int));
        }
    } else {
        push_digit(n, out);
    }
}

/// The decimal numeral of `n` as a string.
pub fn dec_string(n: u128) -> (s: String)
    ensures
        s@ == dec_seq(n as int),
{
    let mut s = String::new();
    push_dec(n, &mut s);
    proof {
        assert(s@ =~= dec_seq(n as int));
    }
    s
}

} // verus!
