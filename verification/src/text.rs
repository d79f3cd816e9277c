//! Decimal formatting on strings: plain, zero-padded and signed
//! renderings of integers, each pinned to a character-level
//! specification.

use vstd::prelude::*;
use vstd::string::StringExecFns;

verus! {

/// The decimal digit character for a value below ten.
pub open spec fn spec_digit(d: int) -> char {
    if d == 0 {
        '0'
    } else if d == 1 {
        '1'
    } else if d == 2 {
        '2'
    } else if d == 3 {
        '3'
    } else if d == 4 {
        '4'
    } else if d == 5 {
        '5'
    } else if d == 6 {
        '6'
    } else if d == 7 {
        '7'
    } else if d == 8 {
        '8'
    } else {
        '9'
    }
}

/// The decimal digits of a number, most significant first.
pub open spec fn spec_dec(n: nat) -> Seq<char>
    decreases n,
{
    if n < 10 {
        seq![spec_digit(n as int)]
    } else {
        spec_dec(n / 10).push(spec_digit((n % 10) as int))
    }
}

/// The decimal digits, left-padded with zeros up to the given width.
pub open spec fn spec_padded(n: nat, width: nat) -> Seq<char> {
    if spec_dec(n).len() >= width {
        spec_dec(n)
    } else {
        Seq::new((width - spec_dec(n).len()) as nat, |i: int| '0') + spec_dec(n)
    }
}

/// The decimal digits with a leading minus sign for negative numbers.
pub open spec fn spec_signed_dec(n: int) -> Seq<char> {
    if n < 0 {
        seq!['-'] + spec_dec((-n) as nat)
    } else {
        spec_dec(n as nat)
    }
}

/// How many decimal digits small numbers have.
proof fn lemma_dec_len(n: nat)
    ensures
        n < 10 ==> spec_dec(n).len() == 1,
        10 <= n < 100 ==> spec_dec(n).len() == 2,
        100 <= n < 1000 ==> spec_dec(n).len() == 3,
        1000 <= n < 10000 ==> spec_dec(n).len() == 4,
        10000 <= n ==> spec_dec(n).len() >= 5,
    decreases n,
{
    if n >= 10 {
        lemma_dec_len(n / 10);
    }
}

fn digit_str(d: u32) -> (s: &'static str)
    requires
        d < 10,
    ensures
        s@ =~= seq![spec_digit(d as int)],
{
    proof {
        reveal_strlit("0");
        reveal_strlit("1");
        reveal_strlit("2");
        reveal_strlit("3");
        reveal_strlit("4");
        reveal_strlit("5");
        reveal_strlit("6");
        reveal_strlit("7");
        reveal_strlit("8");
        reveal_strlit("9");
    }
    match d {
        0 => "0",
        1 => "1",
        2 => "2",
        3 => "3",
        4 => "4",
        5 => "5",
        6 => "6",
        7 => "7",
        8 => "8",
        _ => "9",
    }
}

/// Appends the decimal digits of the number.
pub fn push_decimal(out: &mut String, n: u32)
    ensures
        final(out)@ == old(out)@ + spec_dec(n as nat),
    decreases n,
{
    if n < 10 {
        out.append(digit_str(n));
    } else {
        push_decimal(out, n / 10);
        out.append(digit_str(n % 10));
        proof {
            assert(old(out)@ + spec_dec((n / 10) as nat) + seq![
                spec_digit((n % 10) as int),
            ] =~= old(out)@ + spec_dec(n as nat));
        }
    }
}

/// Appends the decimal digits, left-padded with zeros to the width.
pub fn push_padded(out: &mut String, n: u32, width: u32)
    requires
        width <= 4,
    ensures
        final(out)@ == old(out)@ + spec_padded(n as nat, width as nat),
{
    proof {
        lemma_dec_len(n as nat);
    }
    let digits: u32 = if n < 10 {
        1
    } else if n < 100 {
        2
    } else if n < 1000 {
        3
    } else if n < 10000 {
        4
    } else {
        5
    };
    let pad: u32 = if digits >= width {
        0
    } else {
        width - digits
    };
    let mut zeros: u32 = 0;
    while zeros < pad
        invariant
            zeros <= pad,
            out@ == old(out)@ + Seq::new(zeros as nat, |i: int| '0'),
        decreases pad - zeros,
    {
        out.append("0");
        zeros = zeros + 1;
        proof {
            reveal_strlit("0");
            assert(old(out)@ + Seq::new((zeros - 1) as nat, |i: int| '0') + "0"@ =~= old(out)@
                + Seq::new(zeros as nat, |i: int| '0'));
        }
    }
    push_decimal(out, n);
    proof {
        lemma_dec_len(n as nat);
        assert(out@ =~= old(out)@ + spec_padded(n as nat, width as nat));
    }
}

/// Appends the decimal digits with a leading minus for a negative
/// number.
pub fn push_signed_decimal(out: &mut String, n: i32)
    ensures
        final(out)@ == old(out)@ + spec_signed_dec(n as int),
{
    if n >= 0 {
        push_decimal(out, n as u32);
    } else {
        out.append("-");
        let magnitude: u32 = (-(n as i64)) as u32;
        proof {
            assert(0 < -(n as int) <= u32::MAX);
            assert(magnitude as int == -(n as int));
        }
        push_decimal(out, magnitude);
        proof {
            reveal_strlit("-");
            assert("-"@ =~= seq!['-']);
            assert(old(out)@ + "-"@ + spec_dec(magnitude as nat) =~= old(out)@ + spec_signed_dec(
                n as int,
            ));
        }
    }
}

} // verus!
