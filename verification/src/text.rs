//! Decimal text rendering for register values: the unsigned and signed
//! interpretations of a 64-bit pattern, each as its canonical decimal line.

use vstd::prelude::*;

verus! {

/// The decimal digit character for `d` in 0..10.
pub open spec fn digit_char(d: int) -> char {
    if d == 0 {
        '0'
    } else if d == 1 {
        '1'
    } else if d == 2 {
        '2'
    } else if d == 3 {
        '3'
    } else if d == 4 {
        '4'
    } else if d == 5 {
        '5'
    } else if d == 6 {
        '6'
    } else if d == 7 {
        '7'
    } else if d == 8 {
        '8'
    } else {
        '9'
    }
}

/// The decimal rendering of a natural number, most significant digit first,
/// with no leading zeros (a bare `0` for zero).
pub open spec fn spec_dec_u64(n: nat) -> Seq<char>
    decreases n,
{
    if n < 10 {
        seq![digit_char(n as int)]
    } else {
        spec_dec_u64(n / 10) + seq![digit_char((n % 10) as int)]
    }
}

/// The two's-complement signed reading of a 64-bit pattern.
pub open spec fn sval(b: u64) -> int {
    if b < 0x8000_0000_0000_0000 {
        b as int
    } else {
        b - 0x1_0000_0000_0000_0000
    }
}

/// The decimal rendering of a signed value: a leading minus sign for
/// negatives, then the magnitude in decimal.
pub open spec fn spec_dec_i64(v: int) -> Seq<char> {
    if v < 0 {
        seq!['-'] + spec_dec_u64((-v) as nat)
    } else {
        spec_dec_u64(v as nat)
    }
}

fn digit_str(d: u64) -> (s: &'static str)
    requires
        d < 10,
    ensures
        s@ == seq![digit_char(d as int)],
{
    proof {
        reveal_strlit("0");
        reveal_strlit("1");
        reveal_strlit("2");
        reveal_strlit("3");
        reveal_strlit("4");
        reveal_strlit("5");
        reveal_strlit("6");
        reveal_strlit("7");
        reveal_strlit("8");
        reveal_strlit("9");
    }
    let s = match d {
        0 => "0",
        1 => "1",
        2 => "2",
        3 => "3",
        4 => "4",
        5 => "5",
        6 => "6",
        7 => "7",
        8 => "8",
        _ => "9",
    };
    proof {
        assert(s@ =~= seq![digit_char(d as int)]);
    }
    s
}

/// Renders `n` in decimal, unsigned.
pub fn dec_u64(n: u64) -> (s: String)
    ensures
        s@ == spec_dec_u64(n as nat),
    decreases n,
{
    if n < 10 {
        digit_str(n).to_owned()
    } else {
        let mut s = dec_u64(n / 10);
        s.append(digit_str(n % 10));
        s
    }
}

/// Renders the signed reading of the 64-bit pattern `bits` in decimal.
pub fn dec_i64(bits: u64) -> (s: String)
    ensures
        s@ == spec_dec_i64(sval(bits)),
{
    if bits < 0x8000_0000_0000_0000u64 {
        dec_u64(bits)
    } else {
        let mag = 0u64.wrapping_sub(bits);
        let mut s = String::new();
        s.append("-");
        let m = dec_u64(mag);
        s.append(m.as_str());
        proof {
            reveal_strlit("-");
            assert(mag as int == -sval(bits));
            assert(s@ =~= spec_dec_i64(sval(bits)));
        }
        s
    }
}

} // verus!
