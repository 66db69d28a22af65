use vstd::prelude::*;
use vstd::string::StrSliceExecFns;
use vstd::string::StringExecFns;

verus! {

/// The character for one digit value, `0` through `f`.
pub open spec fn spec_digit(d: int) -> char {
    if d == 0 {
        '0'
    } else if d == 1 {
        '1'
    } else if d == 2 {
        '2'
    } else if d == 3 {
        '3'
    } else if d == 4 {
        '4'
    } else if d == 5 {
        '5'
    } else if d == 6 {
        '6'
    } else if d == 7 {
        '7'
    } else if d == 8 {
        '8'
    } else if d == 9 {
        '9'
    } else if d == 10 {
        'a'
    } else if d == 11 {
        'b'
    } else if d == 12 {
        'c'
    } else if d == 13 {
        'd'
    } else if d == 14 {
        'e'
    } else {
        'f'
    }
}

/// The decimal rendering of a natural number, without leading zeroes.
pub open spec fn spec_dec_nat(n: nat) -> Seq<char>
    decreases n,
{
    if n < 10 {
        seq![spec_digit(n as int)]
    } else {
        spec_dec_nat(n / 10) + seq![spec_digit((n % 10) as int)]
    }
}

/// The decimal rendering of an integer, with a leading minus sign when
/// negative.
pub open spec fn spec_dec_int(v: int) -> Seq<char> {
    if v >= 0 {
        spec_dec_nat(v as nat)
    } else {
        seq!['-'] + spec_dec_nat((-v) as nat)
    }
}

/// The lowest `width` hexadecimal digits of a natural number, most
/// significant first, zero-padded.
pub open spec fn spec_hex_nat(n: nat, width: nat) -> Seq<char>
    decreases width,
{
    if width == 0 {
        Seq::empty()
    } else {
        spec_hex_nat(n / 16, (width - 1) as nat) + seq![spec_digit((n % 16) as int)]
    }
}

fn digit_str(d: u8) -> (r: &'static str)
    requires
        d < 16,
    ensures
        r@.len() == 1,
        r@[0] == spec_digit(d as int),
{
    proof {
        reveal_strlit("0");
        reveal_strlit("1");
        reveal_strlit("2");
        reveal_strlit("3");
        reveal_strlit("4");
        reveal_strlit("5");
        reveal_strlit("6");
        reveal_strlit("7");
        reveal_strlit("8");
        reveal_strlit("9");
        reveal_strlit("a");
        reveal_strlit("b");
        reveal_strlit("c");
        reveal_strlit("d");
        reveal_strlit("e");
        reveal_strlit("f");
    }
    if d == 0 {
        "0"
    } else if d == 1 {
        "1"
    } else if d == 2 {
        "2"
    } else if d == 3 {
        "3"
    } else if d == 4 {
        "4"
    } else if d == 5 {
        "5"
    } else if d == 6 {
        "6"
    } else if d == 7 {
        "7"
    } else if d == 8 {
        "8"
    } else if d == 9 {
        "9"
    } else if d == 10 {
        "a"
    } else if d == 11 {
        "b"
    } else if d == 12 {
        "c"
    } else if d == 13 {
        "d"
    } else if d == 14 {
        "e"
    } else {
        "f"
    }
}

/// Renders an unsigned 64-bit value in decimal.
pub fn dec_u64(n: u64) -> (r: String)
    ensures
        r@ == spec_dec_nat(n as nat),
    decreases n,
{
    if n < 10 {
        let s = digit_str(n as u8).to_owned();
        proof {
            assert(s@ =~= spec_dec_nat(n as nat));
        }
        s
    } else {
        let prefix = dec_u64(n / 10);
        let r = prefix.concat(digit_str((n % 10) as u8));
        proof {
            assert(r@ =~= spec_dec_nat(n as nat));
        }
        r
    }
}

/// Renders a signed 64-bit value in decimal.
pub fn dec_i64(v: i64) -> (r: String)
    ensures
        r@ == spec_dec_int(v as int),
{
    if v >= 0 {
        dec_u64(v as u64)
    } else {
        let magnitude: u64 = (-(v + 1)) as u64 + 1;
        assert(magnitude == -(v as int));
        let digits = dec_u64(magnitude);
        let r = String::from_str("-").concat(digits.as_str());
        proof {
            reveal_strlit("-");
            assert(r@ =~= spec_dec_int(v as int));
        }
        r
    }
}

/// Renders the lowest `width` hexadecimal digits of a value, zero-padded.
pub fn hex_u64(n: u64, width: usize) -> (r: String)
    ensures
        r@ == spec_hex_nat(n as nat, width as nat),
    decreases width,
{
    if width == 0 {
        let s = String::new();
        proof {
            assert(s@ =~= spec_hex_nat(n as nat, width as nat));
        }
        s
    } else {
        let prefix = hex_u64(n / 16, width - 1);
        let r = prefix.concat(digit_str((n % 16) as u8));
        proof {
            assert(r@ =~= spec_hex_nat(n as nat, width as nat));
        }
        r
    }
}

} // verus!
