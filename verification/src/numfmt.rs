//! Decimal rendering of line counters, and the fixed-width number field
//! that the numbering modes prefix to a line.
use vstd::prelude::*;
use vstd::string::StrSliceExecFns;
use vstd::string::StringExecFns;

verus! {

/// Width of the number field: counters are right-aligned in this many
/// columns, padded with spaces on the left.
pub const FIELD_WIDTH: u64 = 6;

/// The decimal digit character for `d`.
pub open spec fn digit_char(d: nat) -> char
    recommends
        d < 10,
{
    ((d + 48) as u8) as char
}

/// The decimal representation of `n`, most significant digit first,
/// without leading zeros (`0` is rendered as `"0"`).
pub open spec fn dec_rep(n: nat) -> Seq<char>
    decreases n,
{
    if n < 10 {
        seq![digit_char(n)]
    } else {
        dec_rep(n / 10).push(digit_char(n % 10))
    }
}

/// `k` space characters.
pub open spec fn spaces(k: nat) -> Seq<char>
    decreases k,
{
    if k == 0 {
        Seq::empty()
    } else {
        spaces((k - 1) as nat).push(' ')
    }
}

/// The number field for counter value `n`: its decimal representation,
/// right-aligned in [`FIELD_WIDTH`] columns with spaces on the left; a
/// representation wider than the field stands unpadded.
pub open spec fn num_field(n: nat) -> Seq<char> {
    if dec_rep(n).len() >= FIELD_WIDTH {
        dec_rep(n)
    } else {
        spaces((FIELD_WIDTH - dec_rep(n).len()) as nat) + dec_rep(n)
    }
}

/// The single-character string for decimal digit `d`.
fn digit_str(d: u64) -> (r: &'static str)
    requires
        d < 10,
    ensures
        r@ == seq![digit_char(d as nat)],
{
    proof {
        reveal_strlit("0");
        reveal_strlit("1");
        reveal_strlit("2");
        reveal_strlit("3");
        reveal_strlit("4");
        reveal_strlit("5");
        reveal_strlit("6");
        reveal_strlit("7");
        reveal_strlit("8");
        reveal_strlit("9");
    }
    if d == 0 {
        "0"
    } else if d == 1 {
        "1"
    } else if d == 2 {
        "2"
    } else if d == 3 {
        "3"
    } else if d == 4 {
        "4"
    } else if d == 5 {
        "5"
    } else if d == 6 {
        "6"
    } else if d == 7 {
        "7"
    } else if d == 8 {
        "8"
    } else {
        "9"
    }
}

/// Render `n` in decimal, most significant digit first.
pub fn u64_to_dec(n: u64) -> (r: String)
    ensures
        r@ == dec_rep(n as nat),
    decreases n,
{
    if n < 10 {
        String::from_str(digit_str(n))
    } else {
        let prefix = u64_to_dec(n / 10);
        let r = prefix.concat(digit_str(n % 10));
        proof {
            assert(r@ =~= dec_rep(n as nat));
        }
        r
    }
}

/// Render the number field for counter value `n`: `n` in decimal,
/// right-aligned in [`FIELD_WIDTH`] columns, padded with spaces.
pub fn format_counter(n: u64) -> (r: String)
    ensures
        r@ == num_field(n as nat),
{
    let digits = u64_to_dec(n);
    let width = digits.as_str().unicode_len();
    if width as u64 >= FIELD_WIDTH {
        proof {
            assert(dec_rep(n as nat).len() >= FIELD_WIDTH);
        }
        return digits;
    }
    let pad_len: usize = (FIELD_WIDTH as usize) - width;
    let mut pad = String::new();
    let mut k: usize = 0;
    proof {
        reveal_strlit(" ");
    }
    while k < pad_len
        invariant
            k <= pad_len,
            pad@ == spaces(k as nat),
            " "@ == seq![' '],
        decreases pad_len - k,
    {
        pad.append(" ");
        proof {
            assert(pad@ =~= spaces((k + 1) as nat));
        }
        k += 1;
    }
    let r = pad.concat(digits.as_str());
    proof {
        assert(r@ == num_field(n as nat));
    }
    r
}

} // verus!
