//! The size ceiling of an upload, and how an oversize is reported.

use vstd::prelude::*;
use vstd::string::StringExecFns;

verus! {

/// The largest decoded image that is accepted: ten mebibytes.
pub const MAX_IMAGE_BYTES: usize = 10_485_760;

/// Bytes in one mebibyte.
pub const BYTES_PER_MEBIBYTE: usize = 1_048_576;

/// `size` bytes expressed in tenths of a mebibyte, rounded to the nearest
/// tenth; a size exactly halfway between two tenths goes to the even one.
pub open spec fn mebibyte_tenths(size: nat) -> nat {
    let scaled = size * 10;
    let below = scaled / (BYTES_PER_MEBIBYTE as nat);
    let rest = scaled % (BYTES_PER_MEBIBYTE as nat);
    if 2 * rest < BYTES_PER_MEBIBYTE {
        below
    } else if 2 * rest > BYTES_PER_MEBIBYTE {
        below + 1
    } else if below % 2 == 0 {
        below
    } else {
        below + 1
    }
}

/// The character of a decimal digit.
pub open spec fn digit_char(d: nat) -> char {
    if d == 0 {
        '0'
    } else if d == 1 {
        '1'
    } else if d == 2 {
        '2'
    } else if d == 3 {
        '3'
    } else if d == 4 {
        '4'
    } else if d == 5 {
        '5'
    } else if d == 6 {
        '6'
    } else if d == 7 {
        '7'
    } else if d == 8 {
        '8'
    } else {
        '9'
    }
}

/// The decimal numeral of `n`, most significant digit first, without leading
/// zeros.
pub open spec fn decimal(n: nat) -> Seq<char>
    decreases n,
{
    if n < 10 {
        seq![digit_char(n)]
    } else {
        decimal(n / 10).push(digit_char(n % 10))
    }
}

/// A count of tenths written with one decimal place: `107` reads `10.7`.
pub open spec fn one_decimal(tenths: nat) -> Seq<char> {
    decimal(tenths / 10).push('.').push(digit_char(tenths % 10))
}

/// `size` bytes written in mebibytes with one decimal place.
pub open spec fn mebibytes_text(size: nat) -> Seq<char> {
    one_decimal(mebibyte_tenths(size))
}

/// Rounds `size` bytes to tenths of a mebibyte.
pub fn size_in_mebibyte_tenths(size: usize) -> (tenths: u64)
    ensures
        tenths == mebibyte_tenths(size as nat),
{
    let scaled: u128 = (size as u128) * 10;
    let unit: u128 = BYTES_PER_MEBIBYTE as u128;
    let below: u128 = scaled / unit;
    let rest: u128 = scaled % unit;
    assert(below <= 0xFFFF_FFFF_FFFF_FFFF_u128 * 10 / 1_048_576);
    if 2 * rest < unit {
        below as u64
    } else if 2 * rest > unit {
        (below + 1) as u64
    } else if below % 2 == 0 {
        below as u64
    } else {
        (below + 1) as u64
    }
}

fn digit_text(d: u64) -> (text: &'static str)
    requires
        d < 10,
    ensures
        text@ == seq![digit_char(d as nat)],
{
    proof {
        reveal_strlit("0");
        reveal_strlit("1");
        reveal_strlit("2");
        reveal_strlit("3");
        reveal_strlit("4");
        reveal_strlit("5");
        reveal_strlit("6");
        reveal_strlit("7");
        reveal_strlit("8");
        reveal_strlit("9");
    }
    let text = if d == 0 {
        "0"
    } else if d == 1 {
        "1"
    } else if d == 2 {
        "2"
    } else if d == 3 {
        "3"
    } else if d == 4 {
        "4"
    } else if d == 5 {
        "5"
    } else if d == 6 {
        "6"
    } else if d == 7 {
        "7"
    } else if d == 8 {
        "8"
    } else {
        "9"
    };
    assert(text@ =~= seq![digit_char(d as nat)]);
    text
}

/// Writes `n` as a decimal numeral.
pub fn decimal_text(n: u64) -> (text: String)
    ensures
        text@ == decimal(n as nat),
    decreases n,
{
    if n < 10 {
        String::from_str(digit_text(n))
    } else {
        let mut text = decimal_text(n / 10);
        text.append(digit_text(n % 10));
        assert(text@ =~= decimal(n as nat));
        text
    }
}

/// Writes `size` bytes in mebibytes with one decimal place, as an oversize
/// report shows it.
pub fn format_mebibytes(size: usize) -> (text: String)
    ensures
        text@ == mebibytes_text(size as nat),
{
    let tenths = size_in_mebibyte_tenths(size);
    let mut text = decimal_text(tenths / 10);
    proof {
        reveal_strlit(".");
    }
    text.append(".");
    text.append(digit_text(tenths % 10));
    assert(text@ =~= mebibytes_text(size as nat));
    text
}

/// The size that an oversize report shows is the true size to within a
/// twentieth of a mebibyte: multiplied back, the reported tenths differ from
/// ten times the size by at most half a mebibyte.
pub proof fn lemma_reported_size_matches(size: nat)
    ensures
        2 * (mebibyte_tenths(size) * BYTES_PER_MEBIBYTE - size * 10) <= BYTES_PER_MEBIBYTE,
        2 * (size * 10 - mebibyte_tenths(size) * BYTES_PER_MEBIBYTE) <= BYTES_PER_MEBIBYTE,
{
    let scaled = size * 10;
    let unit = BYTES_PER_MEBIBYTE as nat;
    let below = scaled / unit;
    let rest = scaled % unit;
    assert(scaled == below * unit + rest && rest < unit) by (nonlinear_arith)
        requires
            below == scaled / unit,
            rest == scaled % unit,
            unit == 1_048_576,
    ;
    assert((below + 1) * unit == below * unit + unit) by (nonlinear_arith);
}

} // verus!
