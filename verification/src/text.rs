//! Building report text without a formatter: decimal and fixed-width
//! hexadecimal rendering with exact character-level contracts.
use vstd::prelude::*;

verus! {

/// Relies on String::push: appends exactly the one character.
#[verifier::external_body]
pub fn push_char(s: &mut String, c: char) -> (u: ())
    ensures
        final(s)@ == old(s)@.push(c),
{
    s.push(c);
}

/// The character for one decimal digit.
pub open spec fn dec_digit(d: int) -> char {
    if d == 0 {
        '0'
    } else if d == 1 {
        '1'
    } else if d == 2 {
        '2'
    } else if d == 3 {
        '3'
    } else if d == 4 {
        '4'
    } else if d == 5 {
        '5'
    } else if d == 6 {
        '6'
    } else if d == 7 {
        '7'
    } else if d == 8 {
        '8'
    } else {
        '9'
    }
}

/// The decimal rendering of a non-negative number, most significant
/// digit first, no leading zeros (a lone zero for zero).
pub open spec fn dec_chars(n: int) -> Seq<char>
    recommends
        n >= 0,
    decreases n,
{
    if n < 10 {
        seq![dec_digit(n)]
    } else {
        dec_chars(n / 10) + seq![dec_digit(n % 10)]
    }
}

/// Appends one decimal digit.
fn append_digit(s: &mut String, d: u8)
    requires
        d < 10,
    ensures
        final(s)@ == old(s)@ + seq![dec_digit(d as int)],
{
    proof {
        reveal_strlit("0");
        reveal_strlit("1");
        reveal_strlit("2");
        reveal_strlit("3");
        reveal_strlit("4");
        reveal_strlit("5");
        reveal_strlit("6");
        reveal_strlit("7");
        reveal_strlit("8");
        reveal_strlit("9");
    }
    match d {
        0 => s.append("0"),
        1 => s.append("1"),
        2 => s.append("2"),
        3 => s.append("3"),
        4 => s.append("4"),
        5 => s.append("5"),
        6 => s.append("6"),
        7 => s.append("7"),
        8 => s.append("8"),
        _ => s.append("9"),
    }
    proof {
        assert(final(s)@ =~= old(s)@ + seq![dec_digit(d as int)]);
    }
}

/// Appends the decimal rendering of `n`.
pub fn append_u64(s: &mut String, n: u64)
    ensures
        final(s)@ == old(s)@ + dec_chars(n as int),
    decreases n,
{
    if n >= 10 {
        append_u64(s, n / 10);
        append_digit(s, (n % 10) as u8);
        proof {
            assert(final(s)@ =~= old(s)@ + dec_chars(n as int));
        }
    } else {
        append_digit(s, n as u8);
    }
}

/// The character for one hexadecimal digit, upper case.
pub open spec fn hex_digit(d: int) -> char {
    if d < 10 {
        dec_digit(d)
    } else if d == 10 {
        'A'
    } else if d == 11 {
        'B'
    } else if d == 12 {
        'C'
    } else if d == 13 {
        'D'
    } else if d == 14 {
        'E'
    } else {
        'F'
    }
}

/// The last `k` hexadecimal digits of `v`, most significant first,
/// zero-padded to exactly `k` characters.
pub open spec fn hex_chars(v: int, k: nat) -> Seq<char>
    decreases k,
{
    if k == 0 {
        Seq::empty()
    } else {
        hex_chars(v / 16, (k - 1) as nat) + seq![hex_digit(v % 16)]
    }
}

/// Appends one hexadecimal digit.
fn append_hex_digit(s: &mut String, d: u8)
    requires
        d < 16,
    ensures
        final(s)@ == old(s)@ + seq![hex_digit(d as int)],
{
    if d < 10 {
        append_digit(s, d);
    } else {
        proof {
            reveal_strlit("A");
            reveal_strlit("B");
            reveal_strlit("C");
            reveal_strlit("D");
            reveal_strlit("E");
            reveal_strlit("F");
        }
        match d {
            10 => s.append("A"),
            11 => s.append("B"),
            12 => s.append("C"),
            13 => s.append("D"),
            14 => s.append("E"),
            _ => s.append("F"),
        }
        proof {
            assert(final(s)@ =~= old(s)@ + seq![hex_digit(d as int)]);
        }
    }
}

/// Appends the last `k` hexadecimal digits of `v`, zero-padded.
fn append_hex_rec(s: &mut String, v: u32, k: u8)
    ensures
        final(s)@ == old(s)@ + hex_chars(v as int, k as nat),
    decreases k,
{
    if k > 0 {
        append_hex_rec(s, v / 16, k - 1);
        append_hex_digit(s, (v % 16) as u8);
        proof {
            assert(final(s)@ =~= old(s)@ + hex_chars(v as int, k as nat));
        }
    } else {
        proof {
            assert(old(s)@ + hex_chars(v as int, 0) =~= old(s)@);
        }
    }
}

/// The fixed eight-character upper-case hexadecimal rendering of a
/// 32-bit value, as CRC-32 values are reported.
pub open spec fn hex32_chars(v: int) -> Seq<char> {
    hex_chars(v, 8)
}

/// Appends the eight-character hexadecimal rendering of `v`.
pub fn append_hex32(s: &mut String, v: u32)
    ensures
        final(s)@ == old(s)@ + hex32_chars(v as int),
{
    append_hex_rec(s, v, 8);
}

/// The rendering of a ratio in hundredths of a percent: an optional
/// sign, the integer percent, a dot, and exactly two decimals.
pub open spec fn ratio_chars(r: int) -> Seq<char> {
    let m = if r < 0 {
        -r
    } else {
        r
    };
    (if r < 0 {
        seq!['-']
    } else {
        Seq::<char>::empty()
    }) + dec_chars(m / 100) + seq!['.'] + seq![dec_digit(m / 10 % 10)] + seq![dec_digit(m % 10)]
}

/// Appends the two-decimal percent rendering of a ratio held in
/// hundredths of a percent.
pub fn append_ratio(s: &mut String, r: i64)
    ensures
        final(s)@ == old(s)@ + ratio_chars(r as int),
{
    let m: u64 = if r < 0 {
        proof {
            reveal_strlit("-");
        }
        s.append("-");
        (-(r as i128)) as u64
    } else {
        r as u64
    };
    append_u64(s, m / 100);
    proof {
        reveal_strlit(".");
    }
    s.append(".");
    append_digit(s, (m / 10 % 10) as u8);
    append_digit(s, (m % 10) as u8);
    proof {
        assert(final(s)@ =~= old(s)@ + ratio_chars(r as int));
    }
}

} // verus!
