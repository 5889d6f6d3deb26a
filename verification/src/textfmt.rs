//! Character-level text building: hexadecimal and decimal rendering into
//! a vector of characters, with exact sequence-of-characters contracts.

use vstd::prelude::*;

verus! {

/// The lowercase hexadecimal digit for `d` (0..=15).
pub open spec fn spec_hex_digit(d: int) -> char {
    if d == 0 {
        '0'
    } else if d == 1 {
        '1'
    } else if d == 2 {
        '2'
    } else if d == 3 {
        '3'
    } else if d == 4 {
        '4'
    } else if d == 5 {
        '5'
    } else if d == 6 {
        '6'
    } else if d == 7 {
        '7'
    } else if d == 8 {
        '8'
    } else if d == 9 {
        '9'
    } else if d == 10 {
        'a'
    } else if d == 11 {
        'b'
    } else if d == 12 {
        'c'
    } else if d == 13 {
        'd'
    } else if d == 14 {
        'e'
    } else {
        'f'
    }
}

/// `v` rendered as exactly `n` hexadecimal digits, zero-padded, most
/// significant first.
pub open spec fn spec_hex_fixed(v: int, n: nat) -> Seq<char>
    decreases n,
{
    if n == 0 {
        Seq::empty()
    } else {
        spec_hex_fixed(v / 16, (n - 1) as nat).push(spec_hex_digit(v % 16))
    }
}

/// `v` rendered as hexadecimal with no leading zeros (a lone zero for 0).
pub open spec fn spec_hex_min(v: nat) -> Seq<char>
    decreases v,
{
    if v < 16 {
        seq![spec_hex_digit(v as int)]
    } else {
        spec_hex_min(v / 16).push(spec_hex_digit((v % 16) as int))
    }
}

/// `v` rendered as decimal with no leading zeros (a lone zero for 0).
pub open spec fn spec_dec_min(v: nat) -> Seq<char>
    decreases v,
{
    if v < 10 {
        seq![spec_hex_digit(v as int)]
    } else {
        spec_dec_min(v / 10).push(spec_hex_digit((v % 10) as int))
    }
}

/// The lowercase hexadecimal digit character for `d`.
fn hex_digit(d: u32) -> (c: char)
    requires
        d < 16,
    ensures
        c == spec_hex_digit(d as int),
{
    match d {
        0 => '0',
        1 => '1',
        2 => '2',
        3 => '3',
        4 => '4',
        5 => '5',
        6 => '6',
        7 => '7',
        8 => '8',
        9 => '9',
        10 => 'a',
        11 => 'b',
        12 => 'c',
        13 => 'd',
        14 => 'e',
        _ => 'f',
    }
}

/// Append `v` as exactly `n` zero-padded hexadecimal digits.
pub fn push_hex_fixed(out: &mut Vec<char>, v: u32, n: usize)
    ensures
        final(out)@ == old(out)@ + spec_hex_fixed(v as int, n as nat),
    decreases n,
{
    if n == 0 {
        proof {
            assert(out@ =~= old(out)@ + spec_hex_fixed(v as int, 0));
        }
        return ;
    }
    push_hex_fixed(out, v / 16, n - 1);
    out.push(hex_digit(v % 16));
    proof {
        assert(out@ =~= old(out)@ + spec_hex_fixed(v as int, n as nat));
    }
}

/// Append `v` as minimal-width hexadecimal.
pub fn push_hex_min(out: &mut Vec<char>, v: u32)
    ensures
        final(out)@ == old(out)@ + spec_hex_min(v as nat),
    decreases v,
{
    if v < 16 {
        out.push(hex_digit(v));
        proof {
            assert(out@ =~= old(out)@ + spec_hex_min(v as nat));
        }
        return ;
    }
    push_hex_min(out, v / 16);
    out.push(hex_digit(v % 16));
    proof {
        assert(out@ =~= old(out)@ + spec_hex_min(v as nat));
    }
}

/// Append `v` as minimal-width decimal.
pub fn push_dec_min(out: &mut Vec<char>, v: u32)
    ensures
        final(out)@ == old(out)@ + spec_dec_min(v as nat),
    decreases v,
{
    if v < 10 {
        out.push(hex_digit(v));
        proof {
            assert(out@ =~= old(out)@ + spec_dec_min(v as nat));
        }
        return ;
    }
    push_dec_min(out, v / 10);
    out.push(hex_digit(v % 10));
    proof {
        assert(out@ =~= old(out)@ + spec_dec_min(v as nat));
    }
}

/// Append every character of `s`.
pub fn push_str_chars(out: &mut Vec<char>, s: &str)
    ensures
        final(out)@ == old(out)@ + s@,
{
    let n = s.unicode_len();
    let mut i: usize = 0;
    while i < n
        invariant
            i <= n,
            n == s@.len(),
            out@ == old(out)@ + s@.subrange(0, i as int),
        decreases n - i,
    {
        out.push(s.get_char(i));
        proof {
            assert(s@.subrange(0, i + 1 as int) =~= s@.subrange(0, i as int).push(s@[i as int]));
        }
        i = i + 1;
    }
    proof {
        assert(s@.subrange(0, n as int) =~= s@);
    }
}

/// Relies on String's FromIterator over char: collecting characters
/// yields the string of exactly those characters, in order.
#[verifier::external_body]
pub(crate) fn chars_to_string(v: Vec<char>) -> (r: String)
    ensures
        r@ == v@,
{
    v.into_iter().collect()
}

} // verus!
