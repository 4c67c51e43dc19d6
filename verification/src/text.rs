//! Verified text rendering: hexadecimal and decimal digits, as characters and
//! as ASCII bytes. ETags are lowercase hex strings; problem documents carry
//! decimal status codes; resource locations carry decimal primary keys.

use vstd::prelude::*;

verus! {

/// The lowercase hexadecimal digit character for `d` (`0 <= d < 16`).
pub open spec fn hex_char(d: int) -> char {
    seq!['0', '1', '2', '3', '4', '5', '6', '7', '8', '9', 'a', 'b', 'c', 'd', 'e', 'f'][d]
}

/// Lowercase hex rendering of `n` without leading zeros; `0` renders as "0".
pub open spec fn spec_hex_lower(n: nat) -> Seq<char>
    decreases n,
{
    if n < 16 {
        seq![hex_char(n as int)]
    } else {
        spec_hex_lower(n / 16).push(hex_char((n % 16) as int))
    }
}

fn append_hex_digit(s: &mut String, d: u64)
    requires
        d < 16,
    ensures
        final(s)@ == old(s)@.push(hex_char(d as int)),
{
    proof {
        reveal_strlit("0");
        reveal_strlit("1");
        reveal_strlit("2");
        reveal_strlit("3");
        reveal_strlit("4");
        reveal_strlit("5");
        reveal_strlit("6");
        reveal_strlit("7");
        reveal_strlit("8");
        reveal_strlit("9");
        reveal_strlit("a");
        reveal_strlit("b");
        reveal_strlit("c");
        reveal_strlit("d");
        reveal_strlit("e");
        reveal_strlit("f");
    }
    match d {
        0 => s.append("0"),
        1 => s.append("1"),
        2 => s.append("2"),
        3 => s.append("3"),
        4 => s.append("4"),
        5 => s.append("5"),
        6 => s.append("6"),
        7 => s.append("7"),
        8 => s.append("8"),
        9 => s.append("9"),
        10 => s.append("a"),
        11 => s.append("b"),
        12 => s.append("c"),
        13 => s.append("d"),
        14 => s.append("e"),
        _ => s.append("f"),
    }
    proof {
        assert(final(s)@ =~= old(s)@.push(hex_char(d as int)));
    }
}

fn append_hex_lower_u64(n: u64, s: &mut String)
    ensures
        final(s)@ == old(s)@ + spec_hex_lower(n as nat),
    decreases n,
{
    if n < 16 {
        append_hex_digit(s, n);
        proof {
            assert(final(s)@ =~= old(s)@ + spec_hex_lower(n as nat));
        }
    } else {
        append_hex_lower_u64(n / 16, s);
        append_hex_digit(s, n % 16);
        proof {
            assert(final(s)@ =~= old(s)@ + spec_hex_lower(n as nat));
        }
    }
}

/// Lowercase hex string of `n`, exactly as wide as needed.
pub fn hex_lower_u64(n: u64) -> (s: String)
    ensures
        s@ == spec_hex_lower(n as nat),
{
    let mut s = String::new();
    append_hex_lower_u64(n, &mut s);
    proof {
        assert(s@ =~= spec_hex_lower(n as nat));
    }
    s
}

/// The uppercase hexadecimal digit character for `d` (`0 <= d < 16`).
pub open spec fn hex_char_upper(d: int) -> char {
    seq!['0', '1', '2', '3', '4', '5', '6', '7', '8', '9', 'A', 'B', 'C', 'D', 'E', 'F'][d]
}

/// The last `width` uppercase hex digits of `n`, zero padded.
pub open spec fn spec_hex_upper_width(n: nat, width: nat) -> Seq<char>
    decreases width,
{
    if width == 0 {
        Seq::empty()
    } else {
        spec_hex_upper_width(n / 16, (width - 1) as nat).push(hex_char_upper((n % 16) as int))
    }
}

fn append_hex_upper_digit(s: &mut String, d: u32)
    requires
        d < 16,
    ensures
        final(s)@ == old(s)@.push(hex_char_upper(d as int)),
{
    proof {
        reveal_strlit("0");
        reveal_strlit("1");
        reveal_strlit("2");
        reveal_strlit("3");
        reveal_strlit("4");
        reveal_strlit("5");
        reveal_strlit("6");
        reveal_strlit("7");
        reveal_strlit("8");
        reveal_strlit("9");
        reveal_strlit("A");
        reveal_strlit("B");
        reveal_strlit("C");
        reveal_strlit("D");
        reveal_strlit("E");
        reveal_strlit("F");
    }
    match d {
        0 => s.append("0"),
        1 => s.append("1"),
        2 => s.append("2"),
        3 => s.append("3"),
        4 => s.append("4"),
        5 => s.append("5"),
        6 => s.append("6"),
        7 => s.append("7"),
        8 => s.append("8"),
        9 => s.append("9"),
        10 => s.append("A"),
        11 => s.append("B"),
        12 => s.append("C"),
        13 => s.append("D"),
        14 => s.append("E"),
        _ => s.append("F"),
    }
    proof {
        assert(final(s)@ =~= old(s)@.push(hex_char_upper(d as int)));
    }
}

fn append_hex_upper_width(n: u32, width: u32, s: &mut String)
    ensures
        final(s)@ == old(s)@ + spec_hex_upper_width(n as nat, width as nat),
    decreases width,
{
    if width == 0 {
        proof {
            assert(final(s)@ =~= old(s)@ + spec_hex_upper_width(n as nat, 0));
        }
    } else {
        append_hex_upper_width(n / 16, width - 1, s);
        append_hex_upper_digit(s, n % 16);
        proof {
            assert(final(s)@ =~= old(s)@ + spec_hex_upper_width(n as nat, width as nat));
        }
    }
}

/// Eight uppercase hex digits of `n`, zero padded, after a "0x" prefix.
pub open spec fn spec_hex_upper8_prefixed(n: nat) -> Seq<char> {
    "0x"@ + spec_hex_upper_width(n, 8)
}

/// Render `n` as "0x" followed by its eight zero-padded uppercase hex digits.
pub fn append_hex_upper8_prefixed(n: u32, s: &mut String)
    ensures
        final(s)@ == old(s)@ + spec_hex_upper8_prefixed(n as nat),
{
    s.append("0x");
    append_hex_upper_width(n, 8, s);
    proof {
        assert(final(s)@ =~= old(s)@ + spec_hex_upper8_prefixed(n as nat));
    }
}

/// The decimal digit character for `d` (`0 <= d < 10`).
pub open spec fn dec_char(d: int) -> char {
    seq!['0', '1', '2', '3', '4', '5', '6', '7', '8', '9'][d]
}

/// Decimal rendering of `n` without leading zeros; `0` renders as "0".
pub open spec fn spec_decimal(n: nat) -> Seq<char>
    decreases n,
{
    if n < 10 {
        seq![dec_char(n as int)]
    } else {
        spec_decimal(n / 10).push(dec_char((n % 10) as int))
    }
}

/// Decimal rendering of a possibly negative integer.
pub open spec fn spec_decimal_int(n: int) -> Seq<char> {
    if n < 0 {
        seq!['-'] + spec_decimal((-n) as nat)
    } else {
        spec_decimal(n as nat)
    }
}

fn append_dec_digit(s: &mut String, d: u64)
    requires
        d < 10,
    ensures
        final(s)@ == old(s)@.push(dec_char(d as int)),
{
    proof {
        reveal_strlit("0");
        reveal_strlit("1");
        reveal_strlit("2");
        reveal_strlit("3");
        reveal_strlit("4");
        reveal_strlit("5");
        reveal_strlit("6");
        reveal_strlit("7");
        reveal_strlit("8");
        reveal_strlit("9");
    }
    match d {
        0 => s.append("0"),
        1 => s.append("1"),
        2 => s.append("2"),
        3 => s.append("3"),
        4 => s.append("4"),
        5 => s.append("5"),
        6 => s.append("6"),
        7 => s.append("7"),
        8 => s.append("8"),
        _ => s.append("9"),
    }
    proof {
        assert(final(s)@ =~= old(s)@.push(dec_char(d as int)));
    }
}

/// Append the decimal rendering of `n`.
pub fn append_decimal_u64(n: u64, s: &mut String)
    ensures
        final(s)@ == old(s)@ + spec_decimal(n as nat),
    decreases n,
{
    if n < 10 {
        append_dec_digit(s, n);
        proof {
            assert(final(s)@ =~= old(s)@ + spec_decimal(n as nat));
        }
    } else {
        append_decimal_u64(n / 10, s);
        append_dec_digit(s, n % 10);
        proof {
            assert(final(s)@ =~= old(s)@ + spec_decimal(n as nat));
        }
    }
}

/// Append the decimal rendering of `n`, with a leading minus when negative.
pub fn append_decimal_i32(n: i32, s: &mut String)
    ensures
        final(s)@ == old(s)@ + spec_decimal_int(n as int),
{
    if n < 0 {
        s.append("-");
        proof {
            reveal_strlit("-");
        }
        let m: u64 = (-(n as i64)) as u64;
        append_decimal_u64(m, s);
        proof {
            assert(final(s)@ =~= old(s)@ + spec_decimal_int(n as int));
        }
    } else {
        append_decimal_u64(n as u64, s);
    }
}

/// The bytes of an all-ASCII character sequence.
pub open spec fn ascii_bytes(s: Seq<char>) -> Seq<u8> {
    s.map_values(|c: char| c as u8)
}

/// Append the bytes of an ASCII string.
pub fn append_ascii_str(out: &mut Vec<u8>, s: &str)
    requires
        s.is_ascii(),
    ensures
        final(out)@ == old(out)@ + ascii_bytes(s@),
{
    proof {
        vstd::string::is_ascii_spec_bytes(s);
    }
    let b = s.as_bytes();
    let n = b.len();
    let mut i: usize = 0;
    while i < n
        invariant
            n == b@.len(),
            0 <= i <= n,
            b@ =~= ascii_bytes(s@),
            out@ == old(out)@ + b@.take(i as int),
        decreases n - i,
    {
        out.push(b[i]);
        proof {
            assert(out@ =~= old(out)@ + b@.take(i + 1));
        }
        i = i + 1;
    }
    proof {
        assert(final(out)@ =~= old(out)@ + ascii_bytes(s@));
    }
}

} // verus!
