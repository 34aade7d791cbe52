//! Verified text rendering helpers: decimal and hexadecimal digit strings,
//! and string comparison against literals. All text the library emits is
//! pinned down by the spec functions defined here.

use vstd::prelude::*;

verus! {

use vstd::string::StringExecFns;
use vstd::arithmetic::div_mod::lemma_div_is_strictly_smaller;

/// The decimal digit character for a value below ten.
pub open spec fn dec_digit(d: nat) -> char
    recommends
        d < 10,
{
    if d == 0 {
        '0'
    } else if d == 1 {
        '1'
    } else if d == 2 {
        '2'
    } else if d == 3 {
        '3'
    } else if d == 4 {
        '4'
    } else if d == 5 {
        '5'
    } else if d == 6 {
        '6'
    } else if d == 7 {
        '7'
    } else if d == 8 {
        '8'
    } else {
        '9'
    }
}

/// The decimal rendering of a natural number, most significant digit first,
/// with no leading zeros (a single `'0'` for zero).
pub open spec fn dec_view(n: nat) -> Seq<char>
    decreases n,
{
    if n < 10 {
        seq![dec_digit(n)]
    } else {
        dec_view(n / 10) + seq![dec_digit(n % 10)]
    }
}

/// The decimal rendering of an integer: a leading `'-'` for negatives.
pub open spec fn int_view(i: int) -> Seq<char> {
    if i < 0 {
        seq!['-'] + dec_view((-i) as nat)
    } else {
        dec_view(i as nat)
    }
}

/// The two lowercase hexadecimal digits of a byte, high nibble first.
pub open spec fn hex_digit(d: nat) -> char
    recommends
        d < 16,
{
    if d < 10 {
        dec_digit(d)
    } else if d == 10 {
        'a'
    } else if d == 11 {
        'b'
    } else if d == 12 {
        'c'
    } else if d == 13 {
        'd'
    } else if d == 14 {
        'e'
    } else {
        'f'
    }
}

/// The lowercase hexadecimal rendering of a byte sequence, two digits a byte.
pub open spec fn hex_view(bytes: Seq<u8>) -> Seq<char>
    decreases bytes.len(),
{
    if bytes.len() == 0 {
        Seq::<char>::empty()
    } else {
        hex_view(bytes.drop_last()) + seq![
            hex_digit((bytes.last() / 16) as nat),
            hex_digit((bytes.last() % 16) as nat),
        ]
    }
}

/// The rendering of a boolean, as it appears in emitted configuration.
pub open spec fn bool_view(b: bool) -> Seq<char> {
    if b {
        "true"@
    } else {
        "false"@
    }
}

fn dec_digit_str(d: u8) -> (s: &'static str)
    requires
        d < 10,
    ensures
        s@ == seq![dec_digit(d as nat)],
{
    proof {
        reveal_strlit("0");
        reveal_strlit("1");
        reveal_strlit("2");
        reveal_strlit("3");
        reveal_strlit("4");
        reveal_strlit("5");
        reveal_strlit("6");
        reveal_strlit("7");
        reveal_strlit("8");
        reveal_strlit("9");
    }
    match d {
        0 => "0",
        1 => "1",
        2 => "2",
        3 => "3",
        4 => "4",
        5 => "5",
        6 => "6",
        7 => "7",
        8 => "8",
        _ => "9",
    }
}

fn hex_digit_str(d: u8) -> (s: &'static str)
    requires
        d < 16,
    ensures
        s@ == seq![hex_digit(d as nat)],
{
    proof {
        reveal_strlit("a");
        reveal_strlit("b");
        reveal_strlit("c");
        reveal_strlit("d");
        reveal_strlit("e");
        reveal_strlit("f");
    }
    if d < 10 {
        dec_digit_str(d)
    } else {
        match d {
            10 => "a",
            11 => "b",
            12 => "c",
            13 => "d",
            14 => "e",
            _ => "f",
        }
    }
}

/// Renders an unsigned number in decimal.
pub fn u64_to_string(n: u64) -> (s: String)
    ensures
        s@ == dec_view(n as nat),
    decreases n,
{
    if n < 10 {
        dec_digit_str(n as u8).to_owned()
    } else {
        proof {
            lemma_div_is_strictly_smaller(n as int, 10);
        }
        let mut s = u64_to_string(n / 10);
        s.append(dec_digit_str((n % 10) as u8));
        s
    }
}

/// Renders a signed number in decimal, with a leading minus sign if negative.
pub fn i64_to_string(i: i64) -> (s: String)
    ensures
        s@ == int_view(i as int),
{
    if i < 0 {
        let magnitude: u64 = (-(i as i128)) as u64;
        let mut s = "-".to_owned();
        proof {
            reveal_strlit("-");
            assert("-"@ == seq!['-']);
        }
        let rest = u64_to_string(magnitude);
        s.append(rest.as_str());
        s
    } else {
        u64_to_string(i as u64)
    }
}

/// Renders a 32-bit signed number in decimal.
pub fn i32_to_string(i: i32) -> (s: String)
    ensures
        s@ == int_view(i as int),
{
    i64_to_string(i as i64)
}

/// Renders a 32-bit unsigned number in decimal.
pub fn u32_to_string(n: u32) -> (s: String)
    ensures
        s@ == dec_view(n as nat),
{
    u64_to_string(n as u64)
}

/// Renders a boolean as `true` or `false`.
pub fn bool_to_string(b: bool) -> (s: String)
    ensures
        s@ == bool_view(b),
{
    if b {
        "true".to_owned()
    } else {
        "false".to_owned()
    }
}

/// Appends the lowercase hexadecimal digits of the first `count` bytes.
pub fn bytes_to_hex_prefix(bytes: &Vec<u8>, count: usize) -> (s: String)
    requires
        count <= bytes@.len(),
    ensures
        s@ == hex_view(bytes@.take(count as int)),
{
    let mut s = String::new();
    let mut i: usize = 0;
    proof {
        assert(bytes@.take(0) =~= Seq::<u8>::empty());
    }
    while i < count
        invariant
            i <= count,
            count <= bytes@.len(),
            s@ == hex_view(bytes@.take(i as int)),
        decreases count - i,
    {
        let b = bytes[i];
        s.append(hex_digit_str(b / 16));
        s.append(hex_digit_str(b % 16));
        proof {
            let pre = bytes@.take(i as int);
            let post = bytes@.take(i as int + 1);
            assert(post.drop_last() =~= pre);
            assert(post.last() == bytes@[i as int]);
            assert(s@ =~= hex_view(post));
        }
        i = i + 1;
    }
    s
}

/// Compares a string against a literal by contents.
pub fn str_eq(a: &String, b: &str) -> (r: bool)
    ensures
        r == (a@ == b@),
{
    let bs: String = b.to_owned();
    a.eq(&bs)
}

/// Copies an optional string, preserving its contents.
pub fn clone_opt_string(o: &Option<String>) -> (r: Option<String>)
    ensures
        r == *o,
{
    match o {
        Some(s) => Some(s.clone()),
        None => None,
    }
}

} // verus!
