//! Identifiers: generation, and the wire and storage encoding.
//!
//! An identifier is a 128-bit value. On the wire and in the store it is
//! carried as its canonical text form: exactly 32 hexadecimal digits,
//! lowercase, no separators. Decoding accepts either letter case.

use vstd::prelude::*;
use vstd::string::StrSliceExecFns;
use vstd::string::StringExecFns;

verus! {

/// Relies on uuid's `Uuid::new_v4` and `Uuid::as_u128`: a freshly drawn
/// random 128-bit identifier. Nothing is promised of the value; the
/// create pipeline states what holds of every drawing.
#[verifier::external_body]
pub(crate) fn fresh_id() -> u128 {
    uuid::Uuid::new_v4().as_u128()
}

/// The lowercase hexadecimal digit for a value below sixteen.
pub open spec fn hex_char_of(d: int) -> char {
    if d == 0 { '0' }
    else if d == 1 { '1' }
    else if d == 2 { '2' }
    else if d == 3 { '3' }
    else if d == 4 { '4' }
    else if d == 5 { '5' }
    else if d == 6 { '6' }
    else if d == 7 { '7' }
    else if d == 8 { '8' }
    else if d == 9 { '9' }
    else if d == 10 { 'a' }
    else if d == 11 { 'b' }
    else if d == 12 { 'c' }
    else if d == 13 { 'd' }
    else if d == 14 { 'e' }
    else { 'f' }
}

/// The last `width` hexadecimal digits of `n`, most significant first.
pub open spec fn hex_seq(n: int, width: nat) -> Seq<char>
    decreases width,
{
    if width == 0 {
        Seq::empty()
    } else {
        hex_seq(n / 16, (width - 1) as nat).push(hex_char_of(n % 16))
    }
}

/// The canonical text form of an identifier: its 32 lowercase
/// hexadecimal digits.
pub open spec fn id_hex(id: u128) -> Seq<char> {
    hex_seq(id as int, 32)
}

/// Whether a character is a hexadecimal digit, either letter case.
pub open spec fn is_hex_digit(c: char) -> bool {
    ('0' <= c && c <= '9') || ('a' <= c && c <= 'f') || ('A' <= c && c <= 'F')
}

/// The value of a hexadecimal digit character.
pub open spec fn hex_val(c: char) -> int {
    if '0' <= c && c <= '9' {
        c as int - '0' as int
    } else if 'a' <= c && c <= 'f' {
        c as int - 'a' as int + 10
    } else {
        c as int - 'A' as int + 10
    }
}

/// The value written by a sequence of hexadecimal digits, most
/// significant first.
pub open spec fn hex_value(s: Seq<char>) -> int
    decreases s.len(),
{
    if s.len() == 0 {
        0
    } else {
        hex_value(s.drop_last()) * 16 + hex_val(s.last())
    }
}

/// Whether a string is a well-formed identifier encoding: exactly 32
/// hexadecimal digits.
pub open spec fn valid_id_str(s: Seq<char>) -> bool {
    s.len() == 32 && forall|i: int| 0 <= i < s.len() ==> is_hex_digit(s[i])
}

/// Sixteen raised to the given power.
pub open spec fn pow16(e: nat) -> int
    decreases e,
{
    if e == 0 {
        1
    } else {
        16 * pow16((e - 1) as nat)
    }
}

proof fn lemma_pow16_mono(a: nat, b: nat)
    requires
        a <= b,
    ensures
        0 < pow16(a) <= pow16(b),
    decreases b,
{
    if b > 0 {
        if a == b {
            lemma_pow16_mono((a - 1) as nat, (b - 1) as nat);
        } else {
            lemma_pow16_mono(a, (b - 1) as nat);
        }
    }
}

proof fn lemma_pow16_32()
    ensures
        pow16(32) == 0x100000000000000000000000000000000,
{
    reveal_with_fuel(pow16, 33);
}

/// The digit characters the encoding writes are hexadecimal digits and
/// decode back to their value.
proof fn lemma_hex_char_valid(d: int)
    requires
        0 <= d < 16,
    ensures
        is_hex_digit(hex_char_of(d)),
        hex_val(hex_char_of(d)) == d,
{
}

/// Any `width`-digit encoding of a value below `16^width` is made of
/// hexadecimal digits and decodes back to the value.
proof fn lemma_hex_seq_value(n: int, width: nat)
    requires
        0 <= n < pow16(width),
    ensures
        hex_seq(n, width).len() == width,
        forall|i: int| 0 <= i < width ==> is_hex_digit(#[trigger] hex_seq(n, width)[i]),
        hex_value(hex_seq(n, width)) == n,
    decreases width,
{
    if width > 0 {
        let rest = (width - 1) as nat;
        assert(n == 16 * (n / 16) + n % 16);
        if n / 16 >= pow16(rest) {
            assert(n >= 16 * pow16(rest));
        }
        lemma_hex_seq_value(n / 16, rest);
        lemma_hex_char_valid(n % 16);
        let prefix = hex_seq(n / 16, rest);
        let whole = hex_seq(n, width);
        assert(whole.drop_last() =~= prefix);
        assert(whole.last() == hex_char_of(n % 16));
    }
}

/// Law: encoding and decoding are inverse — the canonical text form of
/// every identifier is a well-formed identifier string and writes
/// exactly the identifier's value.
pub proof fn lemma_id_hex_round_trip(id: u128)
    ensures
        valid_id_str(id_hex(id)),
        hex_value(id_hex(id)) == id as int,
{
    lemma_pow16_32();
    lemma_hex_seq_value(id as int, 32);
}

/// Law: the encoding is injective — distinct identifiers never share a
/// text form.
pub proof fn lemma_id_hex_injective(a: u128, b: u128)
    requires
        id_hex(a) == id_hex(b),
    ensures
        a == b,
{
    lemma_id_hex_round_trip(a);
    lemma_id_hex_round_trip(b);
}

/// One lowercase hexadecimal digit as text.
fn hex_digit_str(d: u8) -> (r: &'static str)
    requires
        d < 16,
    ensures
        r@.len() == 1,
        r@[0] == hex_char_of(d as int),
{
    proof {
        reveal_strlit("0");
        reveal_strlit("1");
        reveal_strlit("2");
        reveal_strlit("3");
        reveal_strlit("4");
        reveal_strlit("5");
        reveal_strlit("6");
        reveal_strlit("7");
        reveal_strlit("8");
        reveal_strlit("9");
        reveal_strlit("a");
        reveal_strlit("b");
        reveal_strlit("c");
        reveal_strlit("d");
        reveal_strlit("e");
        reveal_strlit("f");
    }
    match d {
        0 => "0",
        1 => "1",
        2 => "2",
        3 => "3",
        4 => "4",
        5 => "5",
        6 => "6",
        7 => "7",
        8 => "8",
        9 => "9",
        10 => "a",
        11 => "b",
        12 => "c",
        13 => "d",
        14 => "e",
        _ => "f",
    }
}

fn encode_width(n: u128, width: usize) -> (s: String)
    ensures
        s@ == hex_seq(n as int, width as nat),
        s@.len() == width,
    decreases width,
{
    if width == 0 {
        String::new()
    } else {
        let mut s = encode_width(n / 16, width - 1);
        let d: u8 = (n % 16) as u8;
        let ds = hex_digit_str(d);
        s.append(ds);
        proof {
            assert(s@ =~= hex_seq(n as int, width as nat));
        }
        s
    }
}

/// Writes an identifier in its canonical text form: exactly 32
/// hexadecimal digits, lowercase, no separators.
pub fn encode_id(id: u128) -> (s: String)
    ensures
        s@ == id_hex(id),
        s@.len() == 32,
{
    encode_width(id, 32)
}

/// Reads an identifier from text: accepted exactly when the text is 32
/// hexadecimal digits of either letter case, and then worth the value
/// those digits write.
pub fn decode_id(s: &str) -> (r: Option<u128>)
    ensures
        r is Some <==> valid_id_str(s@),
        r matches Some(v) ==> v as int == hex_value(s@),
{
    let n: usize = s.unicode_len();
    if n != 32 {
        return None;
    }
    let mut acc: u128 = 0;
    let mut i: usize = 0;
    while i < 32
        invariant
            s@.len() == 32,
            0 <= i <= 32,
            forall|m: int| 0 <= m < i ==> is_hex_digit(s@[m]),
            acc as int == hex_value(s@.subrange(0, i as int)),
            (acc as int) < pow16(i as nat),
        decreases 32 - i,
    {
        let c = s.get_char(i);
        let u: u32 = c as u32;
        let d: u32 = if 48 <= u && u <= 57 {
            u - 48
        } else if 97 <= u && u <= 102 {
            u - 97 + 10
        } else if 65 <= u && u <= 70 {
            u - 65 + 10
        } else {
            proof {
                assert(!is_hex_digit(s@[i as int]));
            }
            return None;
        };
        proof {
            lemma_pow16_mono((i + 1) as nat, 32);
            lemma_pow16_32();
            assert(pow16((i + 1) as nat) == 16 * pow16(i as nat));
            assert(hex_val(s@[i as int]) == d as int);
            let pre = s@.subrange(0, i as int);
            let post = s@.subrange(0, i + 1);
            assert(post.drop_last() =~= pre);
            assert(post.last() == s@[i as int]);
        }
        acc = acc * 16 + (d as u128);
        i = i + 1;
    }
    proof {
        assert(s@.subrange(0, 32) =~= s@);
    }
    Some(acc)
}

} // verus!
