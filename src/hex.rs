//! Hexadecimal text: the lowercase encoding of bytes, and the decoding of
//! 32 bytes from text as fixed-size hash parsers accept it.
use vstd::prelude::*;

verus! {

/// The lowercase hexadecimal digit of `n`, for `n < 16`.
pub open spec fn hex_char(n: int) -> char {
    if n < 10 {
        (n + 48) as char
    } else {
        (n + 87) as char
    }
}

/// Two lowercase hexadecimal digits per byte, the high nibble first.
pub open spec fn lower_hex(b: Seq<u8>) -> Seq<char> {
    Seq::new(
        2 * b.len(),
        |i: int|
            if i % 2 == 0 {
                hex_char(b[i / 2] as int / 16)
            } else {
                hex_char(b[i / 2] as int % 16)
            },
    )
}

/// Whether `c` is a hexadecimal digit, in either case.
pub open spec fn is_hex_digit(c: char) -> bool {
    ('0' <= c && c <= '9') || ('a' <= c && c <= 'f') || ('A' <= c && c <= 'F')
}

/// The value of the hexadecimal digit `c`.
pub open spec fn digit_value(c: char) -> int {
    if c <= '9' {
        c as int - 48
    } else if c <= 'F' {
        c as int - 55
    } else {
        c as int - 87
    }
}

/// The characters that the parser passes over between digits.
pub open spec fn is_blank(c: char) -> bool {
    c == ' ' || c == '\r' || c == '\n' || c == '\t'
}

/// `s` without a leading `0x`, if it has one.
pub open spec fn strip_0x(s: Seq<char>) -> Seq<char> {
    if s.len() >= 2 && s[0] == '0' && s[1] == 'x' {
        s.skip(2)
    } else {
        s
    }
}

/// The characters of `s` after a leading `0x`, blanks left out.
pub open spec fn hex_digits_of(s: Seq<char>) -> Seq<char> {
    strip_0x(s).filter(|c: char| !is_blank(c))
}

/// The 32 bytes that `s` spells, or `None` where it spells none: after an
/// optional `0x`, and with blanks left out, `s` must be 64 hexadecimal digits.
pub open spec fn parse_hex32(s: Seq<char>) -> Option<Seq<u8>> {
    let d = hex_digits_of(s);
    if d.len() == 64 && (forall|i: int| 0 <= i < 64 ==> is_hex_digit(#[trigger] d[i])) {
        Some(Seq::new(32, |i: int| (16 * digit_value(d[2 * i]) + digit_value(d[2 * i + 1])) as u8))
    } else {
        None
    }
}

proof fn lemma_filter_keeps_all(s: Seq<char>, pred: spec_fn(char) -> bool)
    requires
        forall|i: int| 0 <= i < s.len() ==> pred(#[trigger] s[i]),
    ensures
        s.filter(pred) == s,
    decreases s.len(),
{
    reveal(Seq::filter);
    if s.len() > 0 {
        lemma_filter_keeps_all(s.drop_last(), pred);
        assert(s.drop_last().push(s.last()) =~= s);
    }
}

proof fn lemma_hex_char(n: int)
    requires
        0 <= n < 16,
    ensures
        is_hex_digit(hex_char(n)),
        !is_blank(hex_char(n)),
        hex_char(n) != 'x',
        digit_value(hex_char(n)) == n,
{
}

/// Parsing the lowercase encoding of 32 bytes gives those bytes back.
pub proof fn lemma_parse_lower_hex(b: Seq<u8>)
    requires
        b.len() == 32,
    ensures
        parse_hex32(lower_hex(b)) == Some(b),
{
    let s = lower_hex(b);
    assert forall|i: int| 0 <= i < s.len() implies is_hex_digit(#[trigger] s[i]) && !is_blank(
        s[i],
    ) && s[i] != 'x' by {
        if i % 2 == 0 {
            lemma_hex_char(b[i / 2] as int / 16);
        } else {
            lemma_hex_char(b[i / 2] as int % 16);
        }
    }
    assert(strip_0x(s) == s);
    lemma_filter_keeps_all(s, |c: char| !is_blank(c));
    let d = hex_digits_of(s);
    assert(d == s);
    let r = Seq::new(32, |i: int| (16 * digit_value(d[2 * i]) + digit_value(d[2 * i + 1])) as u8);
    assert forall|i: int| 0 <= i < 32 implies r[i] == b[i] by {
        lemma_hex_char(b[i] as int / 16);
        lemma_hex_char(b[i] as int % 16);
        assert(s[2 * i] == hex_char(b[i] as int / 16));
        assert(s[2 * i + 1] == hex_char(b[i] as int % 16));
    }
    assert(r =~= b);
}

} // verus!
