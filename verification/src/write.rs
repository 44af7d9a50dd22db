//! Appending text to a byte buffer as UTF-8: characters, decimal numbers and
//! escaped string contents.
use vstd::prelude::*;
use vstd::utf8::*;

use crate::json_text::{decimal, digit, digits, escape_char, escaped, hex_digit};

verus! {

broadcast use vstd::string::axiom_spec_iter;

/// The UTF-8 encoding of a concatenation is the concatenation of the encodings.
pub proof fn lemma_encode_concat(a: Seq<char>, b: Seq<char>)
    ensures
        encode_utf8(a + b) == encode_utf8(a) + encode_utf8(b),
    decreases a.len(),
{
    if a.len() == 0 {
        assert(a + b =~= b);
    } else {
        assert((a + b).drop_first() =~= a.drop_first() + b);
        lemma_encode_concat(a.drop_first(), b);
        assert(encode_utf8(a + b) =~= encode_utf8(a) + encode_utf8(b));
    }
}

/// Appending the encodings of two texts appends the encoding of their
/// concatenation.
pub proof fn lemma_extend(before: Seq<u8>, t1: Seq<char>, t2: Seq<char>)
    ensures
        before + encode_utf8(t1) + encode_utf8(t2) == before + encode_utf8(t1 + t2),
{
    lemma_encode_concat(t1, t2);
    assert(before + encode_utf8(t1) + encode_utf8(t2) =~= before + encode_utf8(t1 + t2));
}

/// One character is encoded as its scalar's encoding.
pub proof fn lemma_encode_one(c: char)
    ensures
        encode_utf8(seq![c]) == encode_scalar(c as u32),
{
    let s = seq![c];
    assert(s.drop_first() =~= Seq::<char>::empty());
    assert(encode_utf8(Seq::<char>::empty()) =~= Seq::<u8>::empty());
    assert(encode_utf8(s) == encode_scalar(s[0] as u32) + encode_utf8(s.drop_first()));
    assert(encode_utf8(s) =~= encode_scalar(c as u32));
}

/// A character below 128 is encoded as the single byte of its code.
pub proof fn lemma_encode_ascii(c: char)
    requires
        (c as u32) < 128,
    ensures
        encode_utf8(seq![c]) == seq![c as u8],
        (c as u8) as u32 == c as u32,
{
    let u = c as u32;
    lemma_encode_one(c);
    assert(u < 128 ==> (u & 0x7F) as u8 == u as u8 && (u as u8) as u32 == u) by (bit_vector);
    assert(encode_utf8(seq![c]) =~= seq![c as u8]);
}

/// Appends the single byte of a character below 128.
pub fn push_ascii(out: &mut Vec<u8>, c: char)
    requires
        (c as u32) < 128,
    ensures
        final(out)@ == old(out)@ + encode_utf8(seq![c]),
{
    proof {
        lemma_encode_ascii(c);
    }
    out.push(c as u8);
}

/// Appends the UTF-8 encoding of a string slice.
pub fn push_str(out: &mut Vec<u8>, s: &str)
    ensures
        final(out)@ == old(out)@ + encode_utf8(s@),
{
    out.extend_from_slice(s.as_bytes());
}

/// Appends the UTF-8 encoding of one character.
pub fn push_char(out: &mut Vec<u8>, c: char)
    ensures
        final(out)@ == old(out)@ + encode_utf8(seq![c]),
{
    let u = c as u32;
    proof {
        char_is_scalar(c);
        lemma_encode_one(c);
    }
    if u < 0x80 {
        out.push((u & 0x7F) as u8);
    } else if u < 0x800 {
        proof {
            assert(((u >> 6) & 0x1F) < 256 && (u & 0x3F) < 256) by (bit_vector);
        }
        out.push(0xC0 | ((u >> 6) & 0x1F) as u8);
        out.push(0x80 | (u & 0x3F) as u8);
    } else if u < 0x10000 {
        proof {
            assert(((u >> 12) & 0x0F) < 256 && ((u >> 6) & 0x3F) < 256 && (u & 0x3F) < 256) by (bit_vector);
        }
        out.push(0xE0 | ((u >> 12) & 0x0F) as u8);
        out.push(0x80 | ((u >> 6) & 0x3F) as u8);
        out.push(0x80 | (u & 0x3F) as u8);
    } else {
        proof {
            assert(((u >> 18) & 0x7) < 256 && ((u >> 12) & 0x3F) < 256 && ((u >> 6) & 0x3F) < 256 && (u & 0x3F) < 256) by (bit_vector);
        }
        out.push(0xF0 | ((u >> 18) & 0x7) as u8);
        out.push(0x80 | ((u >> 12) & 0x3F) as u8);
        out.push(0x80 | ((u >> 6) & 0x3F) as u8);
        out.push(0x80 | (u & 0x3F) as u8);
    }
    assert(final(out)@ =~= old(out)@ + encode_scalar(u));
}

/// A decimal digit character is the ASCII character with code `48 + d`.
proof fn lemma_digit_ascii(d: int)
    requires
        0 <= d < 10,
    ensures
        (digit(d) as u32) < 128,
        digit(d) as u32 == d + 48,
{
}

/// Appends the decimal digits of `v`.
pub fn push_digits(out: &mut Vec<u8>, v: u128)
    ensures
        final(out)@ == old(out)@ + encode_utf8(digits(v as nat)),
    decreases v,
{
    let ghost before = out@;
    if v >= 10 {
        push_digits(out, v / 10);
    }
    let d: u8 = (v % 10) as u8;
    let c: char = (d + 48) as char;
    proof {
        lemma_digit_ascii(d as int);
        assert(c == digit((v % 10) as int));
        lemma_encode_ascii(c);
    }
    out.push(d + 48);
    proof {
        if v >= 10 {
            lemma_encode_concat(digits((v / 10) as nat), seq![c]);
            assert(digits(v as nat) == digits((v / 10) as nat) + seq![c]);
        } else {
            assert(digits(v as nat) == seq![c]);
        }
        assert(out@ =~= before + encode_utf8(digits(v as nat)));
    }
}

/// Appends the decimal text of a signed value.
pub fn push_signed(out: &mut Vec<u8>, v: i128)
    ensures
        final(out)@ == old(out)@ + encode_utf8(decimal(v as int)),
{
    if v < 0 {
        let ghost before = out@;
        push_ascii(out, '-');
        let magnitude: u128 = ((-(v + 1)) as u128) + 1;
        assert(magnitude == -(v as int));
        push_digits(out, magnitude);
        proof {
            lemma_encode_concat(seq!['-'], digits(magnitude as nat));
            assert(out@ =~= before + encode_utf8(decimal(v as int)));
        }
    } else {
        push_digits(out, v as u128);
    }
}

/// Appends the decimal text of an unsigned value.
pub fn push_unsigned(out: &mut Vec<u8>, v: u128)
    ensures
        final(out)@ == old(out)@ + encode_utf8(decimal(v as int)),
{
    push_digits(out, v);
}

/// Appends two characters below 128.
fn push_pair(out: &mut Vec<u8>, a: char, b: char)
    requires
        (a as u32) < 128,
        (b as u32) < 128,
    ensures
        final(out)@ == old(out)@ + encode_utf8(seq![a, b]),
{
    let ghost before = out@;
    push_ascii(out, a);
    push_ascii(out, b);
    proof {
        lemma_extend(before, seq![a], seq![b]);
        assert(seq![a] + seq![b] =~= seq![a, b]);
    }
}

/// Appends the lower-case hexadecimal digit for `d`.
fn push_hex_digit(out: &mut Vec<u8>, d: u32)
    requires
        d < 16,
    ensures
        final(out)@ == old(out)@ + encode_utf8(seq![hex_digit(d as int)]),
{
    let c: char = if d < 10 {
        ((d as u8) + 48) as char
    } else {
        ((d as u8) + 87) as char
    };
    assert(c == hex_digit(d as int));
    push_ascii(out, c);
}

/// Appends the escaped form of one character.
pub fn push_escaped_char(out: &mut Vec<u8>, c: char)
    ensures
        final(out)@ == old(out)@ + encode_utf8(escape_char(c)),
{
    let ghost before = out@;
    let u = c as u32;
    if c == '\\' {
        push_pair(out, '\\', '\\');
    } else if c == '"' {
        push_pair(out, '\\', '"');
    } else if c == '\n' {
        push_pair(out, '\\', 'n');
    } else if c == '\r' {
        push_pair(out, '\\', 'r');
    } else if c == '\t' {
        push_pair(out, '\\', 't');
    } else if c == '\u{8}' {
        push_pair(out, '\\', 'b');
    } else if c == '\u{c}' {
        push_pair(out, '\\', 'f');
    } else if u < 0x20 {
        push_pair(out, '\\', 'u');
        let ghost t1 = seq!['\\', 'u'];
        push_pair(out, '0', '0');
        let ghost t2 = seq!['0', '0'];
        push_hex_digit(out, u / 16);
        let ghost t3 = seq![hex_digit((u / 16) as int)];
        push_hex_digit(out, u % 16);
        let ghost t4 = seq![hex_digit((u % 16) as int)];
        proof {
            lemma_extend(before, t1, t2);
            lemma_extend(before, t1 + t2, t3);
            lemma_extend(before, t1 + t2 + t3, t4);
            assert(t1 + t2 + t3 + t4 =~= escape_char(c));
        }
    } else {
        push_char(out, c);
    }
}

/// Appends the escaped form of a string slice, without the quotes.
pub fn push_escaped(out: &mut Vec<u8>, s: &str)
    ensures
        final(out)@ == old(out)@ + encode_utf8(escaped(s@)),
{
    let ghost before = out@;
    proof {
        assert(s@.take(0) =~= Seq::<char>::empty());
    }
    for c in it: s.chars()
        invariant
            it.seq() == s@,
            0 <= it.index() <= s@.len(),
            out@ == before + encode_utf8(escaped(s@.take(it.index() as int))),
    {
        let ghost i = it.index();
        let ghost mid = out@;
        push_escaped_char(out, c);
        proof {
            let t = s@.take(i + 1);
            assert(t.drop_last() =~= s@.take(i as int));
            assert(t.last() == c);
            lemma_encode_concat(escaped(s@.take(i as int)), escape_char(c));
            assert(out@ =~= before + encode_utf8(escaped(t)));
        }
    }
    proof {
        assert(s@.take(s@.len() as int) =~= s@);
    }
}

} // verus!
