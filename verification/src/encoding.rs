//! The standard base64 text of bytes.
use base64::engine::general_purpose::STANDARD;
use base64::Engine;
use vstd::prelude::*;

verus! {

/// The character that stands for the six bits of `v`.
pub open spec fn base64_char(v: int) -> char {
    if v < 26 {
        (65 + v) as char
    } else if v < 52 {
        (97 + v - 26) as char
    } else if v < 62 {
        (48 + v - 52) as char
    } else if v == 62 {
        '+'
    } else {
        '/'
    }
}

/// The text of the last group, of one, two or three bytes.
pub open spec fn base64_group(b: Seq<u8>) -> Seq<char> {
    let first = base64_char(b[0] as int / 4);
    if b.len() == 1 {
        seq![first, base64_char(b[0] % 4 * 16), '=', '=']
    } else {
        let second = base64_char(b[0] % 4 * 16 + b[1] as int / 16);
        if b.len() == 2 {
            seq![first, second, base64_char(b[1] % 16 * 4), '=']
        } else {
            seq![
                first,
                second,
                base64_char(b[1] % 16 * 4 + b[2] as int / 64),
                base64_char(b[2] as int % 64),
            ]
        }
    }
}

/// The base64 text of `b` in the standard alphabet, with padding (RFC 4648, section 4):
/// four characters for each group of three bytes, and for what is left of the last.
pub open spec fn base64_text(b: Seq<u8>) -> Seq<char>
    decreases b.len(),
{
    if b.len() == 0 {
        seq![]
    } else if b.len() <= 3 {
        base64_group(b)
    } else {
        base64_group(b.take(3)) + base64_text(b.skip(3))
    }
}

/// Whether the base64 text of `n` bytes, and a message that holds it, can be built in
/// memory.
pub open spec fn encodable(n: nat) -> bool {
    4 * n <= isize::MAX
}

/// Calls `encode` of `base64::engine::general_purpose::STANDARD`, whose alphabet is the
/// standard one and which pads. It panics on a length whose text would not fit.
#[verifier::external_body]
pub(crate) fn encode(bytes: &[u8]) -> (r: String)
    requires
        encodable(bytes@.len()),
    ensures
        r@ == base64_text(bytes@),
{
    STANDARD.encode(bytes)
}

proof fn lemma_char_plain(v: int)
    requires
        0 <= v < 64,
    ensures
        ' ' <= base64_char(v),
        base64_char(v) != '"',
        base64_char(v) != '\\',
        base64_char(v) != '=',
{
}

proof fn lemma_char_injective(a: int, b: int)
    requires
        0 <= a < 64,
        0 <= b < 64,
        base64_char(a) == base64_char(b),
    ensures
        a == b,
{
}

/// Base64 text needs no escape in a JSON string.
pub proof fn law_base64_unescaped(b: Seq<u8>)
    ensures
        crate::json::unescaped(base64_text(b)),
    decreases b.len(),
{
    if b.len() > 0 {
        let g = if b.len() <= 3 { b } else { b.take(3) };
        lemma_group_unescaped(g);
        if b.len() > 3 {
            law_base64_unescaped(b.skip(3));
        }
    }
}

proof fn lemma_group_unescaped(g: Seq<u8>)
    requires
        1 <= g.len() <= 3,
    ensures
        crate::json::unescaped(base64_group(g)),
        base64_group(g).len() == 4,
{
    lemma_char_plain(g[0] as int / 4);
    lemma_char_plain(g[0] % 4 * 16);
    if g.len() > 1 {
        lemma_char_plain(g[0] % 4 * 16 + g[1] as int / 16);
        lemma_char_plain(g[1] % 16 * 4);
    }
    if g.len() > 2 {
        lemma_char_plain(g[1] % 16 * 4 + g[2] as int / 64);
        lemma_char_plain(g[2] as int % 64);
    }
}

proof fn lemma_group_injective(a: Seq<u8>, b: Seq<u8>)
    requires
        1 <= a.len() <= 3,
        1 <= b.len() <= 3,
        base64_group(a) == base64_group(b),
    ensures
        a == b,
{
    let ga = base64_group(a);
    let gb = base64_group(b);
    assert(ga[0] == gb[0] && ga[1] == gb[1] && ga[2] == gb[2] && ga[3] == gb[3]);
    lemma_char_injective(a[0] as int / 4, b[0] as int / 4);
    lemma_char_plain(a[0] as int / 4);
    if a.len() > 1 {
        lemma_char_plain(a[1] % 16 * 4);
    }
    if b.len() > 1 {
        lemma_char_plain(b[1] % 16 * 4);
    }
    if a.len() > 2 {
        lemma_char_plain(a[1] % 16 * 4 + a[2] as int / 64);
        lemma_char_plain(a[2] as int % 64);
    }
    if b.len() > 2 {
        lemma_char_plain(b[1] % 16 * 4 + b[2] as int / 64);
        lemma_char_plain(b[2] as int % 64);
    }
    assert(a.len() == b.len());
    if a.len() == 1 {
        lemma_char_injective(a[0] % 4 * 16, b[0] % 4 * 16);
    } else {
        lemma_char_injective(a[0] % 4 * 16 + a[1] as int / 16, b[0] % 4 * 16 + b[1] as int / 16);
        if a.len() == 2 {
            lemma_char_injective(a[1] % 16 * 4, b[1] % 16 * 4);
        } else {
            lemma_char_injective(
                a[1] % 16 * 4 + a[2] as int / 64,
                b[1] % 16 * 4 + b[2] as int / 64,
            );
            lemma_char_injective(a[2] as int % 64, b[2] as int % 64);
        }
    }
    assert(a =~= b);
}

/// Two byte sequences with the same base64 text are the same: the text tells the bytes.
pub proof fn law_base64_injective(a: Seq<u8>, b: Seq<u8>)
    requires
        base64_text(a) == base64_text(b),
    ensures
        a == b,
    decreases a.len(),
{
    law_base64_length(a);
    law_base64_length(b);
    let ta = base64_text(a);
    let tb = base64_text(b);
    if a.len() == 0 || b.len() == 0 {
        assert(a =~= b);
    } else if a.len() <= 3 {
        lemma_group_injective(a, b);
    } else {
        lemma_group_unescaped(a.take(3));
        lemma_group_unescaped(b.take(3));
        assert(base64_group(a.take(3)) =~= ta.take(4));
        assert(base64_group(b.take(3)) =~= tb.take(4));
        lemma_group_injective(a.take(3), b.take(3));
        assert(base64_text(a.skip(3)) =~= ta.skip(4));
        assert(base64_text(b.skip(3)) =~= tb.skip(4));
        law_base64_injective(a.skip(3), b.skip(3));
        assert(a =~= a.take(3) + a.skip(3));
        assert(b =~= b.take(3) + b.skip(3));
    }
}

/// The text of `n` bytes has four characters for each three of them or less.
pub proof fn law_base64_length(b: Seq<u8>)
    ensures
        base64_text(b).len() == (b.len() + 2) / 3 * 4,
    decreases b.len(),
{
    if b.len() > 3 {
        lemma_group_unescaped(b.take(3));
        law_base64_length(b.skip(3));
    }
}

} // verus!
