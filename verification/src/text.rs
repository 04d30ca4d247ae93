//! Whitespace, as Unicode defines it, and pieces of a text between byte
//! offsets of its UTF-8 encoding.

use vstd::prelude::*;
use vstd::string::StringSliceAdditionalSpecFns;
use vstd::utf8::*;

verus! {

/// Whether the byte offset `at` into the UTF-8 encoding of `text` lies before
/// a character's first byte, or at the end.
pub open spec fn on_boundary(text: Seq<char>, at: int) -> bool {
    is_char_boundary(encode_utf8(text), at)
}

/// The characters of `text` whose encoding lies between the byte offsets
/// `from` and `to`.
pub open spec fn chars_between(text: Seq<char>, from: int, to: int) -> Seq<char> {
    decode_utf8(encode_utf8(text).subrange(from, to))
}

/// The characters of `text` from the byte offset `from` on.
pub open spec fn chars_from(text: Seq<char>, from: int) -> Seq<char> {
    chars_between(text, from, encode_utf8(text).len() as int)
}

/// A boundary lies inside the encoding, its end included.
pub proof fn lemma_boundary_in_range(text: Seq<char>, at: int)
    requires
        on_boundary(text, at),
    ensures
        0 <= at <= encode_utf8(text).len(),
{
    encode_utf8_valid_utf8(text);
}

/// The piece of `text` between two byte offsets that lie on boundaries.
pub fn slice_between<'a>(text: &'a str, from: usize, to: usize) -> (piece: &'a str)
    requires
        from <= to,
        on_boundary(text@, from as int),
        on_boundary(text@, to as int),
    ensures
        piece@ == chars_between(text@, from as int, to as int),
{
    let ghost bytes = encode_utf8(text@);
    proof {
        encode_utf8_valid_utf8(text@);
        lemma_boundary_in_range(text@, to as int);
    }
    let (head, _) = text.split_at(to);
    let ghost front = bytes.subrange(0, to as int);
    proof {
        assert(head.spec_bytes() == front);
        valid_utf8_split(bytes, to as int);
        if from < to {
            is_char_boundary_iff_not_is_continuation_byte(bytes, from as int);
            is_char_boundary_iff_not_is_continuation_byte(front, from as int);
        } else {
            is_char_boundary_start_end_of_seq(front);
        }
    }
    let (_, piece) = head.split_at(from);
    proof {
        assert(piece.spec_bytes() == bytes.subrange(from as int, to as int));
        encode_utf8_decode_utf8(piece@);
    }
    piece
}

/// What follows the byte offset `from`, which lies on a boundary.
pub fn slice_from<'a>(text: &'a str, from: usize) -> (piece: &'a str)
    requires
        on_boundary(text@, from as int),
    ensures
        piece@ == chars_from(text@, from as int),
{
    proof {
        encode_utf8_valid_utf8(text@);
    }
    let (_, piece) = text.split_at(from);
    proof {
        encode_utf8_decode_utf8(piece@);
    }
    piece
}

/// Whether `c` has the Unicode property White_Space.
pub open spec fn is_white_space(c: char) -> bool {
    let n = c as u32;
    ||| 0x0009 <= n <= 0x000D
    ||| n == 0x0020
    ||| n == 0x0085
    ||| n == 0x00A0
    ||| n == 0x1680
    ||| 0x2000 <= n <= 0x200A
    ||| n == 0x2028
    ||| n == 0x2029
    ||| n == 0x202F
    ||| n == 0x205F
    ||| n == 0x3000
}

/// Whether every character of `s` is white space: what is left of such a
/// text once it is trimmed is empty.
pub open spec fn is_blank(s: Seq<char>) -> bool {
    forall|i: int| 0 <= i < s.len() ==> is_white_space(#[trigger] s[i])
}

/// A text with one more character is blank when the text is and the
/// character is white space.
pub proof fn lemma_blank_push(s: Seq<char>, c: char)
    ensures
        is_blank(s.push(c)) == (is_blank(s) && is_white_space(c)),
{
    let t = s.push(c);
    if is_blank(t) {
        assert(t[s.len() as int] == c);
        assert forall|i: int| 0 <= i < s.len() implies is_white_space(#[trigger] s[i]) by {
            assert(t[i] == s[i]);
        }
    }
}

/// Tells whether `c` is a white-space character.
pub fn white_space(c: char) -> (b: bool)
    ensures
        b == is_white_space(c),
{
    let n: u32 = c as u32;
    (0x0009 <= n && n <= 0x000D) || n == 0x0020 || n == 0x0085 || n == 0x00A0 || n == 0x1680 || (
    0x2000 <= n && n <= 0x200A) || n == 0x2028 || n == 0x2029 || n == 0x202F || n == 0x205F || n
        == 0x3000
}

/// Tells whether `s` holds white space only.
pub fn blank(s: &str) -> (b: bool)
    ensures
        b == is_blank(s@),
{
    let mut b: bool = true;
    let chars = s.chars();
    for c in it: chars
        invariant
            it.seq() == s@,
            b == is_blank(s@.take(it.index())),
    {
        proof {
            lemma_blank_push(s@.take(it.index()), c);
            assert(s@.take(it.index() + 1) =~= s@.take(it.index()).push(c));
        }
        b = b && white_space(c);
    }
    assert(s@.take(s@.len() as int) =~= s@);
    b
}

} // verus!
