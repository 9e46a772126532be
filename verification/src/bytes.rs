//! Byte strings: writing text into a buffer and matching text in one.

use vstd::prelude::*;
use vstd::string::StringSliceAdditionalSpecFns;
use vstd::utf8::{encode_utf8, is_ascii_chars};

verus! {

/// What is left of `input` behind `piece`, if `input` starts with it.
pub open spec fn strip(input: Seq<u8>, piece: Seq<u8>) -> Option<Seq<u8>> {
    if piece.is_prefix_of(input) {
        Some(input.skip(piece.len() as int))
    } else {
        None
    }
}

/// A text that starts with a piece has behind it what was joined to it.
pub proof fn lemma_strip_joined(piece: Seq<u8>, rest: Seq<u8>)
    ensures
        strip(piece + rest, piece) == Some(rest),
{
    assert((piece + rest).skip(piece.len() as int) =~= rest);
    assert((piece + rest).subrange(0, piece.len() as int) =~= piece);
}

/// A text that was stripped of a piece is that piece and what was left.
pub proof fn lemma_strip_joins_back(input: Seq<u8>, piece: Seq<u8>)
    requires
        strip(input, piece) is Some,
    ensures
        input == piece + strip(input, piece)->0,
{
    assert(input =~= piece + input.skip(piece.len() as int));
}

/// Two pieces that differ at one place are never both at the start of one
/// text.
pub proof fn lemma_strip_differs(input: Seq<u8>, one: Seq<u8>, other: Seq<u8>, at: int)
    requires
        0 <= at < one.len(),
        0 <= at < other.len(),
        one[at] != other[at],
        strip(input, one) is Some,
    ensures
        strip(input, other) is None,
{
    if other.is_prefix_of(input) {
        assert(input[at] == one[at]);
        assert(input[at] == other[at]);
    }
}

/// The bytes of a text without characters beyond ASCII are its characters,
/// one byte each.
pub proof fn lemma_ascii_bytes(chars: Seq<char>)
    requires
        is_ascii_chars(chars),
    ensures
        encode_utf8(chars).len() == chars.len(),
        forall|i: int| 0 <= i < chars.len() ==> (#[trigger] encode_utf8(chars)[i]) == chars[i] as u8,
{
    vstd::utf8::is_ascii_chars_encode_utf8(chars);
}

/// A text that begins with an ASCII character begins with that character's
/// byte.
pub proof fn lemma_first_byte(chars: Seq<char>)
    requires
        chars.len() > 0,
        '\0' <= chars[0] <= '\u{7f}',
    ensures
        encode_utf8(chars).len() > 0,
        encode_utf8(chars)[0] == chars[0] as u8,
{
    let scalar = chars[0] as u32;
    assert(scalar <= 0x7f);
    assert((scalar & 0x7F) as u8 == scalar as u8) by (bit_vector)
        requires
            scalar <= 0x7f,
    ;
    assert(vstd::utf8::has_width_1_encoding(scalar));
    let head = vstd::utf8::encode_scalar(scalar);
    assert(head == seq![vstd::utf8::leading_byte_width_1(scalar)]);
    assert(head.len() == 1);
    assert(encode_utf8(chars) == head + encode_utf8(chars.drop_first()));
    assert(encode_utf8(chars)[0] == head[0]);
}

/// No character takes more than four bytes.
pub proof fn lemma_utf8_length(chars: Seq<char>)
    ensures
        encode_utf8(chars).len() <= 4 * chars.len(),
    decreases chars.len(),
{
    if chars.len() > 0 {
        lemma_utf8_length(chars.drop_first());
    }
}

/// Appends the bytes of `text` to `out`.
pub fn put_text(out: &mut Vec<u8>, text: &str)
    ensures
        final(out)@ == old(out)@ + encode_utf8(text@),
{
    let piece = text.as_bytes();
    let ghost before = out@;
    let n: usize = piece.len();
    let mut i: usize = 0;
    while i < n
        invariant
            i <= n,
            n == piece@.len(),
            out@ == before + piece@.take(i as int),
        decreases n - i,
    {
        out.push(piece[i]);
        i = i + 1;
        assert(out@ =~= before + piece@.take(i as int));
    }
    assert(piece@.take(n as int) =~= piece@);
}

/// Looks for `text` in `input` at `pos`. Where it stands there, the answer
/// is the place behind it.
pub fn text_at(input: &[u8], pos: usize, text: &str) -> (next: Option<usize>)
    requires
        pos <= input@.len(),
    ensures
        match next {
            Some(end) => end == pos + encode_utf8(text@).len() && end <= input@.len() && strip(
                input@.skip(pos as int),
                encode_utf8(text@),
            ) == Some(input@.skip(end as int)),
            None => strip(input@.skip(pos as int), encode_utf8(text@)) is None,
        },
{
    let piece = text.as_bytes();
    let n: usize = piece.len();
    if input.len() - pos < n {
        return None;
    }
    let mut i: usize = 0;
    while i < n
        invariant
            i <= n,
            n == piece@.len(),
            pos + n <= input@.len(),
            input@.len() <= usize::MAX,
            piece@ == encode_utf8(text@),
            forall|k: int| 0 <= k < i ==> input@[pos + k] == piece@[k],
        decreases n - i,
    {
        if input[pos + i] != piece[i] {
            assert(input@.skip(pos as int)[i as int] != piece@[i as int]);
            return None;
        }
        i = i + 1;
    }
    assert(input@.skip(pos as int).subrange(0, n as int) =~= piece@);
    assert(input@.skip(pos as int).skip(n as int) =~= input@.skip(pos + n));
    Some(pos + n)
}

} // verus!
