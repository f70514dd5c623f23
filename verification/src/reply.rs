//! Replies to a text, and what to show when there is no reply.

use vstd::prelude::*;
use vstd::utf8::{char_u32_cast, encode_scalar, encode_utf8};

verus! {

/// What a text must start with to get a reply.
pub open spec fn cue() -> Seq<char> {
    "me"@
}

/// What every reply starts with.
pub open spec fn opening() -> Seq<char> {
    "you said "@
}

/// A character below 0x80 is encoded by the one byte with its number, and
/// the encoding of any other character starts with a byte from 0x80 up.
proof fn lemma_first_byte(c: char)
    ensures
        c as u32 <= 0x7f ==> encode_scalar(c as u32).len() == 1 && encode_scalar(c as u32)[0]
            == c as u32,
        c as u32 > 0x7f ==> encode_scalar(c as u32).len() >= 1 && encode_scalar(c as u32)[0]
            >= 0x80,
{
    let s = c as u32;
    assert(s <= 0x7f ==> ((s & 0x7f) as u8) as u32 == s) by (bit_vector);
    assert((0xC0 | ((s >> 6) & 0x1F) as u8) >= 0x80) by (bit_vector);
    assert((0xE0 | ((s >> 12) & 0x0F) as u8) >= 0x80) by (bit_vector);
    assert((0xF0 | ((s >> 18) & 0x7) as u8) >= 0x80) by (bit_vector);
}

/// An encoding starts with a byte below 0x80 just where the text starts with
/// the character of that number; the rest of the text is encoded behind it.
proof fn lemma_plain_head(text: Seq<char>, byte: u8)
    requires
        byte <= 0x7f,
    ensures
        (text.len() >= 1 && text[0] as u32 == byte) <==> (encode_utf8(text).len() >= 1
            && encode_utf8(text)[0] == byte),
        text.len() >= 1 && text[0] as u32 == byte ==> encode_utf8(text) == seq![byte]
            + encode_utf8(text.drop_first()),
{
    if text.len() >= 1 {
        lemma_first_byte(text[0]);
        let head = encode_scalar(text[0] as u32);
        assert(encode_utf8(text)[0] == head[0]);
        if text[0] as u32 == byte {
            assert(head =~= seq![byte]);
        }
    }
}

/// A text starts with the cue just where its UTF-8 encoding starts with the
/// bytes 0x6d and 0x65.
proof fn lemma_cue_in_bytes(text: Seq<char>)
    ensures
        cue().is_prefix_of(text) <==> encode_utf8(text).len() >= 2 && encode_utf8(text)[0] == 0x6d
            && encode_utf8(text)[1] == 0x65,
{
    reveal_strlit("me");
    char_u32_cast('m', 0x6d);
    char_u32_cast('e', 0x65);
    lemma_plain_head(text, 0x6d);
    if text.len() >= 1 {
        char_u32_cast(text[0], text[0] as u32);
        lemma_plain_head(text.drop_first(), 0x65);
    }
    if text.len() >= 2 {
        char_u32_cast(text[1], text[1] as u32);
    }
    if cue().is_prefix_of(text) {
        assert(text[0] == cue()[0] && text[1] == cue()[1]);
    }
}

/// Replies to a text that starts with "me": the reply is "you said "
/// followed by the whole text. Any other text, the empty one too, gets none.
pub fn test(thing: &String) -> (res: Option<String>)
    ensures
        cue().is_prefix_of(thing@) ==> (res matches Some(said) && said@ == opening() + thing@),
        !cue().is_prefix_of(thing@) ==> res is None,
{
    let bytes = thing.as_str().as_bytes();
    proof {
        lemma_cue_in_bytes(thing@);
    }
    if bytes.len() >= 2 && bytes[0] == 0x6d && bytes[1] == 0x65 {
        Some(String::from_str("you said ").concat(thing.as_str()))
    } else {
        None
    }
}

/// Gives back the text that `res` holds, or `default` where it holds none.
pub fn quick_helper(res: Option<String>, default: String) -> (text: String)
    ensures
        res is None ==> text == default,
        (res matches Some(said) ==> text == said),
{
    res.unwrap_or(default)
}

} // verus!
