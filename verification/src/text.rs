//! Views of optional texts and of lists of texts.
use vstd::prelude::*;
use vstd::utf8::*;

verus! {

/// The characters of an optional text.
pub open spec fn opt_text(text: Option<String>) -> Option<Seq<char>> {
    match text {
        Some(t) => Some(t@),
        None => None,
    }
}

/// The characters of each text of a list.
pub open spec fn texts(list: Seq<String>) -> Seq<Seq<char>> {
    list.map_values(|t: String| t@)
}

/// The words of a result that was unwrapped and held an error.
pub open spec fn unwrap_message(error: Seq<char>) -> Seq<char> {
    "called `Result::unwrap()` on an `Err` value: "@ + error
}

/// The characters of a text, one by one.
pub fn chars_of(text: &str) -> (chars: Vec<char>)
    ensures
        chars@ == text@,
{
    let mut chars: Vec<char> = Vec::new();
    for c in it: text.chars()
        invariant
            it.seq() == text@,
            chars@ == text@.take(it.index()),
    {
        chars.push(c);
    }
    assert(text@.take(text@.len() as int) =~= text@);
    chars
}

/// The bytes of a text that was put together are the bytes of its parts.
pub proof fn lemma_encode_concat(a: Seq<char>, b: Seq<char>)
    ensures
        encode_utf8(a + b) == encode_utf8(a) + encode_utf8(b),
    decreases a.len(),
{
    if a.len() == 0 {
        assert(a + b =~= b);
        assert(encode_utf8(a) =~= Seq::<u8>::empty());
        assert(encode_utf8(a) + encode_utf8(b) =~= encode_utf8(b));
    } else {
        assert((a + b).drop_first() =~= a.drop_first() + b);
        lemma_encode_concat(a.drop_first(), b);
        assert(encode_utf8(a + b) =~= encode_utf8(a) + encode_utf8(b));
    }
}

/// The encoding of any character but `/` holds no byte `/`.
proof fn lemma_encode_scalar_without_slash(scalar: u32)
    requires
        is_scalar(scalar),
        scalar != 0x2f,
    ensures
        !encode_scalar(scalar).contains(0x2fu8),
{
    let bytes = encode_scalar(scalar);
    assert forall|i: int| 0 <= i < bytes.len() implies bytes[i] != 0x2fu8 by {
        assert(scalar <= 0x7f && scalar != 0x2f ==> (scalar & 0x7F) as u8 != 0x2fu8)
            by (bit_vector);
        assert((0xC0u8 | ((scalar >> 6) & 0x1F) as u8) != 0x2fu8) by (bit_vector);
        assert((0xE0u8 | ((scalar >> 12) & 0x0F) as u8) != 0x2fu8) by (bit_vector);
        assert((0xF0u8 | ((scalar >> 18) & 0x07) as u8) != 0x2fu8) by (bit_vector);
        assert((0x80u8 | (scalar & 0x3F) as u8) != 0x2fu8) by (bit_vector);
        assert((0x80u8 | ((scalar >> 6) & 0x3F) as u8) != 0x2fu8) by (bit_vector);
        assert((0x80u8 | ((scalar >> 12) & 0x3F) as u8) != 0x2fu8) by (bit_vector);
    }
}

/// A text without `/` has bytes without `/`.
pub proof fn lemma_encode_without_slash(s: Seq<char>)
    requires
        !s.contains('/'),
    ensures
        !encode_utf8(s).contains(0x2fu8),
    decreases s.len(),
{
    if s.len() > 0 {
        assert(s.contains(s[0]));
        char_is_scalar(s[0]);
        char_u32_cast(s[0], s[0] as u32);
        lemma_encode_scalar_without_slash(s[0] as u32);
        assert forall|i: int| 0 <= i < s.drop_first().len() implies s.drop_first()[i] != '/' by {
            assert(s.contains(s[i + 1]));
        }
        lemma_encode_without_slash(s.drop_first());
        let head = encode_scalar(s[0] as u32);
        let tail = encode_utf8(s.drop_first());
        assert forall|i: int| 0 <= i < (head + tail).len() implies (head + tail)[i] != 0x2fu8 by {
            if i < head.len() {
                assert(head.contains(head[i]));
            } else {
                assert(tail.contains(tail[i - head.len()]));
            }
        }
    }
}

/// The view of an optional text is there exactly if the text is, and holds its
/// characters. The view of a list has the characters of each text in its place.
pub proof fn law_views_hold_the_texts(text: Option<String>, list: Seq<String>, i: int)
    requires
        0 <= i < list.len(),
    ensures
        text is None ==> opt_text(text) is None,
        text matches Some(t) ==> opt_text(text) == Some(t@),
        texts(list).len() == list.len(),
        texts(list)[i] == list[i]@,
{
}

/// What is said of an unwrapped error ends with the error.
pub proof fn law_unwrapped_error_is_quoted(error: Seq<char>)
    ensures
        ({
            let said = unwrap_message(error);
            let words = said.len() - error.len();
            &&& said.take(words) == "called `Result::unwrap()` on an `Err` value: "@
            &&& said.skip(words) == error
        }),
{
    let said = unwrap_message(error);
    let words = said.len() - error.len();
    assert(said.take(words) =~= "called `Result::unwrap()` on an `Err` value: "@);
    assert(said.skip(words) =~= error);
}

} // verus!
