//! Text that is to cross to the host as a zero-terminated string.
//!
//! The host reads such a string up to its first zero byte, so a text can be
//! handed over only if its UTF-8 encoding holds no zero byte, that is, if the
//! text holds no NUL character.

use vstd::prelude::*;
use vstd::utf8::*;

verus! {

/// The text holds no NUL character.
pub open spec fn nul_free(text: Seq<char>) -> bool {
    !text.contains('\0')
}

/// The index of the first zero byte in the UTF-8 encoding of the text, if
/// there is one.
pub open spec fn nul_position(text: Seq<char>) -> Option<int> {
    encode_utf8(text).index_of_first(0u8)
}

/// Of the bytes that encode one scalar value, the only one that can be zero
/// is the single byte that encodes the value zero.
proof fn lemma_scalar_bytes(s: u32)
    by (bit_vector)
    requires
        is_scalar(s),
    ensures
        has_width_1_encoding(s) ==> (leading_byte_width_1(s) == 0 <==> s == 0),
        leading_byte_width_2(s) != 0,
        leading_byte_width_3(s) != 0,
        leading_byte_width_4(s) != 0,
        last_continuation_byte(s) != 0,
        second_last_continuation_byte(s) != 0,
        third_last_continuation_byte(s) != 0,
{
}

/// The encoding of a character holds a zero byte exactly if the character is NUL.
pub proof fn lemma_char_encoding(c: char)
    ensures
        encode_scalar(c as u32).contains(0u8) <==> c == '\0',
        encode_scalar(c as u32).len() >= 1,
{
    let s = c as u32;
    let bytes = encode_scalar(s);
    char_is_scalar(c);
    lemma_scalar_bytes(s);
    if c == '\0' {
        assert(bytes[0] == 0u8);
    } else {
        assert(s != 0) by {
            char_u32_cast(c, s);
        }
        assert(forall|i: int| 0 <= i < bytes.len() ==> bytes[i] != 0u8);
    }
}

/// The encoding of a text holds a zero byte exactly if the text holds a NUL
/// character.
pub proof fn lemma_nul_free_encoding(text: Seq<char>)
    ensures
        nul_free(text) <==> !encode_utf8(text).contains(0u8),
    decreases text.len(),
{
    if text.len() > 0 {
        let head = encode_scalar(text[0] as u32);
        let rest = text.drop_first();
        let tail = encode_utf8(rest);
        lemma_char_encoding(text[0]);
        lemma_nul_free_encoding(rest);
        assert(encode_utf8(text) == head + tail);
        if text.contains('\0') {
            let i = choose|i: int| 0 <= i < text.len() && text[i] == '\0';
            if i == 0 {
                let k = choose|k: int| 0 <= k < head.len() && head[k] == 0u8;
                assert((head + tail)[k] == 0u8);
            } else {
                assert(rest[i - 1] == '\0');
                let k = choose|k: int| 0 <= k < tail.len() && tail[k] == 0u8;
                assert((head + tail)[head.len() + k] == 0u8);
            }
        }
        if (head + tail).contains(0u8) {
            let k = choose|k: int| 0 <= k < (head + tail).len() && (head + tail)[k] == 0u8;
            if k < head.len() {
                assert(head[k] == 0u8);
                assert(text[0] == '\0');
            } else {
                assert(tail[k - head.len()] == 0u8);
                let i = choose|i: int| 0 <= i < rest.len() && rest[i] == '\0';
                assert(text[i + 1] == '\0');
            }
        }
    }
}

/// A text has a NUL position exactly if it holds a NUL character.
pub proof fn lemma_nul_position(text: Seq<char>)
    ensures
        nul_position(text) is None <==> nul_free(text),
        nul_position(text) matches Some(at) ==> 0 <= at < encode_utf8(text).len(),
{
    lemma_nul_free_encoding(text);
    encode_utf8(text).index_of_first_ensures(0u8);
}

/// Finds the first zero byte.
pub fn find_zero(bytes: &[u8]) -> (r: Option<usize>)
    ensures
        match r {
            Some(at) => bytes@.index_of_first(0u8) == Some(at as int),
            None => bytes@.index_of_first(0u8) is None,
        },
{
    let mut i: usize = 0;
    while i < bytes.len()
        invariant
            i <= bytes.len(),
            forall|j: int| 0 <= j < i ==> bytes@[j] != 0u8,
        decreases bytes.len() - i,
    {
        if bytes[i] == 0 {
            proof {
                bytes@.index_of_first_ensures(0u8);
            }
            return Some(i);
        }
        i += 1;
    }
    proof {
        bytes@.index_of_first_ensures(0u8);
    }
    None
}

/// Finds the first NUL of a text, as an index into its UTF-8 encoding.
/// `None` says that the text can be handed over as a zero-terminated string.
pub fn find_nul(text: &str) -> (r: Option<usize>)
    ensures
        match r {
            Some(at) => nul_position(text@) == Some(at as int),
            None => nul_position(text@) is None,
        },
        r is None <==> nul_free(text@),
{
    proof {
        lemma_nul_position(text@);
    }
    find_zero(text.as_bytes())
}

} // verus!
