//! Text building blocks: decoding captured bytes, and the views of lists of
//! strings.

use vstd::prelude::*;

verus! {

/// `String::push` of the standard library appends exactly one character to the
/// end of the string and leaves what was there before unchanged.
pub assume_specification[ String::push ](s: &mut String, ch: char)
    ensures
        final(s)@ == old(s)@.push(ch),
;

/// The views of a sequence of strings, in order.
pub open spec fn texts(strings: Seq<String>) -> Seq<Seq<char>> {
    Seq::new(strings.len(), |i: int| strings[i]@)
}

/// The text that stands for captured bytes: one character per byte, the
/// character's code point being the byte's value.
pub open spec fn ascii_text(bytes: Seq<u8>) -> Seq<char> {
    Seq::new(bytes.len(), |i: int| bytes[i] as char)
}

/// Decodes captured output byte by byte. Every byte value is accepted, so the
/// decoding cannot fail; bytes above 127 come out as the Latin-1 character of
/// the same number rather than as part of a multi-byte sequence.
pub fn ascii_bytes_to_string(bytes: Vec<u8>) -> (result: String)
    ensures
        result@ == ascii_text(bytes@),
        result@.len() == bytes@.len(),
        forall|i: int| 0 <= i < bytes@.len() ==> result@[i] as u32 == bytes@[i] as u32,
{
    let mut result = String::new();
    let mut i: usize = 0;
    while i < bytes.len()
        invariant
            i <= bytes.len(),
            result@ == ascii_text(bytes@.subrange(0, i as int)),
        decreases bytes.len() - i,
    {
        let byte: u8 = bytes[i];
        result.push(byte as char);
        i += 1;
        assert(result@ =~= ascii_text(bytes@.subrange(0, i as int)));
    }
    assert(bytes@.subrange(0, i as int) =~= bytes@);
    result
}

} // verus!
