//! Text on its way to and from the detection engine.
//!
//! The engine takes a file name as a nul-terminated byte string and answers
//! with nul-terminated byte strings in a buffer of its own, which the next
//! call on the same instance may overwrite. This module builds the former and
//! copies the latter into owned `String`s.

use std::borrow::Cow;
use vstd::prelude::*;
use vstd::utf8::{decode_utf8, valid_utf8};

verus! {

/// Whether a nul byte occurs anywhere in `text`.
pub open spec fn has_nul(text: Seq<u8>) -> bool {
    exists|i: int| 0 <= i < text.len() && text[i] == 0u8
}

/// What a reader of nul-terminated strings finds in `bytes`: the bytes before
/// the first nul, or all of them if there is none.
pub open spec fn before_nul(bytes: Seq<u8>) -> Seq<u8>
    decreases bytes.len(),
{
    if bytes.len() == 0 || bytes[0] == 0u8 {
        Seq::empty()
    } else {
        seq![bytes[0]] + before_nul(bytes.drop_first())
    }
}

/// The characters that lossy UTF-8 decoding, as `String::from_utf8_lossy` does
/// it, makes of `bytes`.
pub uninterp spec fn lossy_utf8(bytes: Seq<u8>) -> Seq<char>;

/// The text that a byte string of the engine stands for: the characters it
/// encodes where it is valid UTF-8, else what lossy decoding makes of it.
pub open spec fn decoded(bytes: Seq<u8>) -> Seq<char> {
    if valid_utf8(bytes) {
        decode_utf8(bytes)
    } else {
        lossy_utf8(bytes)
    }
}

/// The text of an answer of the engine, where it gave one.
pub open spec fn text_of(reply: Option<&[u8]>) -> Option<Seq<char>> {
    match reply {
        Some(bytes) => Some(decoded(bytes@)),
        None => None,
    }
}

/// What `String::from_utf8_lossy` returns is a function of the bytes alone and
/// goes by the name `lossy_utf8`. One thing more is claimed of it: bytes that
/// are valid UTF-8 come out as the characters they encode. What becomes of an
/// invalid sequence (std puts U+FFFD in its place) is left to the name.
pub assume_specification<'a>[ std::string::String::from_utf8_lossy ](v: &'a [u8]) -> (cow: Cow<'a, str>)
    ensures
        cow@ == lossy_utf8(v@),
        valid_utf8(v@) ==> cow@ == decode_utf8(v@),
;

/// Copies `text` into a nul-terminated byte string, the form in which the
/// engine takes a file name. No such string exists for a text that holds a
/// nul byte itself.
pub fn c_string(text: &[u8]) -> (r: Option<Vec<u8>>)
    ensures
        r is None <==> has_nul(text@),
        r matches Some(c) ==> c@ == text@.push(0u8) && before_nul(c@) == text@,
{
    let mut out: Vec<u8> = Vec::new();
    let mut i: usize = 0;
    while i < text.len()
        invariant
            i <= text.len(),
            out@ == text@.subrange(0, i as int),
            forall|j: int| 0 <= j < i ==> text@[j] != 0u8,
        decreases text.len() - i,
    {
        let byte: u8 = text[i];
        if byte == 0 {
            return None;
        }
        out.push(byte);
        i += 1;
    }
    assert(text@.subrange(0, i as int) == text@);
    proof {
        lemma_terminated_reads_back(text@);
    }
    out.push(0);
    Some(out)
}

/// Copies an answer of the engine out of the engine's buffer: nothing where
/// the engine gave a null pointer, else the bytes before the terminating nul
/// as text.
pub fn decode(reply: Option<&[u8]>) -> (r: Option<String>)
    ensures
        r.deep_view() == text_of(reply),
{
    match reply {
        None => None,
        Some(bytes) => Some(
            match String::from_utf8_lossy(bytes) {
                Cow::Borrowed(valid) => valid.to_owned(),
                Cow::Owned(replaced) => replaced,
            },
        ),
    }
}

/// A text without a nul byte, once terminated by one, reads back as it was.
pub proof fn lemma_terminated_reads_back(text: Seq<u8>)
    requires
        !has_nul(text),
    ensures
        before_nul(text.push(0u8)) == text,
    decreases text.len(),
{
    if text.len() > 0 {
        assert(text[0] != 0u8);
        let rest = text.drop_first();
        assert(!has_nul(rest)) by {
            if has_nul(rest) {
                let i = choose|i: int| 0 <= i < rest.len() && rest[i] == 0u8;
                assert(text[i + 1] == 0u8);
            }
        }
        lemma_terminated_reads_back(rest);
        assert(text.push(0u8).drop_first() == rest.push(0u8));
        assert(seq![text[0]] + rest == text);
    }
}

/// A text with a nul byte at `i` reads back no further than `i`, terminated
/// or not: the engine would be handed another name than the caller gave.
pub proof fn lemma_nul_cuts_short(text: Seq<u8>, i: int)
    requires
        0 <= i < text.len(),
        text[i] == 0u8,
    ensures
        before_nul(text).len() <= i,
        before_nul(text.push(0u8)).len() <= i,
    decreases i,
{
    if text[0] != 0u8 {
        let rest = text.drop_first();
        lemma_nul_cuts_short(rest, i - 1);
        assert(text.push(0u8).drop_first() == rest.push(0u8));
    }
}

} // verus!
