//! The character source of the tokenizer: the UTF-8 decoder of the `rustf8`
//! crate over a buffer of bytes. Nothing in this file is proved; each item says
//! what it takes from `rustf8` on trust.

use rustf8::Utf8Iterator;
use rustf8::Utf8IteratorError;
use std::vec::IntoIter;
use vstd::prelude::*;

verus! {

/// The decoder of `rustf8`, opaque to the verifier.
#[verifier::external_type_specification]
#[verifier::external_body]
#[verifier::reject_recursive_types(R)]
pub struct ExUtf8Iterator<R: Iterator>(Utf8Iterator<R>);

/// The error that the decoder of `rustf8` yields for a malformed sequence,
/// opaque to the verifier.
#[verifier::external_type_specification]
#[verifier::external_body]
pub struct ExUtf8IteratorError(Utf8IteratorError);

/// The error type of the bytes that the decoder reads, opaque to the verifier.
/// A buffer in memory never yields one.
#[verifier::external_type_specification]
#[verifier::external_body]
pub struct ExIoError(std::io::Error);

/// The decoder over a buffer of bytes.
pub type CharSource = Utf8Iterator<IntoIter<Result<u8, std::io::Error>>>;

/// What the decoder makes of a buffer of bytes: the items that it yields one
/// after the other, a character for each well-formed sequence and `None` for
/// each malformed one.
pub uninterp spec fn decoded(bytes: Seq<u8>) -> Seq<Option<char>>;

/// The items that the decoder has yet to yield.
pub uninterp spec fn pending(source: CharSource) -> Seq<Option<char>>;

/// Whether a character was handed back to the decoder and not yet yielded
/// again.
pub uninterp spec fn handed_back(source: CharSource) -> bool;

/// Calls `Utf8Iterator::new` on the bytes of the buffer. The decoder reads
/// nothing until it is asked for an item; what it will yield is a function of
/// the bytes alone, and no character has been handed back to it.
#[verifier::external_body]
pub(crate) fn decode(bytes: Vec<u8>) -> (source: CharSource)
    ensures
        pending(source) == decoded(bytes@),
        !handed_back(source),
{
    let items: Vec<Result<u8, std::io::Error>> = bytes.into_iter().map(Ok).collect();
    Utf8Iterator::new(items.into_iter())
}

/// Calls `Utf8Iterator::next`. It yields the first of the pending items, a
/// character handed back before any other, and an error for a malformed
/// sequence; at the end of the input it yields nothing, however often it is
/// asked. After the call no character is handed back.
#[verifier::external_body]
pub(crate) fn next_char(source: &mut CharSource) -> (item: Option<Result<char, Utf8IteratorError>>)
    ensures
        !handed_back(*final(source)),
        pending(*old(source)).len() == 0 ==> item is None && pending(*final(source)).len() == 0,
        pending(*old(source)).len() > 0 ==> pending(*final(source)) == pending(
            *old(source),
        ).drop_first() && match pending(*old(source))[0] {
            Some(c) => item == Some(Ok::<char, Utf8IteratorError>(c)),
            None => item matches Some(Err(_)),
        },
{
    source.next()
}

/// Calls `Utf8Iterator::unget`, which makes the character the next item that
/// the decoder yields. It panics where a character handed back earlier has not
/// been yielded yet: the precondition leaves that out.
#[verifier::external_body]
pub(crate) fn unget_char(source: &mut CharSource, ch: char)
    requires
        !handed_back(*old(source)),
    ensures
        handed_back(*final(source)),
        pending(*final(source)) == seq![Some(ch)] + pending(*old(source)),
{
    source.unget(ch)
}

} // verus!
