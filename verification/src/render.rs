//! The frame that a text is shown in: a speech bubble with the mascot below.

use vstd::prelude::*;

verus! {

/// The bytes that `ferris_says::say` writes for a message and a greatest
/// line width: the bubble round the wrapped message, then the mascot.
pub uninterp spec fn ferris_frame(message: Seq<char>, width: nat) -> Seq<u8>;

/// `ferris_says::say`, writing into a byte vector: what comes back is what
/// it wrote for this message and width. It builds the whole picture in a
/// buffer of its own and hands it to the writer in one piece; a vector takes
/// whatever is written to it, so the call has no error to report.
#[verifier::external_body]
fn say_to_bytes(message: &str, width: usize) -> (frame: Vec<u8>)
    ensures
        frame@ == ferris_frame(message@, width as nat),
{
    let mut frame: Vec<u8> = Vec::new();
    ferris_says::say(message, width, &mut frame).unwrap();
    frame
}

/// Frames a message, with lines as wide as the message has characters.
pub fn ferris_say(message: String) -> (frame: Vec<u8>)
    ensures
        frame@ == ferris_frame(message@, message@.len()),
{
    let width = message.as_str().unicode_len();
    say_to_bytes(message.as_str(), width)
}

} // verus!
