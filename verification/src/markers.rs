//! Finding what is left to do in the text of an exercise: a skeleton marks
//! every part that the learner has to write with the same five characters.

use vstd::prelude::*;
use vstd::string::StringSliceAdditionalSpecFns;

verus! {

/// The marker, as the bytes of its five characters: `t`, `o`, `d`, `o`, `!`.
pub open spec fn marker() -> Seq<u8> {
    seq![116u8, 111u8, 100u8, 111u8, 33u8]
}

/// Whether the marker stands in `text` at position `at`.
pub open spec fn marker_at(text: Seq<u8>, at: int) -> bool {
    &&& 0 <= at
    &&& at + 5 <= text.len()
    &&& text[at] == 116
    &&& text[at + 1] == 111
    &&& text[at + 2] == 100
    &&& text[at + 3] == 111
    &&& text[at + 4] == 33
}

/// The number of positions before `upto` at which the marker stands in
/// `text`. No two of them overlap, since the marker starts with a character
/// that occurs nowhere else in it.
pub open spec fn marker_count(text: Seq<u8>, upto: int) -> nat
    decreases upto,
{
    if upto <= 0 {
        0
    } else {
        marker_count(text, upto - 1) + if marker_at(text, upto - 1) {
            1nat
        } else {
            0nat
        }
    }
}

/// Counts the markers in the bytes of a text.
pub fn count_markers_in(text: &[u8]) -> (count: usize)
    ensures
        count == marker_count(text@, text@.len() as int),
{
    let mut count: usize = 0;
    let mut i: usize = 0;
    while i < text.len()
        invariant
            i <= text.len(),
            count == marker_count(text@, i as int),
            count <= i,
        decreases text.len() - i,
    {
        if text.len() - i >= 5 && text[i] == 116 && text[i + 1] == 111 && text[i + 2] == 100 && text[i
            + 3] == 111 && text[i + 4] == 33 {
            count = count + 1;
        }
        i = i + 1;
    }
    count
}

/// Counts the markers in a text: the parts of an exercise that are still to
/// be written. An exercise is finished when there is none.
pub fn count_markers(text: &str) -> (count: usize)
    ensures
        count == marker_count(text.spec_bytes(), text.spec_bytes().len() as int),
{
    count_markers_in(text.as_bytes())
}

} // verus!
