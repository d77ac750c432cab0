//! Operations on a text as a vector of characters: taking a piece out,
//! copying a piece, putting a piece in.

use vstd::prelude::*;

verus! {

/// A copy of the characters of `text` from `start` up to, not including,
/// `end`.
pub fn copy_range(text: &Vec<char>, start: usize, end: usize) -> (piece: Vec<char>)
    requires
        start <= end <= text@.len(),
    ensures
        piece@ == text@.subrange(start as int, end as int),
{
    let mut piece: Vec<char> = Vec::new();
    let mut at: usize = start;
    while at < end
        invariant
            start <= at <= end <= text@.len(),
            piece@ == text@.subrange(start as int, at as int),
        decreases end - at,
    {
        piece.push(text[at]);
        at = at + 1;
    }
    piece
}

/// Takes the characters from `start` up to, not including, `end` out of
/// `text`.
pub fn remove_range(text: &mut Vec<char>, start: usize, end: usize)
    requires
        start <= end <= old(text)@.len(),
    ensures
        final(text)@ == old(text)@.subrange(0, start as int) + old(text)@.subrange(
            end as int,
            old(text)@.len() as int,
        ),
{
    let ghost before = text@;
    let mut gone: usize = 0;
    while gone < end - start
        invariant
            start <= end <= before.len(),
            gone <= end - start,
            text@ == before.subrange(0, start as int) + before.subrange(
                start + gone,
                before.len() as int,
            ),
        decreases end - start - gone,
    {
        text.remove(start);
        gone = gone + 1;
    }
}

/// Puts the first `count` characters of `piece` into `text`, before the
/// character at `at`.
pub fn insert_range(text: &mut Vec<char>, at: usize, piece: &Vec<char>, count: usize)
    requires
        at <= old(text)@.len(),
        count <= piece@.len(),
        old(text)@.len() + count <= usize::MAX,
    ensures
        final(text)@ == old(text)@.subrange(0, at as int) + piece@.subrange(0, count as int) + old(
            text,
        )@.subrange(at as int, old(text)@.len() as int),
{
    let ghost before = text@;
    let mut done: usize = 0;
    while done < count
        invariant
            done <= count <= piece@.len(),
            at <= before.len(),
            before.len() + count <= usize::MAX,
            text@ == before.subrange(0, at as int) + piece@.subrange(0, done as int)
                + before.subrange(at as int, before.len() as int),
        decreases count - done,
    {
        text.insert(at + done, piece[done]);
        done = done + 1;
    }
}

} // verus!
