//! Words: which characters separate them, and where a jump by a word takes
//! the cursor.

use vstd::prelude::*;

verus! {

/// Whether `c` separates words: whether Unicode classes it as white space
/// (`White_Space`).
pub open spec fn is_space(c: char) -> bool {
    let code = c as int;
    ||| 0x09 <= code <= 0x0d
    ||| code == 0x20
    ||| code == 0x85
    ||| code == 0xa0
    ||| code == 0x1680
    ||| 0x2000 <= code <= 0x200a
    ||| code == 0x2028
    ||| code == 0x2029
    ||| code == 0x202f
    ||| code == 0x205f
    ||| code == 0x3000
}

/// Where a jump to the left from `cursor` lands: behind the nearest white
/// space left of the character before the cursor, or at the start where
/// there is none. The character just before the cursor is passed over.
pub open spec fn word_start(s: Seq<char>, cursor: int) -> int
    decreases cursor,
{
    if cursor <= 1 {
        0
    } else if cursor - 2 < s.len() && is_space(s[cursor - 2]) {
        cursor - 1
    } else {
        word_start(s, cursor - 1)
    }
}

/// Where a jump to the right from `cursor` lands: at the nearest white space
/// right of the character at the cursor, or at the end where there is none.
/// The character at the cursor is passed over.
pub open spec fn word_end(s: Seq<char>, cursor: int) -> int
    decreases s.len() - cursor,
{
    if cursor < 0 || cursor + 1 >= s.len() {
        s.len() as int
    } else if is_space(s[cursor + 1]) {
        cursor + 1
    } else {
        word_end(s, cursor + 1)
    }
}

/// What `word_start` is: a position left of the cursor, at the start of the
/// text or behind white space, with no white space from there to the
/// character before the one at which the jump began.
pub proof fn lemma_word_start(s: Seq<char>, cursor: int)
    requires
        0 <= cursor <= s.len(),
    ensures
        0 <= word_start(s, cursor) <= cursor,
        cursor > 0 ==> word_start(s, cursor) < cursor,
        word_start(s, cursor) == 0 || is_space(s[word_start(s, cursor) - 1]),
        forall|i: int| word_start(s, cursor) <= i < cursor - 1 ==> !is_space(#[trigger] s[i]),
    decreases cursor,
{
    if cursor > 1 && !is_space(s[cursor - 2]) {
        lemma_word_start(s, cursor - 1);
    }
}

/// What `word_end` is: a position right of the cursor, at the end of the
/// text or at white space, with no white space between the character at
/// which the jump began and there.
pub proof fn lemma_word_end(s: Seq<char>, cursor: int)
    requires
        0 <= cursor <= s.len(),
    ensures
        cursor <= word_end(s, cursor) <= s.len(),
        cursor < s.len() ==> cursor < word_end(s, cursor),
        word_end(s, cursor) == s.len() || is_space(s[word_end(s, cursor)]),
        forall|i: int| cursor < i < word_end(s, cursor) ==> !is_space(#[trigger] s[i]),
    decreases s.len() - cursor,
{
    if cursor + 1 < s.len() && !is_space(s[cursor + 1]) {
        lemma_word_end(s, cursor + 1);
    }
}

/// Whether `c` separates words.
pub fn is_whitespace(c: char) -> (b: bool)
    ensures
        b == is_space(c),
{
    let code: u32 = c as u32;
    (0x09 <= code && code <= 0x0d) || code == 0x20 || code == 0x85 || code == 0xa0 || code
        == 0x1680 || (0x2000 <= code && code <= 0x200a) || code == 0x2028 || code == 0x2029
        || code == 0x202f || code == 0x205f || code == 0x3000
}

/// Where a jump to the left from `cursor` lands.
pub fn find_word_start(text: &Vec<char>, cursor: usize) -> (start: usize)
    requires
        cursor <= text@.len(),
    ensures
        start == word_start(text@, cursor as int),
        start <= cursor,
{
    let mut at: usize = cursor;
    while at > 1
        invariant
            at <= cursor <= text@.len(),
            word_start(text@, cursor as int) == word_start(text@, at as int),
        decreases at,
    {
        if is_whitespace(text[at - 2]) {
            return at - 1;
        }
        at = at - 1;
    }
    0
}

/// Where a jump to the right from `cursor` lands.
pub fn find_word_end(text: &Vec<char>, cursor: usize) -> (end: usize)
    requires
        cursor <= text@.len(),
    ensures
        end == word_end(text@, cursor as int),
        cursor <= end <= text@.len(),
{
    let len = text.len();
    let mut at: usize = cursor;
    while at < len && at + 1 < len
        invariant
            cursor <= at <= len,
            len == text@.len(),
            word_end(text@, cursor as int) == word_end(text@, at as int),
        decreases len - at,
    {
        if is_whitespace(text[at + 1]) {
            return at + 1;
        }
        at = at + 1;
    }
    len
}

} // verus!
