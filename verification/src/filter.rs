//! What happens to a typed character before it enters the buffer: an
//! optional pattern admits it or not, and an optional transform substitutes
//! the character that is stored.

use regex::Regex;
use vstd::prelude::*;

verus! {

/// A substitution applied to admitted characters.
#[derive(Clone, Copy, Debug, PartialEq, Eq, Structural)]
pub enum CharTransform {
    /// Every character is stored as the mask, as in a password field.
    Mask(char),
    /// One character is stored as another; the others are kept.
    Replace { from: char, to: char },
}

impl CharTransform {
    /// The character stored for `c`.
    pub open spec fn apply(self, c: char) -> char {
        match self {
            CharTransform::Mask(mask) => mask,
            CharTransform::Replace { from, to } => if c == from {
                to
            } else {
                c
            },
        }
    }

    /// The character stored for `c`.
    pub fn transform(&self, c: char) -> (r: char)
        ensures
            r == self.apply(c),
    {
        match self {
            CharTransform::Mask(mask) => *mask,
            CharTransform::Replace { from, to } => if c == *from {
                *to
            } else {
                c
            },
        }
    }
}

/// What the regular expression written as `pattern` says of the one-character
/// text `c`: `None` where `pattern` is not accepted as a regular expression,
/// otherwise whether it matches somewhere in that text.
pub uninterp spec fn regex_verdict(pattern: Seq<char>, c: char) -> Option<bool>;

/// Compiles `pattern` with `regex::Regex::new` and, where that succeeds, asks
/// `Regex::is_match` about the text made of `c` alone. Both depend on their
/// arguments only; the contract gives the outcome its name and claims no more.
#[verifier::external_body]
fn match_char(pattern: &str, c: char) -> (verdict: Option<bool>)
    ensures
        verdict == regex_verdict(pattern@, c),
{
    match Regex::new(pattern) {
        Ok(re) => Some(re.is_match(&c.to_string())),
        Err(_) => None,
    }
}

/// The pattern as text, where there is one.
pub open spec fn pattern_text(pattern: Option<String>) -> Option<Seq<char>> {
    match pattern {
        Some(p) => Some(p@),
        None => None,
    }
}

/// Whether `c` is admitted: always without a pattern, otherwise exactly when
/// the pattern is a regular expression that matches `c`.
pub open spec fn admitted(pattern: Option<Seq<char>>, c: char) -> bool {
    match pattern {
        Some(p) => regex_verdict(p, c) == Some(true),
        None => true,
    }
}

/// The character stored for an admitted `c`.
pub open spec fn transformed(transform: Option<CharTransform>, c: char) -> char {
    match transform {
        Some(t) => t.apply(c),
        None => c,
    }
}

/// The character that enters the buffer when `c` is typed. A character that
/// the pattern does not admit is not dropped: it is stored as it is, and only
/// the transform passes it by.
pub open spec fn processed(
    pattern: Option<Seq<char>>,
    transform: Option<CharTransform>,
    c: char,
) -> char {
    if admitted(pattern, c) {
        transformed(transform, c)
    } else {
        c
    }
}

/// The character stored for `c`, given whether the pattern admitted it.
pub fn apply_filter(c: char, is_admitted: bool, transform: Option<CharTransform>) -> (r: char)
    ensures
        r == if is_admitted {
            transformed(transform, c)
        } else {
            c
        },
{
    if is_admitted {
        match transform {
            Some(t) => t.transform(c),
            None => c,
        }
    } else {
        c
    }
}

/// Whether `pattern` admits `c`.
pub fn admits(pattern: &Option<String>, c: char) -> (b: bool)
    ensures
        b == admitted(pattern_text(*pattern), c),
{
    match pattern {
        Some(p) => {
            match match_char(p.as_str(), c) {
                Some(found) => found,
                None => false,
            }
        },
        None => true,
    }
}

} // verus!
