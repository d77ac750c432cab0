//! Glyph advances and the widths of runs of text.
//!
//! The host measures its font once and hands the library a table of
//! advances; every width the text field reasons about is a sum of them.

use vstd::prelude::*;

verus! {

/// Horizontal advance, in pixels, of every character.
///
/// `advances[i]` is the advance of the character with code point `i`;
/// a character beyond the table has the advance `fallback`.
#[derive(Debug)]
pub struct GlyphMetrics {
    pub advances: Vec<u32>,
    pub fallback: u32,
}

impl GlyphMetrics {
    /// Advance of `c`.
    pub open spec fn advance(&self, c: char) -> nat {
        if (c as int) < self.advances@.len() {
            self.advances@[c as int] as nat
        } else {
            self.fallback as nat
        }
    }

    /// Metrics of a font in which every character is `advance` pixels wide.
    pub fn fixed(advance: u32) -> (m: GlyphMetrics)
        ensures
            m.fallback == advance,
            m.advances@.len() == 0,
    {
        GlyphMetrics { advances: Vec::new(), fallback: advance }
    }

    /// Metrics from a table indexed by code point.
    pub fn from_table(advances: Vec<u32>, fallback: u32) -> (m: GlyphMetrics)
        ensures
            m.advances == advances,
            m.fallback == fallback,
    {
        GlyphMetrics { advances, fallback }
    }

    /// Advance of `c`.
    pub fn advance_of(&self, c: char) -> (w: u32)
        ensures
            w == self.advance(c),
    {
        let code: u32 = c as u32;
        let i: usize = code as usize;
        if i < self.advances.len() {
            self.advances[i]
        } else {
            self.fallback
        }
    }
}


impl GlyphMetrics {
    /// Width of the first `k` characters of `s`: the sum of their advances.
    pub open spec fn prefix_width(&self, s: Seq<char>, k: int) -> nat
        decreases k,
    {
        if k <= 0 {
            0
        } else if k <= s.len() {
            self.prefix_width(s, k - 1) + self.advance(s[k - 1])
        } else {
            self.prefix_width(s, k - 1)
        }
    }

    /// Width of the whole of `s`.
    pub open spec fn text_width(&self, s: Seq<char>) -> nat {
        self.prefix_width(s, s.len() as int)
    }

    /// Width of the characters of `s` from index `from` up to, not
    /// including, index `to`.
    pub open spec fn span_width(&self, s: Seq<char>, from: int, to: int) -> int {
        self.prefix_width(s, to) - self.prefix_width(s, from)
    }

    /// The largest boundary `b` in `from ..= hi` such that the characters
    /// from `from` to `b` are at most `limit` wide: where a run that starts
    /// at `from` and may not pass `hi` ends.
    pub open spec fn last_fit(&self, s: Seq<char>, from: int, hi: int, limit: int) -> int
        decreases hi - from,
    {
        if hi <= from {
            from
        } else if self.span_width(s, from, hi) <= limit {
            hi
        } else {
            self.last_fit(s, from, hi - 1, limit)
        }
    }

    /// The smallest boundary `a` in `lo ..= to` such that the characters
    /// from `a` to `to` are at most `limit` wide.
    pub open spec fn first_fit(&self, s: Seq<char>, lo: int, to: int, limit: int) -> int
        decreases to - lo,
    {
        if to <= lo {
            to
        } else if self.span_width(s, lo, to) <= limit {
            lo
        } else {
            self.first_fit(s, lo + 1, to, limit)
        }
    }

    /// Distance in pixels between `x` and the boundary `b`, both measured
    /// from the boundary `from`.
    pub open spec fn distance(&self, s: Seq<char>, from: int, b: int, x: int) -> int {
        let at = self.span_width(s, from, b);
        if x >= at {
            x - at
        } else {
            at - x
        }
    }

    /// The boundary in `from ..= hi` nearest to `x`; of several equally near,
    /// the leftmost.
    pub open spec fn nearest_boundary(&self, s: Seq<char>, from: int, hi: int, x: int) -> int
        decreases hi - from,
    {
        if hi <= from {
            from
        } else {
            let best = self.nearest_boundary(s, from, hi - 1, x);
            if self.distance(s, from, hi, x) < self.distance(s, from, best, x) {
                hi
            } else {
                best
            }
        }
    }

    /// A longer prefix is at least as wide.
    pub proof fn lemma_prefix_monotone(&self, s: Seq<char>, a: int, b: int)
        requires
            a <= b,
        ensures
            self.prefix_width(s, a) <= self.prefix_width(s, b),
        decreases b - a,
    {
        if a < b {
            self.lemma_prefix_monotone(s, a, b - 1);
        }
    }

    /// The width of a prefix depends on the characters of that prefix only.
    pub proof fn lemma_prefix_agrees(&self, s: Seq<char>, t: Seq<char>, k: int)
        requires
            k <= s.len(),
            k <= t.len(),
            forall|i: int| 0 <= i < k ==> s[i] == t[i],
        ensures
            self.prefix_width(s, k) == self.prefix_width(t, k),
        decreases k,
    {
        if k > 0 {
            self.lemma_prefix_agrees(s, t, k - 1);
        }
    }

    /// The width of a span is the width of that piece of text taken alone.
    pub proof fn lemma_span_is_text_width(&self, s: Seq<char>, from: int, to: int)
        requires
            0 <= from <= to <= s.len(),
        ensures
            self.span_width(s, from, to) == self.text_width(s.subrange(from, to)),
        decreases to - from,
    {
        let piece = s.subrange(from, to);
        if from < to {
            let shorter = s.subrange(from, to - 1);
            self.lemma_span_is_text_width(s, from, to - 1);
            self.lemma_prefix_agrees(piece, shorter, to - 1 - from);
            assert(piece[to - from - 1] == s[to - 1]);
        }
    }

    /// What `last_fit` is: a boundary of the range at which the run fits,
    /// beyond which it does not.
    pub proof fn lemma_last_fit(&self, s: Seq<char>, from: int, hi: int, limit: int)
        requires
            from <= hi,
            0 <= limit,
        ensures
            from <= self.last_fit(s, from, hi, limit) <= hi,
            self.span_width(s, from, self.last_fit(s, from, hi, limit)) <= limit,
            forall|b: int|
                self.last_fit(s, from, hi, limit) < b <= hi ==> self.span_width(s, from, b) > limit,
        decreases hi - from,
    {
        if hi > from && self.span_width(s, from, hi) > limit {
            self.lemma_last_fit(s, from, hi - 1, limit);
        }
    }

    /// A boundary at which the run fits, and which is the end of the range
    /// or has a successor at which the run does not fit, is `last_fit`.
    pub proof fn lemma_last_fit_is(&self, s: Seq<char>, from: int, hi: int, limit: int, b: int)
        requires
            from <= b <= hi,
            self.span_width(s, from, b) <= limit,
            b == hi || self.span_width(s, from, b + 1) > limit,
        ensures
            self.last_fit(s, from, hi, limit) == b,
        decreases hi - from,
    {
        if hi > from {
            if b < hi {
                self.lemma_prefix_monotone(s, b + 1, hi);
                self.lemma_last_fit_is(s, from, hi - 1, limit, b);
            }
        }
    }

    /// A run that fits ends no later than `last_fit`.
    pub proof fn lemma_fit_within_last(&self, s: Seq<char>, from: int, hi: int, limit: int, b: int)
        requires
            from <= b <= hi,
            0 <= limit,
        ensures
            self.span_width(s, from, b) <= limit <==> b <= self.last_fit(s, from, hi, limit),
    {
        self.lemma_last_fit(s, from, hi, limit);
        let end = self.last_fit(s, from, hi, limit);
        if b <= end {
            self.lemma_prefix_monotone(s, b, end);
        }
    }

    /// What `first_fit` is: a boundary of the range from which the run fits,
    /// before which it does not.
    pub proof fn lemma_first_fit(&self, s: Seq<char>, lo: int, to: int, limit: int)
        requires
            lo <= to,
            0 <= limit,
        ensures
            lo <= self.first_fit(s, lo, to, limit) <= to,
            self.span_width(s, self.first_fit(s, lo, to, limit), to) <= limit,
            forall|a: int|
                lo <= a < self.first_fit(s, lo, to, limit) ==> self.span_width(s, a, to) > limit,
        decreases to - lo,
    {
        if to > lo && self.span_width(s, lo, to) > limit {
            self.lemma_first_fit(s, lo + 1, to, limit);
        }
    }

    /// A boundary from which the run fits, and which is the start of the
    /// range or has a predecessor from which the run does not fit, is
    /// `first_fit`.
    pub proof fn lemma_first_fit_is(&self, s: Seq<char>, lo: int, to: int, limit: int, a: int)
        requires
            lo <= a <= to,
            self.span_width(s, a, to) <= limit,
            a == lo || self.span_width(s, a - 1, to) > limit,
        ensures
            self.first_fit(s, lo, to, limit) == a,
        decreases to - lo,
    {
        if to > lo {
            if lo < a {
                self.lemma_prefix_monotone(s, lo, a - 1);
                self.lemma_first_fit_is(s, lo + 1, to, limit, a);
            }
        }
    }

    /// What `nearest_boundary` is: a boundary of the range such that none is
    /// nearer to `x` and none to its left is as near.
    pub proof fn lemma_nearest_boundary(&self, s: Seq<char>, from: int, hi: int, x: int)
        requires
            from <= hi,
        ensures
            from <= self.nearest_boundary(s, from, hi, x) <= hi,
            forall|b: int|
                from <= b <= hi ==> self.distance(s, from, self.nearest_boundary(s, from, hi, x), x)
                    <= #[trigger] self.distance(s, from, b, x),
            forall|b: int|
                from <= b < self.nearest_boundary(s, from, hi, x) ==> self.distance(
                    s,
                    from,
                    self.nearest_boundary(s, from, hi, x),
                    x,
                ) < #[trigger] self.distance(s, from, b, x),
        decreases hi - from,
    {
        if hi > from {
            self.lemma_nearest_boundary(s, from, hi - 1, x);
        }
    }
}


impl GlyphMetrics {
    /// Where a run of `text` that starts at `from` and may be `limit` pixels
    /// wide ends, at `hi` at the latest.
    pub fn run_end(&self, text: &Vec<char>, from: usize, hi: usize, limit: u32) -> (end: usize)
        requires
            from <= hi <= text@.len(),
        ensures
            end == self.last_fit(text@, from as int, hi as int, limit as int),
            from <= end <= hi,
    {
        let mut end: usize = from;
        let mut width: u64 = 0;
        while end < hi
            invariant
                from <= end <= hi <= text@.len(),
                width == self.span_width(text@, from as int, end as int),
                width <= limit,
            decreases hi - end,
        {
            let advance: u64 = self.advance_of(text[end]) as u64;
            if width + advance > limit as u64 {
                proof {
                    self.lemma_last_fit_is(
                        text@,
                        from as int,
                        hi as int,
                        limit as int,
                        end as int,
                    );
                }
                return end;
            }
            width = width + advance;
            end = end + 1;
        }
        proof {
            self.lemma_last_fit_is(text@, from as int, hi as int, limit as int, end as int);
        }
        end
    }

    /// Where a run of `text` that ends at `to` and may be `limit` pixels
    /// wide starts, at `lo` at the earliest.
    pub fn run_start(&self, text: &Vec<char>, lo: usize, to: usize, limit: u32) -> (start: usize)
        requires
            lo <= to <= text@.len(),
        ensures
            start == self.first_fit(text@, lo as int, to as int, limit as int),
            lo <= start <= to,
    {
        let mut start: usize = to;
        let mut width: u64 = 0;
        while start > lo
            invariant
                lo <= start <= to <= text@.len(),
                width == self.span_width(text@, start as int, to as int),
                width <= limit,
            decreases start - lo,
        {
            let advance: u64 = self.advance_of(text[start - 1]) as u64;
            if width + advance > limit as u64 {
                proof {
                    self.lemma_first_fit_is(
                        text@,
                        lo as int,
                        to as int,
                        limit as int,
                        start as int,
                    );
                }
                return start;
            }
            width = width + advance;
            start = start - 1;
        }
        proof {
            self.lemma_first_fit_is(text@, lo as int, to as int, limit as int, start as int);
        }
        start
    }

    /// Width of `text` from `from` to `to`, for a span known to be at most
    /// `limit` wide.
    pub fn span(&self, text: &Vec<char>, from: usize, to: usize, limit: u32) -> (width: u32)
        requires
            from <= to <= text@.len(),
            self.span_width(text@, from as int, to as int) <= limit,
        ensures
            width == self.span_width(text@, from as int, to as int),
    {
        let mut width: u32 = 0;
        let mut at: usize = from;
        while at < to
            invariant
                from <= at <= to <= text@.len(),
                width == self.span_width(text@, from as int, at as int),
                self.span_width(text@, from as int, to as int) <= limit,
            decreases to - at,
        {
            let advance: u32 = self.advance_of(text[at]);
            proof {
                self.lemma_prefix_monotone(text@, at as int + 1, to as int);
            }
            width = width + advance;
            at = at + 1;
        }
        width
    }

    /// The boundary of `text` in `from ..= hi` nearest to the point `x`
    /// pixels right of the boundary `from`, for a range at most `limit`
    /// wide.
    pub fn nearest(&self, text: &Vec<char>, from: usize, hi: usize, x: i64, limit: u32) -> (best:
        usize)
        requires
            from <= hi <= text@.len(),
            self.span_width(text@, from as int, hi as int) <= limit,
            -0x1_0000_0000_0000 <= x <= 0x1_0000_0000_0000,
        ensures
            best == self.nearest_boundary(text@, from as int, hi as int, x as int),
            from <= best <= hi,
    {
        let mut best: usize = from;
        let mut best_distance: i64 = if x >= 0 {
            x
        } else {
            -x
        };
        let mut at: usize = from;
        let mut width: i64 = 0;
        while at < hi
            invariant
                from <= at <= hi <= text@.len(),
                from <= best <= at,
                width == self.span_width(text@, from as int, at as int),
                0 <= width <= limit,
                self.span_width(text@, from as int, hi as int) <= limit,
                best == self.nearest_boundary(text@, from as int, at as int, x as int),
                best_distance == self.distance(text@, from as int, best as int, x as int),
                -0x1_0000_0000_0000 <= x <= 0x1_0000_0000_0000,
            decreases hi - at,
        {
            let advance: i64 = self.advance_of(text[at]) as i64;
            proof {
                self.lemma_prefix_monotone(text@, at as int + 1, hi as int);
            }
            width = width + advance;
            at = at + 1;
            let distance: i64 = if x >= width {
                x - width
            } else {
                width - x
            };
            if distance < best_distance {
                best = at;
                best_distance = distance;
            }
        }
        best
    }
}

} // verus!
