use vstd::prelude::*;
use crate::geometry::tdiv;

verus! {

/// Smallest font size the text layer uses; also the answer when nothing fits.
pub const MIN_FONT_SIZE: i32 = 8;

/// Largest font size the text layer tries.
pub const MAX_FONT_SIZE: i32 = 100;

/// Horizontal padding on each side of the text.
pub const TEXT_H_PADDING: i32 = 6;

/// Vertical room kept free around the text.
pub const TEXT_V_MARGIN: i32 = 4;

pub open spec fn available_w_spec(width: int) -> int {
    if width - 2 * TEXT_H_PADDING >= 1 { width - 2 * TEXT_H_PADDING } else { 1 }
}

pub open spec fn available_h_spec(height: int) -> int {
    if height - TEXT_V_MARGIN >= 1 { height - TEXT_V_MARGIN } else { 1 }
}

/// Largest size tried for a window of client height `height`.
pub open spec fn max_size_spec(height: int) -> int {
    if available_h_spec(height) <= MAX_FONT_SIZE { available_h_spec(height) } else { MAX_FONT_SIZE as int }
}

/// Text measured at some size fits the available area.
pub open spec fn fits_spec(text_h: int, text_w: int, available_w: int, available_h: int) -> bool {
    text_h <= available_h && text_w <= available_w
}

/// Outcome of the bisection over `[low, high]` with `best` the largest size found
/// to fit so far, when `fits` answers each probe.
pub open spec fn search_outcome(low: int, high: int, best: int, fits: spec_fn(int) -> bool) -> int
    decreases high - low + 1,
{
    if low > high {
        best
    } else {
        let mid = (low + high) / 2;
        if fits(mid) {
            search_outcome(mid + 1, high, mid, fits)
        } else {
            search_outcome(low, mid - 1, best, fits)
        }
    }
}

/// Larger text never takes less room: if a size fits, every smaller size fits.
pub open spec fn monotone_on(fits: spec_fn(int) -> bool, lo: int, hi: int) -> bool {
    forall|a: int, b: int| lo <= a <= b <= hi && #[trigger] fits(b) ==> #[trigger] fits(a)
}

/// The largest size in `[lo, hi]` that fits, or `lo` when none does.
pub open spec fn is_best_size(r: int, fits: spec_fn(int) -> bool, lo: int, hi: int) -> bool {
    ||| (lo <= r <= hi && fits(r) && forall|s: int| r < s <= hi ==> !#[trigger] fits(s))
    ||| (r == lo && forall|s: int| lo <= s <= hi ==> !#[trigger] fits(s))
}

/// Bisection state of the font-size search for one text layer. The caller measures
/// the wrapped text at each size that `next_size` proposes and reports it to `record`.
#[derive(Clone, Copy, Debug, PartialEq, Eq, Structural)]
pub struct FontSearch {
    pub low: i32,
    pub high: i32,
    pub best: i32,
    pub available_w: i32,
    pub available_h: i32,
}

impl FontSearch {
    pub open spec fn wf(self) -> bool {
        &&& MIN_FONT_SIZE <= self.low
        &&& self.high <= MAX_FONT_SIZE
        &&& self.low <= self.high + 1
        &&& MIN_FONT_SIZE <= self.best <= MAX_FONT_SIZE
    }

    /// Final answer of this search when every probe `s` is answered with `fits(s)`.
    pub open spec fn outcome(self, fits: spec_fn(int) -> bool) -> int {
        search_outcome(self.low as int, self.high as int, self.best as int, fits)
    }

    /// Starts the search for a window of client size `width` x `height`.
    pub fn new(width: i32, height: i32) -> (r: FontSearch)
        requires
            width >= 0,
            height >= 0,
        ensures
            r.wf(),
            r.available_w == available_w_spec(width as int),
            r.available_h == available_h_spec(height as int),
            r.low == MIN_FONT_SIZE,
            r.best == MIN_FONT_SIZE,
            max_size_spec(height as int) >= MIN_FONT_SIZE ==> r.high == max_size_spec(height as int),
            max_size_spec(height as int) < MIN_FONT_SIZE ==> r.high == MIN_FONT_SIZE - 1,
    {
        let available_w: i32 = if width - 2 * TEXT_H_PADDING >= 1 { width - 2 * TEXT_H_PADDING } else { 1 };
        let available_h: i32 = if height - TEXT_V_MARGIN >= 1 { height - TEXT_V_MARGIN } else { 1 };
        let max_possible: i32 = if available_h <= MAX_FONT_SIZE { available_h } else { MAX_FONT_SIZE };
        let high: i32 = if max_possible >= MIN_FONT_SIZE { max_possible } else { MIN_FONT_SIZE - 1 };
        FontSearch { low: MIN_FONT_SIZE, high, best: MIN_FONT_SIZE, available_w, available_h }
    }

    pub fn is_done(&self) -> (r: bool)
        ensures
            r == (self.low > self.high),
    {
        self.low > self.high
    }

    /// The next size to measure, or `None` once the search is over.
    pub fn next_size(&self) -> (r: Option<i32>)
        requires
            self.wf(),
        ensures
            self.low <= self.high ==> r == Some(((self.low + self.high) / 2) as i32),
            self.low > self.high ==> r is None,
    {
        if self.low <= self.high {
            Some((self.low + self.high) / 2)
        } else {
            None
        }
    }

    /// Reports the wrapped text's height and width at the size `next_size` proposed.
    pub fn record(&mut self, text_h: i32, text_w: i32)
        requires
            old(self).wf(),
            old(self).low <= old(self).high,
        ensures
            final(self).wf(),
            ({
                let mid = (old(self).low + old(self).high) / 2;
                if fits_spec(text_h as int, text_w as int, old(self).available_w as int, old(self).available_h as int) {
                    *final(self) == FontSearch { low: (mid + 1) as i32, best: mid as i32, ..*old(self) }
                } else {
                    *final(self) == FontSearch { high: (mid - 1) as i32, ..*old(self) }
                }
            }),
            forall|f: spec_fn(int) -> bool|
                f((old(self).low + old(self).high) / 2) == fits_spec(text_h as int, text_w as int,
                    old(self).available_w as int, old(self).available_h as int)
                ==> #[trigger] final(self).outcome(f) == old(self).outcome(f),
    {
        let mid: i32 = (self.low + self.high) / 2;
        if text_h <= self.available_h && text_w <= self.available_w {
            self.best = mid;
            self.low = mid + 1;
        } else {
            self.high = mid - 1;
        }
    }

    /// The chosen font size: the last size that fitted, or the minimum.
    pub fn result(&self) -> (r: i32)
        ensures
            r == self.best,
    {
        self.best
    }
}

proof fn lemma_search_outcome(low: int, high: int, best: int, fits: spec_fn(int) -> bool, lo: int, hi: int)
    requires
        lo <= low <= high + 1,
        high <= hi,
        monotone_on(fits, lo, hi),
        forall|s: int| high < s <= hi ==> !#[trigger] fits(s),
        (low == lo && best == lo) || (lo <= best && best == low - 1 && fits(best)),
    ensures
        is_best_size(search_outcome(low, high, best, fits), fits, lo, hi),
    decreases high - low + 1,
{
    if low > high {
        if low == lo && best == lo {
            assert forall|s: int| lo <= s <= hi implies !#[trigger] fits(s) by {
                assert(high < s);
            }
        } else {
            assert forall|s: int| best < s <= hi implies !#[trigger] fits(s) by {
                assert(high < s);
            }
        }
    } else {
        let mid = (low + high) / 2;
        if fits(mid) {
            lemma_search_outcome(mid + 1, high, mid, fits, lo, hi);
        } else {
            assert forall|s: int| mid - 1 < s <= hi implies !#[trigger] fits(s) by {
                if s <= high && fits(s) {
                    assert(fits(mid));
                }
            }
            lemma_search_outcome(low, mid - 1, best, fits, lo, hi);
        }
    }
}

/// When larger text never takes less room, the search started by `FontSearch::new`
/// ends on the largest size that fits, or on the minimum size if none fits.
pub proof fn lemma_font_search_finds_largest(search: FontSearch, fits: spec_fn(int) -> bool)
    requires
        search.wf(),
        search.low == MIN_FONT_SIZE,
        search.best == MIN_FONT_SIZE,
        monotone_on(fits, MIN_FONT_SIZE as int, search.high as int),
    ensures
        is_best_size(search.outcome(fits), fits, MIN_FONT_SIZE as int, search.high as int),
{
    lemma_search_outcome(search.low as int, search.high as int, search.best as int, fits,
        MIN_FONT_SIZE as int, search.high as int);
}

pub open spec fn text_offset_y_spec(height: int, text_h: int) -> int {
    if tdiv(height - text_h, 2) >= 0 { tdiv(height - text_h, 2) } else { 0 }
}

/// Top of the text block, which is centred vertically by its measured height.
pub fn text_offset_y(height: i32, text_h: i32) -> (r: i32)
    requires
        height >= 0,
        text_h >= 0,
    ensures
        r == text_offset_y_spec(height as int, text_h as int),
        r >= 0,
{
    let off: i32 = (height - text_h) / 2;
    if off >= 0 {
        off
    } else {
        0
    }
}

} // verus!
