//! Line and column of a byte offset.
//!
//! Lines and columns are counted from 1. A line ends with the byte `\n`, and
//! the column of an offset is its distance in bytes from the start of its
//! line. Offsets past the end of the text count as the end of the text.

use vstd::prelude::*;
use vstd::string::StringSliceAdditionalSpecFns;

verus! {

/// The byte that ends a line.
pub const NEWLINE: u8 = 10;

/// Number of line ends among the first `n` bytes of `src`.
pub open spec fn newlines_before(src: Seq<u8>, n: int) -> nat
    decreases n,
{
    if n <= 0 {
        0
    } else if src[n - 1] == NEWLINE {
        newlines_before(src, n - 1) + 1
    } else {
        newlines_before(src, n - 1)
    }
}

/// Offset at which the line holding offset `n` begins.
pub open spec fn line_start(src: Seq<u8>, n: int) -> int
    decreases n,
{
    if n <= 0 {
        0
    } else if src[n - 1] == NEWLINE {
        n
    } else {
        line_start(src, n - 1)
    }
}

/// `cursor`, or the length of the text where `cursor` lies beyond it.
pub open spec fn clamp_offset(src: Seq<u8>, cursor: int) -> int {
    if cursor <= src.len() {
        cursor
    } else {
        src.len() as int
    }
}

/// The line of byte offset `cursor`, counted from 1.
pub open spec fn line_of(src: Seq<u8>, cursor: int) -> int {
    newlines_before(src, clamp_offset(src, cursor)) as int + 1
}

/// The column of byte offset `cursor`, counted from 1.
pub open spec fn col_of(src: Seq<u8>, cursor: int) -> int {
    clamp_offset(src, cursor) - line_start(src, clamp_offset(src, cursor)) + 1
}

/// Bytes `a..c` hold no line end, so `a` and `c` lie on one line.
pub proof fn lemma_same_line(src: Seq<u8>, a: int, c: int)
    requires
        0 <= a <= c <= src.len(),
        forall|p: int| a <= p < c ==> src[p] != NEWLINE,
    ensures
        newlines_before(src, c) == newlines_before(src, a),
        a < c ==> line_start(src, c) == line_start(src, a),
    decreases c - a,
{
    if a < c {
        lemma_same_line(src, a, c - 1);
    }
}

/// The start of a line is no later than any offset on it.
pub proof fn lemma_line_start_bounds(src: Seq<u8>, n: int)
    requires
        0 <= n,
    ensures
        0 <= line_start(src, n) <= n,
    decreases n,
{
    if n > 0 && src[n - 1] != NEWLINE {
        lemma_line_start_bounds(src, n - 1);
    }
}

/// The number of line ends before an offset grows with the offset.
pub proof fn lemma_newlines_monotone(src: Seq<u8>, a: int, c: int)
    requires
        a <= c,
    ensures
        newlines_before(src, a) <= newlines_before(src, c),
    decreases c - a,
{
    if a < c {
        lemma_newlines_monotone(src, a, c - 1);
    }
}

/// Offsets with the same number of line ends before them lie on one line.
pub proof fn lemma_same_count_same_line(src: Seq<u8>, a: int, c: int)
    requires
        0 <= a <= c,
        newlines_before(src, a) == newlines_before(src, c),
    ensures
        line_start(src, a) <= a,
        a < c ==> line_start(src, c) == line_start(src, a),
    decreases c - a,
{
    lemma_line_start_bounds(src, a);
    if a < c {
        lemma_newlines_monotone(src, a, c - 1);
        lemma_same_count_same_line(src, a, c - 1);
    }
}

/// Two offsets within the text that have the same line and column are the
/// same offset.
pub proof fn lemma_linecol_injective(src: Seq<u8>, a: int, c: int)
    requires
        0 <= a <= src.len(),
        0 <= c <= src.len(),
        line_of(src, a) == line_of(src, c),
        col_of(src, a) == col_of(src, c),
    ensures
        a == c,
{
    if a < c {
        lemma_same_count_same_line(src, a, c);
    } else if c < a {
        lemma_same_count_same_line(src, c, a);
    }
}

/// The offsets at which the lines of a text begin, for quick lookup.
pub struct LineColCache {
    line_starts: Vec<usize>,
    len: usize,
    src: Ghost<Seq<u8>>,
}

impl LineColCache {
    /// The text that the cache was built from.
    pub closed spec fn source(&self) -> Seq<u8> {
        self.src@
    }

    /// The first `n` recorded line starts describe the bytes before `upto`.
    spec fn starts_ok(src: Seq<u8>, starts: Seq<usize>, upto: int) -> bool {
        &&& starts.len() >= 1
        &&& starts[0] == 0
        &&& forall|k: int|
            0 <= k < starts.len() ==> {
                &&& 0 <= #[trigger] starts[k] <= upto
                &&& newlines_before(src, starts[k] as int) == k
                &&& line_start(src, starts[k] as int) == starts[k]
            }
        &&& forall|k: int, p: int|
            0 <= k < starts.len() - 1 && #[trigger] starts[k] <= p < starts[k + 1] - 1
                ==> #[trigger] src[p] != NEWLINE
        &&& forall|p: int| starts[starts.len() - 1] <= p < upto ==> #[trigger] src[p] != NEWLINE
    }

    /// The cache describes its text, which is shorter than `usize::MAX`.
    pub closed spec fn wf(&self) -> bool {
        &&& self.len == self.src@.len()
        &&& self.len < usize::MAX
        &&& Self::starts_ok(self.src@, self.line_starts@, self.len as int)
    }

    /// Records where the lines of `source` begin.
    pub fn new(source: &str) -> (cache: LineColCache)
        requires
            source.spec_bytes().len() < usize::MAX,
        ensures
            cache.wf(),
            cache.source() == source.spec_bytes(),
    {
        let bytes = source.as_bytes();
        let n = bytes.len();
        let ghost src = bytes@;
        let mut line_starts: Vec<usize> = Vec::new();
        line_starts.push(0);
        let mut i: usize = 0;
        while i < n
            invariant
                i <= n,
                n == src.len(),
                n < usize::MAX,
                src == bytes@,
                Self::starts_ok(src, line_starts@, i as int),
            decreases n - i,
        {
            if bytes[i] == NEWLINE {
                proof {
                    let last = line_starts@[line_starts@.len() - 1];
                    lemma_same_line(src, last as int, i as int);
                }
                line_starts.push(i + 1);
            }
            i += 1;
        }
        LineColCache { line_starts, len: n, src: Ghost(src) }
    }

    /// Line and column of byte offset `cursor`, both counted from 1.
    pub fn linecol(&self, cursor: usize) -> (lc: (usize, usize))
        requires
            self.wf(),
        ensures
            lc.0 == line_of(self.source(), cursor as int),
            lc.1 == col_of(self.source(), cursor as int),
    {
        let c = if cursor <= self.len {
            cursor
        } else {
            self.len
        };
        let mut lo: usize = 0;
        let mut hi: usize = self.line_starts.len();
        while hi - lo > 1
            invariant
                self.wf(),
                c <= self.len,
                0 <= lo < hi <= self.line_starts@.len(),
                self.line_starts@[lo as int] <= c,
                hi < self.line_starts@.len() ==> c < self.line_starts@[hi as int],
            decreases hi - lo,
        {
            let mid = lo + (hi - lo) / 2;
            if self.line_starts[mid] <= c {
                lo = mid;
            } else {
                hi = mid;
            }
        }
        let start = self.line_starts[lo];
        proof {
            let src = self.src@;
            let starts = self.line_starts@;
            assert forall|p: int| start <= p < c implies src[p] != NEWLINE by {
                if lo + 1 < starts.len() {
                    assert(starts[lo as int] <= p < starts[lo + 1] - 1);
                }
            }
            lemma_same_line(src, start as int, c as int);
            assert(clamp_offset(src, cursor as int) == c);
        }
        (lo + 1, c - start + 1)
    }
}

} // verus!
