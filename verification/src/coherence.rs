//! The integer side of spatial coherence analysis: how many neighboring
//! pairs hold the same value, how many pairs there are, and how often each
//! value occurs.

use vstd::prelude::*;
use crate::ternary::Ternary;

verus! {

/// Neighbor-pair counts of a texture.
#[derive(Debug, Clone, Copy, PartialEq, Eq, Structural)]
pub struct NeighborCounts {
    /// Number of same-value neighbor pairs.
    pub same_pairs: usize,
    /// Total neighbor pairs examined.
    pub total_pairs: usize,
}

/// How many times each value occurs.
#[derive(Debug, Clone, Copy, PartialEq, Eq, Structural)]
pub struct ValueCounts {
    pub true_count: usize,
    pub false_count: usize,
    pub unknown_count: usize,
}

/// The number of adjacent positions `i, i + 1` of `s` holding the same value.
pub open spec fn same_neighbors(s: Seq<Ternary>) -> nat
    decreases s.len(),
{
    if s.len() < 2 {
        0
    } else {
        same_neighbors(s.drop_last()) + (if s[s.len() - 2] == s[s.len() - 1] {
            1nat
        } else {
            0nat
        })
    }
}

/// The number of occurrences of `v` in `s`.
pub open spec fn count_in(s: Seq<Ternary>, v: Ternary) -> nat
    decreases s.len(),
{
    if s.len() == 0 {
        0
    } else {
        count_in(s.drop_last(), v) + (if s.last() == v {
            1nat
        } else {
            0nat
        })
    }
}

/// The neighbor pairs that cell `(x, y)` starts in a `width` by `height`
/// grid: one to its right while `x + 1 < width`, one below while `y + 1 < height`.
pub open spec fn cell_pairs(width: int, height: int, x: int, y: int) -> nat {
    (if x + 1 < width {
        1nat
    } else {
        0nat
    }) + (if y + 1 < height {
        1nat
    } else {
        0nat
    })
}

/// Of the pairs that cell `(x, y)` starts, those whose two cells hold the same value
/// (the grid stored row by row in `s`).
pub open spec fn cell_same(s: Seq<Ternary>, width: int, height: int, x: int, y: int) -> nat {
    (if x + 1 < width && s[y * width + x] == s[y * width + x + 1] {
        1nat
    } else {
        0nat
    }) + (if y + 1 < height && s[y * width + x] == s[(y + 1) * width + x] {
        1nat
    } else {
        0nat
    })
}

/// Pairs started by the first `x` cells of row `y`.
pub open spec fn row_pairs(width: int, height: int, y: int, x: int) -> nat
    decreases x,
{
    if x <= 0 {
        0
    } else {
        row_pairs(width, height, y, x - 1) + cell_pairs(width, height, x - 1, y)
    }
}

/// Same-value pairs started by the first `x` cells of row `y`.
pub open spec fn row_same(s: Seq<Ternary>, width: int, height: int, y: int, x: int) -> nat
    decreases x,
{
    if x <= 0 {
        0
    } else {
        row_same(s, width, height, y, x - 1) + cell_same(s, width, height, x - 1, y)
    }
}

/// Pairs started by the cells of the first `y` rows.
pub open spec fn grid_pairs(width: int, height: int, y: int) -> nat
    decreases y,
{
    if y <= 0 {
        0
    } else {
        grid_pairs(width, height, y - 1) + row_pairs(width, height, y - 1, width)
    }
}

/// Same-value pairs started by the cells of the first `y` rows.
pub open spec fn grid_same(s: Seq<Ternary>, width: int, height: int, y: int) -> nat
    decreases y,
{
    if y <= 0 {
        0
    } else {
        grid_same(s, width, height, y - 1) + row_same(s, width, height, y - 1, width)
    }
}

/// The 1D counts: `len - 1` pairs, of which `same_neighbors` agree; none below two cells.
pub open spec fn counts_1d(s: Seq<Ternary>) -> (nat, nat) {
    if s.len() < 2 {
        (0, 0)
    } else {
        (same_neighbors(s), (s.len() - 1) as nat)
    }
}

/// The 2D counts over a `width` by `height` grid stored row by row in `s`.
pub open spec fn counts_2d(s: Seq<Ternary>, width: int, height: int) -> (nat, nat) {
    if width == 0 || height == 0 {
        (0, 0)
    } else {
        (grid_same(s, width, height, height), grid_pairs(width, height, height))
    }
}

/// The inputs on which the 2D count reads only inside `data` and its counters
/// fit: every cell is present unless the grid is a single cell, and the number
/// of pairs fits in `usize`.
pub open spec fn grid_countable(len: nat, width: int, height: int) -> bool {
    (width > 0 && height > 0) ==> {
        &&& width * height > 1 ==> len >= width * height
        &&& height * (width - 1) + width * (height - 1) <= usize::MAX
    }
}

proof fn lemma_same_neighbors_step(s: Seq<Ternary>, i: int)
    requires
        0 <= i,
        i + 1 < s.len(),
    ensures
        same_neighbors(s.take(i + 2)) == same_neighbors(s.take(i + 1)) + (if s[i] == s[i + 1] {
            1nat
        } else {
            0nat
        }),
{
    assert(s.take(i + 2).drop_last() =~= s.take(i + 1));
}

/// Count the same-value neighbor pairs of a 1D sequence.
pub fn neighbor_counts_1d(data: &[Ternary]) -> (c: NeighborCounts)
    ensures
        (c.same_pairs as nat, c.total_pairs as nat) == counts_1d(data@),
{
    let n = data.len();
    if n < 2 {
        return NeighborCounts { same_pairs: 0, total_pairs: 0 };
    }
    let mut same: usize = 0;
    let mut i: usize = 0;
    assert(same_neighbors(data@.take(1)) == 0);
    while i + 1 < n
        invariant
            n == data@.len(),
            n >= 2,
            i + 1 <= n,
            same <= i,
            same == same_neighbors(data@.take(i + 1)),
        decreases n - i,
    {
        proof {
            lemma_same_neighbors_step(data@, i as int);
        }
        if data[i] == data[i + 1] {
            same = same + 1;
        }
        i = i + 1;
    }
    assert(data@.take(n as int) =~= data@);
    NeighborCounts { same_pairs: same, total_pairs: n - 1 }
}

proof fn lemma_count_step(s: Seq<Ternary>, i: int, v: Ternary)
    requires
        0 <= i < s.len(),
    ensures
        count_in(s.take(i + 1), v) == count_in(s.take(i), v) + (if s[i] == v {
            1nat
        } else {
            0nat
        }),
{
    assert(s.take(i + 1).drop_last() =~= s.take(i));
}

/// Count how often each value occurs.
pub fn value_counts(data: &[Ternary]) -> (c: ValueCounts)
    ensures
        c.true_count == count_in(data@, Ternary::True),
        c.false_count == count_in(data@, Ternary::False),
        c.unknown_count == count_in(data@, Ternary::Unknown),
{
    let n = data.len();
    let mut t: usize = 0;
    let mut f: usize = 0;
    let mut u: usize = 0;
    let mut i: usize = 0;
    assert(data@.take(0) =~= Seq::<Ternary>::empty());
    while i < n
        invariant
            n == data@.len(),
            i <= n,
            t + f + u == i,
            t == count_in(data@.take(i as int), Ternary::True),
            f == count_in(data@.take(i as int), Ternary::False),
            u == count_in(data@.take(i as int), Ternary::Unknown),
        decreases n - i,
    {
        proof {
            lemma_count_step(data@, i as int, Ternary::True);
            lemma_count_step(data@, i as int, Ternary::False);
            lemma_count_step(data@, i as int, Ternary::Unknown);
        }
        match data[i] {
            Ternary::True => t = t + 1,
            Ternary::False => f = f + 1,
            Ternary::Unknown => u = u + 1,
        }
        i = i + 1;
    }
    assert(data@.take(n as int) =~= data@);
    ValueCounts { true_count: t, false_count: f, unknown_count: u }
}

proof fn lemma_row_pairs_monotone(width: int, height: int, y: int, x1: int, x2: int)
    requires
        x1 <= x2,
    ensures
        row_pairs(width, height, y, x1) <= row_pairs(width, height, y, x2),
    decreases x2 - x1,
{
    if x1 < x2 {
        lemma_row_pairs_monotone(width, height, y, x1, x2 - 1);
    }
}

proof fn lemma_grid_pairs_monotone(width: int, height: int, y1: int, y2: int)
    requires
        y1 <= y2,
    ensures
        grid_pairs(width, height, y1) <= grid_pairs(width, height, y2),
    decreases y2 - y1,
{
    if y1 < y2 {
        lemma_grid_pairs_monotone(width, height, y1, y2 - 1);
    }
}

proof fn lemma_row_same_bounded(s: Seq<Ternary>, width: int, height: int, y: int, x: int)
    ensures
        row_same(s, width, height, y, x) <= row_pairs(width, height, y, x),
    decreases x,
{
    if x > 0 {
        lemma_row_same_bounded(s, width, height, y, x - 1);
    }
}

proof fn lemma_grid_same_bounded(s: Seq<Ternary>, width: int, height: int, y: int)
    ensures
        grid_same(s, width, height, y) <= grid_pairs(width, height, y),
    decreases y,
{
    if y > 0 {
        lemma_grid_same_bounded(s, width, height, y - 1);
        lemma_row_same_bounded(s, width, height, y - 1, width);
    }
}

proof fn lemma_row_pairs_closed(width: int, height: int, y: int, x: int)
    requires
        0 < x <= width,
    ensures
        row_pairs(width, height, y, x) == (if x < width {
            x
        } else {
            x - 1
        }) + (if y + 1 < height {
            x
        } else {
            0
        }),
    decreases x,
{
    if x > 1 {
        lemma_row_pairs_closed(width, height, y, x - 1);
    } else {
        assert(row_pairs(width, height, y, 0) == 0);
    }
}

/// The number of neighbor pairs of a `width` by `height` grid: `width - 1` in
/// each row and `height - 1` in each column.
pub proof fn lemma_grid_pairs_closed(width: int, height: int)
    requires
        width > 0,
        height > 0,
    ensures
        grid_pairs(width, height, height) == height * (width - 1) + width * (height - 1),
{
    lemma_grid_pairs_prefix(width, height, height);
}

proof fn lemma_grid_pairs_prefix(width: int, height: int, y: int)
    requires
        width > 0,
        0 < y <= height,
    ensures
        grid_pairs(width, height, y) == y * (width - 1) + width * (y - 1) + (if y < height {
            width
        } else {
            0
        }),
    decreases y,
{
    lemma_row_pairs_closed(width, height, y - 1, width);
    if y > 1 {
        lemma_grid_pairs_prefix(width, height, y - 1);
        assert(y * (width - 1) == (y - 1) * (width - 1) + (width - 1)) by (nonlinear_arith);
        assert(width * (y - 1) == width * (y - 2) + width) by (nonlinear_arith);
    } else {
        assert(grid_pairs(width, height, 0) == 0);
    }
}

/// Count the same-value neighbor pairs of a `width` by `height` grid stored
/// row by row: each cell with its right neighbor and with the one below.
pub fn neighbor_counts_2d(data: &[Ternary], width: usize, height: usize) -> (c: NeighborCounts)
    requires
        grid_countable(data@.len(), width as int, height as int),
    ensures
        (c.same_pairs as nat, c.total_pairs as nat) == counts_2d(data@, width as int, height as int),
{
    if width == 0 || height == 0 {
        return NeighborCounts { same_pairs: 0, total_pairs: 0 };
    }
    let ghost w = width as int;
    let ghost h = height as int;
    proof {
        lemma_grid_pairs_closed(w, h);
        assert(w * h <= usize::MAX) by {
            if w * h > 1 {
                assert(data@.len() == data.len());
            }
        }
    }
    let mut same: usize = 0;
    let mut total: usize = 0;
    let mut y: usize = 0;
    while y < height
        invariant
            w == width,
            h == height,
            width > 0,
            height > 0,
            grid_countable(data@.len(), w, h),
            w * h <= usize::MAX,
            grid_pairs(w, h, h) <= usize::MAX,
            y <= height,
            same == grid_same(data@, w, h, y as int),
            total == grid_pairs(w, h, y as int),
        decreases height - y,
    {
        let mut x: usize = 0;
        proof {
            lemma_grid_pairs_monotone(w, h, y + 1, h);
        }
        while x < width
            invariant
                w == width,
                h == height,
                width > 0,
                height > 0,
                grid_countable(data@.len(), w, h),
                w * h <= usize::MAX,
                y < height,
                x <= width,
                grid_pairs(w, h, y + 1) <= usize::MAX,
                same == grid_same(data@, w, h, y as int) + row_same(data@, w, h, y as int, x as int),
                total == grid_pairs(w, h, y as int) + row_pairs(w, h, y as int, x as int),
            decreases width - x,
        {
            proof {
                lemma_row_pairs_monotone(w, h, y as int, x + 1, w);
                lemma_grid_same_bounded(data@, w, h, y as int);
                lemma_row_same_bounded(data@, w, h, y as int, x as int);
                assert(y * w + x < w * h) by (nonlinear_arith)
                    requires
                        x < w,
                        y < h,
                ;
                assert(y + 1 < h ==> (y + 1) * w + x < w * h) by (nonlinear_arith)
                    requires
                        x < w,
                        y < h,
                ;
                assert(x + 1 < w ==> y * w + x + 1 < w * h && w * h > 1) by (nonlinear_arith)
                    requires
                        x < w,
                        y < h,
                ;
                assert(y + 1 < h ==> w * h > 1) by (nonlinear_arith)
                    requires
                        0 < w,
                        y < h,
                ;
                assert(y * w + x <= (y + 1) * w + x) by (nonlinear_arith)
                    requires
                        0 <= w,
                ;
            }
            let idx = y * width + x;
            if x + 1 < width {
                total = total + 1;
                if data[idx] == data[idx + 1] {
                    same = same + 1;
                }
            }
            if y + 1 < height {
                total = total + 1;
                if data[idx] == data[(y + 1) * width + x] {
                    same = same + 1;
                }
            }
            x = x + 1;
        }
        y = y + 1;
    }
    NeighborCounts { same_pairs: same, total_pairs: total }
}

/// A sequence all of whose entries are `v`.
pub open spec fn uniform(s: Seq<Ternary>, v: Ternary) -> bool {
    forall|i: int| 0 <= i < s.len() ==> #[trigger] s[i] == v
}

proof fn lemma_same_neighbors_bounded(s: Seq<Ternary>)
    ensures
        same_neighbors(s) <= if s.len() < 2 { 0 } else { s.len() - 1 },
        uniform(s, s[0]) && s.len() >= 2 ==> same_neighbors(s) == s.len() - 1,
    decreases s.len(),
{
    if s.len() >= 2 {
        lemma_same_neighbors_bounded(s.drop_last());
        assert(uniform(s, s[0]) ==> uniform(s.drop_last(), s.drop_last()[0]));
    }
}

/// In 1D, no more pairs agree than there are pairs; when every entry holds
/// the same value, every pair agrees.
pub proof fn lemma_counts_1d(s: Seq<Ternary>)
    ensures
        counts_1d(s).0 <= counts_1d(s).1,
        s.len() > 0 && uniform(s, s[0]) ==> counts_1d(s).0 == counts_1d(s).1,
{
    lemma_same_neighbors_bounded(s);
}

proof fn lemma_row_same_uniform(s: Seq<Ternary>, v: Ternary, width: int, height: int, y: int, x: int)
    requires
        0 <= y < height,
        x <= width,
        forall|i: int| 0 <= i < width * height ==> #[trigger] s[i] == v,
    ensures
        row_same(s, width, height, y, x) == row_pairs(width, height, y, x),
    decreases x,
{
    if x > 0 {
        lemma_row_same_uniform(s, v, width, height, y, x - 1);
        let c = x - 1;
        if c + 1 < width {
            assert(0 <= y * width + c && y * width + c + 1 < width * height) by (nonlinear_arith)
                requires 0 <= c, c + 1 < width, 0 <= y < height;
            assert(s[y * width + c] == v && s[y * width + c + 1] == v);
        }
        if y + 1 < height {
            assert(0 <= y * width + c && y * width + c < (y + 1) * width + c && (y + 1) * width + c < width * height) by (nonlinear_arith)
                requires 0 <= c < width, 0 <= y, y + 1 < height;
            assert(s[y * width + c] == v && s[(y + 1) * width + c] == v);
        }
    }
}

proof fn lemma_grid_same_uniform(s: Seq<Ternary>, v: Ternary, width: int, height: int, y: int)
    requires
        y <= height,
        forall|i: int| 0 <= i < width * height ==> #[trigger] s[i] == v,
    ensures
        grid_same(s, width, height, y) == grid_pairs(width, height, y),
    decreases y,
{
    if y > 0 {
        lemma_grid_same_uniform(s, v, width, height, y - 1);
        lemma_row_same_uniform(s, v, width, height, y - 1, width);
    }
}

/// In 2D, no more pairs agree than there are pairs, and the pairs number
/// `height * (width - 1) + width * (height - 1)`; when every cell holds the
/// same value, every pair agrees.
pub proof fn lemma_counts_2d(s: Seq<Ternary>, width: int, height: int)
    requires
        width >= 0,
        height >= 0,
    ensures
        counts_2d(s, width, height).0 <= counts_2d(s, width, height).1,
        counts_2d(s, width, height).1 == (if width == 0 || height == 0 {
            0
        } else {
            height * (width - 1) + width * (height - 1)
        }),
        (forall|i: int| 0 <= i < width * height ==> #[trigger] s[i] == s[0]) ==> counts_2d(s, width, height).0
            == counts_2d(s, width, height).1,
{
    if width > 0 && height > 0 {
        lemma_grid_same_bounded(s, width, height, height);
        lemma_grid_pairs_closed(width, height);
        if forall|i: int| 0 <= i < width * height ==> #[trigger] s[i] == s[0] {
            lemma_grid_same_uniform(s, s[0], width, height, height);
        }
    }
}

/// Every entry is counted under exactly one value.
pub proof fn lemma_value_counts_total(s: Seq<Ternary>)
    ensures
        count_in(s, Ternary::True) + count_in(s, Ternary::False) + count_in(s, Ternary::Unknown) == s.len(),
    decreases s.len(),
{
    if s.len() > 0 {
        lemma_value_counts_total(s.drop_last());
    }
}

/// When every entry holds `v`, `v` is counted for every entry and the other
/// values not at all.
pub proof fn lemma_value_counts_uniform(s: Seq<Ternary>, v: Ternary, w: Ternary)
    requires
        uniform(s, v),
        w != v,
    ensures
        count_in(s, v) == s.len(),
        count_in(s, w) == 0,
    decreases s.len(),
{
    if s.len() > 0 {
        assert(uniform(s.drop_last(), v));
        lemma_value_counts_uniform(s.drop_last(), v, w);
    }
}

/// The number of indices `i` in `[0, n)` satisfying `p`.
pub open spec fn count_where(n: int, p: spec_fn(int) -> bool) -> nat
    decreases n,
{
    if n <= 0 {
        0
    } else {
        count_where(n - 1, p) + (if p(n - 1) {
            1nat
        } else {
            0nat
        })
    }
}

/// Index `i` of a grid `width` wide, stored row by row in `s`, has a right-hand
/// neighbor in its row holding the same value.
pub open spec fn same_as_right(s: Seq<Ternary>, width: int) -> spec_fn(int) -> bool {
    |i: int| i % width + 1 < width && s[i] == s[i + 1]
}

/// Index `i` of a `width` by `height` grid, stored row by row in `s`, has a
/// neighbor in the next row holding the same value.
pub open spec fn same_as_below(s: Seq<Ternary>, width: int, height: int) -> spec_fn(int) -> bool {
    |i: int| i + width < width * height && s[i] == s[i + width]
}

/// Horizontal same-value pairs: cells `i, i + 1` in one row that agree.
pub open spec fn horizontal_same(s: Seq<Ternary>, width: int, height: int) -> nat {
    count_where(width * height, same_as_right(s, width))
}

/// Vertical same-value pairs: cells `i, i + width` that agree.
pub open spec fn vertical_same(s: Seq<Ternary>, width: int, height: int) -> nat {
    count_where(width * height, same_as_below(s, width, height))
}

proof fn lemma_cell_same_split(s: Seq<Ternary>, width: int, height: int, x: int, y: int)
    requires
        0 <= x < width,
        0 <= y,
    ensures
        cell_same(s, width, height, x, y) == (if same_as_right(s, width)(y * width + x) {
            1nat
        } else {
            0nat
        }) + (if same_as_below(s, width, height)(y * width + x) {
            1nat
        } else {
            0nat
        }),
{
    let i = y * width + x;
    vstd::arithmetic::div_mod::lemma_mod_multiples_vanish(y, x, width);
    vstd::arithmetic::div_mod::lemma_small_mod(x as nat, width as nat);
    assert(width * y + x == i) by (nonlinear_arith)
        requires i == y * width + x;
    assert(i % width == x);
    assert((y + 1) * width + x == i + width) by (nonlinear_arith)
        requires i == y * width + x;
    assert(y + 1 < height <==> i + width < width * height) by (nonlinear_arith)
        requires i == y * width + x, 0 <= x < width;
}

proof fn lemma_grid_same_prefix(s: Seq<Ternary>, width: int, height: int, y: int, x: int)
    requires
        width > 0,
        0 <= y,
        0 <= x <= width,
    ensures
        grid_same(s, width, height, y) + row_same(s, width, height, y, x) == count_where(
            y * width + x,
            same_as_right(s, width),
        ) + count_where(y * width + x, same_as_below(s, width, height)),
    decreases y, x,
{
    if x == 0 {
        if y > 0 {
            lemma_grid_same_prefix(s, width, height, y - 1, width);
            assert((y - 1) * width + width == y * width + 0) by (nonlinear_arith);
            assert(grid_same(s, width, height, y) == grid_same(s, width, height, y - 1) + row_same(s, width, height, y - 1, width));
            assert(grid_same(s, width, height, y) == count_where(y * width, same_as_right(s, width)) + count_where(y * width, same_as_below(s, width, height)));
        } else {
            assert(grid_same(s, width, height, 0) == 0);
            assert(y * width + x == 0) by (nonlinear_arith)
                requires y == 0, x == 0;
        }
        assert(row_same(s, width, height, y, 0) == 0);
    } else {
        lemma_grid_same_prefix(s, width, height, y, x - 1);
        lemma_cell_same_split(s, width, height, x - 1, y);
        assert(y * width >= 0) by (nonlinear_arith)
            requires y >= 0, width > 0;
        let n = y * width + x;
        assert(count_where(n, same_as_right(s, width)) == count_where(n - 1, same_as_right(s, width))
            + (if same_as_right(s, width)(n - 1) { 1nat } else { 0nat }));
        assert(count_where(n, same_as_below(s, width, height)) == count_where(n - 1, same_as_below(s, width, height))
            + (if same_as_below(s, width, height)(n - 1) { 1nat } else { 0nat }));
        assert(n - 1 == y * width + (x - 1));
        assert(grid_same(s, width, height, y) + row_same(s, width, height, y, x - 1) == count_where(
            n - 1, same_as_right(s, width)) + count_where(n - 1, same_as_below(s, width, height)));
        assert(grid_same(s, width, height, y) + row_same(s, width, height, y, x) == count_where(
            n, same_as_right(s, width)) + count_where(n, same_as_below(s, width, height)));
    }
}

/// The 2D same-value count is the number of cells agreeing with their
/// right-hand neighbor in the row plus the number agreeing with the cell
/// below them.
pub proof fn lemma_counts_2d_direct(s: Seq<Ternary>, width: int, height: int)
    requires
        width > 0,
        height > 0,
    ensures
        counts_2d(s, width, height).0 == horizontal_same(s, width, height) + vertical_same(s, width, height),
{
    lemma_grid_same_prefix(s, width, height, height, 0);
    assert(height * width + 0 == width * height) by (nonlinear_arith);
    assert(row_same(s, width, height, height, 0) == 0);
}

/// Index `i` of `s` holds the same value as index `i + 1`.
pub open spec fn same_as_next(s: Seq<Ternary>) -> spec_fn(int) -> bool {
    |i: int| s[i] == s[i + 1]
}

proof fn lemma_count_where_agree(n: int, p: spec_fn(int) -> bool, q: spec_fn(int) -> bool)
    requires
        forall|i: int| 0 <= i < n ==> #[trigger] p(i) == q(i),
    ensures
        count_where(n, p) == count_where(n, q),
    decreases n,
{
    if n > 0 {
        lemma_count_where_agree(n - 1, p, q);
    }
}

/// The 1D counts are the number of positions `i < len - 1` whose value equals
/// that at `i + 1`, out of `len - 1` such positions (none below two cells).
pub proof fn lemma_counts_1d_direct(s: Seq<Ternary>)
    ensures
        counts_1d(s).0 == count_where(s.len() - 1, same_as_next(s)),
        counts_1d(s).1 == if s.len() < 2 { 0 } else { s.len() - 1 },
    decreases s.len(),
{
    if s.len() >= 2 {
        let t = s.drop_last();
        lemma_counts_1d_direct(t);
        lemma_count_where_agree(t.len() - 1, same_as_next(t), same_as_next(s));
        assert(same_neighbors(s) == same_neighbors(t) + (if s[s.len() - 2] == s[s.len() - 1] {
            1nat
        } else {
            0nat
        }));
        if t.len() < 2 {
            assert(same_neighbors(t) == 0);
            assert(count_where(t.len() - 1, same_as_next(s)) == 0);
        }
    } else {
        assert(count_where(s.len() - 1, same_as_next(s)) == 0);
    }
}

} // verus!
