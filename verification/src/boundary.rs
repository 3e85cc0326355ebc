//! Boundary modes: how a coordinate outside `[0, size)` is brought back
//! into range.

use vstd::prelude::*;

verus! {

/// Boundary mode for texture addressing when coordinates fall outside `[0, size)`.
#[derive(Debug, Clone, Copy, PartialEq, Eq, Structural)]
pub enum BoundaryMode {
    /// Clamp coordinates to the valid range.
    Clamp,
    /// Wrap coordinates using modulo.
    Wrap,
    /// Mirror coordinates at boundaries.
    Mirror,
}

/// Where `mode` sends `coord` in a dimension of extent `size > 0`.
pub open spec fn resolve(mode: BoundaryMode, coord: int, size: int) -> int {
    match mode {
        BoundaryMode::Clamp => if coord < 0 {
            0
        } else if coord >= size {
            size - 1
        } else {
            coord
        },
        BoundaryMode::Wrap => coord % size,
        BoundaryMode::Mirror => {
            let c = coord % (2 * size);
            if c >= size {
                2 * size - 1 - c
            } else {
                c
            }
        },
    }
}

/// Whether `size` is a positive extent that fits in `i64`: the extents on
/// which `apply` works in signed 64-bit arithmetic.
pub open spec fn signed_extent(size: u64) -> bool {
    0 < size <= i64::MAX
}

/// What `apply` returns: `resolve` on a positive extent; 0 on an empty one.
pub open spec fn apply_spec(mode: BoundaryMode, coord: i64, size: u64) -> int {
    if size > 0 {
        resolve(mode, coord as int, size as int)
    } else {
        0
    }
}

/// The inputs on which `apply` computes without signed overflow: only the
/// mirror mode on an extent that fits in `i64` doubles the extent, and then
/// adds that period to a remainder.
pub open spec fn apply_fits(mode: BoundaryMode, coord: i64, size: u64) -> bool {
    (mode is Mirror && signed_extent(size)) ==> {
        &&& 2 * size <= i64::MAX
        &&& coord >= 0 ==> (coord as int) % (2 * size as int) + 2 * size <= i64::MAX
    }
}

/// The remainder of Rust's `%` on `i64` (sign of the dividend), corrected into
/// `[0, m)`, is the Euclidean remainder.
proof fn lemma_truncated_rem_corrected(c: int, m: int)
    requires
        m > 0,
    ensures
        c < 0 && (-c) % m != 0 ==> m - (-c) % m == c % m,
        c < 0 && (-c) % m == 0 ==> c % m == 0,
{
    if c < 0 {
        let q = (-c) / m;
        let r = (-c) % m;
        vstd::arithmetic::div_mod::lemma_fundamental_div_mod(-c, m);
        assert(c == m * (-q) + (-r)) by (nonlinear_arith)
            requires -c == m * q + r;
        if r != 0 {
            assert(c == m * (-q - 1) + (m - r)) by (nonlinear_arith)
                requires c == m * (-q) + (-r);
            vstd::arithmetic::div_mod::lemma_mod_multiples_vanish(-q - 1, m - r, m);
            vstd::arithmetic::div_mod::lemma_small_mod((m - r) as nat, m as nat);
        } else {
            vstd::arithmetic::div_mod::lemma_mod_multiples_vanish(-q, 0, m);
        }
    }
}

/// Every mode lands inside `[0, size)`.
pub proof fn lemma_resolve_in_range(mode: BoundaryMode, coord: int, size: int)
    requires
        size > 0,
    ensures
        0 <= resolve(mode, coord, size) < size,
{
    vstd::arithmetic::div_mod::lemma_mod_bound(coord, size);
    vstd::arithmetic::div_mod::lemma_mod_bound(coord, 2 * size);
}

/// A coordinate already inside `[0, size)` is left where it is, whatever the mode.
pub proof fn lemma_resolve_identity_in_range(mode: BoundaryMode, coord: int, size: int)
    requires
        0 <= coord < size,
    ensures
        resolve(mode, coord, size) == coord,
{
    vstd::arithmetic::div_mod::lemma_small_mod(coord as nat, size as nat);
    vstd::arithmetic::div_mod::lemma_small_mod(coord as nat, (2 * size) as nat);
}

/// Resolving a resolved coordinate changes nothing.
pub proof fn lemma_resolve_idempotent(mode: BoundaryMode, coord: int, size: int)
    requires
        size > 0,
    ensures
        resolve(mode, resolve(mode, coord, size), size) == resolve(mode, coord, size),
{
    lemma_resolve_in_range(mode, coord, size);
    lemma_resolve_identity_in_range(mode, resolve(mode, coord, size), size);
}

/// Wrap is periodic: shifting a coordinate by any multiple of the extent
/// reaches the same texel.
pub proof fn lemma_wrap_periodic(coord: int, k: int, size: int)
    requires
        size > 0,
    ensures
        resolve(BoundaryMode::Wrap, coord + k * size, size) == resolve(BoundaryMode::Wrap, coord, size),
{
    vstd::arithmetic::div_mod::lemma_mod_multiples_vanish(k, coord, size);
    assert(coord + k * size == size * k + coord) by (nonlinear_arith);
}

/// Mirror is periodic with twice the extent.
pub proof fn lemma_mirror_periodic(coord: int, k: int, size: int)
    requires
        size > 0,
    ensures
        resolve(BoundaryMode::Mirror, coord + k * (2 * size), size) == resolve(BoundaryMode::Mirror, coord, size),
{
    vstd::arithmetic::div_mod::lemma_mod_multiples_vanish(k, coord, 2 * size);
    assert(coord + k * (2 * size) == (2 * size) * k + coord) by (nonlinear_arith);
}

/// Mirror reflects at the lower edge: `-1 - c` reaches the same texel as `c`
/// (so -1 reads 0, -2 reads 1, and so on).
pub proof fn lemma_mirror_reflects(coord: int, size: int)
    requires
        size > 0,
    ensures
        resolve(BoundaryMode::Mirror, -1 - coord, size) == resolve(BoundaryMode::Mirror, coord, size),
{
    let p = 2 * size;
    let c = coord % p;
    vstd::arithmetic::div_mod::lemma_fundamental_div_mod(coord, p);
    vstd::arithmetic::div_mod::lemma_mod_bound(coord, p);
    let q = coord / p;
    // -1 - coord == p * (-q - 1) + (p - 1 - c), with 0 <= p - 1 - c < p
    assert(-1 - coord == p * (-q - 1) + (p - 1 - c)) by (nonlinear_arith)
        requires coord == p * q + c;
    vstd::arithmetic::div_mod::lemma_mod_multiples_vanish(-q - 1, p - 1 - c, p);
    vstd::arithmetic::div_mod::lemma_small_mod((p - 1 - c) as nat, p as nat);
}

/// Clamp sends everything below the range to its first texel and everything
/// above it to its last.
pub proof fn lemma_clamp_edges(coord: int, size: int)
    requires
        size > 0,
    ensures
        coord < 0 ==> resolve(BoundaryMode::Clamp, coord, size) == 0,
        coord >= size ==> resolve(BoundaryMode::Clamp, coord, size) == size - 1,
{
}

/// Mirror sends the band just above the range back down in reverse:
/// `size + k` goes to `size - 1 - k`.
pub proof fn lemma_mirror_upper_band(coord: int, size: int)
    requires
        size <= coord < 2 * size,
    ensures
        resolve(BoundaryMode::Mirror, coord, size) == 2 * size - 1 - coord,
{
    vstd::arithmetic::div_mod::lemma_small_mod(coord as nat, (2 * size) as nat);
}

/// Wrap sends the band just below the range, and the one just above it, one
/// extent up and down respectively.
pub proof fn lemma_wrap_adjacent_bands(coord: int, size: int)
    requires
        size > 0,
    ensures
        -size <= coord < 0 ==> resolve(BoundaryMode::Wrap, coord, size) == coord + size,
        size <= coord < 2 * size ==> resolve(BoundaryMode::Wrap, coord, size) == coord - size,
{
    if -size <= coord < 0 {
        vstd::arithmetic::div_mod::lemma_mod_multiples_vanish(-1, coord + size, size);
        vstd::arithmetic::div_mod::lemma_small_mod((coord + size) as nat, size as nat);
    }
    if size <= coord < 2 * size {
        vstd::arithmetic::div_mod::lemma_mod_multiples_vanish(1, coord - size, size);
        vstd::arithmetic::div_mod::lemma_small_mod((coord - size) as nat, size as nat);
    }
}

impl BoundaryMode {
    /// `apply` on an extent larger than any `i64`: every non-negative
    /// coordinate is inside it, and a negative one lies less than one extent
    /// below it.
    fn apply_beyond_i64(mode: BoundaryMode, coord: i64, size: u64) -> (r: u64)
        requires
            size > i64::MAX,
        ensures
            r == resolve(mode, coord as int, size as int),
    {
        let ghost c = coord as int;
        let ghost n = size as int;
        if coord >= 0 {
            proof {
                lemma_resolve_identity_in_range(mode, c, n);
            }
            return coord as u64;
        }
        // The distance below zero, `-coord`, computed without overflowing `i64`.
        let below = ((-(coord + 1)) as u64) + 1;
        assert(below == -c);
        match mode {
            BoundaryMode::Clamp => 0,
            BoundaryMode::Wrap => {
                proof {
                    // coord == n * (-1) + (n + coord), with 0 <= n + coord < n
                    vstd::arithmetic::div_mod::lemma_mod_multiples_vanish(-1, n + c, n);
                    vstd::arithmetic::div_mod::lemma_small_mod((n + c) as nat, n as nat);
                }
                size - below
            },
            BoundaryMode::Mirror => {
                proof {
                    // coord == (2n) * (-1) + (2n + coord), with n <= 2n + coord < 2n
                    vstd::arithmetic::div_mod::lemma_mod_multiples_vanish(-1, 2 * n + c, 2 * n);
                    vstd::arithmetic::div_mod::lemma_small_mod((2 * n + c) as nat, (2 * n) as nat);
                }
                below - 1
            },
        }
    }

    /// Apply the boundary mode to a coordinate within the given size.
    ///
    /// A size of zero gives 0.
    pub fn apply(&self, coord: i64, size: u64) -> (r: u64)
        requires
            apply_fits(*self, coord, size),
        ensures
            r == apply_spec(*self, coord, size),
            size > 0 ==> r < size,
    {
        if size == 0 {
            return 0;
        }
        proof {
            lemma_resolve_in_range(*self, coord as int, size as int);
        }
        if size > i64::MAX as u64 {
            return Self::apply_beyond_i64(*self, coord, size);
        }
        let size = size as i64;
        match self {
            BoundaryMode::Clamp => {
                if coord < 0 {
                    0
                } else if coord > size - 1 {
                    (size - 1) as u64
                } else {
                    coord as u64
                }
            },
            BoundaryMode::Wrap => {
                let result = coord % size;
                proof {
                    lemma_truncated_rem_corrected(coord as int, size as int);
                }
                if result < 0 {
                    (result + size) as u64
                } else {
                    result as u64
                }
            },
            BoundaryMode::Mirror => {
                let mut c = coord;
                let period = 2 * size;
                let t = c % period;
                proof {
                    lemma_truncated_rem_corrected(coord as int, period as int);
                }
                c = (t + period) % period;
                assert(c == (coord as int) % (period as int)) by {
                    let p = period as int;
                    if coord >= 0 {
                        assert(t == (coord as int) % p);
                        vstd::arithmetic::div_mod::lemma_small_mod((t + p - p) as nat, p as nat);
                        vstd::arithmetic::div_mod::lemma_mod_multiples_vanish(1, t as int, p);
                        assert(p * 1 == p);
                    } else if t != 0 {
                        assert(t == -((-(coord as int)) % p));
                        vstd::arithmetic::div_mod::lemma_small_mod((t + p) as nat, p as nat);
                    } else {
                        assert((-(coord as int)) % p == 0);
                        vstd::arithmetic::div_mod::lemma_mod_self_0(p);
                    }
                }
                if c >= size {
                    (2 * size - 1 - c) as u64
                } else {
                    c as u64
                }
            },
        }
    }
}

} // verus!
