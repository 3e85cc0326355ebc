//! One-dimensional textures.

use vstd::prelude::*;
use crate::boundary::{
    BoundaryMode, apply_spec, apply_fits, lemma_resolve_identity_in_range, lemma_resolve_in_range,
    lemma_mirror_periodic, lemma_mirror_reflects, lemma_mirror_upper_band, lemma_wrap_periodic,
    lemma_wrap_adjacent_bands,
};
use crate::error::{TextureError, coord_1d, size_1d, coord_1d_text, size_1d_text};
use crate::sampler::Sampler;
use crate::ternary::Ternary;

verus! {

/// What a 1D read returns: Unknown on an empty texture, else the texel that
/// the boundary mode picks for `x`.
pub open spec fn read_1d(cells: Seq<Ternary>, x: i64, mode: BoundaryMode) -> Ternary {
    if cells.len() == 0 {
        Ternary::Unknown
    } else {
        cells[apply_spec(mode, x, cells.len() as u64)]
    }
}

/// A sequence of `n` copies of `value`.
pub open spec fn filled(n: nat, value: Ternary) -> Seq<Ternary> {
    Seq::new(n, |i: int| value)
}

/// Builds a vector of `n` copies of `value`.
pub(crate) fn fill_vec(n: usize, value: Ternary) -> (v: Vec<Ternary>)
    ensures
        v@ == filled(n as nat, value),
{
    let mut v: Vec<Ternary> = Vec::with_capacity(n);
    let mut i: usize = 0;
    while i < n
        invariant
            i <= n,
            v@ == filled(i as nat, value),
        decreases n - i,
    {
        v.push(value);
        i = i + 1;
    }
    v
}

/// A read at a coordinate inside the texture returns that texel, whatever the
/// boundary mode.
pub proof fn lemma_read_in_range_1d(cells: Seq<Ternary>, x: int, mode: BoundaryMode)
    requires
        0 <= x < cells.len(),
        x <= i64::MAX,
        cells.len() <= u64::MAX,
    ensures
        read_1d(cells, x as i64, mode) == cells[x],
{
    lemma_resolve_identity_in_range(mode, x, cells.len() as int);
}

/// A read of a non-empty texture lands on one of its texels.
pub proof fn lemma_read_lands_1d(cells: Seq<Ternary>, x: i64, mode: BoundaryMode)
    requires
        0 < cells.len() <= u64::MAX,
    ensures
        0 <= apply_spec(mode, x, cells.len() as u64) < cells.len(),
{
    lemma_resolve_in_range(mode, x as int, cells.len() as int);
}

/// What a write stores at `x`, a read at `x` gives back; a read at any other
/// coordinate inside the texture is unaffected.
pub proof fn lemma_read_after_write_1d(
    cells: Seq<Ternary>,
    x: int,
    value: Ternary,
    other: int,
    mode: BoundaryMode,
)
    requires
        0 <= x < cells.len(),
        0 <= other < cells.len(),
        x <= i64::MAX,
        other <= i64::MAX,
        cells.len() <= u64::MAX,
    ensures
        read_1d(cells.update(x, value), x as i64, mode) == value,
        other != x ==> read_1d(cells.update(x, value), other as i64, mode) == read_1d(
            cells,
            other as i64,
            mode,
        ),
{
    lemma_read_in_range_1d(cells.update(x, value), x, mode);
    lemma_read_in_range_1d(cells.update(x, value), other, mode);
    lemma_read_in_range_1d(cells, other, mode);
}

/// Every read of a non-empty constant texture gives its value.
pub proof fn lemma_read_constant_1d(n: nat, value: Ternary, x: i64, mode: BoundaryMode)
    requires
        0 < n <= u64::MAX,
    ensures
        read_1d(filled(n, value), x, mode) == value,
{
    lemma_read_lands_1d(filled(n, value), x, mode);
}

/// Clamp reads below the texture give its first texel and reads past its end
/// give its last.
pub proof fn lemma_read_clamp_1d(cells: Seq<Ternary>, x: i64)
    requires
        0 < cells.len() <= u64::MAX,
    ensures
        x < 0 ==> read_1d(cells, x, BoundaryMode::Clamp) == cells[0],
        x >= cells.len() ==> read_1d(cells, x, BoundaryMode::Clamp) == cells[cells.len() - 1],
{
}

/// Wrap reads repeat with period `len`: a read one length further on gives
/// the same texel, a read just below the start gives the texel one length up,
/// and a read just past the end the texel one length down.
pub proof fn lemma_read_wrap_1d(cells: Seq<Ternary>, x: i64, x2: i64)
    requires
        0 < cells.len() <= u64::MAX,
    ensures
        x2 == x + cells.len() ==> read_1d(cells, x2, BoundaryMode::Wrap) == read_1d(cells, x, BoundaryMode::Wrap),
        -cells.len() <= x < 0 ==> read_1d(cells, x, BoundaryMode::Wrap) == cells[x + cells.len()],
        cells.len() <= x < 2 * cells.len() ==> read_1d(cells, x, BoundaryMode::Wrap) == cells[x - cells.len()],
{
    let n = cells.len() as int;
    lemma_wrap_periodic(x as int, 1, n);
    lemma_wrap_adjacent_bands(x as int, n);
}

/// Mirror reads reflect at both edges and repeat with period `2 * len`: a read
/// at `-1 - x` gives the same texel as one at `x`, a read `2 * len` further on
/// gives the same texel, and a read at `len + k` (for `k < len`) gives the
/// texel `len - 1 - k`.
pub proof fn lemma_read_mirror_1d(cells: Seq<Ternary>, x: i64, x2: i64)
    requires
        0 < cells.len() <= u64::MAX,
    ensures
        x2 == -1 - x ==> read_1d(cells, x2, BoundaryMode::Mirror) == read_1d(cells, x, BoundaryMode::Mirror),
        x2 == x + 2 * cells.len() ==> read_1d(cells, x2, BoundaryMode::Mirror) == read_1d(
            cells,
            x,
            BoundaryMode::Mirror,
        ),
        cells.len() <= x < 2 * cells.len() ==> read_1d(cells, x, BoundaryMode::Mirror) == cells[2
            * cells.len() - 1 - x],
{
    let n = cells.len() as int;
    lemma_mirror_reflects(x as int, n);
    lemma_mirror_periodic(x as int, 1, n);
    if n <= x < 2 * n {
        lemma_mirror_upper_band(x as int, n);
    }
}

/// 1D texture for ternary data with spatially cached access.
#[derive(Debug, Clone)]
pub struct Texture1D {
    /// Data elements.
    data: Vec<Ternary>,
}

impl Texture1D {
    /// The texels, in order.
    pub closed spec fn cells(&self) -> Seq<Ternary> {
        self.data@
    }

    /// Create a 1D texture from data.
    pub fn new(data: Vec<Ternary>) -> (t: Self)
        ensures
            t.cells() == data@,
    {
        Self { data }
    }

    /// Create a 1D texture filled with a constant value.
    pub fn constant(size: usize, value: Ternary) -> (t: Self)
        ensures
            t.cells() == filled(size as nat, value),
    {
        Self::new(fill_vec(size, value))
    }

    /// Width of the texture.
    pub fn width(&self) -> (w: usize)
        ensures
            w == self.cells().len(),
    {
        self.data.len()
    }

    /// Direct read at an integer coordinate with boundary handling.
    pub fn read(&self, x: i64, sampler: &Sampler) -> (v: Ternary)
        requires
            apply_fits(sampler.boundary, x, self.cells().len() as u64),
        ensures
            v == read_1d(self.cells(), x, sampler.boundary),
    {
        if self.data.len() == 0 {
            return Ternary::Unknown;
        }
        let ux = sampler.boundary.apply(x, self.data.len() as u64) as usize;
        self.data[ux]
    }

    /// Write a value at an integer coordinate.
    pub fn write(&mut self, x: usize, value: Ternary) -> (r: Result<(), TextureError>)
        ensures
            x < old(self).cells().len() ==> {
                &&& r is Ok
                &&& final(self).cells() == old(self).cells().update(x as int, value)
            },
            x >= old(self).cells().len() ==> {
                &&& r matches Err(TextureError::OutOfBounds { coord, size })
                &&& coord@ == coord_1d_text(x as nat)
                &&& size@ == size_1d_text(old(self).cells().len())
                &&& final(self).cells() == old(self).cells()
            },
    {
        if x >= self.data.len() {
            return Err(TextureError::OutOfBounds { coord: coord_1d(x), size: size_1d(self.data.len()) });
        }
        self.data.set(x, value);
        Ok(())
    }

    /// Get raw data reference.
    pub fn data(&self) -> (d: &[Ternary])
        ensures
            d@ == self.cells(),
    {
        self.data.as_slice()
    }
}

} // verus!
