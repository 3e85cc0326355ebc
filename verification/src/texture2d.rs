//! Two-dimensional textures, stored row by row.

use vstd::prelude::*;
use crate::boundary::{
    BoundaryMode, apply_spec, apply_fits, lemma_resolve_identity_in_range, lemma_resolve_in_range,
    lemma_mirror_periodic, lemma_mirror_reflects, lemma_wrap_periodic,
};
use crate::error::{TextureError, coord_2d, size_2d, coord_2d_text, size_2d_text};
use crate::sampler::Sampler;
use crate::ternary::Ternary;
use crate::texture1d::{filled, fill_vec};

verus! {

/// What a 2D read returns: Unknown on an empty texture, else the texel that
/// the boundary mode picks for `x` across the width and for `y` down the height.
pub open spec fn read_2d(
    cells: Seq<Ternary>,
    width: nat,
    height: nat,
    x: i64,
    y: i64,
    mode: BoundaryMode,
) -> Ternary {
    if cells.len() == 0 {
        Ternary::Unknown
    } else {
        cells[apply_spec(mode, y, height as u64) * width + apply_spec(mode, x, width as u64)]
    }
}

/// Distinct coordinate pairs inside the grid have distinct storage positions.
pub proof fn lemma_index_2d_injective(width: int, x1: int, y1: int, x2: int, y2: int)
    requires
        0 <= x1 < width,
        0 <= x2 < width,
        0 <= y1,
        0 <= y2,
        (x1, y1) != (x2, y2),
    ensures
        y1 * width + x1 != y2 * width + x2,
{
    if y1 < y2 {
        assert(y1 * width + x1 < y2 * width + x2) by (nonlinear_arith)
            requires 0 <= x1 < width, 0 <= x2, y1 < y2;
    } else if y2 < y1 {
        assert(y2 * width + x2 < y1 * width + x1) by (nonlinear_arith)
            requires 0 <= x2 < width, 0 <= x1, y2 < y1;
    }
}

/// A read at a coordinate pair inside the texture returns that texel,
/// whatever the boundary mode.
pub proof fn lemma_read_in_range_2d(
    cells: Seq<Ternary>,
    width: nat,
    height: nat,
    x: int,
    y: int,
    mode: BoundaryMode,
)
    requires
        cells.len() == width * height,
        0 <= x <= i64::MAX,
        x < width <= u64::MAX,
        0 <= y <= i64::MAX,
        y < height <= u64::MAX,
    ensures
        read_2d(cells, width, height, x as i64, y as i64, mode) == cells[y * width + x],
{
    lemma_resolve_identity_in_range(mode, x, width as int);
    lemma_resolve_identity_in_range(mode, y, height as int);
    assert(cells.len() > 0) by (nonlinear_arith)
        requires cells.len() == width * height, 0 <= x < width, 0 <= y < height;
}

/// A read of a non-empty texture lands on one of its texels.
pub proof fn lemma_read_lands_2d(
    cells: Seq<Ternary>,
    width: nat,
    height: nat,
    x: i64,
    y: i64,
    mode: BoundaryMode,
)
    requires
        cells.len() == width * height,
        cells.len() > 0,
        width <= u64::MAX,
        height <= u64::MAX,
    ensures
        0 <= apply_spec(mode, y, height as u64) * width + apply_spec(mode, x, width as u64) < cells.len(),
{
    assert(width > 0 && height > 0) by (nonlinear_arith)
        requires cells.len() == width * height, cells.len() > 0;
    lemma_resolve_in_range(mode, x as int, width as int);
    lemma_resolve_in_range(mode, y as int, height as int);
    let ux = apply_spec(mode, x, width as u64);
    let uy = apply_spec(mode, y, height as u64);
    assert(0 <= uy * width + ux < width * height) by (nonlinear_arith)
        requires 0 <= ux < width, 0 <= uy < height;
}

/// What a write stores at `(x, y)`, a read at `(x, y)` gives back; a read at
/// any other coordinate pair inside the texture is unaffected.
pub proof fn lemma_read_after_write_2d(
    cells: Seq<Ternary>,
    width: nat,
    height: nat,
    x: int,
    y: int,
    value: Ternary,
    ox: int,
    oy: int,
    mode: BoundaryMode,
)
    requires
        cells.len() == width * height,
        0 <= x <= i64::MAX,
        x < width <= u64::MAX,
        0 <= y <= i64::MAX,
        y < height <= u64::MAX,
        0 <= ox <= i64::MAX,
        ox < width,
        0 <= oy <= i64::MAX,
        oy < height,
    ensures
        read_2d(cells.update(y * width + x, value), width, height, x as i64, y as i64, mode) == value,
        (ox, oy) != (x, y) ==> read_2d(
            cells.update(y * width + x, value),
            width,
            height,
            ox as i64,
            oy as i64,
            mode,
        ) == read_2d(cells, width, height, ox as i64, oy as i64, mode),
{
    assert(y * width + x < width * height) by (nonlinear_arith)
        requires 0 <= x < width, 0 <= y < height;
    assert(0 <= y * width) by (nonlinear_arith)
        requires 0 <= y, 0 <= width;
    assert(0 <= oy * width + ox < width * height) by (nonlinear_arith)
        requires 0 <= ox <= i64::MAX,
        ox < width, 0 <= oy < height;
    let updated = cells.update(y * width + x, value);
    lemma_read_in_range_2d(updated, width, height, x, y, mode);
    lemma_read_in_range_2d(updated, width, height, ox, oy, mode);
    lemma_read_in_range_2d(cells, width, height, ox, oy, mode);
    if (ox, oy) != (x, y) {
        lemma_index_2d_injective(width as int, x, y, ox, oy);
    }
}

/// Every read of a non-empty constant texture gives its value.
pub proof fn lemma_read_constant_2d(
    width: nat,
    height: nat,
    value: Ternary,
    x: i64,
    y: i64,
    mode: BoundaryMode,
)
    requires
        width * height > 0,
        width <= u64::MAX,
        height <= u64::MAX,
    ensures
        read_2d(filled(width * height, value), width, height, x, y, mode) == value,
{
    lemma_read_lands_2d(filled(width * height, value), width, height, x, y, mode);
}

/// Clamp reads outside the texture give the texel on its nearest edge: left of
/// it the first column, right of it the last column, above it the first row,
/// below it the last row (each axis on its own).
pub proof fn lemma_read_clamp_2d(
    cells: Seq<Ternary>,
    width: nat,
    height: nat,
    x: i64,
    y: i64,
    x2: i64,
    y2: i64,
)
    requires
        cells.len() == width * height,
        cells.len() > 0,
        width <= u64::MAX,
        height <= u64::MAX,
    ensures
        x < 0 && x2 == 0 && y2 == y ==> read_2d(cells, width, height, x, y, BoundaryMode::Clamp)
            == read_2d(cells, width, height, x2, y2, BoundaryMode::Clamp),
        x >= width && x2 == width - 1 && y2 == y ==> read_2d(
            cells,
            width,
            height,
            x,
            y,
            BoundaryMode::Clamp,
        ) == read_2d(cells, width, height, x2, y2, BoundaryMode::Clamp),
        y < 0 && y2 == 0 && x2 == x ==> read_2d(cells, width, height, x, y, BoundaryMode::Clamp)
            == read_2d(cells, width, height, x2, y2, BoundaryMode::Clamp),
        y >= height && y2 == height - 1 && x2 == x ==> read_2d(
            cells,
            width,
            height,
            x,
            y,
            BoundaryMode::Clamp,
        ) == read_2d(cells, width, height, x2, y2, BoundaryMode::Clamp),
{
    assert(width > 0 && height > 0) by (nonlinear_arith)
        requires cells.len() == width * height, cells.len() > 0;
}

/// Wrap reads repeat with period `width` across and `height` down.
pub proof fn lemma_read_wrap_2d(
    cells: Seq<Ternary>,
    width: nat,
    height: nat,
    x: i64,
    y: i64,
    x2: i64,
    y2: i64,
)
    requires
        cells.len() == width * height,
        cells.len() > 0,
        width <= u64::MAX,
        height <= u64::MAX,
    ensures
        x2 == x + width && y2 == y ==> read_2d(cells, width, height, x2, y2, BoundaryMode::Wrap)
            == read_2d(cells, width, height, x, y, BoundaryMode::Wrap),
        x2 == x && y2 == y + height ==> read_2d(cells, width, height, x2, y2, BoundaryMode::Wrap)
            == read_2d(cells, width, height, x, y, BoundaryMode::Wrap),
{
    assert(width > 0 && height > 0) by (nonlinear_arith)
        requires cells.len() == width * height, cells.len() > 0;
    lemma_wrap_periodic(x as int, 1, width as int);
    lemma_wrap_periodic(y as int, 1, height as int);
}

/// Mirror reads reflect at every edge, across (`-1 - x` reads as `x`) and down
/// (`-1 - y` reads as `y`), and repeat with period `2 * width` across and
/// `2 * height` down.
pub proof fn lemma_read_mirror_2d(
    cells: Seq<Ternary>,
    width: nat,
    height: nat,
    x: i64,
    y: i64,
    x2: i64,
    y2: i64,
)
    requires
        cells.len() == width * height,
        cells.len() > 0,
        width <= u64::MAX,
        height <= u64::MAX,
    ensures
        x2 == -1 - x && y2 == y ==> read_2d(cells, width, height, x2, y2, BoundaryMode::Mirror)
            == read_2d(cells, width, height, x, y, BoundaryMode::Mirror),
        x2 == x && y2 == -1 - y ==> read_2d(cells, width, height, x2, y2, BoundaryMode::Mirror)
            == read_2d(cells, width, height, x, y, BoundaryMode::Mirror),
        x2 == x + 2 * width && y2 == y ==> read_2d(
            cells,
            width,
            height,
            x2,
            y2,
            BoundaryMode::Mirror,
        ) == read_2d(cells, width, height, x, y, BoundaryMode::Mirror),
        x2 == x && y2 == y + 2 * height ==> read_2d(
            cells,
            width,
            height,
            x2,
            y2,
            BoundaryMode::Mirror,
        ) == read_2d(cells, width, height, x, y, BoundaryMode::Mirror),
{
    assert(width > 0 && height > 0) by (nonlinear_arith)
        requires cells.len() == width * height, cells.len() > 0;
    lemma_mirror_reflects(x as int, width as int);
    lemma_mirror_reflects(y as int, height as int);
    lemma_mirror_periodic(x as int, 1, width as int);
    lemma_mirror_periodic(y as int, 1, height as int);
}

/// 2D texture for ternary data with spatially cached access.
#[derive(Debug, Clone)]
pub struct Texture2D {
    data: Vec<Ternary>,
    width: usize,
    height: usize,
}

impl Texture2D {
    /// The texels, row by row.
    pub closed spec fn cells(&self) -> Seq<Ternary> {
        self.data@
    }

    /// The width (texels per row).
    pub closed spec fn width_spec(&self) -> nat {
        self.width as nat
    }

    /// The height (number of rows).
    pub closed spec fn height_spec(&self) -> nat {
        self.height as nat
    }

    /// There is one texel per coordinate pair.
    pub open spec fn wf(&self) -> bool {
        self.cells().len() == self.width_spec() * self.height_spec()
    }

    /// Create a 2D texture from flat data with given dimensions.
    pub fn new(data: Vec<Ternary>, width: usize, height: usize) -> (r: Result<Self, TextureError>)
        requires
            width * height <= usize::MAX,
        ensures
            data@.len() == width * height ==> (r matches Ok(t) && t.wf() && t.cells() == data@
                && t.width_spec() == width && t.height_spec() == height),
            data@.len() != width * height ==> r == Err::<Self, TextureError>(
                TextureError::SizeMismatch { expected: (width * height) as usize, actual: data@.len() as usize },
            ),
    {
        if data.len() != width * height {
            return Err(TextureError::SizeMismatch { expected: width * height, actual: data.len() });
        }
        Ok(Self { data, width, height })
    }

    /// Create a 2D texture filled with a constant value.
    pub fn constant(width: usize, height: usize, value: Ternary) -> (t: Self)
        requires
            width * height <= usize::MAX,
        ensures
            t.wf(),
            t.cells() == filled((width * height) as nat, value),
            t.width_spec() == width,
            t.height_spec() == height,
    {
        Self { data: fill_vec(width * height, value), width, height }
    }

    /// Dimensions of the texture.
    pub fn dimensions(&self) -> (d: (usize, usize))
        ensures
            d.0 == self.width_spec(),
            d.1 == self.height_spec(),
    {
        (self.width, self.height)
    }

    fn flat_index(&self, x: usize, y: usize) -> (i: usize)
        requires
            self.wf(),
            x < self.width,
            y < self.height,
        ensures
            i == y * self.width + x,
            i < self.data@.len(),
    {
        proof {
            assert(self.width * self.height <= usize::MAX) by {
                assert(self.data@.len() == self.data.len());
            }
            assert(y * self.width + x < self.width * self.height) by (nonlinear_arith)
                requires
                    x < self.width,
                    y < self.height,
            ;
        }
        y * self.width + x
    }

    /// Direct read at integer coordinates with boundary handling.
    pub fn read(&self, x: i64, y: i64, sampler: &Sampler) -> (v: Ternary)
        requires
            self.wf(),
            self.cells().len() > 0 ==> apply_fits(sampler.boundary, x, self.width_spec() as u64),
            self.cells().len() > 0 ==> apply_fits(sampler.boundary, y, self.height_spec() as u64),
        ensures
            v == read_2d(self.cells(), self.width_spec(), self.height_spec(), x, y, sampler.boundary),
    {
        if self.data.len() == 0 {
            return Ternary::Unknown;
        }
        proof {
            assert(self.width > 0 && self.height > 0) by (nonlinear_arith)
                requires
                    self.data@.len() == self.width * self.height,
                    self.data@.len() > 0,
            ;
        }
        let ux = sampler.boundary.apply(x, self.width as u64) as usize;
        let uy = sampler.boundary.apply(y, self.height as u64) as usize;
        self.data[self.flat_index(ux, uy)]
    }

    /// Write a value at integer coordinates.
    pub fn write(&mut self, x: usize, y: usize, value: Ternary) -> (r: Result<(), TextureError>)
        requires
            old(self).wf(),
        ensures
            final(self).wf(),
            final(self).width_spec() == old(self).width_spec(),
            final(self).height_spec() == old(self).height_spec(),
            x < old(self).width_spec() && y < old(self).height_spec() ==> {
                &&& r is Ok
                &&& final(self).cells() == old(self).cells().update(
                    y * old(self).width_spec() + x,
                    value,
                )
            },
            !(x < old(self).width_spec() && y < old(self).height_spec()) ==> {
                &&& r matches Err(TextureError::OutOfBounds { coord, size })
                &&& coord@ == coord_2d_text(x as nat, y as nat)
                &&& size@ == size_2d_text(old(self).width_spec(), old(self).height_spec())
                &&& final(self).cells() == old(self).cells()
            },
    {
        if x >= self.width || y >= self.height {
            return Err(TextureError::OutOfBounds { coord: coord_2d(x, y), size: size_2d(self.width, self.height) });
        }
        let idx = self.flat_index(x, y);
        self.data.set(idx, value);
        Ok(())
    }

    /// Get raw data reference.
    pub fn data(&self) -> (d: &[Ternary])
        ensures
            d@ == self.cells(),
    {
        self.data.as_slice()
    }
}

} // verus!
