//! Three-dimensional textures, stored slice by slice, each slice row by row.

use vstd::prelude::*;
use crate::boundary::{
    BoundaryMode, apply_spec, apply_fits, lemma_resolve_identity_in_range, lemma_resolve_in_range,
    lemma_mirror_periodic, lemma_mirror_reflects, lemma_wrap_periodic,
};
use crate::error::{TextureError, coord_3d, size_3d, coord_3d_text, size_3d_text};
use crate::sampler::Sampler;
use crate::ternary::Ternary;
use crate::texture1d::{filled, fill_vec};

verus! {

/// The position of texel `(x, y, z)` in the flat storage.
pub open spec fn index_3d(width: nat, height: nat, x: int, y: int, z: int) -> int {
    z * width * height + y * width + x
}

/// What a 3D read returns: Unknown on an empty texture, else the texel that
/// the boundary mode picks along each of the three axes.
pub open spec fn read_3d(
    cells: Seq<Ternary>,
    width: nat,
    height: nat,
    depth: nat,
    x: i64,
    y: i64,
    z: i64,
    mode: BoundaryMode,
) -> Ternary {
    if cells.len() == 0 {
        Ternary::Unknown
    } else {
        cells[index_3d(
            width,
            height,
            apply_spec(mode, x, width as u64),
            apply_spec(mode, y, height as u64),
            apply_spec(mode, z, depth as u64),
        )]
    }
}

/// The extents can be multiplied, as the constructors do, without overflow.
pub open spec fn volume_fits(width: nat, height: nat, depth: nat) -> bool {
    &&& width * height <= usize::MAX
    &&& width * height * depth <= usize::MAX
}

/// 3D texture for ternary data with spatially cached access.
#[derive(Debug, Clone)]
pub struct Texture3D {
    data: Vec<Ternary>,
    width: usize,
    height: usize,
    depth: usize,
}

proof fn lemma_index_3d_bound(w: int, h: int, d: int, x: int, y: int, z: int)
    requires
        0 <= x < w,
        0 <= y < h,
        0 <= z < d,
    ensures
        0 <= z * w * h,
        z * w * h <= z * w * h + y * w,
        z * w * h + y * w + x < w * h * d,
        z * w <= w * h * d,
{
    assert(0 <= z * w * h) by (nonlinear_arith)
        requires 0 <= z, 0 <= w, 0 <= h;
    assert(0 <= y * w) by (nonlinear_arith)
        requires 0 <= y, 0 <= w;
    assert(y * w + x < w * h) by (nonlinear_arith)
        requires 0 <= x < w, 0 <= y < h;
    assert(z * w * h + w * h <= w * h * d) by (nonlinear_arith)
        requires 0 <= z < d, 0 <= w, 0 <= h;
    assert(z * w <= w * h * d) by (nonlinear_arith)
        requires 0 <= z < d, 0 <= w, 1 <= h;
}

/// Coordinate triples inside the volume have storage positions inside it, and
/// distinct triples have distinct positions.
pub proof fn lemma_index_3d(
    width: nat,
    height: nat,
    depth: nat,
    x1: int,
    y1: int,
    z1: int,
    x2: int,
    y2: int,
    z2: int,
)
    requires
        0 <= x1 < width,
        0 <= y1 < height,
        0 <= z1 < depth,
        0 <= x2 < width,
        0 <= y2 < height,
        0 <= z2 < depth,
    ensures
        0 <= index_3d(width, height, x1, y1, z1) < width * height * depth,
        (x1, y1, z1) != (x2, y2, z2) ==> index_3d(width, height, x1, y1, z1) != index_3d(
            width,
            height,
            x2,
            y2,
            z2,
        ),
{
    let w = width as int;
    let h = height as int;
    lemma_index_3d_bound(w, h, depth as int, x1, y1, z1);
    let p1 = y1 * w + x1;
    let p2 = y2 * w + x2;
    assert(0 <= p1 < w * h && 0 <= p2 < w * h) by (nonlinear_arith)
        requires 0 <= x1 < w, 0 <= y1 < h, 0 <= x2 < w, 0 <= y2 < h, p1 == y1 * w + x1, p2 == y2 * w + x2;
    assert(z1 * w * h == z1 * (w * h) && z2 * w * h == z2 * (w * h)) by (nonlinear_arith);
    if z1 < z2 {
        assert(z1 * (w * h) + p1 < z2 * (w * h) + p2) by (nonlinear_arith)
            requires 0 <= p1 < w * h, 0 <= p2, z1 < z2;
    } else if z2 < z1 {
        assert(z2 * (w * h) + p2 < z1 * (w * h) + p1) by (nonlinear_arith)
            requires 0 <= p2 < w * h, 0 <= p1, z2 < z1;
    } else if y1 < y2 {
        assert(p1 < p2) by (nonlinear_arith)
            requires 0 <= x1 < w, 0 <= x2, y1 < y2, p1 == y1 * w + x1, p2 == y2 * w + x2;
    } else if y2 < y1 {
        assert(p2 < p1) by (nonlinear_arith)
            requires 0 <= x2 < w, 0 <= x1, y2 < y1, p1 == y1 * w + x1, p2 == y2 * w + x2;
    }
}

/// A read at a coordinate triple inside the texture returns that texel,
/// whatever the boundary mode.
pub proof fn lemma_read_in_range_3d(
    cells: Seq<Ternary>,
    width: nat,
    height: nat,
    depth: nat,
    x: int,
    y: int,
    z: int,
    mode: BoundaryMode,
)
    requires
        cells.len() == width * height * depth,
        0 <= x <= i64::MAX,
        x < width <= u64::MAX,
        0 <= y <= i64::MAX,
        y < height <= u64::MAX,
        0 <= z <= i64::MAX,
        z < depth <= u64::MAX,
    ensures
        read_3d(cells, width, height, depth, x as i64, y as i64, z as i64, mode) == cells[index_3d(
            width,
            height,
            x,
            y,
            z,
        )],
{
    lemma_resolve_identity_in_range(mode, x, width as int);
    lemma_resolve_identity_in_range(mode, y, height as int);
    lemma_resolve_identity_in_range(mode, z, depth as int);
    lemma_index_3d(width, height, depth, x, y, z, x, y, z);
}

/// A read of a non-empty texture lands on one of its texels.
pub proof fn lemma_read_lands_3d(
    cells: Seq<Ternary>,
    width: nat,
    height: nat,
    depth: nat,
    x: i64,
    y: i64,
    z: i64,
    mode: BoundaryMode,
)
    requires
        cells.len() == width * height * depth,
        cells.len() > 0,
        width <= u64::MAX,
        height <= u64::MAX,
        depth <= u64::MAX,
    ensures
        0 <= index_3d(
            width,
            height,
            apply_spec(mode, x, width as u64),
            apply_spec(mode, y, height as u64),
            apply_spec(mode, z, depth as u64),
        ) < cells.len(),
{
    assert(width > 0 && height > 0 && depth > 0) by (nonlinear_arith)
        requires cells.len() == width * height * depth, cells.len() > 0;
    lemma_resolve_in_range(mode, x as int, width as int);
    lemma_resolve_in_range(mode, y as int, height as int);
    lemma_resolve_in_range(mode, z as int, depth as int);
    let ux = apply_spec(mode, x, width as u64);
    let uy = apply_spec(mode, y, height as u64);
    let uz = apply_spec(mode, z, depth as u64);
    lemma_index_3d(width, height, depth, ux, uy, uz, ux, uy, uz);
}

/// What a write stores at `(x, y, z)`, a read there gives back; a read at any
/// other coordinate triple inside the texture is unaffected.
pub proof fn lemma_read_after_write_3d(
    cells: Seq<Ternary>,
    width: nat,
    height: nat,
    depth: nat,
    x: int,
    y: int,
    z: int,
    value: Ternary,
    ox: int,
    oy: int,
    oz: int,
    mode: BoundaryMode,
)
    requires
        cells.len() == width * height * depth,
        0 <= x <= i64::MAX,
        x < width <= u64::MAX,
        0 <= y <= i64::MAX,
        y < height <= u64::MAX,
        0 <= z <= i64::MAX,
        z < depth <= u64::MAX,
        0 <= ox <= i64::MAX,
        ox < width,
        0 <= oy <= i64::MAX,
        oy < height,
        0 <= oz <= i64::MAX,
        oz < depth,
    ensures
        read_3d(
            cells.update(index_3d(width, height, x, y, z), value),
            width,
            height,
            depth,
            x as i64,
            y as i64,
            z as i64,
            mode,
        ) == value,
        (ox, oy, oz) != (x, y, z) ==> read_3d(
            cells.update(index_3d(width, height, x, y, z), value),
            width,
            height,
            depth,
            ox as i64,
            oy as i64,
            oz as i64,
            mode,
        ) == read_3d(cells, width, height, depth, ox as i64, oy as i64, oz as i64, mode),
{
    lemma_index_3d(width, height, depth, x, y, z, ox, oy, oz);
    lemma_index_3d(width, height, depth, ox, oy, oz, x, y, z);
    let updated = cells.update(index_3d(width, height, x, y, z), value);
    lemma_read_in_range_3d(updated, width, height, depth, x, y, z, mode);
    lemma_read_in_range_3d(updated, width, height, depth, ox, oy, oz, mode);
    lemma_read_in_range_3d(cells, width, height, depth, ox, oy, oz, mode);
}

/// Every read of a non-empty constant texture gives its value.
pub proof fn lemma_read_constant_3d(
    width: nat,
    height: nat,
    depth: nat,
    value: Ternary,
    x: i64,
    y: i64,
    z: i64,
    mode: BoundaryMode,
)
    requires
        width * height * depth > 0,
        width <= u64::MAX,
        height <= u64::MAX,
        depth <= u64::MAX,
    ensures
        read_3d(filled(width * height * depth, value), width, height, depth, x, y, z, mode) == value,
{
    lemma_read_lands_3d(filled(width * height * depth, value), width, height, depth, x, y, z, mode);
}

/// Reads at `(x, y, z)` and at `(x2, y2, z2)` give the same texel.
pub open spec fn same_read_3d(
    cells: Seq<Ternary>,
    width: nat,
    height: nat,
    depth: nat,
    mode: BoundaryMode,
    x: i64,
    y: i64,
    z: i64,
    x2: i64,
    y2: i64,
    z2: i64,
) -> bool {
    read_3d(cells, width, height, depth, x, y, z, mode) == read_3d(
        cells,
        width,
        height,
        depth,
        x2,
        y2,
        z2,
        mode,
    )
}

/// Clamp reads outside the volume give the texel on its nearest face, each
/// axis on its own: below an axis's range its first index, past it its last.
pub proof fn lemma_read_clamp_3d(
    cells: Seq<Ternary>,
    width: nat,
    height: nat,
    depth: nat,
    x: i64,
    y: i64,
    z: i64,
    x2: i64,
    y2: i64,
    z2: i64,
)
    requires
        cells.len() == width * height * depth,
        cells.len() > 0,
        width <= u64::MAX,
        height <= u64::MAX,
        depth <= u64::MAX,
    ensures
        x < 0 && x2 == 0 && y2 == y && z2 == z ==> same_read_3d(cells, width, height, depth, BoundaryMode::Clamp, x, y, z, x2, y2, z2),
        x >= width && x2 == width - 1 && y2 == y && z2 == z ==> same_read_3d(cells, width, height, depth, BoundaryMode::Clamp, x, y, z, x2, y2, z2),
        y < 0 && y2 == 0 && x2 == x && z2 == z ==> same_read_3d(cells, width, height, depth, BoundaryMode::Clamp, x, y, z, x2, y2, z2),
        y >= height && y2 == height - 1 && x2 == x && z2 == z ==> same_read_3d(cells, width, height, depth, BoundaryMode::Clamp, x, y, z, x2, y2, z2),
        z < 0 && z2 == 0 && x2 == x && y2 == y ==> same_read_3d(cells, width, height, depth, BoundaryMode::Clamp, x, y, z, x2, y2, z2),
        z >= depth && z2 == depth - 1 && x2 == x && y2 == y ==> same_read_3d(cells, width, height, depth, BoundaryMode::Clamp, x, y, z, x2, y2, z2),
{
    assert(width > 0 && height > 0 && depth > 0) by (nonlinear_arith)
        requires cells.len() == width * height * depth, cells.len() > 0;
}

/// Wrap reads repeat with period `width`, `height` and `depth` along the three axes.
pub proof fn lemma_read_wrap_3d(
    cells: Seq<Ternary>,
    width: nat,
    height: nat,
    depth: nat,
    x: i64,
    y: i64,
    z: i64,
    x2: i64,
    y2: i64,
    z2: i64,
)
    requires
        cells.len() == width * height * depth,
        cells.len() > 0,
        width <= u64::MAX,
        height <= u64::MAX,
        depth <= u64::MAX,
    ensures
        x2 == x + width && y2 == y && z2 == z ==> same_read_3d(cells, width, height, depth, BoundaryMode::Wrap, x, y, z, x2, y2, z2),
        x2 == x && y2 == y + height && z2 == z ==> same_read_3d(cells, width, height, depth, BoundaryMode::Wrap, x, y, z, x2, y2, z2),
        x2 == x && y2 == y && z2 == z + depth ==> same_read_3d(cells, width, height, depth, BoundaryMode::Wrap, x, y, z, x2, y2, z2),
{
    assert(width > 0 && height > 0 && depth > 0) by (nonlinear_arith)
        requires cells.len() == width * height * depth, cells.len() > 0;
    lemma_wrap_periodic(x as int, 1, width as int);
    lemma_wrap_periodic(y as int, 1, height as int);
    lemma_wrap_periodic(z as int, 1, depth as int);
}

/// Mirror reads reflect at every face (`-1 - c` reads as `c` on each axis) and
/// repeat with twice the extent along each axis.
pub proof fn lemma_read_mirror_3d(
    cells: Seq<Ternary>,
    width: nat,
    height: nat,
    depth: nat,
    x: i64,
    y: i64,
    z: i64,
    x2: i64,
    y2: i64,
    z2: i64,
)
    requires
        cells.len() == width * height * depth,
        cells.len() > 0,
        width <= u64::MAX,
        height <= u64::MAX,
        depth <= u64::MAX,
    ensures
        x2 == -1 - x && y2 == y && z2 == z ==> same_read_3d(cells, width, height, depth, BoundaryMode::Mirror, x, y, z, x2, y2, z2),
        x2 == x && y2 == -1 - y && z2 == z ==> same_read_3d(cells, width, height, depth, BoundaryMode::Mirror, x, y, z, x2, y2, z2),
        x2 == x && y2 == y && z2 == -1 - z ==> same_read_3d(cells, width, height, depth, BoundaryMode::Mirror, x, y, z, x2, y2, z2),
        x2 == x + 2 * width && y2 == y && z2 == z ==> same_read_3d(cells, width, height, depth, BoundaryMode::Mirror, x, y, z, x2, y2, z2),
        x2 == x && y2 == y + 2 * height && z2 == z ==> same_read_3d(cells, width, height, depth, BoundaryMode::Mirror, x, y, z, x2, y2, z2),
        x2 == x && y2 == y && z2 == z + 2 * depth ==> same_read_3d(cells, width, height, depth, BoundaryMode::Mirror, x, y, z, x2, y2, z2),
{
    assert(width > 0 && height > 0 && depth > 0) by (nonlinear_arith)
        requires cells.len() == width * height * depth, cells.len() > 0;
    lemma_mirror_reflects(x as int, width as int);
    lemma_mirror_reflects(y as int, height as int);
    lemma_mirror_reflects(z as int, depth as int);
    lemma_mirror_periodic(x as int, 1, width as int);
    lemma_mirror_periodic(y as int, 1, height as int);
    lemma_mirror_periodic(z as int, 1, depth as int);
}

impl Texture3D {
    /// The texels, slice by slice.
    pub closed spec fn cells(&self) -> Seq<Ternary> {
        self.data@
    }

    /// The width (texels per row).
    pub closed spec fn width_spec(&self) -> nat {
        self.width as nat
    }

    /// The height (rows per slice).
    pub closed spec fn height_spec(&self) -> nat {
        self.height as nat
    }

    /// The depth (number of slices).
    pub closed spec fn depth_spec(&self) -> nat {
        self.depth as nat
    }

    /// There is one texel per coordinate triple, and the extents multiply
    /// without overflow.
    pub open spec fn wf(&self) -> bool {
        &&& self.cells().len() == self.width_spec() * self.height_spec() * self.depth_spec()
        &&& self.width_spec() * self.height_spec() <= usize::MAX
    }

    /// Create a 3D texture from flat data with given dimensions.
    pub fn new(data: Vec<Ternary>, width: usize, height: usize, depth: usize) -> (r: Result<Self, TextureError>)
        requires
            volume_fits(width as nat, height as nat, depth as nat),
        ensures
            data@.len() == width * height * depth ==> (r matches Ok(t) && t.wf() && t.cells() == data@
                && t.width_spec() == width && t.height_spec() == height && t.depth_spec() == depth),
            data@.len() != width * height * depth ==> r == Err::<Self, TextureError>(
                TextureError::SizeMismatch {
                    expected: (width * height * depth) as usize,
                    actual: data@.len() as usize,
                },
            ),
    {
        let expected = width * height * depth;
        if data.len() != expected {
            return Err(TextureError::SizeMismatch { expected, actual: data.len() });
        }
        Ok(Self { data, width, height, depth })
    }

    /// Create a constant-filled 3D texture.
    pub fn constant(width: usize, height: usize, depth: usize, value: Ternary) -> (t: Self)
        requires
            volume_fits(width as nat, height as nat, depth as nat),
        ensures
            t.wf(),
            t.cells() == filled((width * height * depth) as nat, value),
            t.width_spec() == width,
            t.height_spec() == height,
            t.depth_spec() == depth,
    {
        Self { data: fill_vec(width * height * depth, value), width, height, depth }
    }

    /// Dimensions of the texture.
    pub fn dimensions(&self) -> (d: (usize, usize, usize))
        ensures
            d.0 == self.width_spec(),
            d.1 == self.height_spec(),
            d.2 == self.depth_spec(),
    {
        (self.width, self.height, self.depth)
    }

    fn flat_index(&self, x: usize, y: usize, z: usize) -> (i: usize)
        requires
            self.wf(),
            x < self.width,
            y < self.height,
            z < self.depth,
        ensures
            i == index_3d(self.width as nat, self.height as nat, x as int, y as int, z as int),
            i < self.data@.len(),
    {
        proof {
            assert(self.data@.len() == self.data.len());
            lemma_index_3d_bound(self.width as int, self.height as int, self.depth as int, x as int, y as int, z as int);
            assert(z * self.width * self.height == (z * self.width) * self.height);
        }
        z * self.width * self.height + y * self.width + x
    }

    /// Direct read at integer coordinates with boundary handling.
    pub fn read(&self, x: i64, y: i64, z: i64, sampler: &Sampler) -> (v: Ternary)
        requires
            self.wf(),
            self.cells().len() > 0 ==> apply_fits(sampler.boundary, x, self.width_spec() as u64),
            self.cells().len() > 0 ==> apply_fits(sampler.boundary, y, self.height_spec() as u64),
            self.cells().len() > 0 ==> apply_fits(sampler.boundary, z, self.depth_spec() as u64),
        ensures
            v == read_3d(
                self.cells(),
                self.width_spec(),
                self.height_spec(),
                self.depth_spec(),
                x,
                y,
                z,
                sampler.boundary,
            ),
    {
        if self.data.len() == 0 {
            return Ternary::Unknown;
        }
        proof {
            assert(self.width > 0 && self.height > 0 && self.depth > 0) by (nonlinear_arith)
                requires
                    self.data@.len() == self.width * self.height * self.depth,
                    self.data@.len() > 0,
            ;
        }
        let ux = sampler.boundary.apply(x, self.width as u64) as usize;
        let uy = sampler.boundary.apply(y, self.height as u64) as usize;
        let uz = sampler.boundary.apply(z, self.depth as u64) as usize;
        self.data[self.flat_index(ux, uy, uz)]
    }

    /// Write a value at integer coordinates.
    pub fn write(&mut self, x: usize, y: usize, z: usize, value: Ternary) -> (r: Result<(), TextureError>)
        requires
            old(self).wf(),
        ensures
            final(self).wf(),
            final(self).width_spec() == old(self).width_spec(),
            final(self).height_spec() == old(self).height_spec(),
            final(self).depth_spec() == old(self).depth_spec(),
            x < old(self).width_spec() && y < old(self).height_spec() && z < old(self).depth_spec() ==> {
                &&& r is Ok
                &&& final(self).cells() == old(self).cells().update(
                    index_3d(old(self).width_spec(), old(self).height_spec(), x as int, y as int, z as int),
                    value,
                )
            },
            !(x < old(self).width_spec() && y < old(self).height_spec() && z < old(self).depth_spec()) ==> {
                &&& r matches Err(TextureError::OutOfBounds { coord, size })
                &&& coord@ == coord_3d_text(x as nat, y as nat, z as nat)
                &&& size@ == size_3d_text(
                    old(self).width_spec(),
                    old(self).height_spec(),
                    old(self).depth_spec(),
                )
                &&& final(self).cells() == old(self).cells()
            },
    {
        if x >= self.width || y >= self.height || z >= self.depth {
            return Err(
                TextureError::OutOfBounds {
                    coord: coord_3d(x, y, z),
                    size: size_3d(self.width, self.height, self.depth),
                },
            );
        }
        let idx = self.flat_index(x, y, z);
        self.data.set(idx, value);
        Ok(())
    }
}

} // verus!
