//! Errors of texture construction and writes, and their messages.

use vstd::prelude::*;
use crate::decimal::{decimal, push_decimal};

verus! {

/// Texture errors.
#[derive(Debug, Clone, PartialEq, Eq)]
pub enum TextureError {
    /// Size mismatch when creating texture.
    SizeMismatch { expected: usize, actual: usize },
    /// Coordinate out of bounds.
    OutOfBounds { coord: String, size: String },
}

/// The text of a 1D coordinate: `x=<x>`.
pub open spec fn coord_1d_text(x: nat) -> Seq<char> {
    "x="@ + decimal(x)
}

/// The text of a 1D extent: `width=<width>`.
pub open spec fn size_1d_text(width: nat) -> Seq<char> {
    "width="@ + decimal(width)
}

/// The text of a 2D coordinate: `x=<x>, y=<y>`.
pub open spec fn coord_2d_text(x: nat, y: nat) -> Seq<char> {
    "x="@ + decimal(x) + ", y="@ + decimal(y)
}

/// The text of 2D extents: `<width>x<height>`.
pub open spec fn size_2d_text(width: nat, height: nat) -> Seq<char> {
    decimal(width) + "x"@ + decimal(height)
}

/// The text of a 3D coordinate: `x=<x>, y=<y>, z=<z>`.
pub open spec fn coord_3d_text(x: nat, y: nat, z: nat) -> Seq<char> {
    "x="@ + decimal(x) + ", y="@ + decimal(y) + ", z="@ + decimal(z)
}

/// The text of 3D extents: `<width>x<height>x<depth>`.
pub open spec fn size_3d_text(width: nat, height: nat, depth: nat) -> Seq<char> {
    decimal(width) + "x"@ + decimal(height) + "x"@ + decimal(depth)
}

/// The message of an error.
pub open spec fn message(e: TextureError) -> Seq<char> {
    match e {
        TextureError::SizeMismatch { expected, actual } => "size mismatch: expected "@ + decimal(
            expected as nat,
        ) + " elements, got "@ + decimal(actual as nat),
        TextureError::OutOfBounds { coord, size } => "coordinate "@ + coord@ + " out of bounds for "@
            + size@,
    }
}

/// The text of a 1D coordinate.
pub(crate) fn coord_1d(x: usize) -> (s: String)
    ensures
        s@ == coord_1d_text(x as nat),
{
    let mut s = String::from_str("x=");
    push_decimal(&mut s, x);
    s
}

/// The text of a 1D extent.
pub(crate) fn size_1d(width: usize) -> (s: String)
    ensures
        s@ == size_1d_text(width as nat),
{
    let mut s = String::from_str("width=");
    push_decimal(&mut s, width);
    s
}

/// The text of a 2D coordinate.
pub(crate) fn coord_2d(x: usize, y: usize) -> (s: String)
    ensures
        s@ == coord_2d_text(x as nat, y as nat),
{
    let mut s = String::from_str("x=");
    push_decimal(&mut s, x);
    s.append(", y=");
    push_decimal(&mut s, y);
    s
}

/// The text of 2D extents.
pub(crate) fn size_2d(width: usize, height: usize) -> (s: String)
    ensures
        s@ == size_2d_text(width as nat, height as nat),
{
    let mut s = String::new();
    push_decimal(&mut s, width);
    s.append("x");
    push_decimal(&mut s, height);
    s
}

/// The text of a 3D coordinate.
pub(crate) fn coord_3d(x: usize, y: usize, z: usize) -> (s: String)
    ensures
        s@ == coord_3d_text(x as nat, y as nat, z as nat),
{
    let mut s = String::from_str("x=");
    push_decimal(&mut s, x);
    s.append(", y=");
    push_decimal(&mut s, y);
    s.append(", z=");
    push_decimal(&mut s, z);
    s
}

/// The text of 3D extents.
pub(crate) fn size_3d(width: usize, height: usize, depth: usize) -> (s: String)
    ensures
        s@ == size_3d_text(width as nat, height as nat, depth as nat),
{
    let mut s = String::new();
    push_decimal(&mut s, width);
    s.append("x");
    push_decimal(&mut s, height);
    s.append("x");
    push_decimal(&mut s, depth);
    s
}

impl TextureError {
    /// The human-readable message of the error, as its display form.
    pub fn to_string(&self) -> (s: String)
        ensures
            s@ == message(*self),
    {
        match self {
            TextureError::SizeMismatch { expected, actual } => {
                let mut s = String::from_str("size mismatch: expected ");
                push_decimal(&mut s, *expected);
                s.append(" elements, got ");
                push_decimal(&mut s, *actual);
                s
            },
            TextureError::OutOfBounds { coord, size } => {
                let mut s = String::from_str("coordinate ");
                s.append(coord.as_str());
                s.append(" out of bounds for ");
                s.append(size.as_str());
                s
            },
        }
    }
}

} // verus!
