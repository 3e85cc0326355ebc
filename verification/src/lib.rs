//! Texture memory access for ternary (three-valued) data: boundary
//! addressing, 1D/2D/3D textures with checked writes, Kleene logic on
//! ternary values, and the integer counts behind spatial coherence analysis.

pub mod boundary;
pub mod coherence;
pub mod decimal;
pub mod error;
pub mod sampler;
pub mod ternary;
pub mod texture1d;
pub mod texture2d;
pub mod texture3d;

pub use boundary::BoundaryMode;
pub use coherence::{NeighborCounts, ValueCounts, neighbor_counts_1d, neighbor_counts_2d, value_counts};
pub use error::TextureError;
pub use sampler::{SampleMode, Sampler};
pub use ternary::Ternary;
pub use texture1d::Texture1D;
pub use texture2d::Texture2D;
pub use texture3d::Texture3D;
