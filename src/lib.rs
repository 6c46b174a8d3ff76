//! Composition of one rendered frame out of several independent camera views.
//!
//! Geometry is accumulated by batch builders, frozen into immutable draw data,
//! queued on one view builder per view, and each view is recorded into its own
//! command buffer. The output surface is split into a grid of disjoint tiles,
//! one per view. Floating-point values (coordinates, transforms, projection
//! parameters) are carried through the library as opaque IEEE-754 bit patterns:
//! the arithmetic on them belongs to the GPU backend and the application shell.
pub mod tiling;
pub mod types;
pub mod draw_data;
pub mod point_cloud;
pub mod line_strips;
pub mod mesh;
pub mod view_builder;
pub mod compositor;
pub mod multiview;
pub mod launch;
