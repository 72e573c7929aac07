//! Plain-value core of a small 2D sprite renderer: sprite records and their
//! pseudo-depth, the depth-ordered sprite batch, the per-frame uniform block,
//! the frame clock, the texture-region catalog and keyboard state.
pub mod batch;
pub mod clock;
pub mod input;
pub mod prefab;
pub mod renderer;
pub mod sprite;
pub mod uniform;
