//! The plain state of the renderer: the uniform block, the frame clock and the
//! sprite batch, and the fixed sizes that the GPU buffers and the draw call share.
use vstd::prelude::*;
use crate::batch::{
    BatchView, SpriteBatcher, MAX_SPRITES, active_sprites, capacity, sort_by_depth, submitted,
};
use crate::clock::FrameClock;
use crate::sprite::Sprite;
use crate::uniform::{UniformData, UniformView};

verus! {

/// Bytes of one sprite record as the shader reads it: eight 4-byte fields.
pub const SPRITE_RECORD_BYTES: u64 = 32;

/// Bytes of the uniform block: six 4-byte fields.
pub const UNIFORM_BYTES: u64 = 24;

/// Vertices drawn for one sprite: two triangles.
pub const VERTICES_PER_SPRITE: u32 = 6;

/// Size of the storage buffer: room for `MAX_SPRITES` records.
pub fn storage_buffer_bytes() -> (r: u64)
    ensures
        r == MAX_SPRITES * SPRITE_RECORD_BYTES,
{
    MAX_SPRITES as u64 * SPRITE_RECORD_BYTES
}

/// Number of vertices of the frame's single draw call: a quad for each of the
/// `MAX_SPRITES` records that the storage buffer holds.
pub fn draw_vertex_count() -> (r: u32)
    ensures
        r == VERTICES_PER_SPRITE * MAX_SPRITES,
{
    VERTICES_PER_SPRITE * MAX_SPRITES as u32
}

/// The renderer's host-side state. The batch computes depths with the same
/// half vertical resolution that the uniform block hands the shader.
pub struct RenderState {
    uniform: UniformData,
    clock: FrameClock,
    batch: SpriteBatcher,
}

impl RenderState {
    pub closed spec fn uniform_view(&self) -> UniformView {
        self.uniform@
    }

    pub closed spec fn clock_view(&self) -> FrameClock {
        self.clock
    }

    pub closed spec fn batch_view(&self) -> BatchView {
        self.batch@
    }

    /// The state's internal invariant.
    pub closed spec fn wf(&self) -> bool {
        &&& self.batch.wf()
        &&& self.batch@.height_resolution == self.uniform@.height_resolution
    }

    /// The state at launch, for a virtual vertical resolution, the atlas's size
    /// and the window's size.
    pub fn new(
        virtual_vertical_resolution: u32,
        texture_width: u32,
        texture_height: u32,
        window_width: u32,
        window_height: u32,
    ) -> (r: RenderState)
        ensures
            r.wf(),
            r.uniform_view() == (UniformView {
                height_resolution: virtual_vertical_resolution as nat / 2,
                texture_width: texture_width as nat,
                texture_height: texture_height as nat,
                window_width: window_width as nat,
                window_height: window_height as nat,
                time_micros: 0,
            }),
            r.clock_view().current() == 0,
            r.clock_view().delta() == 0,
            r.batch_view() == (BatchView {
                height_resolution: virtual_vertical_resolution as nat / 2,
                slots: Seq::empty(),
                active: 0,
            }),
    {
        let uniform = UniformData::new(
            virtual_vertical_resolution,
            texture_width,
            texture_height,
            window_width,
            window_height,
        );
        let batch = SpriteBatcher::new(uniform.height_resolution());
        RenderState { uniform, clock: FrameClock::new(), batch }
    }

    /// Records a new window size in the uniform block; the clock and the batch
    /// stay as they are.
    pub fn update_window_size(&mut self, width: u32, height: u32)
        requires
            old(self).wf(),
        ensures
            final(self).wf(),
            final(self).uniform_view() == (UniformView {
                window_width: width as nat,
                window_height: height as nat,
                ..old(self).uniform_view()
            }),
            final(self).clock_view() == old(self).clock_view(),
            final(self).batch_view() == old(self).batch_view(),
    {
        self.uniform.resize(width, height);
    }

    /// Advances the clock to the time since launch and records it in the
    /// uniform block; returns the time the frame took.
    pub fn update_time(&mut self, elapsed_micros: u64) -> (delta: u64)
        requires
            old(self).wf(),
            elapsed_micros >= old(self).clock_view().current(),
        ensures
            final(self).wf(),
            final(self).uniform_view() == (UniformView {
                time_micros: elapsed_micros as nat,
                ..old(self).uniform_view()
            }),
            final(self).clock_view().current() == elapsed_micros,
            final(self).clock_view().delta() == elapsed_micros - old(self).clock_view().current(),
            delta == final(self).clock_view().delta(),
            final(self).batch_view() == old(self).batch_view(),
    {
        let (now, delta) = self.clock.update(elapsed_micros);
        self.uniform.set_time(now);
        delta
    }

    /// Hands the frame's sprites to the batch, which orders them by depth.
    pub fn load_sprites(&mut self, sprites: &[Sprite])
        requires
            old(self).wf(),
        ensures
            final(self).wf(),
            final(self).batch_view() == submitted(old(self).batch_view(), sprites@),
            active_sprites(final(self).batch_view()) == sort_by_depth(
                sprites@,
                old(self).uniform_view().height_resolution,
            ),
            capacity(final(self).batch_view()) == if sprites@.len() < capacity(
                old(self).batch_view(),
            ) {
                capacity(old(self).batch_view())
            } else {
                sprites@.len()
            },
            final(self).uniform_view() == old(self).uniform_view(),
            final(self).clock_view() == old(self).clock_view(),
    {
        self.batch.submit(sprites);
    }

    pub fn uniform(&self) -> (r: UniformData)
        ensures
            r@ == self.uniform_view(),
    {
        self.uniform
    }

    pub fn clock(&self) -> (r: FrameClock)
        ensures
            r == self.clock_view(),
    {
        self.clock
    }

    pub fn batch(&self) -> (r: &SpriteBatcher)
        ensures
            r@ == self.batch_view(),
            self.wf() ==> r.wf(),
    {
        &self.batch
    }
}

} // verus!
