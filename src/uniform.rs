//! The per-frame uniform block shared with the shader.
use vstd::prelude::*;

verus! {

/// What the uniform block holds.
pub ghost struct UniformView {
    pub height_resolution: nat,
    pub texture_width: nat,
    pub texture_height: nat,
    pub window_width: nat,
    pub window_height: nat,
    pub time_micros: nat,
}

/// The uniform block: half the virtual vertical resolution, the atlas size,
/// the window size and the time since launch in microseconds.
///
/// `height_resolution` is set when the block is made and no method changes it.
#[derive(Clone, Copy, Debug, PartialEq, Eq)]
pub struct UniformData {
    height_resolution: u32,
    texture_width: u32,
    texture_height: u32,
    window_width: u32,
    window_height: u32,
    time_micros: u64,
}

impl View for UniformData {
    type V = UniformView;

    closed spec fn view(&self) -> UniformView {
        UniformView {
            height_resolution: self.height_resolution as nat,
            texture_width: self.texture_width as nat,
            texture_height: self.texture_height as nat,
            window_width: self.window_width as nat,
            window_height: self.window_height as nat,
            time_micros: self.time_micros as nat,
        }
    }
}

impl UniformData {
    /// The block at launch, for a virtual vertical resolution, the decoded
    /// atlas's size and the window's size; the time is zero.
    pub fn new(
        virtual_vertical_resolution: u32,
        texture_width: u32,
        texture_height: u32,
        window_width: u32,
        window_height: u32,
    ) -> (r: UniformData)
        ensures
            r@ == (UniformView {
                height_resolution: virtual_vertical_resolution as nat / 2,
                texture_width: texture_width as nat,
                texture_height: texture_height as nat,
                window_width: window_width as nat,
                window_height: window_height as nat,
                time_micros: 0,
            }),
    {
        UniformData {
            height_resolution: virtual_vertical_resolution / 2,
            texture_width,
            texture_height,
            window_width,
            window_height,
            time_micros: 0,
        }
    }

    /// Records a new window size; nothing else changes.
    pub fn resize(&mut self, width: u32, height: u32)
        ensures
            final(self)@ == (UniformView {
                window_width: width as nat,
                window_height: height as nat,
                ..old(self)@
            }),
    {
        self.window_width = width;
        self.window_height = height;
    }

    /// Records the time since launch; nothing else changes.
    pub fn set_time(&mut self, micros: u64)
        ensures
            final(self)@ == (UniformView { time_micros: micros as nat, ..old(self)@ }),
    {
        self.time_micros = micros;
    }

    pub fn height_resolution(&self) -> (r: u32)
        ensures
            r == self@.height_resolution,
    {
        self.height_resolution
    }

    pub fn texture_width(&self) -> (r: u32)
        ensures
            r == self@.texture_width,
    {
        self.texture_width
    }

    pub fn texture_height(&self) -> (r: u32)
        ensures
            r == self@.texture_height,
    {
        self.texture_height
    }

    pub fn window_width(&self) -> (r: u32)
        ensures
            r == self@.window_width,
    {
        self.window_width
    }

    pub fn window_height(&self) -> (r: u32)
        ensures
            r == self@.window_height,
    {
        self.window_height
    }

    pub fn time_micros(&self) -> (r: u64)
        ensures
            r == self@.time_micros,
    {
        self.time_micros
    }
}

} // verus!
