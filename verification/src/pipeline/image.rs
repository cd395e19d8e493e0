//! Textured rectangles.

use vstd::prelude::*;

verus! {

/// `wgpu::Texture`, a texture on the GPU. It is carried through as it is;
/// nothing is stated of what it holds.
#[verifier::external_type_specification]
#[verifier::external_body]
pub struct ExTexture(wgpu::Texture);

/// `wgpu::TextureView`, a view into a texture on the GPU. It is carried
/// through as it is; nothing is stated of what it holds.
#[verifier::external_type_specification]
#[verifier::external_body]
pub struct ExTextureView(wgpu::TextureView);

/// `wgpu::Sampler`, the way in which a texture is sampled. It is carried
/// through as it is; nothing is stated of what it holds.
#[verifier::external_type_specification]
#[verifier::external_body]
pub struct ExSampler(wgpu::Sampler);

/// One place at which an image is drawn: its top-left corner and its size.
#[derive(Debug, Clone, Copy)]
pub struct ImageInstance {
    pub start: [usize; 2],
    pub size: [usize; 2],
}

impl ImageInstance {
    pub fn new(start: [usize; 2], size: [usize; 2]) -> (instance: Self)
        ensures
            instance == (ImageInstance { start, size }),
    {
        Self { start, size }
    }
}

/// An uploaded image and the places at which it is drawn this frame.
#[derive(Debug)]
pub struct ImageResource {
    pub texture: wgpu::Texture,
    pub view: wgpu::TextureView,
    pub sampler: wgpu::Sampler,
    pub instances: Vec<ImageInstance>,
}

impl ImageResource {
    /// Adds one more place at which the image is drawn, after those already
    /// there.
    pub fn push_instance(&mut self, instance: ImageInstance)
        ensures
            final(self).instances@ == old(self).instances@.push(instance),
            final(self).texture == old(self).texture,
            final(self).view == old(self).view,
            final(self).sampler == old(self).sampler,
    {
        self.instances.push(instance);
    }
}

} // verus!
