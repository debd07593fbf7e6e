//! Custom render features that can be added to a canvas.
use vstd::prelude::*;

verus! {

/// Custom render feature that can be added to a canvas.
///
/// With [`RenderFeature`], you can render the custom things that the canvas
/// does not draw itself.
pub trait RenderFeature {
    /// Called before rendering to prepare the data.
    fn prepare(&mut self, device: &wgpu::Device, queue: &wgpu::Queue);

    /// Called during the render pass.
    fn render(&mut self, pass: &mut wgpu::RenderPass);
}

} // verus!
