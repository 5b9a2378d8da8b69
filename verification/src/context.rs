//! The shared device/queue handle the rest of the library works against.

use vstd::prelude::*;

use crate::gpu;

verus! {

/// The device, its queue, and the instance and adapter they came from.
///
/// Acquiring these is an asynchronous, fallible startup step that the caller
/// performs; the library only holds the handles. They are immutable after
/// construction and may be shared freely.
pub struct RenderContext {
    instance: wgpu::Instance,
    adapter: wgpu::Adapter,
    device: wgpu::Device,
    queue: wgpu::Queue,
}

impl RenderContext {
    /// Wrap an already-acquired instance, adapter, device and queue.
    pub fn from_raw(
        instance: wgpu::Instance,
        adapter: wgpu::Adapter,
        device: wgpu::Device,
        queue: wgpu::Queue,
    ) -> (r: RenderContext) {
        RenderContext { instance, adapter, device, queue }
    }

    /// The instance handle.
    pub fn instance(&self) -> (r: &wgpu::Instance) {
        &self.instance
    }

    /// The adapter handle.
    pub fn adapter(&self) -> (r: &wgpu::Adapter) {
        &self.adapter
    }

    /// The device handle.
    pub fn device(&self) -> (r: &wgpu::Device) {
        &self.device
    }

    /// The queue handle.
    pub fn queue(&self) -> (r: &wgpu::Queue) {
        &self.queue
    }

    /// Compile a shader module from WGSL source text. The source is opaque
    /// to the library: it is handed to the device as written.
    pub fn create_shader_module(&self, source: &str) -> (r: wgpu::ShaderModule) {
        gpu::w_create_shader_module_wgsl(&self.device, source)
    }
}

} // verus!
