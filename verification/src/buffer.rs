//! Buffer wrappers: a fixed-size uniform buffer, a fixed-size storage
//! buffer, and a storage buffer with a mutable logical size.
//!
//! All sizes and offsets are byte counts. A write beyond the capacity is
//! reported, never performed: the checked operations say exactly when they
//! fail, and the unchecked ones demand in-bounds arguments from the caller.

use vstd::prelude::*;

use crate::context::RenderContext;
use crate::gpu;
use crate::gpu::BufferKind;
use crate::gpu::SizedBuffer;

verus! {

/// The error a rejected buffer operation reports.
#[derive(Clone, Copy, Debug, PartialEq, Eq, Structural)]
pub enum BufferError {
    /// The write would end past the buffer's capacity.
    OutOfBounds { offset: u64, len: u64, capacity: u64 },
}

/// A uniform buffer of a fixed, non-zero byte size; a zero-size buffer
/// could never be bound.
pub struct UniformBuffer {
    buffer: SizedBuffer,
}

impl UniformBuffer {
    /// The fixed byte size the buffer was created with.
    pub closed spec fn spec_size(&self) -> u64 {
        self.buffer.spec_size()
    }

    /// Create an uninitialised uniform buffer of `size` bytes.
    pub fn new(render_context: &RenderContext, size: u64) -> (r: UniformBuffer)
        requires
            size > 0,
        ensures
            r.spec_size() == size,
    {
        UniformBuffer { buffer: gpu::w_create_buffer(render_context.device(), size, BufferKind::Uniform) }
    }

    /// Create a uniform buffer holding the given bytes.
    pub fn new_init(render_context: &RenderContext, value: &[u8]) -> (r: UniformBuffer)
        requires
            value@.len() > 0,
        ensures
            r.spec_size() == value@.len(),
    {
        UniformBuffer {
            buffer: gpu::w_create_buffer_init(render_context.device(), value, BufferKind::Uniform),
        }
    }

    /// The fixed byte size.
    pub fn size(&self) -> (r: u64)
        ensures
            r == self.spec_size(),
    {
        self.buffer.size()
    }

    /// Replace the whole contents; the data must match the buffer's size,
    /// which must be a multiple of the four-byte copy alignment.
    pub fn write(&self, render_context: &RenderContext, value: &[u8])
        requires
            value@.len() == self.spec_size(),
            value@.len() % 4 == 0,
    {
        gpu::w_queue_write_buffer(render_context.queue(), &self.buffer, 0, value);
    }

    /// The underlying device buffer.
    pub fn wgpu_buffer(&self) -> (r: &wgpu::Buffer) {
        self.buffer.wgpu_buffer()
    }
}

/// A storage buffer of a fixed, non-zero byte size.
pub struct StorageBuffer {
    buffer: SizedBuffer,
}

impl StorageBuffer {
    /// The fixed byte size the buffer was created with.
    pub closed spec fn spec_size(&self) -> u64 {
        self.buffer.spec_size()
    }

    /// Every storage buffer has a non-zero size.
    pub open spec fn wf(&self) -> bool {
        self.spec_size() > 0
    }

    /// Create an uninitialised storage buffer of `size` bytes.
    pub fn new(render_context: &RenderContext, size: u64) -> (r: StorageBuffer)
        requires
            size > 0,
        ensures
            r.spec_size() == size,
            r.wf(),
    {
        StorageBuffer { buffer: gpu::w_create_buffer(render_context.device(), size, BufferKind::Storage) }
    }

    /// Create a storage buffer holding the given bytes.
    pub fn new_init(render_context: &RenderContext, value: &[u8]) -> (r: StorageBuffer)
        requires
            value@.len() > 0,
        ensures
            r.spec_size() == value@.len(),
            r.wf(),
    {
        StorageBuffer {
            buffer: gpu::w_create_buffer_init(render_context.device(), value, BufferKind::Storage),
        }
    }

    /// The fixed byte size.
    pub fn size(&self) -> (r: u64)
        ensures
            r == self.spec_size(),
    {
        self.buffer.size()
    }

    /// Write from the start; the data must fit in the buffer and its
    /// length must be a multiple of the four-byte copy alignment.
    pub fn write(&self, render_context: &RenderContext, data: &[u8])
        requires
            data@.len() <= self.spec_size(),
            data@.len() % 4 == 0,
    {
        self.write_at_offset(render_context, data, 0);
    }

    /// Write `data` at a byte offset; the write must end within the
    /// buffer's fixed size, and offset and length must be multiples of the
    /// four-byte copy alignment.
    pub fn write_at_offset(&self, render_context: &RenderContext, data: &[u8], offset: u64)
        requires
            offset + data@.len() <= self.spec_size(),
            offset % 4 == 0,
            data@.len() % 4 == 0,
    {
        gpu::w_queue_write_buffer(render_context.queue(), &self.buffer, offset, data);
    }

    /// Write `data` at an aligned byte offset, rejecting exactly the
    /// writes that would end past the buffer's fixed size; the size never
    /// changes.
    pub fn try_write_at_offset(
        &self,
        render_context: &RenderContext,
        data: &[u8],
        offset: u64,
    ) -> (r: Result<(), BufferError>)
        requires
            offset % 4 == 0,
            data@.len() % 4 == 0,
        ensures
            r is Ok <==> offset + data@.len() <= self.spec_size(),
            r matches Err(e) ==> e == (BufferError::OutOfBounds {
                offset,
                len: data@.len() as u64,
                capacity: self.spec_size(),
            }),
    {
        if data.len() as u64 <= u64::MAX - offset && offset + data.len() as u64 <= self.buffer.size() {
            self.write_at_offset(render_context, data, offset);
            Ok(())
        } else {
            Err(BufferError::OutOfBounds {
                offset,
                len: data.len() as u64,
                capacity: self.buffer.size(),
            })
        }
    }

    /// Overwrite part of the buffer starting at an aligned byte offset
    /// that lies within it, as a single-element update does; the write
    /// must end within the buffer's fixed size.
    pub fn set_at_offset(&self, render_context: &RenderContext, data: &[u8], offset: u64)
        requires
            offset < self.spec_size(),
            offset + data@.len() <= self.spec_size(),
            offset % 4 == 0,
            data@.len() % 4 == 0,
    {
        gpu::w_queue_write_buffer(render_context.queue(), &self.buffer, offset, data);
    }

    /// The underlying device buffer.
    pub fn wgpu_buffer(&self) -> (r: &wgpu::Buffer) {
        self.buffer.wgpu_buffer()
    }
}

/// A storage buffer with a fixed byte capacity and a mutable logical size:
/// the size tracks the end of the furthest write.
pub struct DynamicBuffer {
    buffer: SizedBuffer,
    size: u64,
}

impl DynamicBuffer {
    /// The fixed byte capacity the buffer was created with.
    pub closed spec fn spec_max_size(&self) -> u64 {
        self.buffer.spec_size()
    }

    /// The current logical byte size: the end of the furthest write.
    pub closed spec fn spec_size(&self) -> u64 {
        self.size
    }

    /// The logical size never passes the capacity, and the capacity is
    /// non-zero.
    pub open spec fn wf(&self) -> bool {
        self.spec_size() <= self.spec_max_size() && self.spec_max_size() > 0
    }

    /// Create an empty buffer of `max_size` bytes of capacity.
    pub fn new(render_context: &RenderContext, max_size: u64) -> (r: DynamicBuffer)
        requires
            max_size > 0,
        ensures
            r.spec_max_size() == max_size,
            r.spec_size() == 0,
            r.wf(),
    {
        DynamicBuffer {
            buffer: gpu::w_create_buffer(render_context.device(), max_size, BufferKind::Storage),
            size: 0,
        }
    }

    /// Create a buffer holding the given bytes, with a capacity of
    /// `max_size` bytes where one is given and of the data's length where
    /// none is. The data must fit in the capacity.
    pub fn new_init(
        render_context: &RenderContext,
        value: &[u8],
        max_size: Option<u64>,
    ) -> (r: DynamicBuffer)
        requires
            match max_size {
                Some(m) => value@.len() <= m && m > 0 && value@.len() % 4 == 0,
                None => value@.len() > 0,
            },
        ensures
            r.spec_size() == value@.len(),
            r.spec_max_size() == match max_size {
                Some(m) => m,
                None => value@.len() as u64,
            },
            r.wf(),
    {
        let cap: u64 = match max_size {
            Some(m) => m,
            None => value.len() as u64,
        };
        let buffer = if cap == value.len() as u64 {
            gpu::w_create_buffer_init(render_context.device(), value, BufferKind::Storage)
        } else {
            let b = gpu::w_create_buffer(render_context.device(), cap, BufferKind::Storage);
            gpu::w_queue_write_buffer(render_context.queue(), &b, 0, value);
            b
        };
        DynamicBuffer { buffer, size: value.len() as u64 }
    }

    /// The current logical byte size.
    pub fn size(&self) -> (r: u64)
        ensures
            r == self.spec_size(),
    {
        self.size
    }

    /// The fixed byte capacity.
    pub fn max_size(&self) -> (r: u64)
        ensures
            r == self.spec_max_size(),
    {
        self.buffer.size()
    }

    /// Write from the start; the logical size becomes the data's length,
    /// which must be a multiple of the four-byte copy alignment.
    pub fn write(&mut self, render_context: &RenderContext, data: &[u8])
        requires
            data@.len() <= old(self).spec_max_size(),
            data@.len() % 4 == 0,
        ensures
            final(self).spec_size() == data@.len(),
            final(self).spec_max_size() == old(self).spec_max_size(),
    {
        self.write_at_offset(render_context, data, 0);
    }

    /// Write `data` at a byte offset; the write must end within the
    /// capacity, offset and length must be multiples of the four-byte copy
    /// alignment, and the logical size becomes the write's end.
    pub fn write_at_offset(&mut self, render_context: &RenderContext, data: &[u8], offset: u64)
        requires
            offset + data@.len() <= old(self).spec_max_size(),
            offset % 4 == 0,
            data@.len() % 4 == 0,
        ensures
            final(self).spec_size() == offset + data@.len(),
            final(self).spec_max_size() == old(self).spec_max_size(),
    {
        gpu::w_queue_write_buffer(render_context.queue(), &self.buffer, offset, data);
        self.size = offset + data.len() as u64;
    }

    /// Write `data` at an aligned byte offset, rejecting exactly the
    /// writes that would end past the capacity. On success the logical
    /// size becomes the write's end; on failure nothing changes.
    pub fn try_write_at_offset(
        &mut self,
        render_context: &RenderContext,
        data: &[u8],
        offset: u64,
    ) -> (r: Result<(), BufferError>)
        requires
            offset % 4 == 0,
            data@.len() % 4 == 0,
        ensures
            r is Ok <==> offset + data@.len() <= old(self).spec_max_size(),
            r is Ok ==> final(self).spec_size() == offset + data@.len(),
            r is Err ==> *final(self) == *old(self),
            final(self).spec_max_size() == old(self).spec_max_size(),
            r matches Err(e) ==> e == (BufferError::OutOfBounds {
                offset,
                len: data@.len() as u64,
                capacity: old(self).spec_max_size(),
            }),
    {
        if data.len() as u64 <= u64::MAX - offset && offset + data.len() as u64 <= self.buffer.size() {
            self.write_at_offset(render_context, data, offset);
            Ok(())
        } else {
            Err(BufferError::OutOfBounds {
                offset,
                len: data.len() as u64,
                capacity: self.buffer.size(),
            })
        }
    }

    /// Overwrite part of the buffer starting at an aligned byte offset
    /// that lies within the current logical size; the write must end
    /// within the capacity, and the size does not change.
    pub fn set_at_offset(&self, render_context: &RenderContext, data: &[u8], offset: u64)
        requires
            offset < self.spec_size(),
            offset + data@.len() <= self.spec_max_size(),
            offset % 4 == 0,
            data@.len() % 4 == 0,
    {
        gpu::w_queue_write_buffer(render_context.queue(), &self.buffer, offset, data);
    }

    /// The underlying device buffer.
    pub fn wgpu_buffer(&self) -> (r: &wgpu::Buffer) {
        self.buffer.wgpu_buffer()
    }
}

} // verus!
