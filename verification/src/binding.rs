//! The closed sets of bind targets and usage hints, with their numeric codes
//! and the minimum version that recognizes each.

use vstd::prelude::*;
use crate::codes::ARRAY_BUFFER;
use crate::codes::ARRAY_BUFFER_BINDING;
use crate::codes::ATOMIC_COUNTER_BUFFER;
use crate::codes::ATOMIC_COUNTER_BUFFER_BINDING;
use crate::codes::COPY_READ_BUFFER;
use crate::codes::COPY_READ_BUFFER_BINDING;
use crate::codes::COPY_WRITE_BUFFER;
use crate::codes::COPY_WRITE_BUFFER_BINDING;
use crate::codes::DISPATCH_INDIRECT_BUFFER;
use crate::codes::DISPATCH_INDIRECT_BUFFER_BINDING;
use crate::codes::DRAW_INDIRECT_BUFFER;
use crate::codes::DRAW_INDIRECT_BUFFER_BINDING;
use crate::codes::DYNAMIC_COPY;
use crate::codes::DYNAMIC_DRAW;
use crate::codes::DYNAMIC_READ;
use crate::codes::ELEMENT_ARRAY_BUFFER;
use crate::codes::ELEMENT_ARRAY_BUFFER_BINDING;
use crate::codes::PIXEL_PACK_BUFFER;
use crate::codes::PIXEL_PACK_BUFFER_BINDING;
use crate::codes::PIXEL_UNPACK_BUFFER;
use crate::codes::PIXEL_UNPACK_BUFFER_BINDING;
use crate::codes::QUERY_BUFFER;
use crate::codes::QUERY_BUFFER_BINDING;
use crate::codes::SHADER_STORAGE_BUFFER;
use crate::codes::SHADER_STORAGE_BUFFER_BINDING;
use crate::codes::STATIC_COPY;
use crate::codes::STATIC_DRAW;
use crate::codes::STATIC_READ;
use crate::codes::STREAM_COPY;
use crate::codes::STREAM_DRAW;
use crate::codes::STREAM_READ;
use crate::codes::TEXTURE_BUFFER;
use crate::codes::TEXTURE_BUFFER_BINDING;
use crate::codes::TRANSFORM_FEEDBACK_BUFFER;
use crate::codes::TRANSFORM_FEEDBACK_BUFFER_BINDING;
use crate::codes::UNIFORM_BUFFER;
use crate::codes::UNIFORM_BUFFER_BINDING;
use crate::version::GlVersion;

verus! {

/// Number of bind targets: one binding point is tracked per target.
pub const NUM_TARGETS: usize = 14;

/// The fixed closed set of bind targets an object can be attached to.
#[derive(Copy, Clone, PartialEq, Eq, Structural)]
pub enum BufferBinding {
    ArrayBuffer,
    ElementArrayBuffer,
    PixelPackBuffer,
    PixelUnpackBuffer,
    CopyReadBuffer,
    CopyWriteBuffer,
    TextureBuffer,
    TransformFeedbackBuffer,
    UniformBuffer,
    AtomicCounterBuffer,
    DispatchIndirectBuffer,
    DrawIndirectBuffer,
    QueryBuffer,
    ShaderStorageBuffer,
}

impl BufferBinding {
    /// Position of the target's entry in the binding-point table.
    pub open spec fn spec_index(self) -> int {
        match self {
            BufferBinding::ArrayBuffer => 0,
            BufferBinding::ElementArrayBuffer => 1,
            BufferBinding::PixelPackBuffer => 2,
            BufferBinding::PixelUnpackBuffer => 3,
            BufferBinding::CopyReadBuffer => 4,
            BufferBinding::CopyWriteBuffer => 5,
            BufferBinding::TextureBuffer => 6,
            BufferBinding::TransformFeedbackBuffer => 7,
            BufferBinding::UniformBuffer => 8,
            BufferBinding::AtomicCounterBuffer => 9,
            BufferBinding::DispatchIndirectBuffer => 10,
            BufferBinding::DrawIndirectBuffer => 11,
            BufferBinding::QueryBuffer => 12,
            BufferBinding::ShaderStorageBuffer => 13,
        }
    }

    pub fn index(&self) -> (i: usize)
        ensures
            i == self.spec_index(),
    {
        match self {
            BufferBinding::ArrayBuffer => 0,
            BufferBinding::ElementArrayBuffer => 1,
            BufferBinding::PixelPackBuffer => 2,
            BufferBinding::PixelUnpackBuffer => 3,
            BufferBinding::CopyReadBuffer => 4,
            BufferBinding::CopyWriteBuffer => 5,
            BufferBinding::TextureBuffer => 6,
            BufferBinding::TransformFeedbackBuffer => 7,
            BufferBinding::UniformBuffer => 8,
            BufferBinding::AtomicCounterBuffer => 9,
            BufferBinding::DispatchIndirectBuffer => 10,
            BufferBinding::DrawIndirectBuffer => 11,
            BufferBinding::QueryBuffer => 12,
            BufferBinding::ShaderStorageBuffer => 13,
        }
    }

    /// The target's own numeric code.
    pub open spec fn spec_to_gl(self) -> u32 {
        match self {
            BufferBinding::ArrayBuffer => ARRAY_BUFFER,
            BufferBinding::ElementArrayBuffer => ELEMENT_ARRAY_BUFFER,
            BufferBinding::PixelPackBuffer => PIXEL_PACK_BUFFER,
            BufferBinding::PixelUnpackBuffer => PIXEL_UNPACK_BUFFER,
            BufferBinding::CopyReadBuffer => COPY_READ_BUFFER,
            BufferBinding::CopyWriteBuffer => COPY_WRITE_BUFFER,
            BufferBinding::TextureBuffer => TEXTURE_BUFFER,
            BufferBinding::TransformFeedbackBuffer => TRANSFORM_FEEDBACK_BUFFER,
            BufferBinding::UniformBuffer => UNIFORM_BUFFER,
            BufferBinding::AtomicCounterBuffer => ATOMIC_COUNTER_BUFFER,
            BufferBinding::DispatchIndirectBuffer => DISPATCH_INDIRECT_BUFFER,
            BufferBinding::DrawIndirectBuffer => DRAW_INDIRECT_BUFFER,
            BufferBinding::QueryBuffer => QUERY_BUFFER,
            BufferBinding::ShaderStorageBuffer => SHADER_STORAGE_BUFFER,
        }
    }

    pub fn to_gl(&self) -> (code: u32)
        ensures
            code == self.spec_to_gl(),
    {
        match self {
            BufferBinding::ArrayBuffer => ARRAY_BUFFER,
            BufferBinding::ElementArrayBuffer => ELEMENT_ARRAY_BUFFER,
            BufferBinding::PixelPackBuffer => PIXEL_PACK_BUFFER,
            BufferBinding::PixelUnpackBuffer => PIXEL_UNPACK_BUFFER,
            BufferBinding::CopyReadBuffer => COPY_READ_BUFFER,
            BufferBinding::CopyWriteBuffer => COPY_WRITE_BUFFER,
            BufferBinding::TextureBuffer => TEXTURE_BUFFER,
            BufferBinding::TransformFeedbackBuffer => TRANSFORM_FEEDBACK_BUFFER,
            BufferBinding::UniformBuffer => UNIFORM_BUFFER,
            BufferBinding::AtomicCounterBuffer => ATOMIC_COUNTER_BUFFER,
            BufferBinding::DispatchIndirectBuffer => DISPATCH_INDIRECT_BUFFER,
            BufferBinding::DrawIndirectBuffer => DRAW_INDIRECT_BUFFER,
            BufferBinding::QueryBuffer => QUERY_BUFFER,
            BufferBinding::ShaderStorageBuffer => SHADER_STORAGE_BUFFER,
        }
    }

    /// The target recognized under a numeric code, if any.
    pub open spec fn spec_from_gl(code: u32) -> Option<BufferBinding> {
        if code == ARRAY_BUFFER {
            Some(BufferBinding::ArrayBuffer)
        } else if code == ELEMENT_ARRAY_BUFFER {
            Some(BufferBinding::ElementArrayBuffer)
        } else if code == PIXEL_PACK_BUFFER {
            Some(BufferBinding::PixelPackBuffer)
        } else if code == PIXEL_UNPACK_BUFFER {
            Some(BufferBinding::PixelUnpackBuffer)
        } else if code == COPY_READ_BUFFER {
            Some(BufferBinding::CopyReadBuffer)
        } else if code == COPY_WRITE_BUFFER {
            Some(BufferBinding::CopyWriteBuffer)
        } else if code == TEXTURE_BUFFER {
            Some(BufferBinding::TextureBuffer)
        } else if code == TRANSFORM_FEEDBACK_BUFFER {
            Some(BufferBinding::TransformFeedbackBuffer)
        } else if code == UNIFORM_BUFFER {
            Some(BufferBinding::UniformBuffer)
        } else if code == ATOMIC_COUNTER_BUFFER {
            Some(BufferBinding::AtomicCounterBuffer)
        } else if code == DISPATCH_INDIRECT_BUFFER {
            Some(BufferBinding::DispatchIndirectBuffer)
        } else if code == DRAW_INDIRECT_BUFFER {
            Some(BufferBinding::DrawIndirectBuffer)
        } else if code == QUERY_BUFFER {
            Some(BufferBinding::QueryBuffer)
        } else if code == SHADER_STORAGE_BUFFER {
            Some(BufferBinding::ShaderStorageBuffer)
        } else {
            None
        }
    }

    pub fn from_gl(code: u32) -> (r: Option<BufferBinding>)
        ensures
            r == Self::spec_from_gl(code),
    {
        if code == ARRAY_BUFFER {
            Some(BufferBinding::ArrayBuffer)
        } else if code == ELEMENT_ARRAY_BUFFER {
            Some(BufferBinding::ElementArrayBuffer)
        } else if code == PIXEL_PACK_BUFFER {
            Some(BufferBinding::PixelPackBuffer)
        } else if code == PIXEL_UNPACK_BUFFER {
            Some(BufferBinding::PixelUnpackBuffer)
        } else if code == COPY_READ_BUFFER {
            Some(BufferBinding::CopyReadBuffer)
        } else if code == COPY_WRITE_BUFFER {
            Some(BufferBinding::CopyWriteBuffer)
        } else if code == TEXTURE_BUFFER {
            Some(BufferBinding::TextureBuffer)
        } else if code == TRANSFORM_FEEDBACK_BUFFER {
            Some(BufferBinding::TransformFeedbackBuffer)
        } else if code == UNIFORM_BUFFER {
            Some(BufferBinding::UniformBuffer)
        } else if code == ATOMIC_COUNTER_BUFFER {
            Some(BufferBinding::AtomicCounterBuffer)
        } else if code == DISPATCH_INDIRECT_BUFFER {
            Some(BufferBinding::DispatchIndirectBuffer)
        } else if code == DRAW_INDIRECT_BUFFER {
            Some(BufferBinding::DrawIndirectBuffer)
        } else if code == QUERY_BUFFER {
            Some(BufferBinding::QueryBuffer)
        } else if code == SHADER_STORAGE_BUFFER {
            Some(BufferBinding::ShaderStorageBuffer)
        } else {
            None
        }
    }

    /// The target whose binding point a state-query code reads, if any.
    pub open spec fn spec_from_query(code: u32) -> Option<BufferBinding> {
        if code == ARRAY_BUFFER_BINDING {
            Some(BufferBinding::ArrayBuffer)
        } else if code == ELEMENT_ARRAY_BUFFER_BINDING {
            Some(BufferBinding::ElementArrayBuffer)
        } else if code == PIXEL_PACK_BUFFER_BINDING {
            Some(BufferBinding::PixelPackBuffer)
        } else if code == PIXEL_UNPACK_BUFFER_BINDING {
            Some(BufferBinding::PixelUnpackBuffer)
        } else if code == COPY_READ_BUFFER_BINDING {
            Some(BufferBinding::CopyReadBuffer)
        } else if code == COPY_WRITE_BUFFER_BINDING {
            Some(BufferBinding::CopyWriteBuffer)
        } else if code == TEXTURE_BUFFER_BINDING {
            Some(BufferBinding::TextureBuffer)
        } else if code == TRANSFORM_FEEDBACK_BUFFER_BINDING {
            Some(BufferBinding::TransformFeedbackBuffer)
        } else if code == UNIFORM_BUFFER_BINDING {
            Some(BufferBinding::UniformBuffer)
        } else if code == ATOMIC_COUNTER_BUFFER_BINDING {
            Some(BufferBinding::AtomicCounterBuffer)
        } else if code == DISPATCH_INDIRECT_BUFFER_BINDING {
            Some(BufferBinding::DispatchIndirectBuffer)
        } else if code == DRAW_INDIRECT_BUFFER_BINDING {
            Some(BufferBinding::DrawIndirectBuffer)
        } else if code == QUERY_BUFFER_BINDING {
            Some(BufferBinding::QueryBuffer)
        } else if code == SHADER_STORAGE_BUFFER_BINDING {
            Some(BufferBinding::ShaderStorageBuffer)
        } else {
            None
        }
    }

    pub fn from_query(code: u32) -> (r: Option<BufferBinding>)
        ensures
            r == Self::spec_from_query(code),
    {
        if code == ARRAY_BUFFER_BINDING {
            Some(BufferBinding::ArrayBuffer)
        } else if code == ELEMENT_ARRAY_BUFFER_BINDING {
            Some(BufferBinding::ElementArrayBuffer)
        } else if code == PIXEL_PACK_BUFFER_BINDING {
            Some(BufferBinding::PixelPackBuffer)
        } else if code == PIXEL_UNPACK_BUFFER_BINDING {
            Some(BufferBinding::PixelUnpackBuffer)
        } else if code == COPY_READ_BUFFER_BINDING {
            Some(BufferBinding::CopyReadBuffer)
        } else if code == COPY_WRITE_BUFFER_BINDING {
            Some(BufferBinding::CopyWriteBuffer)
        } else if code == TEXTURE_BUFFER_BINDING {
            Some(BufferBinding::TextureBuffer)
        } else if code == TRANSFORM_FEEDBACK_BUFFER_BINDING {
            Some(BufferBinding::TransformFeedbackBuffer)
        } else if code == UNIFORM_BUFFER_BINDING {
            Some(BufferBinding::UniformBuffer)
        } else if code == ATOMIC_COUNTER_BUFFER_BINDING {
            Some(BufferBinding::AtomicCounterBuffer)
        } else if code == DISPATCH_INDIRECT_BUFFER_BINDING {
            Some(BufferBinding::DispatchIndirectBuffer)
        } else if code == DRAW_INDIRECT_BUFFER_BINDING {
            Some(BufferBinding::DrawIndirectBuffer)
        } else if code == QUERY_BUFFER_BINDING {
            Some(BufferBinding::QueryBuffer)
        } else if code == SHADER_STORAGE_BUFFER_BINDING {
            Some(BufferBinding::ShaderStorageBuffer)
        } else {
            None
        }
    }

    /// Minimum versions, per profile, under which the target is available.
    pub open spec fn spec_minimums(self) -> (Option<(u8, u8)>, Option<(u8, u8)>) {
        match self {
            BufferBinding::ArrayBuffer => (Some((2u8, 1u8)), Some((2u8, 0u8))),
            BufferBinding::ElementArrayBuffer => (Some((2u8, 1u8)), Some((2u8, 0u8))),
            BufferBinding::PixelPackBuffer => (Some((2u8, 1u8)), Some((3u8, 0u8))),
            BufferBinding::PixelUnpackBuffer => (Some((2u8, 1u8)), Some((3u8, 0u8))),
            BufferBinding::CopyReadBuffer => (Some((3u8, 1u8)), Some((3u8, 0u8))),
            BufferBinding::CopyWriteBuffer => (Some((3u8, 1u8)), Some((3u8, 0u8))),
            BufferBinding::TextureBuffer => (Some((3u8, 1u8)), None),
            BufferBinding::TransformFeedbackBuffer => (Some((3u8, 0u8)), Some((3u8, 0u8))),
            BufferBinding::UniformBuffer => (Some((3u8, 1u8)), Some((3u8, 0u8))),
            BufferBinding::AtomicCounterBuffer => (Some((4u8, 2u8)), Some((3u8, 1u8))),
            BufferBinding::DispatchIndirectBuffer => (Some((4u8, 3u8)), Some((3u8, 1u8))),
            BufferBinding::DrawIndirectBuffer => (Some((4u8, 0u8)), Some((3u8, 1u8))),
            BufferBinding::QueryBuffer => (Some((4u8, 4u8)), None),
            BufferBinding::ShaderStorageBuffer => (Some((4u8, 3u8)), Some((3u8, 1u8))),
        }
    }

    pub fn minimums(&self) -> (r: (Option<(u8, u8)>, Option<(u8, u8)>))
        ensures
            r == self.spec_minimums(),
    {
        match self {
            BufferBinding::ArrayBuffer => (Some((2, 1)), Some((2, 0))),
            BufferBinding::ElementArrayBuffer => (Some((2, 1)), Some((2, 0))),
            BufferBinding::PixelPackBuffer => (Some((2, 1)), Some((3, 0))),
            BufferBinding::PixelUnpackBuffer => (Some((2, 1)), Some((3, 0))),
            BufferBinding::CopyReadBuffer => (Some((3, 1)), Some((3, 0))),
            BufferBinding::CopyWriteBuffer => (Some((3, 1)), Some((3, 0))),
            BufferBinding::TextureBuffer => (Some((3, 1)), None),
            BufferBinding::TransformFeedbackBuffer => (Some((3, 0)), Some((3, 0))),
            BufferBinding::UniformBuffer => (Some((3, 1)), Some((3, 0))),
            BufferBinding::AtomicCounterBuffer => (Some((4, 2)), Some((3, 1))),
            BufferBinding::DispatchIndirectBuffer => (Some((4, 3)), Some((3, 1))),
            BufferBinding::DrawIndirectBuffer => (Some((4, 0)), Some((3, 1))),
            BufferBinding::QueryBuffer => (Some((4, 4)), None),
            BufferBinding::ShaderStorageBuffer => (Some((4, 3)), Some((3, 1))),
        }
    }

    /// The version is too old for the target: the condition the version
    /// check of a recognized target reports.
    pub open spec fn spec_version_err(self, v: GlVersion) -> bool {
        !v.spec_at_least(self.spec_minimums().0, self.spec_minimums().1)
    }

    /// Reports (as the result) whether the target is unavailable under the
    /// version; the caller records the condition.
    pub fn check_version(&self, version: &GlVersion) -> (err: bool)
        ensures
            err == self.spec_version_err(*version),
    {
        let (gl, es) = self.minimums();
        !version.at_least(gl, es)
    }
}

/// The closed enumeration of usage hints a data commit accepts.
#[derive(Copy, Clone, PartialEq, Eq, Structural)]
pub enum BufferUsage {
    StreamDraw,
    StreamRead,
    StreamCopy,
    StaticDraw,
    StaticRead,
    StaticCopy,
    DynamicDraw,
    DynamicRead,
    DynamicCopy,
}

impl BufferUsage {
    /// The hint's own numeric code.
    pub open spec fn spec_to_gl(self) -> u32 {
        match self {
            BufferUsage::StreamDraw => STREAM_DRAW,
            BufferUsage::StreamRead => STREAM_READ,
            BufferUsage::StreamCopy => STREAM_COPY,
            BufferUsage::StaticDraw => STATIC_DRAW,
            BufferUsage::StaticRead => STATIC_READ,
            BufferUsage::StaticCopy => STATIC_COPY,
            BufferUsage::DynamicDraw => DYNAMIC_DRAW,
            BufferUsage::DynamicRead => DYNAMIC_READ,
            BufferUsage::DynamicCopy => DYNAMIC_COPY,
        }
    }

    pub fn to_gl(&self) -> (code: u32)
        ensures
            code == self.spec_to_gl(),
    {
        match self {
            BufferUsage::StreamDraw => STREAM_DRAW,
            BufferUsage::StreamRead => STREAM_READ,
            BufferUsage::StreamCopy => STREAM_COPY,
            BufferUsage::StaticDraw => STATIC_DRAW,
            BufferUsage::StaticRead => STATIC_READ,
            BufferUsage::StaticCopy => STATIC_COPY,
            BufferUsage::DynamicDraw => DYNAMIC_DRAW,
            BufferUsage::DynamicRead => DYNAMIC_READ,
            BufferUsage::DynamicCopy => DYNAMIC_COPY,
        }
    }

    /// The usage hint recognized under a numeric code, if any.
    pub open spec fn spec_from_gl(code: u32) -> Option<BufferUsage> {
        if code == STREAM_DRAW {
            Some(BufferUsage::StreamDraw)
        } else if code == STREAM_READ {
            Some(BufferUsage::StreamRead)
        } else if code == STREAM_COPY {
            Some(BufferUsage::StreamCopy)
        } else if code == STATIC_DRAW {
            Some(BufferUsage::StaticDraw)
        } else if code == STATIC_READ {
            Some(BufferUsage::StaticRead)
        } else if code == STATIC_COPY {
            Some(BufferUsage::StaticCopy)
        } else if code == DYNAMIC_DRAW {
            Some(BufferUsage::DynamicDraw)
        } else if code == DYNAMIC_READ {
            Some(BufferUsage::DynamicRead)
        } else if code == DYNAMIC_COPY {
            Some(BufferUsage::DynamicCopy)
        } else {
            None
        }
    }

    pub fn from_gl(code: u32) -> (r: Option<BufferUsage>)
        ensures
            r == Self::spec_from_gl(code),
    {
        if code == STREAM_DRAW {
            Some(BufferUsage::StreamDraw)
        } else if code == STREAM_READ {
            Some(BufferUsage::StreamRead)
        } else if code == STREAM_COPY {
            Some(BufferUsage::StreamCopy)
        } else if code == STATIC_DRAW {
            Some(BufferUsage::StaticDraw)
        } else if code == STATIC_READ {
            Some(BufferUsage::StaticRead)
        } else if code == STATIC_COPY {
            Some(BufferUsage::StaticCopy)
        } else if code == DYNAMIC_DRAW {
            Some(BufferUsage::DynamicDraw)
        } else if code == DYNAMIC_READ {
            Some(BufferUsage::DynamicRead)
        } else if code == DYNAMIC_COPY {
            Some(BufferUsage::DynamicCopy)
        } else {
            None
        }
    }

    /// Minimum versions, per profile, under which the hint is available.
    pub open spec fn spec_minimums(self) -> (Option<(u8, u8)>, Option<(u8, u8)>) {
        match self {
            BufferUsage::StreamDraw => (Some((2u8, 1u8)), Some((2u8, 0u8))),
            BufferUsage::StreamRead => (Some((2u8, 1u8)), Some((3u8, 0u8))),
            BufferUsage::StreamCopy => (Some((2u8, 1u8)), Some((3u8, 0u8))),
            BufferUsage::StaticDraw => (Some((2u8, 1u8)), Some((2u8, 0u8))),
            BufferUsage::StaticRead => (Some((2u8, 1u8)), Some((3u8, 0u8))),
            BufferUsage::StaticCopy => (Some((2u8, 1u8)), Some((3u8, 0u8))),
            BufferUsage::DynamicDraw => (Some((2u8, 1u8)), Some((2u8, 0u8))),
            BufferUsage::DynamicRead => (Some((2u8, 1u8)), Some((3u8, 0u8))),
            BufferUsage::DynamicCopy => (Some((2u8, 1u8)), Some((3u8, 0u8))),
        }
    }

    pub fn minimums(&self) -> (r: (Option<(u8, u8)>, Option<(u8, u8)>))
        ensures
            r == self.spec_minimums(),
    {
        match self {
            BufferUsage::StreamDraw => (Some((2, 1)), Some((2, 0))),
            BufferUsage::StreamRead => (Some((2, 1)), Some((3, 0))),
            BufferUsage::StreamCopy => (Some((2, 1)), Some((3, 0))),
            BufferUsage::StaticDraw => (Some((2, 1)), Some((2, 0))),
            BufferUsage::StaticRead => (Some((2, 1)), Some((3, 0))),
            BufferUsage::StaticCopy => (Some((2, 1)), Some((3, 0))),
            BufferUsage::DynamicDraw => (Some((2, 1)), Some((2, 0))),
            BufferUsage::DynamicRead => (Some((2, 1)), Some((3, 0))),
            BufferUsage::DynamicCopy => (Some((2, 1)), Some((3, 0))),
        }
    }

    /// The version is too old for the usage hint.
    pub open spec fn spec_version_err(self, v: GlVersion) -> bool {
        !v.spec_at_least(self.spec_minimums().0, self.spec_minimums().1)
    }

    /// Reports (as the result) whether the hint is unavailable under the
    /// version; the caller records the condition.
    pub fn check_version(&self, version: &GlVersion) -> (err: bool)
        ensures
            err == self.spec_version_err(*version),
    {
        let (gl, es) = self.minimums();
        !version.at_least(gl, es)
    }
}

} // verus!
