//! Numeric codes of the emulated API's public header.
//!
//! Bind targets, binding-point queries, usage hints, error conditions and
//! boolean results keep the exact values the header defines; nothing is
//! re-numbered.

use vstd::prelude::*;

verus! {

// Error conditions.
pub const NO_ERROR: u32 = 0;
pub const INVALID_ENUM: u32 = 0x0500;
pub const INVALID_VALUE: u32 = 0x0501;
pub const INVALID_OPERATION: u32 = 0x0502;

// Boolean results.
pub const FALSE: u8 = 0;
pub const TRUE: u8 = 1;

// Bind targets.
pub const ARRAY_BUFFER: u32 = 0x8892;
pub const ELEMENT_ARRAY_BUFFER: u32 = 0x8893;
pub const PIXEL_PACK_BUFFER: u32 = 0x88EB;
pub const PIXEL_UNPACK_BUFFER: u32 = 0x88EC;
pub const COPY_READ_BUFFER: u32 = 0x8F36;
pub const COPY_WRITE_BUFFER: u32 = 0x8F37;
pub const TEXTURE_BUFFER: u32 = 0x8C2A;
pub const TRANSFORM_FEEDBACK_BUFFER: u32 = 0x8C8E;
pub const UNIFORM_BUFFER: u32 = 0x8A11;
pub const ATOMIC_COUNTER_BUFFER: u32 = 0x92C0;
pub const DISPATCH_INDIRECT_BUFFER: u32 = 0x90EE;
pub const DRAW_INDIRECT_BUFFER: u32 = 0x8F3F;
pub const QUERY_BUFFER: u32 = 0x9192;
pub const SHADER_STORAGE_BUFFER: u32 = 0x90D2;

// Binding-point queries for the integer-state call.
pub const ARRAY_BUFFER_BINDING: u32 = 0x8894;
pub const ELEMENT_ARRAY_BUFFER_BINDING: u32 = 0x8895;
pub const PIXEL_PACK_BUFFER_BINDING: u32 = 0x88ED;
pub const PIXEL_UNPACK_BUFFER_BINDING: u32 = 0x88EF;
pub const COPY_READ_BUFFER_BINDING: u32 = 0x8F36;
pub const COPY_WRITE_BUFFER_BINDING: u32 = 0x8F37;
pub const TEXTURE_BUFFER_BINDING: u32 = 0x8C2A;
pub const TRANSFORM_FEEDBACK_BUFFER_BINDING: u32 = 0x8C8F;
pub const UNIFORM_BUFFER_BINDING: u32 = 0x8A28;
pub const ATOMIC_COUNTER_BUFFER_BINDING: u32 = 0x92C1;
pub const DISPATCH_INDIRECT_BUFFER_BINDING: u32 = 0x90EF;
pub const DRAW_INDIRECT_BUFFER_BINDING: u32 = 0x8F43;
pub const QUERY_BUFFER_BINDING: u32 = 0x9193;
pub const SHADER_STORAGE_BUFFER_BINDING: u32 = 0x90D3;

// Usage hints for the data-commit call.
pub const STREAM_DRAW: u32 = 0x88E0;
pub const STREAM_READ: u32 = 0x88E1;
pub const STREAM_COPY: u32 = 0x88E2;
pub const STATIC_DRAW: u32 = 0x88E4;
pub const STATIC_READ: u32 = 0x88E5;
pub const STATIC_COPY: u32 = 0x88E6;
pub const DYNAMIC_DRAW: u32 = 0x88E8;
pub const DYNAMIC_READ: u32 = 0x88E9;
pub const DYNAMIC_COPY: u32 = 0x88EA;

} // verus!
