//! The entry-point catalogue and the numeric codes: names resolve through
//! their aliases, unknown names resolve to nothing, and every code equals
//! the constant the published header defines.

use mock_gl::codes;
use mock_gl::mapping::lookup;
use mock_gl::mapping::GlFunction;

#[test]
fn lookup_canonical_names() {
    assert_eq!(lookup("glGetError"), Some(GlFunction::GetError));
    assert_eq!(lookup("glGetIntegerv"), Some(GlFunction::GetIntegerv));
    assert_eq!(lookup("glGenBuffers"), Some(GlFunction::GenBuffers));
    assert_eq!(lookup("glDeleteBuffers"), Some(GlFunction::DeleteBuffers));
    assert_eq!(lookup("glIsBuffer"), Some(GlFunction::IsBuffer));
    assert_eq!(lookup("glBindBuffer"), Some(GlFunction::BindBuffer));
    assert_eq!(lookup("glBufferData"), Some(GlFunction::BufferData));
    assert_eq!(lookup("glNamedBufferData"), Some(GlFunction::NamedBufferData));
}

#[test]
fn lookup_vendor_aliases() {
    assert_eq!(lookup("glGenBuffersARB"), Some(GlFunction::GenBuffers));
    assert_eq!(lookup("glDeleteBuffersARB"), Some(GlFunction::DeleteBuffers));
    assert_eq!(lookup("glIsBufferARB"), Some(GlFunction::IsBuffer));
    assert_eq!(lookup("glBindBufferARB"), Some(GlFunction::BindBuffer));
    assert_eq!(lookup("glBufferDataARB"), Some(GlFunction::BufferData));
}

#[test]
fn lookup_unknown_is_not_available() {
    assert_eq!(lookup("glDrawArrays"), None);
    assert_eq!(lookup("glGetErrorARB"), None);
    assert_eq!(lookup(""), None);
    assert_eq!(lookup("GLGENBUFFERS"), None);
}

#[test]
fn codes_match_published_header() {
    assert_eq!(codes::NO_ERROR, gl::NO_ERROR);
    assert_eq!(codes::INVALID_ENUM, gl::INVALID_ENUM);
    assert_eq!(codes::INVALID_VALUE, gl::INVALID_VALUE);
    assert_eq!(codes::INVALID_OPERATION, gl::INVALID_OPERATION);
    assert_eq!(codes::FALSE, gl::FALSE);
    assert_eq!(codes::TRUE, gl::TRUE);

    assert_eq!(codes::ARRAY_BUFFER, gl::ARRAY_BUFFER);
    assert_eq!(codes::ELEMENT_ARRAY_BUFFER, gl::ELEMENT_ARRAY_BUFFER);
    assert_eq!(codes::PIXEL_PACK_BUFFER, gl::PIXEL_PACK_BUFFER);
    assert_eq!(codes::PIXEL_UNPACK_BUFFER, gl::PIXEL_UNPACK_BUFFER);
    assert_eq!(codes::COPY_READ_BUFFER, gl::COPY_READ_BUFFER);
    assert_eq!(codes::COPY_WRITE_BUFFER, gl::COPY_WRITE_BUFFER);
    assert_eq!(codes::TEXTURE_BUFFER, gl::TEXTURE_BUFFER);
    assert_eq!(codes::TRANSFORM_FEEDBACK_BUFFER, gl::TRANSFORM_FEEDBACK_BUFFER);
    assert_eq!(codes::UNIFORM_BUFFER, gl::UNIFORM_BUFFER);
    assert_eq!(codes::ATOMIC_COUNTER_BUFFER, gl::ATOMIC_COUNTER_BUFFER);
    assert_eq!(codes::DISPATCH_INDIRECT_BUFFER, gl::DISPATCH_INDIRECT_BUFFER);
    assert_eq!(codes::DRAW_INDIRECT_BUFFER, gl::DRAW_INDIRECT_BUFFER);
    assert_eq!(codes::QUERY_BUFFER, gl::QUERY_BUFFER);
    assert_eq!(codes::SHADER_STORAGE_BUFFER, gl::SHADER_STORAGE_BUFFER);

    assert_eq!(codes::ARRAY_BUFFER_BINDING, gl::ARRAY_BUFFER_BINDING);
    assert_eq!(codes::ELEMENT_ARRAY_BUFFER_BINDING, gl::ELEMENT_ARRAY_BUFFER_BINDING);
    assert_eq!(codes::PIXEL_PACK_BUFFER_BINDING, gl::PIXEL_PACK_BUFFER_BINDING);
    assert_eq!(codes::PIXEL_UNPACK_BUFFER_BINDING, gl::PIXEL_UNPACK_BUFFER_BINDING);
    assert_eq!(codes::COPY_READ_BUFFER_BINDING, gl::COPY_READ_BUFFER_BINDING);
    assert_eq!(codes::COPY_WRITE_BUFFER_BINDING, gl::COPY_WRITE_BUFFER_BINDING);
    assert_eq!(codes::TEXTURE_BUFFER_BINDING, gl::TEXTURE_BUFFER_BINDING);
    assert_eq!(
        codes::TRANSFORM_FEEDBACK_BUFFER_BINDING,
        gl::TRANSFORM_FEEDBACK_BUFFER_BINDING
    );
    assert_eq!(codes::UNIFORM_BUFFER_BINDING, gl::UNIFORM_BUFFER_BINDING);
    assert_eq!(codes::ATOMIC_COUNTER_BUFFER_BINDING, gl::ATOMIC_COUNTER_BUFFER_BINDING);
    assert_eq!(
        codes::DISPATCH_INDIRECT_BUFFER_BINDING,
        gl::DISPATCH_INDIRECT_BUFFER_BINDING
    );
    assert_eq!(codes::DRAW_INDIRECT_BUFFER_BINDING, gl::DRAW_INDIRECT_BUFFER_BINDING);
    assert_eq!(codes::QUERY_BUFFER_BINDING, gl::QUERY_BUFFER_BINDING);
    assert_eq!(codes::SHADER_STORAGE_BUFFER_BINDING, gl::SHADER_STORAGE_BUFFER_BINDING);

    assert_eq!(codes::STREAM_DRAW, gl::STREAM_DRAW);
    assert_eq!(codes::STREAM_READ, gl::STREAM_READ);
    assert_eq!(codes::STREAM_COPY, gl::STREAM_COPY);
    assert_eq!(codes::STATIC_DRAW, gl::STATIC_DRAW);
    assert_eq!(codes::STATIC_READ, gl::STATIC_READ);
    assert_eq!(codes::STATIC_COPY, gl::STATIC_COPY);
    assert_eq!(codes::DYNAMIC_DRAW, gl::DYNAMIC_DRAW);
    assert_eq!(codes::DYNAMIC_READ, gl::DYNAMIC_READ);
    assert_eq!(codes::DYNAMIC_COPY, gl::DYNAMIC_COPY);
}
