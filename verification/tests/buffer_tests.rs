//! The buffer subsystem through the context entry points, under a version
//! that recognizes the base calls. Conditions the original usage would have
//! escalated to panics are observed through the policy's pending-panic flag
//! and the error register.

use mock_gl::codes::ARRAY_BUFFER;
use mock_gl::codes::ARRAY_BUFFER_BINDING;
use mock_gl::codes::FALSE;
use mock_gl::codes::INVALID_ENUM;
use mock_gl::codes::INVALID_OPERATION;
use mock_gl::codes::INVALID_VALUE;
use mock_gl::codes::NO_ERROR;
use mock_gl::codes::STATIC_DRAW;
use mock_gl::codes::TRUE;
use mock_gl::new;
use mock_gl::ErrorHandling;
use mock_gl::MockContextRef;
use mock_gl::MockGl;
use mock_gl::version::GlVersion;
use mock_gl::version::VersionType;

const T: u64 = 7;

fn gl21(handling: ErrorHandling) -> (MockGl, MockContextRef) {
    let mut gl = MockGl::new();
    let ctx = new(
        &mut gl,
        GlVersion::from_version(VersionType::GL, 2, 1),
        handling,
        T,
    )
    .unwrap();
    (gl, ctx)
}

fn strict() -> (MockGl, MockContextRef) {
    gl21(ErrorHandling::PanicEarly { warn: true })
}

#[test]
fn create_destroy() {
    let (mut gl, ctx) = strict();
    let ids = gl.gen_buffers(T, 1);
    gl.delete_buffers(T, 1, &ids);
    assert!(!gl.panic_pending());
    let report = ctx.finalize(&mut gl);
    assert!(report.leaked.is_empty());
    assert!(!report.should_panic);
}

#[test]
fn dangling() {
    let (mut gl, ctx) = strict();
    let ids = gl.gen_buffers(T, 1);
    assert_eq!(ids, vec![1]);
    // Teardown with a still-live handle reports the dangling-resource
    // condition; the early-panicking policy demands a panic for it.
    let report = ctx.finalize(&mut gl);
    assert_eq!(report.leaked, vec![1]);
    assert!(report.should_panic);
}

#[test]
fn double_free() {
    let (mut gl, ctx) = strict();
    let ids = gl.gen_buffers(T, 1);
    gl.delete_buffers(T, 1, &ids);
    assert!(!gl.panic_pending());
    gl.delete_buffers(T, 1, &ids);
    // The second deletion is a double-free warning; this policy panics on
    // warnings too.
    assert!(gl.panic_pending());
    let report = ctx.finalize(&mut gl);
    assert!(report.leaked.is_empty());
}

#[test]
fn invalid_free() {
    let (mut gl, ctx) = strict();
    let buffers = [42u32];
    gl.delete_buffers(T, 1, &buffers);
    assert!(gl.panic_pending());
    assert_eq!(gl.get_error(T), INVALID_VALUE);
    ctx.finalize(&mut gl);
}

#[test]
fn gen_negative() {
    let (mut gl, ctx) = strict();
    let ids = gl.gen_buffers(T, -1);
    assert!(ids.is_empty());
    assert!(gl.panic_pending());
    assert_eq!(gl.get_error(T), INVALID_VALUE);
    ctx.finalize(&mut gl);
}

#[test]
fn free_negative() {
    let (mut gl, ctx) = strict();
    gl.delete_buffers(T, -1, &[]);
    assert!(gl.panic_pending());
    assert_eq!(gl.get_error(T), INVALID_VALUE);
    ctx.finalize(&mut gl);
}

#[test]
fn is_buffer() {
    let (mut gl, ctx) = strict();
    assert_eq!(gl.is_buffer(T, 0), FALSE);
    let ids = gl.gen_buffers(T, 1);
    assert_eq!(gl.is_buffer(T, ids[0]), TRUE);
    gl.delete_buffers(T, 1, &ids);
    assert_eq!(gl.is_buffer(T, ids[0]), FALSE);
    let report = ctx.finalize(&mut gl);
    assert!(!report.should_panic);
}

#[test]
fn bind_buffer() {
    let (mut gl, ctx) = strict();
    assert_eq!(gl.get_integerv(T, ARRAY_BUFFER_BINDING), Some(0));
    let ids = gl.gen_buffers(T, 1);
    gl.bind_buffer(T, ARRAY_BUFFER, ids[0]);
    assert_eq!(gl.get_integerv(T, ARRAY_BUFFER_BINDING), Some(ids[0] as i32));
    gl.bind_buffer(T, ARRAY_BUFFER, 0);
    assert_eq!(gl.get_integerv(T, ARRAY_BUFFER_BINDING), Some(0));
    gl.delete_buffers(T, 1, &ids);
    assert!(!gl.panic_pending());
    ctx.finalize(&mut gl);
}

#[test]
fn bind_invalid_buffer() {
    let (mut gl, ctx) = strict();
    gl.bind_buffer(T, ARRAY_BUFFER, 1);
    assert!(gl.panic_pending());
    assert_eq!(gl.get_error(T), INVALID_VALUE);
    ctx.finalize(&mut gl);
}

#[test]
fn bind_invalid_target() {
    let (mut gl, ctx) = strict();
    let ids = gl.gen_buffers(T, 1);
    // The code of a texture unit is not a buffer bind target.
    gl.bind_buffer(T, 0x84C0, ids[0]);
    assert!(gl.panic_pending());
    assert_eq!(gl.get_error(T), INVALID_ENUM);
    gl.delete_buffers(T, 1, &ids);
    ctx.finalize(&mut gl);
}

#[test]
fn buffer_data() {
    let (mut gl, ctx) = strict();
    let ids = gl.gen_buffers(T, 1);
    gl.bind_buffer(T, ARRAY_BUFFER, ids[0]);

    let data: [u8; 4] = [0, 1, 2, 3];
    gl.buffer_data(T, ARRAY_BUFFER, 2, None, STATIC_DRAW);
    gl.buffer_data(T, ARRAY_BUFFER, 4, Some(&data), STATIC_DRAW);
    gl.buffer_data(T, ARRAY_BUFFER, 42, None, STATIC_DRAW);
    assert!(!gl.panic_pending());
    assert_eq!(gl.get_error(T), NO_ERROR);

    gl.delete_buffers(T, 1, &ids);
    let report = ctx.finalize(&mut gl);
    assert!(report.leaked.is_empty());
}

#[test]
fn buffer_data_invalid_buffer() {
    let (mut gl, ctx) = strict();
    gl.buffer_data(T, ARRAY_BUFFER, 0, None, STATIC_DRAW);
    assert!(gl.panic_pending());
    assert_eq!(gl.get_error(T), INVALID_OPERATION);
    ctx.finalize(&mut gl);
}

#[test]
fn named_buffer_data_invalid_buffer() {
    let mut gl = MockGl::new();
    let ctx = new(
        &mut gl,
        GlVersion::from_version(VersionType::GL, 4, 0),
        ErrorHandling::PanicEarly { warn: true },
        T,
    )
    .unwrap();
    gl.named_buffer_data(T, 1, 0, None, STATIC_DRAW);
    assert!(gl.panic_pending());
    assert_eq!(gl.get_error(T), INVALID_OPERATION);
    ctx.finalize(&mut gl);
}

#[test]
fn buffer_data_invalid_target() {
    let (mut gl, ctx) = strict();
    let ids = gl.gen_buffers(T, 1);
    gl.bind_buffer(T, ARRAY_BUFFER, ids[0]);
    // The code of the texture object kind is not a buffer bind target.
    gl.buffer_data(T, 0x1702, 0, None, STATIC_DRAW);
    assert!(gl.panic_pending());
    assert_eq!(gl.get_error(T), INVALID_ENUM);
    gl.delete_buffers(T, 1, &ids);
    ctx.finalize(&mut gl);
}

#[test]
fn buffer_data_invalid_usage() {
    let (mut gl, ctx) = strict();
    let ids = gl.gen_buffers(T, 1);
    gl.bind_buffer(T, ARRAY_BUFFER, ids[0]);
    gl.buffer_data(T, ARRAY_BUFFER, 0, None, 0x1702);
    assert!(gl.panic_pending());
    assert_eq!(gl.get_error(T), INVALID_ENUM);
    gl.delete_buffers(T, 1, &ids);
    ctx.finalize(&mut gl);
}

#[test]
fn use_deleted_binding() {
    let (mut gl, ctx) = strict();
    let ids = gl.gen_buffers(T, 1);
    gl.bind_buffer(T, ARRAY_BUFFER, ids[0]);
    gl.delete_buffers(T, 1, &ids);

    // Deletion forced the binding point back to 0, so the target-addressed
    // commit finds nothing bound.
    gl.buffer_data(T, ARRAY_BUFFER, 0, None, STATIC_DRAW);
    assert!(gl.panic_pending());
    assert_eq!(gl.get_error(T), INVALID_OPERATION);
    ctx.finalize(&mut gl);
}

#[test]
fn gl_errors() {
    let (mut gl, ctx) = gl21(ErrorHandling::DoNotPanic);

    gl.gen_buffers(T, -1);
    assert_eq!(gl.get_error(T), INVALID_VALUE);

    gl.delete_buffers(T, -1, &[]);
    assert_eq!(gl.get_error(T), INVALID_VALUE);

    gl.bind_buffer(T, ARRAY_BUFFER, 1);
    assert_eq!(gl.get_error(T), INVALID_VALUE);

    let ids = gl.gen_buffers(T, 1);

    gl.bind_buffer(T, 0x1702, ids[0]);
    assert_eq!(gl.get_error(T), INVALID_ENUM);

    gl.buffer_data(T, 0x1702, 0, None, STATIC_DRAW);
    assert_eq!(gl.get_error(T), INVALID_ENUM);

    gl.buffer_data(T, ARRAY_BUFFER, 0, None, STATIC_DRAW);
    assert_eq!(gl.get_error(T), INVALID_OPERATION);

    gl.bind_buffer(T, ARRAY_BUFFER, ids[0]);

    gl.buffer_data(T, ARRAY_BUFFER, 0, None, 0x1702);
    assert_eq!(gl.get_error(T), INVALID_ENUM);

    gl.buffer_data(T, ARRAY_BUFFER, -1, None, STATIC_DRAW);
    assert_eq!(gl.get_error(T), INVALID_VALUE);

    gl.delete_buffers(T, 1, &ids);
    let report = ctx.finalize(&mut gl);
    assert!(report.leaked.is_empty());
    assert!(!report.should_panic);
}
