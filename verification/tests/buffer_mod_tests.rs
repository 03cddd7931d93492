//! The buffer subsystem exercised under the weakest version descriptor:
//! the calls still perform their state changes, and the failed base
//! capability gate is recorded as an error without stopping them.

use mock_gl::codes::ARRAY_BUFFER;
use mock_gl::codes::ARRAY_BUFFER_BINDING;
use mock_gl::codes::FALSE;
use mock_gl::codes::TRUE;
use mock_gl::new;
use mock_gl::ErrorHandling;
use mock_gl::MockContextRef;
use mock_gl::MockGl;
use mock_gl::version::GlVersion;
use mock_gl::version::VersionType;

const T: u64 = 7;

fn clear_ctx() -> (MockGl, MockContextRef) {
    let mut gl = MockGl::new();
    let ctx = new(&mut gl, GlVersion::clear(), ErrorHandling::DoNotPanic, T).unwrap();
    (gl, ctx)
}

#[test]
fn mod_create_destroy() {
    let (mut gl, ctx) = clear_ctx();
    let ids = gl.gen_buffers(T, 1);
    gl.delete_buffers(T, 1, &ids);
    // Version 0.0 meets no gate: the capability error is recorded, the
    // operations still ran.
    assert!(gl.any_errors());
    let report = ctx.finalize(&mut gl);
    assert!(report.leaked.is_empty());
}

#[test]
fn mod_is_buffer() {
    let (mut gl, ctx) = clear_ctx();
    assert_eq!(gl.is_buffer(T, 0), FALSE);
    let ids = gl.gen_buffers(T, 1);
    assert_eq!(gl.is_buffer(T, ids[0]), TRUE);
    gl.delete_buffers(T, 1, &ids);
    assert_eq!(gl.is_buffer(T, ids[0]), FALSE);
    ctx.finalize(&mut gl);
}

#[test]
fn mod_bind_buffer() {
    let mut gl = MockGl::new();
    let ctx = new(
        &mut gl,
        GlVersion::from_version(VersionType::GL, 2, 1),
        ErrorHandling::PanicEarly { warn: true },
        T,
    )
    .unwrap();
    assert_eq!(gl.get_integerv(T, ARRAY_BUFFER_BINDING), Some(0));
    let ids = gl.gen_buffers(T, 1);
    gl.bind_buffer(T, ARRAY_BUFFER, ids[0]);
    assert_eq!(gl.get_integerv(T, ARRAY_BUFFER_BINDING), Some(ids[0] as i32));
    gl.bind_buffer(T, ARRAY_BUFFER, 0);
    assert_eq!(gl.get_integerv(T, ARRAY_BUFFER_BINDING), Some(0));
    gl.delete_buffers(T, 1, &ids);
    assert!(!gl.panic_pending());
    ctx.finalize(&mut gl);
}
