//! Concrete instances of the subsystem's laws, and the end-to-end
//! scenario, observed through the public interface.

use mock_gl::buffer::BufferManager;
use mock_gl::codes::ARRAY_BUFFER;
use mock_gl::codes::ARRAY_BUFFER_BINDING;
use mock_gl::codes::ELEMENT_ARRAY_BUFFER;
use mock_gl::codes::FALSE;
use mock_gl::codes::INVALID_ENUM;
use mock_gl::codes::INVALID_OPERATION;
use mock_gl::codes::INVALID_VALUE;
use mock_gl::codes::NO_ERROR;
use mock_gl::codes::STATIC_DRAW;
use mock_gl::codes::TRUE;
use mock_gl::new;
use mock_gl::ErrorHandling;
use mock_gl::MockContextRef;
use mock_gl::MockGl;
use mock_gl::version::GlVersion;
use mock_gl::version::VersionType;

const T: u64 = 7;

fn quiet() -> (MockGl, MockContextRef) {
    let mut gl = MockGl::new();
    let ctx = new(
        &mut gl,
        GlVersion::from_version(VersionType::GL, 2, 1),
        ErrorHandling::DoNotPanic,
        T,
    )
    .unwrap();
    (gl, ctx)
}

#[test]
fn generate_then_delete_leaves_nothing() {
    let (mut gl, ctx) = quiet();
    let ids = gl.gen_buffers(T, 3);
    assert_eq!(ids, vec![1, 2, 3]);
    gl.delete_buffers(T, 3, &ids);
    for id in &ids {
        assert_eq!(gl.is_buffer(T, *id), FALSE);
    }
    assert_eq!(gl.get_error(T), NO_ERROR);
    let report = ctx.finalize(&mut gl);
    assert!(report.leaked.is_empty());
    assert!(!report.should_panic);
}

#[test]
fn negative_counts_allocate_nothing() {
    let (mut gl, ctx) = quiet();
    let ids = gl.gen_buffers(T, -1);
    assert!(ids.is_empty());
    assert_eq!(gl.get_error(T), INVALID_VALUE);
    gl.delete_buffers(T, -3, &[]);
    assert_eq!(gl.get_error(T), INVALID_VALUE);
    // No handle was consumed by the failed call: the first real one is 1.
    let ids = gl.gen_buffers(T, 1);
    assert_eq!(ids, vec![1]);
    gl.delete_buffers(T, 1, &ids);
    ctx.finalize(&mut gl);
}

#[test]
fn double_free_is_a_warning_not_an_error() {
    let (mut gl, ctx) = quiet();
    let ids = gl.gen_buffers(T, 1);
    gl.delete_buffers(T, 1, &ids);
    gl.delete_buffers(T, 1, &ids);
    // Below error severity: the register and the error flag stay clean,
    // and nothing further is removed.
    assert_eq!(gl.get_error(T), NO_ERROR);
    assert!(!gl.any_errors());
    let report = ctx.finalize(&mut gl);
    assert!(report.leaked.is_empty());
}

#[test]
fn double_free_panics_only_under_warn() {
    let mut gl = MockGl::new();
    let ctx = new(
        &mut gl,
        GlVersion::from_version(VersionType::GL, 2, 1),
        ErrorHandling::PanicEarly { warn: false },
        T,
    )
    .unwrap();
    let ids = gl.gen_buffers(T, 1);
    gl.delete_buffers(T, 1, &ids);
    gl.delete_buffers(T, 1, &ids);
    assert!(!gl.panic_pending());
    ctx.finalize(&mut gl);
}

#[test]
fn delete_unallocated_changes_nothing() {
    let (mut gl, ctx) = quiet();
    let ids = gl.gen_buffers(T, 1);
    let stranger = [42u32];
    gl.delete_buffers(T, 1, &stranger);
    assert_eq!(gl.get_error(T), INVALID_VALUE);
    // The live set is untouched.
    assert_eq!(gl.is_buffer(T, ids[0]), TRUE);
    assert_eq!(gl.is_buffer(T, 42), FALSE);
    gl.delete_buffers(T, 1, &ids);
    let report = ctx.finalize(&mut gl);
    assert!(report.leaked.is_empty());
}

#[test]
fn bind_zero_always_clears() {
    let (mut gl, ctx) = quiet();
    let ids = gl.gen_buffers(T, 1);
    gl.bind_buffer(T, ARRAY_BUFFER, 0);
    assert_eq!(gl.get_integerv(T, ARRAY_BUFFER_BINDING), Some(0));
    gl.bind_buffer(T, ARRAY_BUFFER, ids[0]);
    gl.bind_buffer(T, ARRAY_BUFFER, 0);
    assert_eq!(gl.get_integerv(T, ARRAY_BUFFER_BINDING), Some(0));
    gl.delete_buffers(T, 1, &ids);
    ctx.finalize(&mut gl);
}

#[test]
fn delete_clears_the_binding() {
    let (mut gl, ctx) = quiet();
    let ids = gl.gen_buffers(T, 1);
    gl.bind_buffer(T, ARRAY_BUFFER, ids[0]);
    assert_eq!(gl.get_integerv(T, ARRAY_BUFFER_BINDING), Some(1));
    gl.delete_buffers(T, 1, &ids);
    assert_eq!(gl.get_integerv(T, ARRAY_BUFFER_BINDING), Some(0));
    let report = ctx.finalize(&mut gl);
    assert!(report.leaked.is_empty());
}

#[test]
fn commit_through_unbound_target_is_invalid_operation() {
    let (mut gl, ctx) = quiet();
    let ids = gl.gen_buffers(T, 1);
    let bytes: [u8; 2] = [9, 9];
    gl.buffer_data(T, ELEMENT_ARRAY_BUFFER, 2, Some(&bytes), STATIC_DRAW);
    assert_eq!(gl.get_error(T), INVALID_OPERATION);
    gl.bind_buffer(T, ARRAY_BUFFER, ids[0]);
    gl.buffer_data(T, ARRAY_BUFFER, 2, Some(&bytes), STATIC_DRAW);
    assert_eq!(gl.get_error(T), NO_ERROR);
    gl.delete_buffers(T, 1, &ids);
    ctx.finalize(&mut gl);
}

#[test]
fn handles_are_never_reused() {
    let (mut gl, ctx) = quiet();
    let first = gl.gen_buffers(T, 1);
    assert_eq!(first, vec![1]);
    gl.delete_buffers(T, 1, &first);
    let second = gl.gen_buffers(T, 1);
    assert_eq!(second, vec![2]);
    gl.delete_buffers(T, 1, &second);
    ctx.finalize(&mut gl);
}

#[test]
fn query_unknown_key_is_invalid_enum() {
    let (mut gl, ctx) = quiet();
    // The code of the texture object kind is not an integer-state query
    // the emulation supports.
    assert_eq!(gl.get_integerv(T, 0x1702), None);
    assert_eq!(gl.get_error(T), INVALID_ENUM);
    ctx.finalize(&mut gl);
}

#[test]
fn named_commit_to_live_handle() {
    let mut gl = MockGl::new();
    let ctx = new(
        &mut gl,
        GlVersion::from_version(VersionType::GL, 4, 0),
        ErrorHandling::DoNotPanic,
        T,
    )
    .unwrap();
    let ids = gl.gen_buffers(T, 1);
    let bytes: [u8; 3] = [5, 6, 7];
    gl.named_buffer_data(T, ids[0], 3, Some(&bytes), STATIC_DRAW);
    assert_eq!(gl.get_error(T), NO_ERROR);
    assert!(!gl.any_errors());
    gl.delete_buffers(T, 1, &ids);
    let report = ctx.finalize(&mut gl);
    assert!(report.leaked.is_empty());
}

#[test]
fn end_to_end() {
    let mut gl = MockGl::new();
    let ctx = new(
        &mut gl,
        GlVersion::from_version(VersionType::GL, 2, 1),
        ErrorHandling::DoNotPanic,
        T,
    )
    .unwrap();
    let ids = gl.gen_buffers(T, 1);
    assert_eq!(ids, vec![1]);
    gl.bind_buffer(T, ARRAY_BUFFER, 1);
    let bytes: [u8; 4] = [10, 20, 30, 40];
    gl.buffer_data(T, ARRAY_BUFFER, 4, Some(&bytes), STATIC_DRAW);
    assert_eq!(gl.get_error(T), NO_ERROR);
    assert_eq!(gl.get_integerv(T, ARRAY_BUFFER_BINDING), Some(1));
    gl.delete_buffers(T, 1, &ids);
    assert_eq!(gl.get_integerv(T, ARRAY_BUFFER_BINDING), Some(0));
    let report = ctx.finalize(&mut gl);
    assert!(report.leaked.is_empty());
    assert!(!report.should_panic);
}

#[test]
fn subsystem_direct() {
    // The buffer subsystem itself, without a context around it.
    let version = GlVersion::from_version(VersionType::GL, 2, 1);
    let mut m = BufferManager::new();
    let mut err: u32 = NO_ERROR;
    let ids = m.gen_buffers(&mut err, 2);
    assert_eq!(ids, vec![1, 2]);
    assert_eq!(err, NO_ERROR);
    assert_eq!(m.is_buffer(1), TRUE);
    let cap = m.bind_buffer(&version, &mut err, ARRAY_BUFFER, 1);
    assert!(!cap);
    assert_eq!(err, NO_ERROR);
    let bytes: [u8; 3] = [1, 2, 3];
    let cap = m.buffer_data_target(&version, &mut err, ARRAY_BUFFER, 3, Some(&bytes), STATIC_DRAW);
    assert!(!cap);
    assert_eq!(err, NO_ERROR);
    let (bound, cap) = m.get_int(&version, ARRAY_BUFFER_BINDING);
    assert_eq!(bound, Some(1));
    assert!(!cap);
    let warned = m.free_buffers(&mut err, 1, &[1]);
    assert!(!warned);
    let leaked = m.finalize();
    assert_eq!(leaked, vec![2]);
}
