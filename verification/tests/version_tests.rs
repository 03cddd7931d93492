//! Version and extension gating: an operation's capability gate passes iff
//! the version reaches the declared minimum or the declared required
//! extension is present.

use mock_gl::new;
use mock_gl::version::arb_buffer_storage;
use mock_gl::version::GlVersion;
use mock_gl::version::VersionType;
use mock_gl::ErrorHandling;
use mock_gl::MockContextRef;
use mock_gl::MockGl;

const T: u64 = 7;

fn ctx(version: GlVersion) -> (MockGl, MockContextRef) {
    let mut gl = MockGl::new();
    let ctx = new(&mut gl, version, ErrorHandling::PanicEarly { warn: true }, T).unwrap();
    (gl, ctx)
}

#[test]
fn missing_extension() {
    let (mut gl, ctx) = ctx(GlVersion::clear());
    let ok = gl.check_capability(T, Some((4, 6)), None, Some("ARB_buffer_storage"));
    assert!(!ok);
    assert!(gl.panic_pending());
    ctx.finalize(&mut gl);
}

#[test]
fn old_gl_version() {
    let (mut gl, ctx) = ctx(GlVersion::clear());
    let ok = gl.check_capability(T, Some((3, 2)), None, None);
    assert!(!ok);
    assert!(gl.panic_pending());
    ctx.finalize(&mut gl);
}

#[test]
fn extension_present() {
    let arb = arb_buffer_storage();
    let (mut gl, ctx) = ctx(GlVersion::from_extensions(&[arb]));
    let ok = gl.check_capability(T, Some((4, 6)), None, Some("ARB_buffer_storage"));
    assert!(ok);
    assert!(!gl.panic_pending());
    let report = ctx.finalize(&mut gl);
    assert!(!report.should_panic);
}

#[test]
fn gl_version_met() {
    let (mut gl, ctx) = ctx(GlVersion::from_version(VersionType::GL, 4, 6));
    assert!(gl.check_capability(T, Some((3, 2)), None, None));
    assert!(gl.check_capability(T, Some((4, 6)), None, Some("ARB_buffer_storage")));
    assert!(!gl.panic_pending());
    let report = ctx.finalize(&mut gl);
    assert!(!report.should_panic);
}

#[test]
fn es_version_met_gl() {
    // An ES profile never satisfies a desktop-only minimum, however high
    // its own number.
    let (mut gl, ctx) = ctx(GlVersion::from_version(VersionType::ES, 4, 6));
    let ok = gl.check_capability(T, Some((3, 2)), None, None);
    assert!(!ok);
    assert!(gl.panic_pending());
    ctx.finalize(&mut gl);
}

#[test]
fn at_least_lexicographic() {
    let v = GlVersion::from_version(VersionType::GL, 3, 0);
    assert!(v.at_least(Some((2, 1)), None));
    assert!(v.at_least(Some((3, 0)), None));
    assert!(!v.at_least(Some((3, 1)), None));
    assert!(!v.at_least(Some((4, 0)), None));
    assert!(!v.at_least(None, Some((2, 0))));
}

#[test]
fn version_seeds_unlocked_extensions() {
    // The version unlocks the catalogue extension without it being asked
    // for; membership is monotonic in the version number.
    let v = GlVersion::from_version(VersionType::GL, 4, 6);
    assert_eq!(v.extensions.len(), 1);
    assert_eq!(v.extensions[0].name, "ARB_buffer_storage");
    assert!(v.has_extension("ARB_buffer_storage"));

    let older = GlVersion::from_version(VersionType::GL, 4, 5);
    assert!(older.extensions.is_empty());
    assert!(!older.has_extension("ARB_buffer_storage"));

    // Asking explicitly under an unlocking version does not lose it.
    let both = GlVersion::new(VersionType::GL, 4, 6, &[arb_buffer_storage()]);
    assert!(both.has_extension("ARB_buffer_storage"));
    assert_eq!(both.extensions.len(), 2);

    let es = GlVersion::from_version(VersionType::ES, 4, 6);
    assert!(!es.has_extension("ARB_buffer_storage"));
}
