//! Software emulation of an OpenGL execution context.
//!
//! The crate validates calls against the semantics and version gating rules
//! of the emulated API, tracks the object state those calls would produce,
//! and reports the same error codes a real driver would, without touching
//! any accelerator.
//!
//! The process-wide state lives in an explicit [`MockGl`] arena holding at
//! most one context at a time; creating a context hands out a
//! [`MockContextRef`] token that must be given back to `finalize`. Every
//! operation takes the caller's thread identity and demands the thread that
//! created the context: cross-thread access is a usage error the emulation
//! cannot recover from, so the caller must check `same_thread` first and
//! abort otherwise.

use vstd::prelude::*;

pub mod binding;
pub mod buffer;
pub mod codes;
pub mod mapping;
pub mod model;
pub mod version;

use crate::binding::BufferBinding;
use crate::binding::BufferUsage;
use crate::buffer::BufferManager;
use crate::codes::INVALID_ENUM;
use crate::codes::INVALID_OPERATION;
use crate::codes::INVALID_VALUE;
use crate::codes::NO_ERROR;
use crate::model::bind_target;
use crate::model::commit_store;
use crate::model::zero_bytes;
use crate::model::BufView;
use crate::model::TableView;
use crate::model::empty_table;
use crate::model::free_many;
use crate::model::free_many_double;
use crate::model::free_many_unalloc;
use crate::model::gen_ids;
use crate::model::gen_many;
use crate::version::GlVersion;
use crate::version::spec_capability_ok;
use vstd::pervasive::unreached;

verus! {

/// The base capability gate of the object, bind, data and query calls:
/// desktop OpenGL 2.1 or OpenGL ES 2.0.
pub open spec fn base_gate_err(v: GlVersion) -> bool {
    !v.spec_at_least(Some((2u8, 1u8)), Some((2u8, 0u8)))
}

/// The capability gate of the handle-addressed data commit: desktop
/// OpenGL 4.0, with no ES level that provides it.
pub open spec fn named_gate_err(v: GlVersion) -> bool {
    !v.spec_at_least(Some((4u8, 0u8)), None)
}

/// A bind call reports an error condition: the target is unrecognized, the
/// version does not recognize the target, or a nonzero handle is not live.
pub open spec fn bind_reports_error(v: GlVersion, tv: TableView, target: u32, buffer: u32) -> bool {
    match BufferBinding::spec_from_gl(target) {
        None => true,
        Some(t) => t.spec_version_err(v) || (buffer != 0 && !tv.live.contains_key(buffer)),
    }
}

/// A target-addressed data commit reports an error condition: the target
/// is unrecognized or too new for the version, nothing live is bound to
/// it, the usage is unrecognized or too new, or the size is negative.
pub open spec fn commit_target_reports_error(
    v: GlVersion,
    tv: TableView,
    target: u32,
    size: int,
    usage: u32,
) -> bool {
    match BufferBinding::spec_from_gl(target) {
        None => true,
        Some(t) => {
            let h = tv.bound[t.spec_index()];
            ||| t.spec_version_err(v)
            ||| h == 0
            ||| !tv.live.contains_key(h)
            ||| (match BufferUsage::spec_from_gl(usage) {
                None => true,
                Some(u) => u.spec_version_err(v) || size < 0,
            })
        },
    }
}

/// A handle-addressed data commit reports an error condition: the handle
/// is not live, the usage is unrecognized or too new, or the size is
/// negative.
pub open spec fn commit_named_reports_error(
    v: GlVersion,
    tv: TableView,
    buffer: u32,
    size: int,
    usage: u32,
) -> bool {
    ||| !tv.live.contains_key(buffer)
    ||| (match BufferUsage::spec_from_gl(usage) {
        None => true,
        Some(u) => u.spec_version_err(v) || size < 0,
    })
}

/// An integer-state query reports an error condition: the query key is
/// unrecognized, or the version does not recognize the queried target.
pub open spec fn query_reports_error(v: GlVersion, pname: u32) -> bool {
    match BufferBinding::spec_from_query(pname) {
        None => true,
        Some(t) => t.spec_version_err(v),
    }
}

/// How a detected condition is escalated by the context.
#[derive(Copy, Clone, PartialEq, Eq, Structural)]
pub enum ErrorHandling {
    /// Demand a panic as soon as an error is reported; with `warn` set,
    /// warnings demand one too.
    PanicEarly { warn: bool },
    /// Accumulate silently and demand a panic at finalize if any error
    /// occurred during the context's lifetime.
    PanicOnFinalize,
    /// Accumulate silently; the error register is the only signal.
    DoNotPanic,
}

/// The policy demands a panic the moment an error is reported.
pub open spec fn panics_on_error(p: ErrorHandling) -> bool {
    match p {
        ErrorHandling::PanicEarly { .. } => true,
        _ => false,
    }
}

/// The policy demands a panic the moment a warning is reported.
pub open spec fn panics_on_warning(p: ErrorHandling) -> bool {
    match p {
        ErrorHandling::PanicEarly { warn } => warn,
        _ => false,
    }
}

/// The state of one active context.
struct MockContextData {
    gl_version: GlVersion,
    error: u32,
    buffer_manager: BufferManager,
    thread: u64,
    error_handling: ErrorHandling,
    any_errors: bool,
    panic_pending: bool,
}

/// The arena holding the process's at-most-one context.
pub struct MockGl {
    context: Option<MockContextData>,
}

/// Capability token for an active context; created by [`new`] and given
/// back to [`MockContextRef::finalize`].
pub struct MockContextRef {
    _token: (),
}

/// What teardown found: the handles still live (a nonempty list is the
/// dangling-resource condition) and whether the diagnostics policy demands
/// a panic now.
pub struct FinalizeReport {
    pub leaked: Vec<u32>,
    pub should_panic: bool,
}

impl MockGl {
    /// A context is currently active.
    pub closed spec fn is_active(self) -> bool {
        self.context is Some
    }

    /// The abstract state of the active context's buffer subsystem.
    pub closed spec fn table(self) -> TableView {
        self.context->Some_0.buffer_manager@
    }

    /// The active context's version descriptor.
    pub closed spec fn version(self) -> GlVersion {
        self.context->Some_0.gl_version
    }

    /// The pending error register (most recent unread condition).
    pub closed spec fn reg(self) -> u32 {
        self.context->Some_0.error
    }

    /// The identity of the thread that created the active context.
    pub closed spec fn thread_id(self) -> u64 {
        self.context->Some_0.thread
    }

    /// The active context's diagnostics policy.
    pub closed spec fn policy(self) -> ErrorHandling {
        self.context->Some_0.error_handling
    }

    /// An error occurred during the active context's lifetime.
    pub closed spec fn spec_any_errors(self) -> bool {
        self.context->Some_0.any_errors
    }

    /// A reported condition demanded an immediate panic that the caller has
    /// not performed yet.
    pub closed spec fn spec_panic_pending(self) -> bool {
        self.context->Some_0.panic_pending
    }

    /// Validity: an active context's buffer subsystem is well-formed.
    pub closed spec fn wf(self) -> bool {
        self.is_active() ==> self.context->Some_0.buffer_manager.wf()
    }

    /// An arena with no context.
    pub fn new() -> (r: MockGl)
        ensures
            r.wf(),
            !r.is_active(),
    {
        MockGl { context: None }
    }

    /// Whether the caller, identified by `thread`, may operate on the
    /// context: one must be active and the identity must match its
    /// creator's. A mismatch is fatal for the caller; the library's
    /// operations demand a match as a precondition.
    pub fn same_thread(&self, thread: u64) -> (r: bool)
        ensures
            r == (self.is_active() && thread == self.thread_id()),
    {
        match &self.context {
            Some(d) => d.thread == thread,
            None => false,
        }
    }

    /// Whether any error has occurred during the active context's lifetime.
    pub fn any_errors(&self) -> (r: bool)
        requires
            self.is_active(),
        ensures
            r == self.spec_any_errors(),
    {
        match &self.context {
            Some(d) => d.any_errors,
            None => false,
        }
    }

    /// Whether a reported condition demanded an immediate panic.
    pub fn panic_pending(&self) -> (r: bool)
        requires
            self.is_active(),
        ensures
            r == self.spec_panic_pending(),
    {
        match &self.context {
            Some(d) => d.panic_pending,
            None => false,
        }
    }
}

/// Creates the context: fails (for the caller to treat as fatal) iff one is
/// already active. A fresh context has an empty resource table, every
/// target unbound, a cleared error register, and records the creating
/// thread's identity.
pub fn new(gl: &mut MockGl, version: GlVersion, error_handling: ErrorHandling, thread: u64) -> (r:
    Option<MockContextRef>)
    requires
        old(gl).wf(),
    ensures
        final(gl).wf(),
        old(gl).is_active() ==> r is None && *final(gl) == *old(gl),
        !old(gl).is_active() ==> ({
            &&& r is Some
            &&& final(gl).is_active()
            &&& final(gl).version() == version
            &&& final(gl).reg() == NO_ERROR
            &&& final(gl).table() == empty_table()
            &&& final(gl).thread_id() == thread
            &&& final(gl).policy() == error_handling
            &&& !final(gl).spec_any_errors()
            &&& !final(gl).spec_panic_pending()
        }),
{
    if gl.context.is_some() {
        return None;
    }
    gl.context = Some(
        MockContextData {
            gl_version: version,
            error: NO_ERROR,
            buffer_manager: BufferManager::new(),
            thread,
            error_handling,
            any_errors: false,
            panic_pending: false,
        },
    );
    Some(MockContextRef { _token: () })
}

impl MockGl {
    /// Whether the handle space still has room to issue `buffer_count`
    /// fresh handles: the executable test of `gen_buffers`'s machine-limit
    /// precondition, for callers that cannot prove it.
    pub fn can_gen(&self, buffer_count: i32) -> (r: bool)
        requires
            self.is_active(),
        ensures
            r == (buffer_count >= 0 ==> self.table().next + buffer_count <= u32::MAX),
    {
        match &self.context {
            Some(d) => {
                if buffer_count < 0 {
                    true
                } else {
                    d.buffer_manager.can_issue(buffer_count)
                }
            },
            None => unreached(),
        }
    }

    /// Reads the error register: returns the most recent unread condition
    /// and atomically resets the register to no-error. Gated on the base
    /// version; a failed gate records a capability error and the read still
    /// proceeds.
    pub fn get_error(&mut self, thread: u64) -> (r: u32)
        requires
            old(self).wf(),
            old(self).is_active(),
            thread == old(self).thread_id(),
        ensures
            final(self).wf(),
            final(self).is_active(),
            final(self).version() == old(self).version(),
            final(self).thread_id() == old(self).thread_id(),
            final(self).policy() == old(self).policy(),
            final(self).table() == old(self).table(),
            r == old(self).reg(),
            final(self).reg() == NO_ERROR,
            final(self).spec_any_errors() == (old(self).spec_any_errors() || base_gate_err(
                old(self).version(),
            )),
            final(self).spec_panic_pending() == (old(self).spec_panic_pending() || (
            panics_on_error(old(self).policy()) && base_gate_err(old(self).version()))),
    {
        match &mut self.context {
            Some(d) => {
                let gate_err = !d.gl_version.at_least(Some((2, 1)), Some((2, 0)));
                if gate_err {
                    d.any_errors = true;
                    if matches!(d.error_handling, ErrorHandling::PanicEarly { .. }) {
                        d.panic_pending = true;
                    }
                }
                let r = d.error;
                d.error = NO_ERROR;
                r
            },
            None => unreached(),
        }
    }

    /// Issues fresh handles, as the buffer subsystem's `gen_buffers` does,
    /// after the base version gate; a failed gate records a capability
    /// error and the allocation still proceeds.
    pub fn gen_buffers(&mut self, thread: u64, buffer_count: i32) -> (ids: Vec<u32>)
        requires
            old(self).wf(),
            old(self).is_active(),
            thread == old(self).thread_id(),
            buffer_count >= 0 ==> old(self).table().next + buffer_count <= u32::MAX,
        ensures
            final(self).wf(),
            final(self).is_active(),
            final(self).version() == old(self).version(),
            final(self).thread_id() == old(self).thread_id(),
            final(self).policy() == old(self).policy(),
            buffer_count < 0 ==> final(self).table() == old(self).table() && final(self).reg()
                == INVALID_VALUE && ids@.len() == 0,
            buffer_count >= 0 ==> final(self).table() == gen_many(
                old(self).table(),
                buffer_count as nat,
            ) && final(self).reg() == old(self).reg() && ids@ == gen_ids(
                old(self).table().next,
                buffer_count as nat,
            ),
            final(self).spec_any_errors() == (old(self).spec_any_errors() || base_gate_err(
                old(self).version(),
            ) || buffer_count < 0),
            final(self).spec_panic_pending() == (old(self).spec_panic_pending() || (
            panics_on_error(old(self).policy()) && (base_gate_err(old(self).version())
                || buffer_count < 0))),
    {
        match &mut self.context {
            Some(d) => {
                let gate_err = !d.gl_version.at_least(Some((2, 1)), Some((2, 0)));
                let mut e: u32 = NO_ERROR;
                let ids = d.buffer_manager.gen_buffers(&mut e, buffer_count);
                if e != NO_ERROR {
                    d.error = e;
                }
                if gate_err || e != NO_ERROR {
                    d.any_errors = true;
                    if matches!(d.error_handling, ErrorHandling::PanicEarly { .. }) {
                        d.panic_pending = true;
                    }
                }
                ids
            },
            None => unreached(),
        }
    }

    /// Deletes handles, as the buffer subsystem's `free_buffers` does,
    /// after the base version gate. A double free is a warning (panicking
    /// only under a policy that panics on warnings); a never-allocated
    /// handle and a negative count are invalid-value errors.
    pub fn delete_buffers(&mut self, thread: u64, buffer_count: i32, buffers: &[u32])
        requires
            old(self).wf(),
            old(self).is_active(),
            thread == old(self).thread_id(),
            buffer_count >= 0 ==> buffers@.len() == buffer_count,
        ensures
            final(self).wf(),
            final(self).is_active(),
            final(self).version() == old(self).version(),
            final(self).thread_id() == old(self).thread_id(),
            final(self).policy() == old(self).policy(),
            buffer_count < 0 ==> final(self).table() == old(self).table() && final(self).reg()
                == INVALID_VALUE,
            buffer_count >= 0 ==> final(self).table() == free_many(old(self).table(), buffers@)
                && final(self).reg() == (if free_many_unalloc(old(self).table(), buffers@) {
                INVALID_VALUE
            } else {
                old(self).reg()
            }),
            final(self).spec_any_errors() == (old(self).spec_any_errors() || base_gate_err(
                old(self).version(),
            ) || buffer_count < 0 || (buffer_count >= 0 && free_many_unalloc(
                old(self).table(),
                buffers@,
            ))),
            final(self).spec_panic_pending() == (old(self).spec_panic_pending() || (
            panics_on_error(old(self).policy()) && (base_gate_err(old(self).version())
                || buffer_count < 0 || (buffer_count >= 0 && free_many_unalloc(
                old(self).table(),
                buffers@,
            )))) || (panics_on_warning(old(self).policy()) && buffer_count >= 0
                && free_many_double(old(self).table(), buffers@))),
    {
        match &mut self.context {
            Some(d) => {
                let gate_err = !d.gl_version.at_least(Some((2, 1)), Some((2, 0)));
                let mut e: u32 = NO_ERROR;
                let warned = d.buffer_manager.free_buffers(&mut e, buffer_count, buffers);
                if e != NO_ERROR {
                    d.error = e;
                }
                let err = gate_err || e != NO_ERROR;
                if err {
                    d.any_errors = true;
                }
                match d.error_handling {
                    ErrorHandling::PanicEarly { warn } => {
                        if err || (warn && warned) {
                            d.panic_pending = true;
                        }
                    },
                    _ => {},
                }
            },
            None => unreached(),
        }
    }

    /// Whether a handle is currently live, after the base version gate.
    pub fn is_buffer(&mut self, thread: u64, buffer: u32) -> (r: u8)
        requires
            old(self).wf(),
            old(self).is_active(),
            thread == old(self).thread_id(),
        ensures
            final(self).wf(),
            final(self).is_active(),
            final(self).version() == old(self).version(),
            final(self).thread_id() == old(self).thread_id(),
            final(self).policy() == old(self).policy(),
            final(self).table() == old(self).table(),
            final(self).reg() == old(self).reg(),
            r == (if old(self).table().live.contains_key(buffer) {
                crate::codes::TRUE
            } else {
                crate::codes::FALSE
            }),
            final(self).spec_any_errors() == (old(self).spec_any_errors() || base_gate_err(
                old(self).version(),
            )),
            final(self).spec_panic_pending() == (old(self).spec_panic_pending() || (
            panics_on_error(old(self).policy()) && base_gate_err(old(self).version()))),
    {
        match &mut self.context {
            Some(d) => {
                let gate_err = !d.gl_version.at_least(Some((2, 1)), Some((2, 0)));
                if gate_err {
                    d.any_errors = true;
                    if matches!(d.error_handling, ErrorHandling::PanicEarly { .. }) {
                        d.panic_pending = true;
                    }
                }
                d.buffer_manager.is_buffer(buffer)
            },
            None => unreached(),
        }
    }

    /// Checks a capability gate: the operation's declared minimum version
    /// per profile, or its declared required extension, must be met. An
    /// unmet gate records a capability error (without touching the error
    /// register) and reports failure; the operation itself still proceeds,
    /// as the emulation only diagnoses the misuse.
    pub fn check_capability(
        &mut self,
        thread: u64,
        gl: Option<(u8, u8)>,
        es: Option<(u8, u8)>,
        extension: Option<&str>,
    ) -> (ok: bool)
        requires
            old(self).wf(),
            old(self).is_active(),
            thread == old(self).thread_id(),
        ensures
            final(self).wf(),
            final(self).is_active(),
            final(self).version() == old(self).version(),
            final(self).thread_id() == old(self).thread_id(),
            final(self).policy() == old(self).policy(),
            final(self).table() == old(self).table(),
            final(self).reg() == old(self).reg(),
            ok == spec_capability_ok(
                old(self).version(),
                gl,
                es,
                match extension {
                    Some(s) => Some(s@),
                    None => None,
                },
            ),
            final(self).spec_any_errors() == (old(self).spec_any_errors() || !ok),
            final(self).spec_panic_pending() == (old(self).spec_panic_pending() || (
            panics_on_error(old(self).policy()) && !ok)),
    {
        match &mut self.context {
            Some(d) => {
                let met = d.gl_version.at_least(gl, es);
                let ok = if met {
                    true
                } else {
                    match extension {
                        Some(name) => d.gl_version.has_extension(name),
                        None => false,
                    }
                };
                if !ok {
                    d.any_errors = true;
                    if matches!(d.error_handling, ErrorHandling::PanicEarly { .. }) {
                        d.panic_pending = true;
                    }
                }
                ok
            },
            None => unreached(),
        }
    }

    /// Binds a handle to a target, as the buffer subsystem's `bind_buffer`
    /// does, after the base version gate.
    pub fn bind_buffer(&mut self, thread: u64, target: u32, buffer: u32)
        requires
            old(self).wf(),
            old(self).is_active(),
            thread == old(self).thread_id(),
        ensures
            final(self).wf(),
            final(self).is_active(),
            final(self).version() == old(self).version(),
            final(self).thread_id() == old(self).thread_id(),
            final(self).policy() == old(self).policy(),
            BufferBinding::spec_from_gl(target) is None ==> final(self).table() == old(self).table() && final(self).reg() == INVALID_ENUM,
            (match BufferBinding::spec_from_gl(target) {
                Some(t) => ({
                    &&& (buffer == 0 ==> final(self).table() == bind_target(
                        old(self).table(),
                        t.spec_index(),
                        0,
                    ) && final(self).reg() == old(self).reg())
                    &&& (buffer != 0 && old(self).table().live.contains_key(buffer) ==> final(self).table() == bind_target(old(self).table(), t.spec_index(), buffer) && final(self).reg() == old(self).reg())
                    &&& (buffer != 0 && !old(self).table().live.contains_key(buffer) ==> final(self).table() == old(self).table() && final(self).reg() == INVALID_VALUE)
                }),
                None => true,
            }),
            final(self).spec_any_errors() == (old(self).spec_any_errors() || base_gate_err(
                old(self).version(),
            ) || bind_reports_error(old(self).version(), old(self).table(), target, buffer)),
            final(self).spec_panic_pending() == (old(self).spec_panic_pending() || (
            panics_on_error(old(self).policy()) && (base_gate_err(old(self).version())
                || bind_reports_error(old(self).version(), old(self).table(), target, buffer)))),
    {
        match &mut self.context {
            Some(d) => {
                let gate_err = !d.gl_version.at_least(Some((2, 1)), Some((2, 0)));
                let mut e: u32 = NO_ERROR;
                let cap_err = d.buffer_manager.bind_buffer(&d.gl_version, &mut e, target, buffer);
                if e != NO_ERROR {
                    d.error = e;
                }
                if gate_err || cap_err || e != NO_ERROR {
                    d.any_errors = true;
                    if matches!(d.error_handling, ErrorHandling::PanicEarly { .. }) {
                        d.panic_pending = true;
                    }
                }
            },
            None => unreached(),
        }
    }

    /// Commits data through a target's current binding, as the buffer
    /// subsystem's `buffer_data_target` does, after the base version gate.
    pub fn buffer_data(
        &mut self,
        thread: u64,
        target: u32,
        size: isize,
        data: Option<&[u8]>,
        usage: u32,
    )
        requires
            old(self).wf(),
            old(self).is_active(),
            thread == old(self).thread_id(),
            size >= 0 && data is Some ==> data->Some_0@.len() == size,
        ensures
            final(self).wf(),
            final(self).is_active(),
            final(self).version() == old(self).version(),
            final(self).thread_id() == old(self).thread_id(),
            final(self).policy() == old(self).policy(),
            BufferBinding::spec_from_gl(target) is None ==> final(self).table() == old(self).table() && final(self).reg() == INVALID_ENUM,
            (match BufferBinding::spec_from_gl(target) {
                Some(t) => ({
                    let h = old(self).table().bound[t.spec_index()];
                    &&& (h == 0 ==> final(self).table() == old(self).table() && final(self).reg()
                        == INVALID_OPERATION)
                    &&& (h != 0 && !old(self).table().live.contains_key(h) ==> final(self).table() == old(self).table() && final(self).reg() == INVALID_OPERATION)
                    &&& (h != 0 && old(self).table().live.contains_key(h) ==> ({
                        &&& (BufferUsage::spec_from_gl(usage) is None ==> final(self).table()
                            == old(self).table() && final(self).reg() == INVALID_ENUM)
                        &&& (BufferUsage::spec_from_gl(usage) is Some ==> ({
                            let u = BufferUsage::spec_from_gl(usage)->Some_0;
                            &&& (size < 0 ==> final(self).table() == old(self).table() && final(self).reg() == INVALID_VALUE)
                            &&& (size >= 0 && data is None ==> final(self).table() == commit_store(
                                old(self).table(),
                                h,
                                u,
                                zero_bytes(size as nat),
                            ) && final(self).reg() == old(self).reg())
                            &&& (size >= 0 && data is Some ==> final(self).table() == commit_store(
                                old(self).table(),
                                h,
                                u,
                                data->Some_0@,
                            ) && final(self).reg() == old(self).reg())
                        }))
                    }))
                }),
                None => true,
            }),
            final(self).spec_any_errors() == (old(self).spec_any_errors() || base_gate_err(
                old(self).version(),
            ) || commit_target_reports_error(
                old(self).version(),
                old(self).table(),
                target,
                size as int,
                usage,
            )),
            final(self).spec_panic_pending() == (old(self).spec_panic_pending() || (
            panics_on_error(old(self).policy()) && (base_gate_err(old(self).version())
                || commit_target_reports_error(
                old(self).version(),
                old(self).table(),
                target,
                size as int,
                usage,
            )))),
    {
        match &mut self.context {
            Some(d) => {
                let gate_err = !d.gl_version.at_least(Some((2, 1)), Some((2, 0)));
                let mut e: u32 = NO_ERROR;
                let cap_err = d.buffer_manager.buffer_data_target(
                    &d.gl_version,
                    &mut e,
                    target,
                    size,
                    data,
                    usage,
                );
                if e != NO_ERROR {
                    d.error = e;
                }
                if gate_err || cap_err || e != NO_ERROR {
                    d.any_errors = true;
                    if matches!(d.error_handling, ErrorHandling::PanicEarly { .. }) {
                        d.panic_pending = true;
                    }
                }
            },
            None => unreached(),
        }
    }

    /// Commits data to a handle directly, as the buffer subsystem's
    /// `buffer_data_named` does, after its own gate: the call exists only
    /// from desktop OpenGL 4.0.
    pub fn named_buffer_data(
        &mut self,
        thread: u64,
        buffer: u32,
        size: isize,
        data: Option<&[u8]>,
        usage: u32,
    )
        requires
            old(self).wf(),
            old(self).is_active(),
            thread == old(self).thread_id(),
            size >= 0 && data is Some ==> data->Some_0@.len() == size,
        ensures
            final(self).wf(),
            final(self).is_active(),
            final(self).version() == old(self).version(),
            final(self).thread_id() == old(self).thread_id(),
            final(self).policy() == old(self).policy(),
            !old(self).table().live.contains_key(buffer) ==> final(self).table() == old(self).table() && final(self).reg() == INVALID_OPERATION,
            old(self).table().live.contains_key(buffer) ==> ({
                &&& (BufferUsage::spec_from_gl(usage) is None ==> final(self).table() == old(self).table() && final(self).reg() == INVALID_ENUM)
                &&& (BufferUsage::spec_from_gl(usage) is Some ==> ({
                    let u = BufferUsage::spec_from_gl(usage)->Some_0;
                    &&& (size < 0 ==> final(self).table() == old(self).table() && final(self).reg()
                        == INVALID_VALUE)
                    &&& (size >= 0 && data is None ==> final(self).table() == commit_store(
                        old(self).table(),
                        buffer,
                        u,
                        zero_bytes(size as nat),
                    ) && final(self).reg() == old(self).reg())
                    &&& (size >= 0 && data is Some ==> final(self).table() == commit_store(
                        old(self).table(),
                        buffer,
                        u,
                        data->Some_0@,
                    ) && final(self).reg() == old(self).reg())
                }))
            }),
            final(self).spec_any_errors() == (old(self).spec_any_errors() || named_gate_err(
                old(self).version(),
            ) || commit_named_reports_error(
                old(self).version(),
                old(self).table(),
                buffer,
                size as int,
                usage,
            )),
            final(self).spec_panic_pending() == (old(self).spec_panic_pending() || (
            panics_on_error(old(self).policy()) && (named_gate_err(old(self).version())
                || commit_named_reports_error(
                old(self).version(),
                old(self).table(),
                buffer,
                size as int,
                usage,
            )))),
    {
        match &mut self.context {
            Some(d) => {
                let gate_err = !d.gl_version.at_least(Some((4, 0)), None);
                let mut e: u32 = NO_ERROR;
                let cap_err = d.buffer_manager.buffer_data_named(
                    &d.gl_version,
                    &mut e,
                    buffer,
                    size,
                    data,
                    usage,
                );
                if e != NO_ERROR {
                    d.error = e;
                }
                if gate_err || cap_err || e != NO_ERROR {
                    d.any_errors = true;
                    if matches!(d.error_handling, ErrorHandling::PanicEarly { .. }) {
                        d.panic_pending = true;
                    }
                }
            },
            None => unreached(),
        }
    }

    /// Answers an integer-state query, as the buffer subsystem's `get_int`
    /// does, after the base version gate; an unrecognized query key records
    /// invalid-enum and produces no output.
    pub fn get_integerv(&mut self, thread: u64, pname: u32) -> (r: Option<i32>)
        requires
            old(self).wf(),
            old(self).is_active(),
            thread == old(self).thread_id(),
        ensures
            final(self).wf(),
            final(self).is_active(),
            final(self).version() == old(self).version(),
            final(self).thread_id() == old(self).thread_id(),
            final(self).policy() == old(self).policy(),
            final(self).table() == old(self).table(),
            BufferBinding::spec_from_query(pname) is None ==> r is None && final(self).reg()
                == INVALID_ENUM,
            (match BufferBinding::spec_from_query(pname) {
                Some(t) => r == Some(old(self).table().bound[t.spec_index()] as i32) && final(self).reg() == old(self).reg(),
                None => true,
            }),
            final(self).spec_any_errors() == (old(self).spec_any_errors() || base_gate_err(
                old(self).version(),
            ) || query_reports_error(old(self).version(), pname)),
            final(self).spec_panic_pending() == (old(self).spec_panic_pending() || (
            panics_on_error(old(self).policy()) && (base_gate_err(old(self).version())
                || query_reports_error(old(self).version(), pname)))),
    {
        match &mut self.context {
            Some(d) => {
                let gate_err = !d.gl_version.at_least(Some((2, 1)), Some((2, 0)));
                let (val, cap_err) = d.buffer_manager.get_int(&d.gl_version, pname);
                if val.is_none() {
                    d.error = INVALID_ENUM;
                }
                if gate_err || cap_err || val.is_none() {
                    d.any_errors = true;
                    if matches!(d.error_handling, ErrorHandling::PanicEarly { .. }) {
                        d.panic_pending = true;
                    }
                }
                val
            },
            None => unreached(),
        }
    }
}

impl MockContextRef {
    /// Tears the context down: reports the handles still live (the
    /// dangling-resource condition, an error under the policy) and clears
    /// the arena. `should_panic` is set when the policy demands a panic
    /// now: immediately for a dangling report under an early-panicking
    /// policy, or because errors accumulated under a finalize-panicking
    /// one.
    pub fn finalize(self, gl: &mut MockGl) -> (r: FinalizeReport)
        requires
            old(gl).wf(),
            old(gl).is_active(),
        ensures
            final(gl).wf(),
            !final(gl).is_active(),
            forall|k: u32|
                #[trigger] r.leaked@.contains(k) <==> old(gl).table().live.contains_key(k),
            forall|i: int, j: int|
                0 <= i < j < r.leaked@.len() ==> #[trigger] r.leaked@[i] < #[trigger] r.leaked@[j],
            (r.leaked@.len() == 0 <==> old(gl).table().live =~= Map::<
                u32,
                Option<BufView>,
            >::empty()),
            r.should_panic == ({
                let dangling = r.leaked@.len() != 0;
                ||| (panics_on_error(old(gl).policy()) && dangling)
                ||| (old(gl).policy() == ErrorHandling::PanicOnFinalize && (old(
                    gl,
                ).spec_any_errors() || dangling))
            }),
    {
        let data = gl.context.take().unwrap();
        let leaked = data.buffer_manager.finalize();
        let dangling = leaked.len() != 0;
        let should_panic = match data.error_handling {
            ErrorHandling::PanicEarly { .. } => dangling,
            ErrorHandling::PanicOnFinalize => data.any_errors || dangling,
            ErrorHandling::DoNotPanic => false,
        };
        FinalizeReport { leaked, should_panic }
    }
}



} // verus!
