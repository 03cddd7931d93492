//! The emulated API version: profile, version number, and enabled extensions.
//!
//! The version descriptor is the sole gating primitive: an operation is
//! available iff the descriptor reaches the operation's minimum version for
//! its profile, or the descriptor's extension set contains the operation's
//! required extension.

use vstd::prelude::*;

verus! {

/// Profile of the emulated API: desktop OpenGL or OpenGL ES.
#[derive(Copy, Clone, PartialEq, Eq, Structural)]
pub enum VersionType {
    GL,
    ES,
}

/// A capability extension: its name (the unique key), the minimal version
/// that subsumes it per profile, and a human-readable requirement string for
/// diagnostics.
pub struct GlExtension {
    pub name: String,
    pub unlock_gl: Option<(u8, u8)>,
    pub unlock_es: Option<(u8, u8)>,
    pub provided_str: String,
}

/// Extensions are compared by their unique key, the name.
impl PartialEq for GlExtension {
    fn eq(&self, other: &GlExtension) -> (r: bool) {
        self.name == other.name
    }
}

impl vstd::std_specs::cmp::PartialEqSpecImpl for GlExtension {
    open spec fn obeys_eq_spec() -> bool {
        true
    }

    open spec fn eq_spec(&self, other: &GlExtension) -> bool {
        self.name@ == other.name@
    }
}

impl Clone for GlExtension {
    fn clone(&self) -> (r: Self)
        ensures
            r == *self,
    {
        GlExtension {
            name: self.name.clone(),
            unlock_gl: self.unlock_gl,
            unlock_es: self.unlock_es,
            provided_str: self.provided_str.clone(),
        }
    }
}

/// A version of profile `ty` with number (`major`, `minor`) meets a minimum
/// given per profile: a threshold must be supplied for that profile, and the
/// version number must reach it lexicographically, major first.
pub open spec fn spec_meets(
    ty: VersionType,
    major: u8,
    minor: u8,
    gl: Option<(u8, u8)>,
    es: Option<(u8, u8)>,
) -> bool {
    match ty {
        VersionType::GL => match gl {
            Some(req) => major > req.0 || (major == req.0 && minor >= req.1),
            None => false,
        },
        VersionType::ES => match es {
            Some(req) => major > req.0 || (major == req.0 && minor >= req.1),
            None => false,
        },
    }
}

/// Whether a version number by itself unlocks the extension.
pub open spec fn ext_unlocked(e: GlExtension, ty: VersionType, major: u8, minor: u8) -> bool {
    spec_meets(ty, major, minor, e.unlock_gl, e.unlock_es)
}

fn meets(ty: VersionType, major: u8, minor: u8, gl: Option<(u8, u8)>, es: Option<(u8, u8)>) -> (r:
    bool)
    ensures
        r == spec_meets(ty, major, minor, gl, es),
{
    let req = match ty {
        VersionType::GL => gl,
        VersionType::ES => es,
    };
    match req {
        Some((req_major, req_minor)) => {
            major > req_major || (major == req_major && minor >= req_minor)
        },
        None => false,
    }
}

/// The one extension of the built-in catalogue: unlocked by desktop
/// OpenGL 4.6, never by OpenGL ES.
pub fn arb_buffer_storage() -> (e: GlExtension)
    ensures
        e.name@ == "ARB_buffer_storage"@,
        e.unlock_gl == Some((4u8, 6u8)),
        e.unlock_es is None,
        e.provided_str@ == "ARB_buffer_storage or OpenGL 4.6"@,
{
    GlExtension {
        name: "ARB_buffer_storage".to_owned(),
        unlock_gl: Some((4, 6)),
        unlock_es: None,
        provided_str: "ARB_buffer_storage or OpenGL 4.6".to_owned(),
    }
}

/// Whether the built-in `ARB_buffer_storage` record is unlocked by the bare
/// version number.
pub open spec fn arb_buffer_storage_unlocked(ty: VersionType, major: u8, minor: u8) -> bool {
    spec_meets(ty, major, minor, Some((4u8, 6u8)), None)
}

/// The version descriptor an execution context is created with.
pub struct GlVersion {
    pub ty: VersionType,
    pub major: u8,
    pub minor: u8,
    pub extensions: Vec<GlExtension>,
}

/// The descriptor's extension set contains an extension of this name.
pub open spec fn spec_has_ext(v: GlVersion, name: Seq<char>) -> bool {
    exists|i: int| 0 <= i < v.extensions@.len() && v.extensions@[i].name@ == name
}

impl GlVersion {
    /// The descriptor meets a minimum given per profile.
    pub open spec fn spec_at_least(&self, gl: Option<(u8, u8)>, es: Option<(u8, u8)>) -> bool {
        spec_meets(self.ty, self.major, self.minor, gl, es)
    }

    pub fn at_least(&self, gl: Option<(u8, u8)>, es: Option<(u8, u8)>) -> (r: bool)
        ensures
            r == self.spec_at_least(gl, es),
    {
        meets(self.ty, self.major, self.minor, gl, es)
    }

    /// Whether an extension of this name is present, by name equality.
    pub fn has_extension(&self, name: &str) -> (r: bool)
        ensures
            r == spec_has_ext(*self, name@),
    {
        let wanted: String = name.to_owned();
        let mut i: usize = 0;
        while i < self.extensions.len()
            invariant
                0 <= i <= self.extensions@.len(),
                wanted@ == name@,
                forall|j: int| 0 <= j < i ==> self.extensions@[j].name@ != name@,
            decreases self.extensions@.len() - i,
        {
            if self.extensions[i].name == wanted {
                return true;
            }
            i += 1;
        }
        false
    }

    /// Builds a descriptor, seeding the extension set from the version
    /// number: every catalogue extension the version unlocks is present
    /// first, then the explicitly supplied records in their given order.
    pub fn new(ty: VersionType, major: u8, minor: u8, extensions: &[GlExtension]) -> (v: GlVersion)
        ensures
            v.ty == ty,
            v.major == major,
            v.minor == minor,
            arb_buffer_storage_unlocked(ty, major, minor) ==> v.extensions@.len() == 1
                + extensions@.len() && v.extensions@[0].name@ == "ARB_buffer_storage"@
                && v.extensions@.skip(1) =~= extensions@,
            !arb_buffer_storage_unlocked(ty, major, minor) ==> v.extensions@ =~= extensions@,
            forall|n: Seq<char>|
                #[trigger] spec_has_ext(v, n) <==> ((exists|j: int|
                    0 <= j < extensions@.len() && extensions@[j].name@ == n) || (n
                    == "ARB_buffer_storage"@ && arb_buffer_storage_unlocked(ty, major, minor))),
    {
        let mut ext: Vec<GlExtension> = Vec::new();
        let arb = arb_buffer_storage();
        if meets(ty, major, minor, arb.unlock_gl, arb.unlock_es) {
            ext.push(arb);
        }
        let ghost seeded: Seq<GlExtension> = ext@;
        let mut i: usize = 0;
        while i < extensions.len()
            invariant
                0 <= i <= extensions@.len(),
                ext@ =~= seeded + extensions@.take(i as int),
            decreases extensions@.len() - i,
        {
            ext.push(extensions[i].clone());
            proof {
                assert(extensions@.take(i + 1) =~= extensions@.take(i as int).push(
                    extensions@[i as int],
                ));
            }
            i += 1;
        }
        proof {
            assert(extensions@.take(extensions@.len() as int) =~= extensions@);
        }
        let v = GlVersion { ty, major, minor, extensions: ext };
        proof {
            if arb_buffer_storage_unlocked(ty, major, minor) {
                assert(v.extensions@.skip(1) =~= extensions@);
            }
            assert forall|n: Seq<char>| #[trigger] spec_has_ext(v, n) implies ((exists|j: int|
                0 <= j < extensions@.len() && extensions@[j].name@ == n) || (n
                == "ARB_buffer_storage"@ && arb_buffer_storage_unlocked(ty, major, minor))) by {
            }
        }
        v
    }

    /// A descriptor that exposes only the given extensions: version 0.0,
    /// desktop profile.
    pub fn from_extensions(extensions: &[GlExtension]) -> (v: GlVersion)
        ensures
            v.ty == VersionType::GL,
            v.major == 0,
            v.minor == 0,
            v.extensions@ =~= extensions@,
            forall|n: Seq<char>|
                #[trigger] spec_has_ext(v, n) <==> (exists|j: int|
                    0 <= j < extensions@.len() && extensions@[j].name@ == n),
    {
        Self::new(VersionType::GL, 0, 0, extensions)
    }

    /// A descriptor with a bare version number and no explicit extensions.
    pub fn from_version(ty: VersionType, major: u8, minor: u8) -> (v: GlVersion)
        ensures
            v.ty == ty,
            v.major == major,
            v.minor == minor,
            forall|n: Seq<char>|
                #[trigger] spec_has_ext(v, n) <==> (n == "ARB_buffer_storage"@
                    && arb_buffer_storage_unlocked(ty, major, minor)),
    {
        Self::new(ty, major, minor, &[])
    }

    /// The weakest descriptor: desktop profile, version 0.0, no extensions.
    pub fn clear() -> (v: GlVersion)
        ensures
            v.ty == VersionType::GL,
            v.major == 0,
            v.minor == 0,
            v.extensions@.len() == 0,
            forall|n: Seq<char>| !spec_has_ext(v, n),
    {
        Self::new(VersionType::GL, 0, 0, &[])
    }
}

/// A capability requirement is met iff the version reaches the declared
/// minimum, or a required extension is named and the descriptor's set
/// contains it.
pub open spec fn spec_capability_ok(
    v: GlVersion,
    gl: Option<(u8, u8)>,
    es: Option<(u8, u8)>,
    ext_name: Option<Seq<char>>,
) -> bool {
    v.spec_at_least(gl, es) || (ext_name is Some && spec_has_ext(v, ext_name->Some_0))
}

/// A version-gated operation succeeds iff the version reaches the declared
/// minimum or the declared required extension is present; with both
/// conditions false a capability error is recorded, and only then.
pub proof fn lemma_capability_gate(
    v: GlVersion,
    gl: Option<(u8, u8)>,
    es: Option<(u8, u8)>,
    ext_name: Option<Seq<char>>,
)
    ensures
        spec_capability_ok(v, gl, es, ext_name) <==> (v.spec_at_least(gl, es) || (ext_name is Some
            && spec_has_ext(v, ext_name->Some_0))),
        !v.spec_at_least(gl, es) && (ext_name is None || !spec_has_ext(v, ext_name->Some_0))
            ==> !spec_capability_ok(v, gl, es, ext_name),
{
}

} // verus!
