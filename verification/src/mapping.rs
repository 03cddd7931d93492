//! The catalogue of entry points: each is resolvable by its canonical name
//! or a legacy vendor-suffixed alias; an unrecognized name resolves to
//! nothing ("not available").

use vstd::prelude::*;

verus! {

/// The entry points the emulation provides.
#[derive(Copy, Clone, Debug, PartialEq, Eq, Structural)]
pub enum GlFunction {
    GetError,
    GetIntegerv,
    GenBuffers,
    DeleteBuffers,
    IsBuffer,
    BindBuffer,
    BufferData,
    NamedBufferData,
}

/// The entry point a name resolves to, if any.
pub open spec fn spec_lookup(name: Seq<char>) -> Option<GlFunction> {
    if name == "glGetError"@ {
        Some(GlFunction::GetError)
    } else if name == "glGetIntegerv"@ {
        Some(GlFunction::GetIntegerv)
    } else if name == "glGenBuffers"@ || name == "glGenBuffersARB"@ {
        Some(GlFunction::GenBuffers)
    } else if name == "glDeleteBuffers"@ || name == "glDeleteBuffersARB"@ {
        Some(GlFunction::DeleteBuffers)
    } else if name == "glIsBuffer"@ || name == "glIsBufferARB"@ {
        Some(GlFunction::IsBuffer)
    } else if name == "glBindBuffer"@ || name == "glBindBufferARB"@ {
        Some(GlFunction::BindBuffer)
    } else if name == "glBufferData"@ || name == "glBufferDataARB"@ {
        Some(GlFunction::BufferData)
    } else if name == "glNamedBufferData"@ {
        Some(GlFunction::NamedBufferData)
    } else {
        None
    }
}

/// Resolves an entry-point name, canonical or alias, to the entry point;
/// an unrecognized name resolves to `None`.
pub fn lookup(name: &str) -> (r: Option<GlFunction>)
    ensures
        r == spec_lookup(name@),
{
    let n: String = name.to_owned();
    if n == "glGetError".to_owned() {
        Some(GlFunction::GetError)
    } else if n == "glGetIntegerv".to_owned() {
        Some(GlFunction::GetIntegerv)
    } else if n == "glGenBuffers".to_owned() || n == "glGenBuffersARB".to_owned() {
        Some(GlFunction::GenBuffers)
    } else if n == "glDeleteBuffers".to_owned() || n == "glDeleteBuffersARB".to_owned() {
        Some(GlFunction::DeleteBuffers)
    } else if n == "glIsBuffer".to_owned() || n == "glIsBufferARB".to_owned() {
        Some(GlFunction::IsBuffer)
    } else if n == "glBindBuffer".to_owned() || n == "glBindBufferARB".to_owned() {
        Some(GlFunction::BindBuffer)
    } else if n == "glBufferData".to_owned() || n == "glBufferDataARB".to_owned() {
        Some(GlFunction::BufferData)
    } else if n == "glNamedBufferData".to_owned() {
        Some(GlFunction::NamedBufferData)
    } else {
        None
    }
}

} // verus!
