//! The erased backend container: one value of a type that depends on the
//! graphics backend, stored under a tag that says which backend it is.

use crate::backend::GraphicsBackend;
use crate::error::XrError;
use vstd::prelude::*;

verus! {

/// A value built for one graphics backend. The variant is the tag: it is
/// fixed when the value is wrapped and cannot disagree with the payload.
#[derive(Clone, Copy, Debug, PartialEq, Eq)]
pub enum GraphicsWrap<V, G> {
    Vulkan(V),
    OpenGl(G),
}

impl<V, G> GraphicsWrap<V, G> {
    /// The backend the payload was built for.
    pub open spec fn tag(&self) -> GraphicsBackend {
        match self {
            GraphicsWrap::Vulkan(_) => GraphicsBackend::Vulkan,
            GraphicsWrap::OpenGl(_) => GraphicsBackend::OpenGl,
        }
    }

    /// Whether the payload was built for `backend`.
    pub open spec fn holds(&self, backend: GraphicsBackend) -> bool {
        self.tag() == backend
    }

    /// The backend the payload was built for.
    pub fn backend(&self) -> (r: GraphicsBackend)
        ensures
            r == self.tag(),
    {
        match self {
            GraphicsWrap::Vulkan(_) => GraphicsBackend::Vulkan,
            GraphicsWrap::OpenGl(_) => GraphicsBackend::OpenGl,
        }
    }

    /// Whether the payload was built for `backend`. The payload is not
    /// looked at.
    pub fn using_graphics(&self, backend: GraphicsBackend) -> (r: bool)
        ensures
            r == self.holds(backend),
    {
        self.backend() == backend
    }

    /// As [`Self::using_graphics`], for a backend held by reference.
    pub fn using_graphics_of_val(&self, backend: &GraphicsBackend) -> (r: bool)
        ensures
            r == self.holds(*backend),
    {
        self.using_graphics(*backend)
    }

    /// Whether two containers were built for the same backend.
    pub fn same_graphics<V2, G2>(&self, other: &GraphicsWrap<V2, G2>) -> (r: bool)
        ensures
            r == (self.tag() == other.tag()),
    {
        self.using_graphics(other.backend())
    }

    /// Accepts the container where it was built for `expected` and names both
    /// backends where it was not.
    pub fn check_graphics(&self, expected: GraphicsBackend) -> (r: Result<(), XrError>)
        ensures
            self.holds(expected) ==> r is Ok,
            !self.holds(expected) ==> r == Err::<(), XrError>(
                XrError::GraphicsBackendMismatch { expected, actual: self.tag() },
            ),
    {
        if self.using_graphics(expected) {
            Ok(())
        } else {
            Err(XrError::GraphicsBackendMismatch { expected, actual: self.backend() })
        }
    }

    /// The name of the backend the payload was built for.
    pub fn graphics_name(&self) -> (r: &'static str)
        ensures
            r@ == self.tag().name_spec(),
    {
        self.backend().graphics_name()
    }

    /// The same container over references to the payload.
    pub fn as_ref(&self) -> (r: GraphicsWrap<&V, &G>)
        ensures
            r.tag() == self.tag(),
            match (r, self) {
                (GraphicsWrap::Vulkan(a), GraphicsWrap::Vulkan(b)) => a == b,
                (GraphicsWrap::OpenGl(a), GraphicsWrap::OpenGl(b)) => a == b,
                _ => false,
            },
    {
        match self {
            GraphicsWrap::Vulkan(v) => GraphicsWrap::Vulkan(v),
            GraphicsWrap::OpenGl(g) => GraphicsWrap::OpenGl(g),
        }
    }
}

/// A container built for one backend answers the membership query with
/// `true` for that backend and with `false` for every other.
pub proof fn lemma_membership<V, G>(wrap: GraphicsWrap<V, G>, b1: GraphicsBackend, b2: GraphicsBackend)
    requires
        wrap.tag() == b1,
        b1 != b2,
    ensures
        wrap.holds(b1),
        !wrap.holds(b2),
{
}

/// Wrapping a payload fixes the tag: each variant holds its own backend and
/// no other.
pub proof fn lemma_wrap_tags<V, G>(v: V, g: G, b: GraphicsBackend)
    ensures
        GraphicsWrap::<V, G>::Vulkan(v).holds(b) <==> b == GraphicsBackend::Vulkan,
        GraphicsWrap::<V, G>::OpenGl(g).holds(b) <==> b == GraphicsBackend::OpenGl,
{
}

} // verus!
