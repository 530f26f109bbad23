//! The graphics backends a session can be bound to.

use crate::extensions::XrExtensions;
use crate::lemmas::lemma_filter_take_step;
use vstd::prelude::*;

verus! {

/// A native graphics API. An instance is created for exactly one of them and
/// keeps it for its whole life.
#[derive(Clone, Copy, Debug, PartialEq, Eq, Hash, Structural)]
pub enum GraphicsBackend {
    Vulkan,
    OpenGl,
}

impl GraphicsBackend {
    /// Every backend, in the order in which they are offered.
    pub open spec fn all_spec() -> Seq<GraphicsBackend> {
        seq![GraphicsBackend::Vulkan, GraphicsBackend::OpenGl]
    }

    /// Position of the backend in [`Self::all_spec`].
    pub open spec fn index(self) -> int {
        match self {
            GraphicsBackend::Vulkan => 0,
            GraphicsBackend::OpenGl => 1,
        }
    }

    /// Every backend, in the order in which they are offered.
    pub fn all() -> (r: Vec<GraphicsBackend>)
        ensures
            r@ == Self::all_spec(),
    {
        let mut r: Vec<GraphicsBackend> = Vec::new();
        r.push(GraphicsBackend::Vulkan);
        r.push(GraphicsBackend::OpenGl);
        assert(r@ =~= Self::all_spec());
        r
    }

    /// The name under which the backend is reported.
    pub open spec fn name_spec(self) -> Seq<char> {
        match self {
            GraphicsBackend::Vulkan => "Vulkan"@,
            GraphicsBackend::OpenGl => "OpenGL"@,
        }
    }

    /// The name under which the backend is reported.
    pub fn graphics_name(&self) -> (r: &'static str)
        ensures
            r@ == self.name_spec(),
    {
        match self {
            GraphicsBackend::Vulkan => "Vulkan",
            GraphicsBackend::OpenGl => "OpenGL",
        }
    }

    /// The name of the runtime extension that the backend cannot work
    /// without.
    pub open spec fn required_extension_spec(self) -> Seq<char> {
        match self {
            GraphicsBackend::Vulkan => "XR_KHR_vulkan_enable2"@,
            GraphicsBackend::OpenGl => "XR_KHR_opengl_enable"@,
        }
    }

    /// The name of the runtime extension that the backend cannot work
    /// without.
    pub fn required_extension(&self) -> (r: &'static str)
        ensures
            r@ == self.required_extension_spec(),
    {
        match self {
            GraphicsBackend::Vulkan => "XR_KHR_vulkan_enable2",
            GraphicsBackend::OpenGl => "XR_KHR_opengl_enable",
        }
    }

    /// Whether the backend can be used with a runtime that offers `exts`:
    /// whether the extension it requires is among them.
    pub open spec fn available_in(self, exts: &XrExtensions) -> bool {
        exts.enables(self)
    }

    /// Whether the backend can be used with a runtime that offers `exts`.
    pub fn is_available(&self, exts: &XrExtensions) -> (r: bool)
        ensures
            r == self.available_in(exts),
    {
        exts.has_backend(*self)
    }

    /// The backends that a runtime offering `exts` supports, in the order of
    /// [`Self::all_spec`].
    pub open spec fn available_spec(exts: &XrExtensions) -> Seq<GraphicsBackend> {
        Self::all_spec().filter(|b: GraphicsBackend| b.available_in(exts))
    }

    /// The backends that a runtime offering `exts` supports.
    pub fn available_backends(exts: &XrExtensions) -> (r: Vec<GraphicsBackend>)
        ensures
            r@ == Self::available_spec(exts),
    {
        let all = Self::all();
        let ghost pred = |b: GraphicsBackend| b.available_in(exts);
        let mut r: Vec<GraphicsBackend> = Vec::new();
        let mut i: usize = 0;
        assert(all@.take(0) =~= Seq::<GraphicsBackend>::empty());
        proof {
            reveal(Seq::filter);
        }
        while i < all.len()
            invariant
                i <= all.len(),
                all@ == Self::all_spec(),
                pred == |b: GraphicsBackend| b.available_in(exts),
                r@ == all@.take(i as int).filter(pred),
            decreases all.len() - i,
        {
            let b = all[i];
            proof {
                lemma_filter_take_step(all@, pred, i as int);
            }
            if b.is_available(exts) {
                r.push(b);
            }
            i += 1;
        }
        assert(all@.take(all.len() as int) =~= all@);
        r
    }
}

/// The list of backends is closed: each one stands in it, once, at its index.
pub proof fn lemma_all_backends_listed(b: GraphicsBackend)
    ensures
        0 <= b.index() < GraphicsBackend::all_spec().len(),
        GraphicsBackend::all_spec()[b.index()] == b,
        forall|i: int|
            0 <= i < GraphicsBackend::all_spec().len() && GraphicsBackend::all_spec()[i] == b
                ==> i == b.index(),
{
}

/// A backend is among those offered exactly when the runtime has its
/// extension, and no more backends are offered than there are.
pub proof fn lemma_available_backends(exts: XrExtensions, b: GraphicsBackend)
    ensures
        GraphicsBackend::available_spec(&exts).contains(b) <==> b.available_in(&exts),
        GraphicsBackend::available_spec(&exts).len() <= GraphicsBackend::all_spec().len(),
{
    let pred = |x: GraphicsBackend| x.available_in(&exts);
    let all = GraphicsBackend::all_spec();
    all.lemma_filter_len(pred);
    if b.available_in(&exts) {
        assert(all[b.index()] == b);
        all.lemma_filter_contains(pred, b.index());
    }
    if all.filter(pred).contains(b) {
        let i = choose|i: int| 0 <= i < all.filter(pred).len() && all.filter(pred)[i] == b;
        all.lemma_filter_pred(pred, i);
    }
}

} // verus!
