//! The frame stream: one rendered frame is begun, and ended with the layers
//! that may be shown.

use crate::backend::GraphicsBackend;
use crate::error::runtime_error;
use crate::error::XrError;
use crate::lemmas::lemma_filter_take_step;
use crate::lemmas::lemma_positions_parted;
use crate::lemmas::positions;
use crate::native::opengl_begin_frame;
use crate::native::opengl_end_frame;
use crate::native::status_code;
use crate::native::vulkan_begin_frame;
use crate::native::vulkan_end_frame;
use crate::native::OpenGlFrameStream;
use crate::native::OpenGlLayer;
use crate::native::VulkanFrameStream;
use crate::native::VulkanLayer;
use crate::swapchain::XrSwapchain;
use crate::sync::take_lock;
use crate::wrap::GraphicsWrap;
use std::ops::DerefMut;
use std::sync::Arc;
use std::sync::Mutex;
use vstd::prelude::*;

verus! {

/// The pacing handle of a session. It has one owner and is not shared.
pub struct XrFrameWaiter(pub openxr::FrameWaiter);

impl XrFrameWaiter {
    /// Blocks until the runtime is ready for the next frame and says when
    /// that frame will be shown.
    pub fn wait(&mut self) -> (r: Result<openxr::FrameState, XrError>)
        ensures
            r matches Err(e) ==> e is OpenXrError,
    {
        // When the runtime is ready, and whether it answers at all, is the
        // runtime's to say. Its answer is handed on as it is.
        let answer = self.0.wait();
        runtime_error(answer)
    }
}

/// Whether a layer may be submitted to a stream of `backend`: it draws from
/// no swapchain, or from one of the same backend.
pub open spec fn layer_accepted(backend: GraphicsBackend, source: Option<GraphicsBackend>) -> bool {
    match source {
        None => true,
        Some(b) => b == backend,
    }
}

/// The positions of the layers that are submitted, in rising order.
pub open spec fn accepted_layers(
    backend: GraphicsBackend,
    layers: Seq<Option<GraphicsBackend>>,
) -> Seq<usize> {
    positions(layers.len()).filter(|i: usize| layer_accepted(backend, layers[i as int]))
}

/// The positions of the layers that are left out, in rising order.
pub open spec fn excluded_layers(
    backend: GraphicsBackend,
    layers: Seq<Option<GraphicsBackend>>,
) -> Seq<usize> {
    positions(layers.len()).filter(|i: usize| !layer_accepted(backend, layers[i as int]))
}

/// One layer of a frame: the header that the runtime reads it by, and the
/// swapchain that it draws from, if it draws from one.
pub struct FrameLayer<'a, H> {
    pub swapchain: Option<&'a XrSwapchain>,
    pub header: H,
}

impl<'a, H> FrameLayer<'a, H> {
    /// The backend of the swapchain that the layer draws from.
    pub open spec fn source(&self) -> Option<GraphicsBackend> {
        match self.swapchain {
            Some(swapchain) => Some(swapchain.tag()),
            None => None,
        }
    }
}

/// The layers of a frame, their headers typed for one backend.
pub struct FrameLayers<'a>(
    pub GraphicsWrap<
        Vec<FrameLayer<'a, VulkanLayer<'a>>>,
        Vec<FrameLayer<'a, OpenGlLayer<'a>>>,
    >,
);

/// For each layer, the backend of the swapchain it draws from.
pub open spec fn layer_sources<H>(layers: Seq<FrameLayer<H>>) -> Seq<Option<GraphicsBackend>> {
    Seq::new(layers.len(), |i: int| layers[i].source())
}

impl<'a> FrameLayers<'a> {
    /// The backend the headers are typed for.
    pub open spec fn tag(&self) -> GraphicsBackend {
        self.0.tag()
    }

    /// For each layer, the backend of the swapchain it draws from.
    pub open spec fn sources(&self) -> Seq<Option<GraphicsBackend>> {
        match self.0 {
            GraphicsWrap::Vulkan(layers) => layer_sources(layers@),
            GraphicsWrap::OpenGl(layers) => layer_sources(layers@),
        }
    }
}

/// How a frame ended.
pub struct FrameEnd {
    /// The positions of the layers that were handed to the runtime, in the
    /// caller's order.
    pub accepted: Vec<usize>,
    /// The positions of the layers that were left out, each worth a warning.
    pub excluded: Vec<usize>,
    /// What the runtime said of the layers that were submitted.
    pub outcome: Result<(), XrError>,
}

/// Parts the layers of a frame into those that a stream of `backend` submits
/// and those that it leaves out. `layers` holds for each layer the backend of
/// the swapchain it draws from, if it draws from one.
pub fn select_layers(backend: GraphicsBackend, layers: &Vec<Option<GraphicsBackend>>) -> (r: (
    Vec<usize>,
    Vec<usize>,
))
    ensures
        r.0@ == accepted_layers(backend, layers@),
        r.1@ == excluded_layers(backend, layers@),
{
    let ghost all = positions(layers@.len());
    let ghost keep = |i: usize| layer_accepted(backend, layers@[i as int]);
    let ghost drop = |i: usize| !layer_accepted(backend, layers@[i as int]);
    let mut accepted: Vec<usize> = Vec::new();
    let mut excluded: Vec<usize> = Vec::new();
    let mut i: usize = 0;
    proof {
        reveal(Seq::filter);
        assert(all.take(0) =~= Seq::<usize>::empty());
    }
    while i < layers.len()
        invariant
            i <= layers.len(),
            all == positions(layers@.len()),
            keep == |i: usize| layer_accepted(backend, layers@[i as int]),
            drop == |i: usize| !layer_accepted(backend, layers@[i as int]),
            accepted@ == all.take(i as int).filter(keep),
            excluded@ == all.take(i as int).filter(drop),
        decreases layers.len() - i,
    {
        proof {
            lemma_filter_take_step(all, keep, i as int);
            lemma_filter_take_step(all, drop, i as int);
        }
        let fits = match layers[i] {
            None => true,
            Some(b) => b == backend,
        };
        if fits {
            accepted.push(i);
        } else {
            excluded.push(i);
        }
        i += 1;
    }
    assert(all.take(layers.len() as int) =~= all);
    (accepted, excluded)
}

/// Of `n` layers of which `m` draw from a swapchain of another backend,
/// exactly `n - m` are submitted. They are the layers that fit, each once, in
/// the caller's order; the `m` others are the ones left out.
pub proof fn lemma_layers_parted(backend: GraphicsBackend, layers: Seq<Option<GraphicsBackend>>)
    requires
        layers.len() <= usize::MAX,
    ensures
        ({
            let accepted = accepted_layers(backend, layers);
            let excluded = excluded_layers(backend, layers);
            &&& accepted.len() + excluded.len() == layers.len()
            &&& forall|j: int|
                0 <= j < accepted.len() ==> (#[trigger] accepted[j]) < layers.len()
                    && layer_accepted(backend, layers[accepted[j] as int])
            &&& forall|j: int|
                0 <= j < excluded.len() ==> (#[trigger] excluded[j]) < layers.len()
                    && !layer_accepted(backend, layers[excluded[j] as int])
            &&& forall|i: usize|
                i < layers.len() && layer_accepted(backend, layers[i as int])
                    ==> #[trigger] accepted.contains(i)
            &&& forall|i: usize|
                i < layers.len() && !layer_accepted(backend, layers[i as int])
                    ==> #[trigger] excluded.contains(i)
            &&& forall|a: int, b: int| 0 <= a < b < accepted.len() ==> accepted[a] < accepted[b]
            &&& forall|a: int, b: int| 0 <= a < b < excluded.len() ==> excluded[a] < excluded[b]
        }),
{
    let n = layers.len();
    let keep = |i: usize| layer_accepted(backend, layers[i as int]);
    lemma_positions_parted(n, keep, n as int);
    assert(positions(n).take(n as int) =~= positions(n));
    let drop = |i: usize| !layer_accepted(backend, layers[i as int]);
    let neg = |i: usize| !keep(i);
    assert(drop =~= neg);
}

/// Reads off each layer the backend of the swapchain it draws from.
fn sources_of<H>(layers: &Vec<FrameLayer<H>>) -> (r: Vec<Option<GraphicsBackend>>)
    ensures
        r@ == layer_sources(layers@),
{
    let mut r: Vec<Option<GraphicsBackend>> = Vec::new();
    let mut i: usize = 0;
    while i < layers.len()
        invariant
            i <= layers.len(),
            r@.len() == i,
            forall|j: int| 0 <= j < i ==> r@[j] == layers@[j].source(),
        decreases layers.len() - i,
    {
        let source = match layers[i].swapchain {
            Some(swapchain) => Some(swapchain.backend()),
            None => None,
        };
        r.push(source);
        i += 1;
    }
    assert(r@ =~= layer_sources(layers@));
    r
}

/// The headers of the layers at `positions`, in the order of `positions`.
fn headers_at<'b, H>(layers: &'b Vec<FrameLayer<H>>, positions: &Vec<usize>) -> (r: Vec<&'b H>)
    requires
        forall|j: int| 0 <= j < positions.len() ==> positions[j] < layers.len(),
    ensures
        r.len() == positions.len(),
        forall|j: int| 0 <= j < r.len() ==> *r[j] == layers[positions[j] as int].header,
{
    let mut r: Vec<&'b H> = Vec::new();
    let mut j: usize = 0;
    while j < positions.len()
        invariant
            j <= positions.len(),
            r.len() == j,
            forall|k: int| 0 <= k < positions.len() ==> positions[k] < layers.len(),
            forall|k: int| 0 <= k < j ==> *r[k] == layers[positions[k] as int].header,
        decreases positions.len() - j,
    {
        r.push(&layers[positions[j]].header);
        j += 1;
    }
    r
}

/// The record of the bracket that one rendered frame stands in: begun, and
/// not yet ended.
pub struct FrameBracket {
    began: bool,
}

impl FrameBracket {
    /// Whether a frame was begun and not yet ended.
    pub closed spec fn began(&self) -> bool {
        self.began
    }

    /// The record of a stream on which no frame was begun.
    pub fn new() -> (r: FrameBracket)
        ensures
            !r.began(),
    {
        FrameBracket { began: false }
    }

    /// Whether a frame was begun and not yet ended.
    pub fn is_begun(&self) -> (r: bool)
        ensures
            r == self.began(),
    {
        self.began
    }

    /// Takes the runtime's answer to the beginning of a frame and hands it
    /// on as it is. On success a frame is begun; on failure the bracket is
    /// as it was.
    pub fn begin_answered(&mut self, answer: Result<(), openxr::sys::Result>) -> (r: Result<
        (),
        openxr::sys::Result,
    >)
        ensures
            r == answer,
            answer is Ok ==> final(self).began(),
            answer is Err ==> final(self).began() == old(self).began(),
    {
        if answer.is_ok() {
            self.began = true;
        }
        answer
    }

    /// Takes the runtime's answer to the end of a frame. On success the
    /// frame is ended; a failure is handed on with the runtime's status and
    /// the bracket is as it was.
    pub fn end_answered(&mut self, answer: Result<(), openxr::sys::Result>) -> (r: Result<
        (),
        XrError,
    >)
        ensures
            match answer {
                Ok(_) => r == Ok::<(), XrError>(()) && !final(self).began(),
                Err(status) => r == Err::<(), XrError>(XrError::OpenXrError(status))
                    && final(self).began() == old(self).began(),
            },
    {
        match answer {
            Ok(_) => {
                self.began = false;
                Ok(())
            },
            Err(status) => Err(XrError::OpenXrError(status)),
        }
    }
}

/// The frame stream of a Vulkan session together with the record of its
/// bracket: what a shared frame stream guards with its lock.
pub struct VulkanFrame {
    stream: VulkanFrameStream,
    bracket: FrameBracket,
}

impl VulkanFrame {
    /// Whether a frame was begun and not yet ended.
    pub closed spec fn began(&self) -> bool {
        self.bracket.began()
    }

    /// Takes the frame stream of a session that was just opened.
    pub fn new(stream: VulkanFrameStream) -> (r: VulkanFrame)
        ensures
            !r.began(),
    {
        VulkanFrame { stream, bracket: FrameBracket::new() }
    }

    /// Whether a frame was begun and not yet ended.
    pub fn is_begun(&self) -> (r: bool)
        ensures
            r == self.began(),
    {
        self.bracket.is_begun()
    }

    /// Tells the runtime that the work on a frame begins. Whether a frame
    /// may begin is for the runtime to say; its answer is handed on as it
    /// is.
    pub fn begin(&mut self) -> (r: Result<(), openxr::sys::Result>)
        ensures
            r is Ok ==> final(self).began(),
            r matches Err(status) ==> status_code(status) < 0 && final(self).began() == old(
                self,
            ).began(),
    {
        let answer = vulkan_begin_frame(&mut self.stream);
        self.bracket.begin_answered(answer)
    }

    /// Ends the frame with `layers`, in their order.
    pub fn end(
        &mut self,
        display_time: openxr::Time,
        environment_blend_mode: openxr::EnvironmentBlendMode,
        layers: &Vec<&VulkanLayer<'_>>,
    ) -> (r: Result<(), XrError>)
        requires
            layers.len() <= u32::MAX,
        ensures
            r is Ok ==> !final(self).began(),
            r matches Err(e) ==> e is OpenXrError && final(self).began() == old(self).began(),
    {
        let answer = vulkan_end_frame(
            &mut self.stream,
            display_time,
            environment_blend_mode,
            layers,
        );
        self.bracket.end_answered(answer)
    }
}

/// The frame stream of an OpenGL session together with the record of its
/// bracket: what a shared frame stream guards with its lock.
pub struct OpenGlFrame {
    stream: OpenGlFrameStream,
    bracket: FrameBracket,
}

impl OpenGlFrame {
    /// Whether a frame was begun and not yet ended.
    pub closed spec fn began(&self) -> bool {
        self.bracket.began()
    }

    /// Takes the frame stream of a session that was just opened.
    pub fn new(stream: OpenGlFrameStream) -> (r: OpenGlFrame)
        ensures
            !r.began(),
    {
        OpenGlFrame { stream, bracket: FrameBracket::new() }
    }

    /// Whether a frame was begun and not yet ended.
    pub fn is_begun(&self) -> (r: bool)
        ensures
            r == self.began(),
    {
        self.bracket.is_begun()
    }

    /// Tells the runtime that the work on a frame begins. Whether a frame
    /// may begin is for the runtime to say; its answer is handed on as it
    /// is.
    pub fn begin(&mut self) -> (r: Result<(), openxr::sys::Result>)
        ensures
            r is Ok ==> final(self).began(),
            r matches Err(status) ==> status_code(status) < 0 && final(self).began() == old(
                self,
            ).began(),
    {
        let answer = opengl_begin_frame(&mut self.stream);
        self.bracket.begin_answered(answer)
    }

    /// Ends the frame with `layers`, in their order.
    pub fn end(
        &mut self,
        display_time: openxr::Time,
        environment_blend_mode: openxr::EnvironmentBlendMode,
        layers: &Vec<&OpenGlLayer<'_>>,
    ) -> (r: Result<(), XrError>)
        requires
            layers.len() <= u32::MAX,
        ensures
            r is Ok ==> !final(self).began(),
            r matches Err(e) ==> e is OpenXrError && final(self).began() == old(self).began(),
    {
        let answer = opengl_end_frame(
            &mut self.stream,
            display_time,
            environment_blend_mode,
            layers,
        );
        self.bracket.end_answered(answer)
    }
}

/// The frame stream of a session, shared: each handle is tagged with the
/// session's backend, and the stream and the record of its bracket lie
/// behind a lock that is held for one operation at a time.
///
/// What an operation finds behind the lock depends on what the other holders
/// did before, so the handle promises of each result only what holds in
/// every state; what happens in a given state is said by [`VulkanFrame`] and
/// [`OpenGlFrame`].
pub struct XrFrameStream(GraphicsWrap<Arc<Mutex<VulkanFrame>>, Arc<Mutex<OpenGlFrame>>>);

impl XrFrameStream {
    /// The backend of the session.
    pub closed spec fn tag(&self) -> GraphicsBackend {
        self.0.tag()
    }

    /// Takes the frame stream of a session that was opened for Vulkan.
    pub fn from_vulkan(stream: VulkanFrameStream) -> (r: XrFrameStream)
        ensures
            r.tag() == GraphicsBackend::Vulkan,
    {
        XrFrameStream(GraphicsWrap::Vulkan(Arc::new(Mutex::new(VulkanFrame::new(stream)))))
    }

    /// Takes the frame stream of a session that was opened for OpenGL.
    pub fn from_opengl(stream: OpenGlFrameStream) -> (r: XrFrameStream)
        ensures
            r.tag() == GraphicsBackend::OpenGl,
    {
        XrFrameStream(GraphicsWrap::OpenGl(Arc::new(Mutex::new(OpenGlFrame::new(stream)))))
    }

    /// Another handle to the same stream.
    pub fn share(&self) -> (r: XrFrameStream)
        ensures
            r.tag() == self.tag(),
    {
        match &self.0 {
            GraphicsWrap::Vulkan(stream) => XrFrameStream(GraphicsWrap::Vulkan(stream.clone())),
            GraphicsWrap::OpenGl(stream) => XrFrameStream(GraphicsWrap::OpenGl(stream.clone())),
        }
    }

    /// The backend of the session. The lock is not taken.
    pub fn backend(&self) -> (r: GraphicsBackend)
        ensures
            r == self.tag(),
    {
        self.0.backend()
    }

    /// Takes the lock and tells the runtime that the work on a frame
    /// begins. Whether a frame may begin is for the runtime to say; its
    /// answer is handed on as it is. An error is a failure of the runtime:
    /// a status that stands for a kind of success never comes as one.
    pub fn begin(&self) -> (r: Result<(), openxr::sys::Result>)
        ensures
            r matches Err(status) ==> status_code(status) < 0,
    {
        match &self.0 {
            GraphicsWrap::Vulkan(stream) => {
                let mut guard = take_lock(stream);
                guard.deref_mut().begin()
            },
            GraphicsWrap::OpenGl(stream) => {
                let mut guard = take_lock(stream);
                guard.deref_mut().begin()
            },
        }
    }

    /// Ends the frame with the layers that fit the stream's backend, in the
    /// caller's order.
    ///
    /// A layer that draws from a swapchain of another backend is left out
    /// and the frame goes on without it: its position is returned, and the
    /// call does not fail on its account. The lock is held while the
    /// runtime is called. The call fails where the runtime fails, and where
    /// the headers are typed for another backend than the stream's; then
    /// the runtime is not called and no layer counts as submitted.
    ///
    /// The runtime takes a number of layers that fits in 32 bits: that many
    /// may be accepted, however many are left out.
    pub fn end(
        &self,
        display_time: openxr::Time,
        environment_blend_mode: openxr::EnvironmentBlendMode,
        layers: &FrameLayers<'_>,
    ) -> (r: FrameEnd)
        requires
            layers.tag() == self.tag() ==> accepted_layers(self.tag(), layers.sources()).len()
                <= u32::MAX,
        ensures
            layers.tag() == self.tag() ==> {
                &&& r.accepted@ == accepted_layers(self.tag(), layers.sources())
                &&& r.excluded@ == excluded_layers(self.tag(), layers.sources())
                &&& r.outcome matches Err(e) ==> e is OpenXrError
            },
            layers.tag() != self.tag() ==> {
                &&& r.accepted@ == Seq::<usize>::empty()
                &&& r.excluded@ == Seq::<usize>::empty()
                &&& r.outcome == Err::<(), XrError>(
                    XrError::GraphicsBackendMismatch {
                        expected: self.tag(),
                        actual: layers.tag(),
                    },
                )
            },
    {
        match (&self.0, &layers.0) {
            (GraphicsWrap::Vulkan(stream), GraphicsWrap::Vulkan(layers)) => {
                let sources = sources_of(layers);
                let (accepted, excluded) = select_layers(GraphicsBackend::Vulkan, &sources);
                proof {
                    assert(sources@.len() == sources.len());
                    lemma_layers_parted(GraphicsBackend::Vulkan, sources@);
                }
                let headers = headers_at(layers, &accepted);
                let mut guard = take_lock(stream);
                let outcome = guard.deref_mut().end(display_time, environment_blend_mode, &headers);
                FrameEnd { accepted, excluded, outcome }
            },
            (GraphicsWrap::OpenGl(stream), GraphicsWrap::OpenGl(layers)) => {
                let sources = sources_of(layers);
                let (accepted, excluded) = select_layers(GraphicsBackend::OpenGl, &sources);
                proof {
                    assert(sources@.len() == sources.len());
                    lemma_layers_parted(GraphicsBackend::OpenGl, sources@);
                }
                let headers = headers_at(layers, &accepted);
                let mut guard = take_lock(stream);
                let outcome = guard.deref_mut().end(display_time, environment_blend_mode, &headers);
                FrameEnd { accepted, excluded, outcome }
            },
            _ => FrameEnd {
                accepted: Vec::new(),
                excluded: Vec::new(),
                outcome: layers.0.check_graphics(self.backend()),
            },
        }
    }
}

} // verus!
