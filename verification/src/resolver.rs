//! The fallback chain between the direct and the generated provider, as a
//! state machine: each step says which provider call comes next, or how the
//! resolution ends. The caller performs the calls.

use vstd::prelude::*;
use crate::provider::{
    ProviderResponse, ProviderResponseView, ProviderStatus, RenderedImage, RenderedImageView,
};
use crate::raster::RasterError;
use crate::size::TargetSize;
use crate::style::{BoringVariant, GravatarStyle, Style};

verus! {

/// Generated patterns are never fetched below this size.
pub const GENERATED_FLOOR: u32 = 128;

/// Why a resolution produced no image.
#[derive(Clone, Copy, Debug, PartialEq, Eq, Structural)]
pub enum ResolveError {
    /// A provider failed, or answered with anything but what the chain can use.
    UpstreamError,
    /// The generated vector document could not be rasterised.
    ConversionError(RasterError),
}

/// The provider call whose answer a resolution is waiting for.
#[derive(Clone, Copy, Debug, PartialEq, Eq, Structural)]
pub enum Pending {
    /// The direct provider, asked for the requested style.
    Direct,
    /// The direct provider, asked whether an identity image exists.
    Probe(BoringVariant),
    /// The generated-pattern provider.
    Generated,
}

/// A resolution in progress.
#[derive(Debug, PartialEq, Eq)]
pub struct Resolver {
    hash: String,
    size: TargetSize,
    pending: Pending,
}

pub ghost struct ResolverView {
    pub hash: Seq<char>,
    pub size: nat,
    pub pending: Pending,
}

impl View for Resolver {
    type V = ResolverView;

    closed spec fn view(&self) -> ResolverView {
        ResolverView { hash: self.hash@, size: self.size@, pending: self.pending }
    }
}

/// A call that the resolution asks its caller to make.
#[derive(Debug, PartialEq, Eq)]
pub enum Request {
    Direct { hash: String, style: GravatarStyle, size: u32 },
    Generated { hash: String, variant: BoringVariant, size: u32 },
}

pub ghost enum RequestView {
    Direct { hash: Seq<char>, style: GravatarStyle, size: nat },
    Generated { hash: Seq<char>, variant: BoringVariant, size: nat },
}

impl View for Request {
    type V = RequestView;

    open spec fn view(&self) -> RequestView {
        match self {
            Request::Direct { hash, style, size } => RequestView::Direct {
                hash: hash@,
                style: *style,
                size: *size as nat,
            },
            Request::Generated { hash, variant, size } => RequestView::Generated {
                hash: hash@,
                variant: *variant,
                size: *size as nat,
            },
        }
    }
}

/// What follows a provider's answer.
#[derive(Debug, PartialEq, Eq)]
pub enum Step {
    /// Make this call and hand its answer to the resolver that comes with it.
    Call(Resolver, Request),
    /// Rasterise this vector document at this size, then finish with
    /// `finish_raster`.
    Rasterize { svg: Vec<u8>, size: TargetSize },
    /// The resolution has ended.
    Done(Result<RenderedImage, ResolveError>),
}

pub ghost enum StepView {
    Call(ResolverView, RequestView),
    Rasterize { svg: Seq<u8>, size: nat },
    Done(Result<RenderedImageView, ResolveError>),
}

impl View for Step {
    type V = StepView;

    open spec fn view(&self) -> StepView {
        match self {
            Step::Call(resolver, request) => StepView::Call(resolver@, request@),
            Step::Rasterize { svg, size } => StepView::Rasterize { svg: svg@, size: size@ },
            Step::Done(r) => StepView::Done(outcome_view(*r)),
        }
    }
}

/// The size at which a generated pattern is fetched for a requested size.
pub open spec fn fetch_size(size: nat) -> nat {
    if size >= GENERATED_FLOOR {
        size
    } else {
        GENERATED_FLOOR as nat
    }
}

/// The first call of a resolution: the requested style for a direct style,
/// the identity probe for a generated one.
pub open spec fn first_step(hash: Seq<char>, style: Style, size: nat) -> (ResolverView, RequestView) {
    match style {
        Style::Gravatar(g) => (
            ResolverView { hash, size, pending: Pending::Direct },
            RequestView::Direct { hash, style: g, size },
        ),
        Style::Boring(v) => (
            ResolverView { hash, size, pending: Pending::Probe(v) },
            RequestView::Direct { hash, style: GravatarStyle::NotFound, size },
        ),
    }
}

/// A resolution's result, with the image by its view.
pub open spec fn outcome_view(r: Result<RenderedImage, ResolveError>) -> Result<
    RenderedImageView,
    ResolveError,
> {
    match r {
        Ok(image) => Ok(image@),
        Err(e) => Err(e),
    }
}

/// The rasteriser's result, with the bytes by their view.
pub open spec fn raster_view(r: Result<Vec<u8>, RasterError>) -> Result<Seq<u8>, RasterError> {
    match r {
        Ok(png) => Ok(png@),
        Err(e) => Err(e),
    }
}

/// The image that relays a provider's answer as it is.
pub open spec fn relayed(response: ProviderResponseView) -> RenderedImageView {
    RenderedImageView { body: response.body, content_type: response.content_type }
}

/// What follows when `response` answers the call that `resolver` waits for.
pub open spec fn next_step(resolver: ResolverView, response: ProviderResponseView) -> StepView {
    match resolver.pending {
        Pending::Direct => match response.status {
            ProviderStatus::Success => StepView::Done(Ok(relayed(response))),
            _ => StepView::Done(Err(ResolveError::UpstreamError)),
        },
        Pending::Probe(variant) => match response.status {
            ProviderStatus::Success => StepView::Done(Ok(relayed(response))),
            ProviderStatus::NotFound => StepView::Call(
                ResolverView { hash: resolver.hash, size: resolver.size, pending: Pending::Generated },
                RequestView::Generated {
                    hash: resolver.hash,
                    variant,
                    size: fetch_size(resolver.size),
                },
            ),
            ProviderStatus::Failed => StepView::Done(Err(ResolveError::UpstreamError)),
        },
        Pending::Generated => match response.status {
            ProviderStatus::Success => StepView::Rasterize {
                svg: response.body,
                size: resolver.size,
            },
            _ => StepView::Done(Err(ResolveError::UpstreamError)),
        },
    }
}

/// The content type of every image that the rasteriser produced.
pub open spec fn raster_content_type() -> Seq<char> {
    "image/png"@
}

/// How a resolution ends once the rasteriser has answered.
pub open spec fn raster_step(outcome: Result<Seq<u8>, RasterError>) -> Result<
    RenderedImageView,
    ResolveError,
> {
    match outcome {
        Ok(png) => Ok(RenderedImageView { body: png, content_type: raster_content_type() }),
        Err(e) => Err(ResolveError::ConversionError(e)),
    }
}

impl Resolver {
    /// The call whose answer this resolution waits for.
    pub fn pending(&self) -> (p: Pending)
        ensures
            p == self@.pending,
    {
        self.pending
    }

    /// The identity hash that is being resolved.
    pub fn hash(&self) -> (hash: &str)
        ensures
            hash@ == self@.hash,
    {
        self.hash.as_str()
    }

    /// The size that was requested, whatever size a call is made at.
    pub fn size(&self) -> (size: TargetSize)
        ensures
            size@ == self@.size,
    {
        self.size
    }

    /// Begins a resolution and names its first call.
    pub fn start(hash: &str, style: Style, size: TargetSize) -> (r: (Resolver, Request))
        ensures
            (r.0@, r.1@) == first_step(hash@, style, size@),
    {
        let px = size.get();
        match style {
            Style::Gravatar(g) => (
                Resolver { hash: hash.to_owned(), size, pending: Pending::Direct },
                Request::Direct { hash: hash.to_owned(), style: g, size: px },
            ),
            Style::Boring(v) => (
                Resolver { hash: hash.to_owned(), size, pending: Pending::Probe(v) },
                Request::Direct { hash: hash.to_owned(), style: GravatarStyle::NotFound, size: px },
            ),
        }
    }

    /// Takes the answer to the pending call and says what follows.
    pub fn on_response(self, response: ProviderResponse) -> (step: Step)
        ensures
            step@ == next_step(self@, response@),
    {
        match self.pending {
            Pending::Direct => match response.status {
                ProviderStatus::Success => Step::Done(Ok(relay(response))),
                _ => Step::Done(Err(ResolveError::UpstreamError)),
            },
            Pending::Probe(variant) => match response.status {
                ProviderStatus::Success => Step::Done(Ok(relay(response))),
                ProviderStatus::NotFound => {
                    let px = self.size.get();
                    let size = if px >= GENERATED_FLOOR {
                        px
                    } else {
                        GENERATED_FLOOR
                    };
                    let hash = self.hash.clone();
                    Step::Call(
                        Resolver { hash: self.hash, size: self.size, pending: Pending::Generated },
                        Request::Generated { hash, variant, size },
                    )
                },
                ProviderStatus::Failed => Step::Done(Err(ResolveError::UpstreamError)),
            },
            Pending::Generated => match response.status {
                ProviderStatus::Success => Step::Rasterize { svg: response.body, size: self.size },
                _ => Step::Done(Err(ResolveError::UpstreamError)),
            },
        }
    }
}

/// Relays a provider's payload and content type unchanged.
pub fn relay(response: ProviderResponse) -> (image: RenderedImage)
    ensures
        image@ == relayed(response@),
{
    RenderedImage { body: response.body, content_type: response.content_type }
}

/// Ends a resolution with the rasteriser's outcome: the raster bytes under
/// the fixed raster content type, or a conversion error that carries the cause.
pub fn finish_raster(outcome: Result<Vec<u8>, RasterError>) -> (r: Result<
    RenderedImage,
    ResolveError,
>)
    ensures
        outcome_view(r) == raster_step(raster_view(outcome)),
{
    match outcome {
        Ok(png) => Ok(RenderedImage { body: png, content_type: "image/png".to_owned() }),
        Err(e) => Err(ResolveError::ConversionError(e)),
    }
}

/// The provider calls of a resolution, in order, and how it left the
/// providers: with a step that is no call, or still waiting for an answer.
pub ghost struct Trace {
    pub calls: Seq<RequestView>,
    pub end: Option<StepView>,
}

/// The trace from a waiting resolver onwards, when the providers answer
/// with `responses` in order. Answers beyond the end are never asked for.
pub open spec fn drive(resolver: ResolverView, responses: Seq<ProviderResponseView>) -> Trace
    decreases responses.len(),
{
    if responses.len() == 0 {
        Trace { calls: Seq::empty(), end: None }
    } else {
        match next_step(resolver, responses[0]) {
            StepView::Call(next, request) => {
                let rest = drive(next, responses.drop_first());
                Trace { calls: seq![request] + rest.calls, end: rest.end }
            },
            other => Trace { calls: Seq::empty(), end: Some(other) },
        }
    }
}

/// The trace of a whole resolution.
pub open spec fn resolution(
    hash: Seq<char>,
    style: Style,
    size: nat,
    responses: Seq<ProviderResponseView>,
) -> Trace {
    let (resolver, request) = first_step(hash, style, size);
    let rest = drive(resolver, responses);
    Trace { calls: seq![request] + rest.calls, end: rest.end }
}

/// A generated pattern is fetched at the requested size or at the floor,
/// whichever is larger.
pub proof fn lemma_fetch_size(size: nat)
    ensures
        fetch_size(size) >= GENERATED_FLOOR,
        fetch_size(size) >= size,
        fetch_size(size) == size || fetch_size(size) == GENERATED_FLOOR,
{
}

/// A direct style makes exactly one call, to the direct provider with the
/// hash, the style and the size as requested, and never reaches the
/// rasteriser or the generated provider, whatever is answered.
pub proof fn lemma_direct_style_one_call(
    hash: Seq<char>,
    style: GravatarStyle,
    size: nat,
    responses: Seq<ProviderResponseView>,
)
    ensures
        resolution(hash, Style::Gravatar(style), size, responses).calls == seq![
            RequestView::Direct { hash, style, size },
        ],
        responses.len() > 0 ==> resolution(hash, Style::Gravatar(style), size, responses).end
            == Some(
            StepView::Done(
                if responses[0].status == ProviderStatus::Success {
                    Ok(relayed(responses[0]))
                } else {
                    Err(ResolveError::UpstreamError)
                },
            ),
        ),
        responses.len() == 0 ==> resolution(hash, Style::Gravatar(style), size, responses).end
            is None,
{
    let t = resolution(hash, Style::Gravatar(style), size, responses);
    assert(t.calls =~= seq![RequestView::Direct { hash, style, size }]);
}

/// A direct style whose provider succeeds ends with that provider's payload
/// and content type, unmodified.
pub proof fn lemma_direct_success_relays(
    hash: Seq<char>,
    style: GravatarStyle,
    size: nat,
    response: ProviderResponseView,
)
    requires
        response.status == ProviderStatus::Success,
    ensures
        next_step(first_step(hash, Style::Gravatar(style), size).0, response) == StepView::Done(
            Ok(RenderedImageView { body: response.body, content_type: response.content_type }),
        ),
{
}

/// A generated style first asks the direct provider whether an identity
/// image exists, at the requested size.
pub proof fn lemma_generated_style_probes_first(
    hash: Seq<char>,
    variant: BoringVariant,
    size: nat,
    responses: Seq<ProviderResponseView>,
)
    ensures
        resolution(hash, Style::Boring(variant), size, responses).calls.len() >= 1,
        resolution(hash, Style::Boring(variant), size, responses).calls[0] == (RequestView::Direct {
            hash,
            style: GravatarStyle::NotFound,
            size,
        }),
{
}

/// Where the identity probe succeeds, its image is relayed and the
/// generated provider is never called.
pub proof fn lemma_probe_success_wins(
    hash: Seq<char>,
    variant: BoringVariant,
    size: nat,
    responses: Seq<ProviderResponseView>,
)
    requires
        responses.len() > 0,
        responses[0].status == ProviderStatus::Success,
    ensures
        next_step(first_step(hash, Style::Boring(variant), size).0, responses[0])
            == StepView::Done(Ok(relayed(responses[0]))),
        resolution(hash, Style::Boring(variant), size, responses) == (Trace {
            calls: seq![RequestView::Direct { hash, style: GravatarStyle::NotFound, size }],
            end: Some(StepView::Done(Ok(relayed(responses[0])))),
        }),
{
    let t = resolution(hash, Style::Boring(variant), size, responses);
    assert(t.calls =~= seq![RequestView::Direct { hash, style: GravatarStyle::NotFound, size }]);
}

/// Where the identity probe fails in any way other than not-found, the
/// resolution ends with an upstream error and the generated provider is
/// never called.
pub proof fn lemma_probe_failure_ends(
    hash: Seq<char>,
    variant: BoringVariant,
    size: nat,
    responses: Seq<ProviderResponseView>,
)
    requires
        responses.len() > 0,
        responses[0].status == ProviderStatus::Failed,
    ensures
        next_step(first_step(hash, Style::Boring(variant), size).0, responses[0])
            == StepView::Done(Err(ResolveError::UpstreamError)),
        resolution(hash, Style::Boring(variant), size, responses) == (Trace {
            calls: seq![RequestView::Direct { hash, style: GravatarStyle::NotFound, size }],
            end: Some(StepView::Done(Err(ResolveError::UpstreamError))),
        }),
{
    let t = resolution(hash, Style::Boring(variant), size, responses);
    assert(t.calls =~= seq![RequestView::Direct { hash, style: GravatarStyle::NotFound, size }]);
}

/// Where the identity probe reports not-found, the generated provider is
/// called second, with the hash, the variant and the floor-adjusted size;
/// its vector document is rasterised at the size that was requested, and
/// any other answer ends the resolution with an upstream error.
pub proof fn lemma_probe_not_found_falls_back(
    hash: Seq<char>,
    variant: BoringVariant,
    size: nat,
    responses: Seq<ProviderResponseView>,
)
    requires
        responses.len() > 1,
        responses[0].status == ProviderStatus::NotFound,
    ensures
        resolution(hash, Style::Boring(variant), size, responses) == (Trace {
            calls: seq![
                RequestView::Direct { hash, style: GravatarStyle::NotFound, size },
                RequestView::Generated { hash, variant, size: fetch_size(size) },
            ],
            end: Some(
                if responses[1].status == ProviderStatus::Success {
                    StepView::Rasterize { svg: responses[1].body, size }
                } else {
                    StepView::Done(Err(ResolveError::UpstreamError))
                },
            ),
        }),
{
    let t = resolution(hash, Style::Boring(variant), size, responses);
    let (r0, probe) = first_step(hash, Style::Boring(variant), size);
    let r1 = ResolverView { hash, size, pending: Pending::Generated };
    let generated = RequestView::Generated { hash, variant, size: fetch_size(size) };
    assert(next_step(r0, responses[0]) == StepView::Call(r1, generated));
    let tail = responses.drop_first();
    assert(tail[0] == responses[1]);
    assert(drive(r1, tail).calls =~= Seq::<RequestView>::empty());
    assert(drive(r0, responses).calls =~= seq![generated]);
    assert(t.calls =~= seq![probe, generated]);
}

/// Every resolution makes one or two provider calls, the first of them to
/// the direct provider; a second one goes to the generated provider.
pub proof fn lemma_call_count(
    hash: Seq<char>,
    style: Style,
    size: nat,
    responses: Seq<ProviderResponseView>,
)
    ensures
        1 <= resolution(hash, style, size, responses).calls.len() <= 2,
        resolution(hash, style, size, responses).calls[0] is Direct,
        resolution(hash, style, size, responses).calls.len() == 2 ==> resolution(
            hash,
            style,
            size,
            responses,
        ).calls[1] is Generated,
{
    let (r0, first) = first_step(hash, style, size);
    if responses.len() > 0 {
        match next_step(r0, responses[0]) {
            StepView::Call(r1, second) => {
                let tail = responses.drop_first();
                if tail.len() > 0 {
                    assert(!(next_step(r1, tail[0]) is Call));
                }
                assert(drive(r1, tail).calls =~= Seq::<RequestView>::empty());
            },
            _ => {},
        }
    }
}

} // verus!
