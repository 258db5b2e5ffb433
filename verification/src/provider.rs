//! What an upstream provider answered, as the resolver sees it.

use vstd::prelude::*;

verus! {

/// The three outcomes of a provider call that the fallback chain tells apart.
#[derive(Clone, Copy, Debug, PartialEq, Eq, Structural)]
pub enum ProviderStatus {
    /// The provider answered with the image.
    Success,
    /// The provider answered that it has no image for the hash.
    NotFound,
    /// Any other status, or no answer at all.
    Failed,
}

/// The outcome that an HTTP status code stands for: the 2xx range is
/// success, 404 is not-found, everything else a failure.
pub open spec fn status_class(code: u16) -> ProviderStatus {
    if 200 <= code < 300 {
        ProviderStatus::Success
    } else if code == 404 {
        ProviderStatus::NotFound
    } else {
        ProviderStatus::Failed
    }
}

pub fn classify_status(code: u16) -> (status: ProviderStatus)
    ensures
        status == status_class(code),
{
    if 200 <= code && code < 300 {
        ProviderStatus::Success
    } else if code == 404 {
        ProviderStatus::NotFound
    } else {
        ProviderStatus::Failed
    }
}

/// The content type assumed where a provider declares none.
pub open spec fn fallback_content_type() -> Seq<char> {
    "image/png"@
}

/// The content type of a response: the declared one, or the fallback.
pub open spec fn effective_content_type(declared: Option<Seq<char>>) -> Seq<char> {
    match declared {
        Some(t) => t,
        None => fallback_content_type(),
    }
}

/// One answer of a provider: outcome, payload and content type.
#[derive(Debug, PartialEq, Eq)]
pub struct ProviderResponse {
    pub status: ProviderStatus,
    pub body: Vec<u8>,
    pub content_type: String,
}

pub ghost struct ProviderResponseView {
    pub status: ProviderStatus,
    pub body: Seq<u8>,
    pub content_type: Seq<char>,
}

impl View for ProviderResponse {
    type V = ProviderResponseView;

    open spec fn view(&self) -> ProviderResponseView {
        ProviderResponseView {
            status: self.status,
            body: self.body@,
            content_type: self.content_type@,
        }
    }
}

impl ProviderResponse {
    /// The response for an HTTP answer with the given status code, declared
    /// content type and payload.
    pub fn from_http(code: u16, declared: Option<String>, body: Vec<u8>) -> (r: ProviderResponse)
        ensures
            r@ == (ProviderResponseView {
                status: status_class(code),
                body: body@,
                content_type: effective_content_type(
                    match declared {
                        Some(t) => Some(t@),
                        None => None,
                    },
                ),
            }),
    {
        let content_type = match declared {
            Some(t) => t,
            None => "image/png".to_owned(),
        };
        ProviderResponse { status: classify_status(code), body, content_type }
    }

    /// The response that stands for a call that got no usable answer: the
    /// provider was unreachable, or its payload could not be read.
    pub fn failed() -> (r: ProviderResponse)
        ensures
            r@ == (ProviderResponseView {
                status: ProviderStatus::Failed,
                body: Seq::<u8>::empty(),
                content_type: Seq::<char>::empty(),
            }),
    {
        ProviderResponse { status: ProviderStatus::Failed, body: Vec::new(), content_type: String::new() }
    }
}

/// The image that is handed back to the caller.
#[derive(Debug, PartialEq, Eq)]
pub struct RenderedImage {
    pub body: Vec<u8>,
    pub content_type: String,
}

pub ghost struct RenderedImageView {
    pub body: Seq<u8>,
    pub content_type: Seq<char>,
}

impl View for RenderedImage {
    type V = RenderedImageView;

    open spec fn view(&self) -> RenderedImageView {
        RenderedImageView { body: self.body@, content_type: self.content_type@ }
    }
}

} // verus!
