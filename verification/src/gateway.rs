//! The front of the gateway: from the raw query parameters of a request to
//! the first provider call, and from the end of a resolution to the reply.

use vstd::prelude::*;
use vstd::string::{StrSliceExecFns, StringExecFns, StringSliceAdditionalSpecFns};
use vstd::utf8::encode_utf8;
use crate::provider::RenderedImage;
use crate::resolver::{first_step, outcome_view, Request, ResolveError, Resolver};
use crate::size::{requested, requested_size, TargetSize};
use crate::style::{classify, ClassificationError, Style};

verus! {

/// The style token of a request that names none.
pub open spec fn default_token() -> Seq<char> {
    "identicon"@
}

/// The style token for a raw `d` parameter.
pub open spec fn requested_token(raw: Option<Seq<char>>) -> Seq<char> {
    match raw {
        Some(token) => token,
        None => default_token(),
    }
}

/// The text of an optional string slice.
pub open spec fn text_of(raw: Option<&str>) -> Option<Seq<char>> {
    match raw {
        Some(text) => Some(text@),
        None => None,
    }
}

/// The style and size that a request asks for, before classification.
#[derive(Debug, PartialEq, Eq)]
pub struct StyleRequest {
    pub token: String,
    pub size: TargetSize,
}

impl StyleRequest {
    /// Reads the raw `d` and `s` query parameters: an absent `d` is the
    /// default token; an absent or non-numeric `s` is the default size, and
    /// a size above the limit is clamped to it.
    pub fn from_query(d: Option<&str>, s: Option<&str>) -> (request: StyleRequest)
        ensures
            request.token@ == requested_token(text_of(d)),
            request.size@ == requested(text_of(s)),
    {
        let token = match d {
            Some(token) => token.to_owned(),
            None => "identicon".to_owned(),
        };
        StyleRequest { token, size: requested_size(s) }
    }
}

/// What is sent back to the client.
#[derive(Debug, PartialEq, Eq)]
pub struct Reply {
    pub status: u16,
    pub content_type: Option<String>,
    pub body: Vec<u8>,
}

pub ghost struct ReplyView {
    pub status: u16,
    pub content_type: Option<Seq<char>>,
    pub body: Seq<u8>,
}

impl View for Reply {
    type V = ReplyView;

    open spec fn view(&self) -> ReplyView {
        ReplyView {
            status: self.status,
            content_type: match self.content_type {
                Some(t) => Some(t@),
                None => None,
            },
            body: self.body@,
        }
    }
}

/// The status code that reports a failed resolution: bad gateway for an
/// upstream failure, internal error for a failed conversion.
pub open spec fn error_status(e: ResolveError) -> u16 {
    match e {
        ResolveError::UpstreamError => 502,
        ResolveError::ConversionError(_) => 500,
    }
}

/// The reply that ends a resolution: the image in full with its content
/// type, or an error status with neither body nor content type.
pub open spec fn resolved_reply(outcome: Result<crate::provider::RenderedImageView, ResolveError>) -> ReplyView {
    match outcome {
        Ok(image) => ReplyView {
            status: 200,
            content_type: Some(image.content_type),
            body: image.body,
        },
        Err(e) => ReplyView { status: error_status(e), content_type: None, body: Seq::empty() },
    }
}

/// The reply to a request whose style token is unknown: a plain-text
/// message that names the token.
pub open spec fn unknown_style_reply(token: Seq<char>) -> ReplyView {
    ReplyView {
        status: 400,
        content_type: Some("text/plain; charset=utf-8"@),
        body: encode_utf8("Unknown style: "@ + token),
    }
}

pub fn reply(outcome: Result<RenderedImage, ResolveError>) -> (r: Reply)
    ensures
        r@ == resolved_reply(outcome_view(outcome)),
{
    match outcome {
        Ok(image) => Reply { status: 200, content_type: Some(image.content_type), body: image.body },
        Err(ResolveError::UpstreamError) => Reply {
            status: 502,
            content_type: None,
            body: Vec::new(),
        },
        Err(ResolveError::ConversionError(_)) => Reply {
            status: 500,
            content_type: None,
            body: Vec::new(),
        },
    }
}

pub fn reply_unknown_style(error: &ClassificationError) -> (r: Reply)
    ensures
        r@ == unknown_style_reply(error.token()),
{
    let mut message = "Unknown style: ".to_owned();
    match error {
        ClassificationError::UnknownStyle(token) => {
            message.append(token.as_str());
        },
    }
    Reply {
        status: 400,
        content_type: Some("text/plain; charset=utf-8".to_owned()),
        body: message.as_str().as_bytes_vec(),
    }
}

/// Opens the handling of a request: its first provider call, or, for an
/// unknown style token, the reply that rejects it before any call is made.
pub fn begin(hash: &str, d: Option<&str>, s: Option<&str>) -> (r: Result<(Resolver, Request), Reply>)
    ensures
        match Style::parse(requested_token(text_of(d))) {
            Some(style) => match r {
                Ok((resolver, request)) => (resolver@, request@) == first_step(
                    hash@,
                    style,
                    requested(text_of(s)),
                ),
                Err(_) => false,
            },
            None => match r {
                Ok(_) => false,
                Err(rejection) => rejection@ == unknown_style_reply(requested_token(text_of(d))),
            },
        },
{
    let request = StyleRequest::from_query(d, s);
    match classify(request.token.as_str()) {
        Ok(style) => Ok(Resolver::start(hash, style, request.size)),
        Err(error) => Err(reply_unknown_style(&error)),
    }
}

} // verus!
