use avatar_gateway::gateway::{begin, reply, Reply};
use avatar_gateway::provider::ProviderResponse;
use avatar_gateway::raster::{blank_surface, encode, Document, RasterError};
use avatar_gateway::resolver::{finish_raster, Request, Step};
use avatar_gateway::size::TargetSize;
use avatar_gateway::style::{BoringVariant, GravatarStyle};
use resvg::tiny_skia::{Pixmap, Transform};

const PATTERN: &[u8] = b"<svg xmlns='http://www.w3.org/2000/svg' width='128' height='128'>\
<rect width='128' height='128' fill='#336699'/></svg>";

fn svg_to_png(svg: &[u8], size: TargetSize) -> Result<Vec<u8>, RasterError> {
    let options = resvg::usvg::Options::default();
    let document = Document::from_parsed(resvg::usvg::Tree::from_data_nested(svg, &options))?;
    let mut surface = blank_surface(size)?;
    let dimensions = document.dimensions();
    let scale = (size.get() as f32 / dimensions.width()).min(size.get() as f32 / dimensions.height());
    resvg::render(document.as_tree(), Transform::from_scale(scale, scale), &mut surface.as_mut());
    encode(&surface)
}

/// Handles one request against providers that answer with `answers` in
/// order. Returns the provider calls that were made and the reply.
fn handle(
    hash: &str,
    d: Option<&str>,
    s: Option<&str>,
    answers: Vec<ProviderResponse>,
) -> (Vec<Request>, Reply) {
    let mut calls = Vec::new();
    let (mut resolver, mut request) = match begin(hash, d, s) {
        Ok(first) => first,
        Err(rejection) => return (calls, rejection),
    };
    let mut answers = answers.into_iter();
    let outcome = loop {
        calls.push(request);
        let answer = match answers.next() {
            Some(a) => a,
            None => panic!("a call was made that no answer was prepared for"),
        };
        match resolver.on_response(answer) {
            Step::Call(next, call) => {
                resolver = next;
                request = call;
            }
            Step::Rasterize { svg, size } => break finish_raster(svg_to_png(&svg, size)),
            Step::Done(outcome) => break outcome,
        }
    };
    (calls, reply(outcome))
}

fn decoded(reply: &Reply) -> Pixmap {
    match Pixmap::decode_png(&reply.body) {
        Ok(pixmap) => pixmap,
        Err(e) => panic!("the body is no PNG: {}", e),
    }
}

#[test]
fn identicon_request_is_one_direct_call_relayed_as_it_is() {
    let (calls, reply) = handle(
        "abc",
        Some("identicon"),
        Some("80"),
        vec![ProviderResponse::from_http(200, Some("image/jpeg".to_string()), vec![0xff, 0xd8, 0xff])],
    );
    assert_eq!(
        calls,
        vec![Request::Direct { hash: "abc".to_string(), style: GravatarStyle::Identicon, size: 80 }]
    );
    assert_eq!(
        reply,
        Reply { status: 200, content_type: Some("image/jpeg".to_string()), body: vec![0xff, 0xd8, 0xff] }
    );
}

#[test]
fn marble_request_without_identity_is_generated_at_128_and_rendered_at_40() {
    let (calls, reply) = handle(
        "abc",
        Some("marble"),
        Some("40"),
        vec![
            ProviderResponse::from_http(404, None, vec![]),
            ProviderResponse::from_http(200, Some("image/svg+xml".to_string()), PATTERN.to_vec()),
        ],
    );
    assert_eq!(
        calls,
        vec![
            Request::Direct { hash: "abc".to_string(), style: GravatarStyle::NotFound, size: 40 },
            Request::Generated { hash: "abc".to_string(), variant: BoringVariant::Marble, size: 128 },
        ]
    );
    assert_eq!(reply.status, 200);
    assert_eq!(reply.content_type, Some("image/png".to_string()));
    let image = decoded(&reply);
    assert_eq!((image.width(), image.height()), (40, 40));
}

#[test]
fn bogus_style_is_a_400_without_any_call() {
    let (calls, reply) = handle("abc", Some("bogus"), None, vec![]);
    assert!(calls.is_empty());
    assert_eq!(reply.status, 400);
    assert_eq!(reply.body, b"Unknown style: bogus".to_vec());
}

#[test]
fn marble_request_with_identity_relays_the_identity_image() {
    let (calls, reply) = handle(
        "abc",
        Some("marble"),
        Some("40"),
        vec![ProviderResponse::from_http(200, None, vec![1, 2, 3])],
    );
    assert_eq!(calls.len(), 1);
    assert_eq!(reply, Reply { status: 200, content_type: Some("image/png".to_string()), body: vec![1, 2, 3] });
}

#[test]
fn an_unreachable_provider_is_a_502() {
    let (calls, reply) = handle("abc", Some("beam"), None, vec![ProviderResponse::failed()]);
    assert_eq!(calls.len(), 1);
    assert_eq!(reply, Reply { status: 502, content_type: None, body: vec![] });
}

#[test]
fn a_generated_payload_that_is_no_vector_document_is_a_500() {
    let (calls, reply) = handle(
        "abc",
        Some("ring"),
        Some("64"),
        vec![
            ProviderResponse::from_http(404, None, vec![]),
            ProviderResponse::from_http(200, None, b"not a document".to_vec()),
        ],
    );
    assert_eq!(calls.len(), 2);
    assert_eq!(reply, Reply { status: 500, content_type: None, body: vec![] });
}

#[test]
fn a_zero_size_generated_request_is_a_500() {
    let (calls, reply) = handle(
        "abc",
        Some("pixel"),
        Some("0"),
        vec![
            ProviderResponse::from_http(404, None, vec![]),
            ProviderResponse::from_http(200, None, PATTERN.to_vec()),
        ],
    );
    assert_eq!(
        calls[1],
        Request::Generated { hash: "abc".to_string(), variant: BoringVariant::Pixel, size: 128 }
    );
    assert_eq!(reply, Reply { status: 500, content_type: None, body: vec![] });
}

#[test]
fn an_oversize_generated_request_is_rendered_at_the_limit() {
    let answers = || {
        vec![
            ProviderResponse::from_http(404, None, vec![]),
            ProviderResponse::from_http(200, None, PATTERN.to_vec()),
        ]
    };
    let (big_calls, big) = handle("abc", Some("sunset"), Some("9999"), answers());
    let (max_calls, max) = handle("abc", Some("sunset"), Some("512"), answers());
    assert_eq!(big_calls, max_calls);
    assert_eq!(big, max);
    let image = decoded(&big);
    assert_eq!((image.width(), image.height()), (512, 512));
}
