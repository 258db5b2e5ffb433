use avatar_gateway::provider::{ProviderResponse, ProviderStatus, RenderedImage};
use avatar_gateway::raster::RasterError;
use avatar_gateway::resolver::{
    finish_raster, relay, Pending, Request, ResolveError, Resolver, Step, GENERATED_FLOOR,
};
use avatar_gateway::size::TargetSize;
use avatar_gateway::style::{BoringVariant, GravatarStyle, Style};

/// Runs a resolution against providers that answer with `answers` in order.
/// Returns the calls that were made and the step that ended them.
fn drive(hash: &str, style: Style, size: u32, answers: Vec<ProviderResponse>) -> (Vec<Request>, Step) {
    let (mut resolver, mut request) = Resolver::start(hash, style, TargetSize::clamped(size));
    let mut calls = Vec::new();
    let mut answers = answers.into_iter();
    loop {
        calls.push(request);
        let answer = match answers.next() {
            Some(a) => a,
            None => panic!("a call was made that no answer was prepared for"),
        };
        match resolver.on_response(answer) {
            Step::Call(next, call) => {
                resolver = next;
                request = call;
            }
            end => {
                assert!(answers.next().is_none(), "an answer was prepared that was never asked for");
                return (calls, end);
            }
        }
    }
}

fn ok(content_type: &str, body: &[u8]) -> ProviderResponse {
    ProviderResponse::from_http(200, Some(content_type.to_string()), body.to_vec())
}

fn status(code: u16) -> ProviderResponse {
    ProviderResponse::from_http(code, None, b"ignored".to_vec())
}

fn direct(hash: &str, style: GravatarStyle, size: u32) -> Request {
    Request::Direct { hash: hash.to_string(), style, size }
}

fn generated(hash: &str, variant: BoringVariant, size: u32) -> Request {
    Request::Generated { hash: hash.to_string(), variant, size }
}

fn image(content_type: &str, body: &[u8]) -> RenderedImage {
    RenderedImage { body: body.to_vec(), content_type: content_type.to_string() }
}

#[test]
fn the_floor_is_128() {
    assert_eq!(GENERATED_FLOOR, 128);
}

#[test]
fn scenario_direct_identicon_80_makes_one_call_and_relays() {
    let (calls, end) = drive(
        "abc",
        Style::Gravatar(GravatarStyle::Identicon),
        80,
        vec![ok("image/jpeg", b"\xff\xd8jpeg")],
    );
    assert_eq!(calls, vec![direct("abc", GravatarStyle::Identicon, 80)]);
    assert_eq!(end, Step::Done(Ok(image("image/jpeg", b"\xff\xd8jpeg"))));
}

#[test]
fn scenario_marble_40_without_identity_fetches_at_128_and_rasterizes_at_40() {
    let svg = b"<svg xmlns='http://www.w3.org/2000/svg' width='128' height='128'/>";
    let (calls, end) = drive(
        "abc",
        Style::Boring(BoringVariant::Marble),
        40,
        vec![status(404), ok("image/svg+xml", svg)],
    );
    assert_eq!(
        calls,
        vec![direct("abc", GravatarStyle::NotFound, 40), generated("abc", BoringVariant::Marble, 128)]
    );
    assert_eq!(end, Step::Rasterize { svg: svg.to_vec(), size: TargetSize::clamped(40) });
}

#[test]
fn every_direct_style_relays_a_success_unmodified() {
    for style in [
        GravatarStyle::NotFound,
        GravatarStyle::Mp,
        GravatarStyle::Identicon,
        GravatarStyle::Monsterid,
        GravatarStyle::Wavatar,
        GravatarStyle::Retro,
        GravatarStyle::Robohash,
        GravatarStyle::Blank,
    ] {
        let body: Vec<u8> = (0u8..=255).collect();
        let (calls, end) = drive("00ff", Style::Gravatar(style), 200, vec![ok("image/gif", &body)]);
        assert_eq!(calls, vec![direct("00ff", style, 200)]);
        assert_eq!(end, Step::Done(Ok(image("image/gif", &body))));
    }
}

#[test]
fn a_direct_style_relays_vector_payloads_without_rasterizing() {
    let svg = b"<svg xmlns='http://www.w3.org/2000/svg' width='1' height='1'/>";
    let (_, end) = drive("abc", Style::Gravatar(GravatarStyle::Retro), 80, vec![ok("image/svg+xml", svg)]);
    assert_eq!(end, Step::Done(Ok(image("image/svg+xml", svg))));
}

#[test]
fn a_direct_style_fails_upstream_on_any_other_answer() {
    for code in [404u16, 500, 503, 302, 400, 100] {
        let (calls, end) = drive("abc", Style::Gravatar(GravatarStyle::NotFound), 80, vec![status(code)]);
        assert_eq!(calls.len(), 1);
        assert_eq!(end, Step::Done(Err(ResolveError::UpstreamError)), "{}", code);
    }
    let (calls, end) =
        drive("abc", Style::Gravatar(GravatarStyle::Mp), 80, vec![ProviderResponse::failed()]);
    assert_eq!(calls.len(), 1);
    assert_eq!(end, Step::Done(Err(ResolveError::UpstreamError)));
}

#[test]
fn an_identity_image_wins_over_the_generated_pattern() {
    for variant in [
        BoringVariant::Marble,
        BoringVariant::Beam,
        BoringVariant::Pixel,
        BoringVariant::Sunset,
        BoringVariant::Ring,
        BoringVariant::Bauhaus,
    ] {
        let (calls, end) = drive("abc", Style::Boring(variant), 64, vec![ok("image/png", b"\x89PNG")]);
        assert_eq!(calls, vec![direct("abc", GravatarStyle::NotFound, 64)]);
        assert_eq!(end, Step::Done(Ok(image("image/png", b"\x89PNG"))));
    }
}

#[test]
fn a_failed_probe_ends_upstream_without_fallback() {
    for code in [500u16, 502, 403, 301, 429] {
        let (calls, end) = drive("abc", Style::Boring(BoringVariant::Beam), 64, vec![status(code)]);
        assert_eq!(calls, vec![direct("abc", GravatarStyle::NotFound, 64)]);
        assert_eq!(end, Step::Done(Err(ResolveError::UpstreamError)), "{}", code);
    }
    let (calls, end) =
        drive("abc", Style::Boring(BoringVariant::Beam), 64, vec![ProviderResponse::failed()]);
    assert_eq!(calls.len(), 1);
    assert_eq!(end, Step::Done(Err(ResolveError::UpstreamError)));
}

#[test]
fn the_generated_fetch_size_is_the_larger_of_request_and_floor() {
    for (requested, fetched) in
        [(0u32, 128u32), (1, 128), (40, 128), (127, 128), (128, 128), (129, 129), (300, 300), (512, 512), (9999, 512)]
    {
        let svg = b"<svg/>";
        let (calls, end) = drive(
            "h",
            Style::Boring(BoringVariant::Ring),
            requested,
            vec![status(404), ok("image/svg+xml", svg)],
        );
        assert_eq!(calls.len(), 2);
        assert_eq!(calls[1], generated("h", BoringVariant::Ring, fetched));
        assert_eq!(
            end,
            Step::Rasterize { svg: svg.to_vec(), size: TargetSize::clamped(requested) }
        );
    }
}

#[test]
fn the_generated_call_carries_the_requested_variant() {
    for variant in [
        BoringVariant::Marble,
        BoringVariant::Beam,
        BoringVariant::Pixel,
        BoringVariant::Sunset,
        BoringVariant::Ring,
        BoringVariant::Bauhaus,
    ] {
        let (calls, _) = drive("abc", Style::Boring(variant), 200, vec![status(404), status(500)]);
        assert_eq!(calls[1], generated("abc", variant, 200));
    }
}

#[test]
fn a_failed_generated_fetch_ends_upstream() {
    for code in [404u16, 500, 301] {
        let (calls, end) =
            drive("abc", Style::Boring(BoringVariant::Pixel), 80, vec![status(404), status(code)]);
        assert_eq!(calls.len(), 2);
        assert_eq!(end, Step::Done(Err(ResolveError::UpstreamError)), "{}", code);
    }
    let (_, end) = drive(
        "abc",
        Style::Boring(BoringVariant::Pixel),
        80,
        vec![status(404), ProviderResponse::failed()],
    );
    assert_eq!(end, Step::Done(Err(ResolveError::UpstreamError)));
}

#[test]
fn the_resolver_reports_what_it_waits_for() {
    let (r, _) = Resolver::start("abc", Style::Gravatar(GravatarStyle::Blank), TargetSize::clamped(33));
    assert_eq!(r.pending(), Pending::Direct);
    assert_eq!(r.hash(), "abc");
    assert_eq!(r.size().get(), 33);
    let (r, _) = Resolver::start("abc", Style::Boring(BoringVariant::Sunset), TargetSize::clamped(33));
    assert_eq!(r.pending(), Pending::Probe(BoringVariant::Sunset));
    match r.on_response(status(404)) {
        Step::Call(next, _) => {
            assert_eq!(next.pending(), Pending::Generated);
            assert_eq!(next.hash(), "abc");
            assert_eq!(next.size().get(), 33);
        }
        other => panic!("expected a call, got {:?}", other),
    }
}

#[test]
fn the_hash_is_passed_on_unchanged() {
    let hash = "  MixedCase/..%2F?\u{e9} ";
    let (calls, _) = drive(hash, Style::Boring(BoringVariant::Bauhaus), 80, vec![status(404), status(500)]);
    assert_eq!(calls[0], direct(hash, GravatarStyle::NotFound, 80));
    assert_eq!(calls[1], generated(hash, BoringVariant::Bauhaus, 128));
}

#[test]
fn relay_keeps_payload_and_type() {
    let r = ProviderResponse { status: ProviderStatus::Success, body: vec![1, 2], content_type: "a/b".to_string() };
    assert_eq!(relay(r), image("a/b", &[1, 2]));
}

#[test]
fn finish_raster_labels_the_bytes_as_png() {
    assert_eq!(finish_raster(Ok(vec![7, 8, 9])), Ok(image("image/png", &[7, 8, 9])));
}

#[test]
fn finish_raster_reports_a_conversion_error_with_its_cause() {
    for cause in [RasterError::ParseError, RasterError::SurfaceAllocationError, RasterError::EncodingError] {
        assert_eq!(finish_raster(Err(cause)), Err(ResolveError::ConversionError(cause)));
    }
}
