use bookapp::carrier::{CarrierError, HeaderExtractor, RequestCarrier, VecInjector};
use bookapp::context::{format_traceparent, parse_traceparent_value, TraceContext};
use bookapp::propagation::Propagator;

const HEADER: &str = "00-4bf92f3577b34da6a3ce929d0e0e4736-00f067aa0ba902b7-01";

fn sample() -> TraceContext {
    TraceContext::new(0x4bf92f3577b34da6a3ce929d0e0e4736, 0x00f067aa0ba902b7, 1)
}

fn received(pairs: &[(&str, &str)]) -> HeaderExtractor {
    HeaderExtractor::new(Some(
        pairs.iter().map(|(k, v)| (k.to_string(), Some(v.to_string()))).collect(),
    ))
}

#[test]
fn formats_w3c_traceparent() {
    assert_eq!(format_traceparent(&sample()), HEADER);
    assert_eq!(
        format_traceparent(&TraceContext::new(1, 2, 0)),
        "00-00000000000000000000000000000001-0000000000000002-00"
    );
}

#[test]
fn parses_w3c_traceparent() {
    assert_eq!(parse_traceparent_value(HEADER), sample());
}

#[test]
fn hex_renderings() {
    assert_eq!(sample().trace_id_hex(), "4bf92f3577b34da6a3ce929d0e0e4736");
    assert_eq!(sample().span_id_hex(), "00f067aa0ba902b7");
    let max = TraceContext::new(u128::MAX, u64::MAX, 255);
    assert_eq!(max.trace_id_hex(), "ffffffffffffffffffffffffffffffff");
    assert_eq!(max.span_id_hex(), "ffffffffffffffff");
    assert_eq!(parse_traceparent_value(&format_traceparent(&max)), max);
}

#[test]
fn malformed_values_give_invalid_context() {
    let bad = [
        "",
        "00",
        "00-4bf92f3577b34da6a3ce929d0e0e4736-00f067aa0ba902b7",
        "00-4bf92f3577b34da6a3ce929d0e0e4736-00f067aa0ba902b7-",
        "00-4bf92f3577b34da6a3ce929d0e0e4736-00f067aa0ba902b7-01-",
        "00-4bf92f3577b34da6a3ce929d0e0e4736-00f067aa0ba902b7-01-ab",
        "00-4bf92f3577b34da6a3ce929d0e0e473-00f067aa0ba902b7-01",
        "00-4bf92f3577b34da6a3ce929d0e0e47366-00f067aa0ba902b7-01",
        "00-ab-cd-01",
        "00-4bf92f3577b34da6a3ce929d0e0e4736-00f067aa0ba902b-01",
        "00-4bf92f3577b34da6a3ce929d0e0e4736-00f067aa0ba902b7-1",
        "qw-4bf92f3577b34da6a3ce929d0e0e4736-00f067aa0ba902b7-01",
        "00-4bf92f3577b34da6a3ce929d0e0e47zz-00f067aa0ba902b7-01",
        "00-4BF92F3577B34DA6A3CE929D0E0E4736-00f067aa0ba902b7-01",
        "00-4bf92f3577b34da6a3ce929d0e0e4736-00f067aa0ba902b7-0g",
        "00_4bf92f3577b34da6a3ce929d0e0e4736_00f067aa0ba902b7_01",
        "00-00000000000000000000000000000000-00f067aa0ba902b7-01",
        "00-4bf92f3577b34da6a3ce929d0e0e4736-0000000000000000-01",
        " 00-4bf92f3577b34da6a3ce929d0e0e4736-00f067aa0ba902b7-01",
    ];
    for b in bad {
        let c = parse_traceparent_value(b);
        assert_eq!(c, TraceContext::invalid(), "{b}");
        assert!(!c.is_valid());
    }
}

#[test]
fn message_round_trip() {
    let p = Propagator::w3c();
    for ctx in [sample(), TraceContext::new(7, 9, 0), TraceContext::new(u128::MAX, 1, 1)] {
        let mut injector = VecInjector::new();
        p.inject(&ctx, &mut injector);
        let extractor = HeaderExtractor::from_pairs(injector.into_owned_headers());
        assert_eq!(p.extract(&extractor), ctx);
    }
}

#[test]
fn request_round_trip_replaces_stale_header() {
    let p = Propagator::w3c();
    let mut carrier = RequestCarrier::new();
    carrier.set("Accept", "application/json".to_string()).unwrap();
    carrier.set("TraceParent", "00-ffffffffffffffffffffffffffffffff-ffffffffffffffff-00".to_string()).unwrap();
    p.inject_request(&sample(), &mut carrier);
    assert_eq!(carrier.headers().len(), 2);
    assert_eq!(carrier.headers()[1], ("traceparent".to_string(), HEADER.to_string()));
    let extractor = HeaderExtractor::from_pairs(carrier.headers().clone());
    assert_eq!(p.extract(&extractor), sample());
}

#[test]
fn invalid_context_injects_nothing() {
    let p = Propagator::w3c();
    let mut injector = VecInjector::new();
    p.inject(&TraceContext::invalid(), &mut injector);
    assert!(injector.headers().is_empty());
    let mut carrier = RequestCarrier::new();
    p.inject_request(&TraceContext::invalid(), &mut carrier);
    assert!(carrier.headers().is_empty());
    let extractor = HeaderExtractor::from_pairs(injector.into_owned_headers());
    assert!(!p.extract(&extractor).is_valid());
}

#[test]
fn extractor_ignores_key_case() {
    let hs = received(&[("Traceparent", HEADER)]);
    assert_eq!(hs.get("traceparent").as_deref(), Some(HEADER));
    assert_eq!(hs.get("TRACEPARENT").as_deref(), Some(HEADER));
    assert_eq!(hs.get("Traceparent"), hs.get("traceparent"));
    assert_eq!(Propagator::w3c().extract(&hs), sample());
}

#[test]
fn extractor_returns_first_readable_match() {
    let hs = HeaderExtractor::new(Some(vec![
        ("traceparent".to_string(), None),
        ("other".to_string(), Some("x".to_string())),
        ("TRACEPARENT".to_string(), Some("first".to_string())),
        ("traceparent".to_string(), Some("second".to_string())),
    ]));
    assert_eq!(hs.get("traceparent").as_deref(), Some("first"));
    assert_eq!(hs.get("missing"), None);
    assert_eq!(hs.keys(), vec!["traceparent", "other", "TRACEPARENT", "traceparent"]);
}

#[test]
fn absent_headers_give_empty_results() {
    let hs = HeaderExtractor::new(None);
    assert_eq!(hs.get("traceparent"), None);
    assert!(hs.keys().is_empty());
    assert_eq!(Propagator::w3c().extract(&hs), TraceContext::invalid());
    let empty = HeaderExtractor::new(Some(Vec::new()));
    assert!(empty.keys().is_empty());
    assert_eq!(Propagator::w3c().extract(&empty), TraceContext::invalid());
}

#[test]
fn malformed_header_extracts_invalid() {
    let hs = received(&[("traceparent", "00-xyz-01")]);
    assert_eq!(Propagator::w3c().extract(&hs), TraceContext::invalid());
}

#[test]
fn vec_injector_keeps_order() {
    let mut inj = VecInjector::new();
    inj.set("a", "1".to_string());
    inj.set("b", "2".to_string());
    inj.set("a", "3".to_string());
    assert_eq!(
        inj.into_owned_headers(),
        vec![
            ("a".to_string(), "1".to_string()),
            ("b".to_string(), "2".to_string()),
            ("a".to_string(), "3".to_string())
        ]
    );
}

#[test]
fn request_carrier_rejects_illegal_text() {
    let mut c = RequestCarrier::new();
    assert_eq!(c.set("", "v".to_string()), Err(CarrierError::InvalidHeaderName));
    assert_eq!(c.set("bad name", "v".to_string()), Err(CarrierError::InvalidHeaderName));
    assert_eq!(c.set("bad:name", "v".to_string()), Err(CarrierError::InvalidHeaderName));
    assert_eq!(c.set("good", "line\nbreak".to_string()), Err(CarrierError::InvalidHeaderValue));
    assert_eq!(c.set("good", "caf\u{e9}".to_string()), Err(CarrierError::InvalidHeaderValue));
    assert!(c.headers().is_empty());
    assert_eq!(c.set("x-ok_1.2", "tab\tand space ~".to_string()), Ok(()));
    assert_eq!(c.headers().len(), 1);
}

#[test]
fn request_carrier_overwrites_ignoring_case() {
    let mut c = RequestCarrier::new();
    c.set("X-Id", "1".to_string()).unwrap();
    c.set("other", "o".to_string()).unwrap();
    c.set("x-id", "2".to_string()).unwrap();
    assert_eq!(
        c.headers().clone(),
        vec![("other".to_string(), "o".to_string()), ("x-id".to_string(), "2".to_string())]
    );
}

#[test]
fn propagator_fields() {
    assert_eq!(Propagator::w3c().fields(), vec!["traceparent".to_string()]);
}
