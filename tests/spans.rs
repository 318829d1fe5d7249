use bookapp::carrier::{HeaderExtractor, RequestCarrier};
use bookapp::context::{parse_traceparent_value, TraceContext};
use bookapp::ingestion::{begin_consumption, finish_consumption, prepare_ingestion_message, BookIngestionMessage};
use bookapp::propagation::Propagator;
use bookapp::span::{kind_for, relation_for, OperationKind, Relation, Span, SpanIds, SpanKind, SpanStatus};

fn ids(trace_id: u128, span_id: u64) -> SpanIds {
    SpanIds { trace_id, span_id, trace_flags: 1 }
}

#[test]
fn policy_table() {
    assert_eq!(relation_for(OperationKind::InboundRequest), Relation::Child);
    assert_eq!(relation_for(OperationKind::OutboundCall), Relation::Child);
    assert_eq!(relation_for(OperationKind::MessageProduce), Relation::Child);
    assert_eq!(relation_for(OperationKind::MessageConsume), Relation::Linked);
    assert_eq!(kind_for(OperationKind::InboundRequest), SpanKind::Server);
    assert_eq!(kind_for(OperationKind::OutboundCall), SpanKind::Client);
    assert_eq!(kind_for(OperationKind::MessageProduce), SpanKind::Producer);
    assert_eq!(kind_for(OperationKind::MessageConsume), SpanKind::Consumer);
}

#[test]
fn consumer_span_links_to_producer_context() {
    let p = TraceContext::new(0xabc, 0xdef, 1);
    let span = Span::start(OperationKind::MessageConsume, "consume".to_string(), p, ids(0x123, 0x456));
    assert_eq!(span.parent(), None);
    assert_ne!(span.parent(), Some(p));
    assert_eq!(span.links().clone(), vec![p]);
    assert_eq!(span.context(), TraceContext::new(0x123, 0x456, 1));
    assert_eq!(span.kind(), SpanKind::Consumer);
}

#[test]
fn synchronous_span_is_child() {
    let p = TraceContext::new(0xabc, 0xdef, 0);
    let span = Span::start(OperationKind::InboundRequest, "GET /books".to_string(), p, ids(0x123, 0x456));
    assert_eq!(span.parent(), Some(p));
    assert!(span.links().is_empty());
    assert_eq!(span.context(), TraceContext::new(0xabc, 0x456, 0));
    assert_eq!(span.name(), "GET /books");
}

#[test]
fn no_valid_context_gives_plain_root() {
    for op in [OperationKind::InboundRequest, OperationKind::MessageConsume] {
        let span = Span::start(op, "root".to_string(), TraceContext::invalid(), ids(5, 6));
        assert_eq!(span.parent(), None);
        assert!(span.links().is_empty());
        assert_eq!(span.context(), TraceContext::new(5, 6, 1));
    }
}

#[test]
fn ended_span_is_never_reopened() {
    let mut span = Span::start(OperationKind::OutboundCall, "call".to_string(), TraceContext::invalid(), ids(1, 2));
    span.set_attribute("k".to_string(), "v".to_string());
    span.add_link(TraceContext::new(3, 4, 0));
    span.add_link(TraceContext::invalid());
    assert_eq!(span.links().len(), 1);
    span.end(SpanStatus::Error);
    assert!(span.is_ended());
    span.end(SpanStatus::Success);
    span.set_attribute("late".to_string(), "x".to_string());
    span.add_link(TraceContext::new(7, 8, 0));
    assert_eq!(span.status(), SpanStatus::Error);
    assert_eq!(span.attributes().len(), 1);
    assert_eq!(span.links().len(), 1);
}

#[test]
fn end_with_outcome_sets_status() {
    let mut ok = Span::start(OperationKind::OutboundCall, "a".to_string(), TraceContext::invalid(), ids(1, 2));
    ok.end_with_outcome(true);
    assert_eq!(ok.status(), SpanStatus::Success);
    let mut bad = Span::start(OperationKind::OutboundCall, "b".to_string(), TraceContext::invalid(), ids(1, 2));
    bad.end_with_outcome(false);
    assert_eq!(bad.status(), SpanStatus::Error);
    assert!(bad.is_ended());
}

#[test]
fn scenario_inbound_request_then_downstream_call() {
    let p = Propagator::w3c();
    let inbound = HeaderExtractor::new(Some(vec![(
        "traceparent".to_string(),
        Some("00-4bf92f3577b34da6a3ce929d0e0e4736-00f067aa0ba902b7-01".to_string()),
    )]));
    let upstream = p.extract(&inbound);
    let server = Span::start(OperationKind::InboundRequest, "GET /books".to_string(), upstream, ids(0x99, 0x1111));
    let client = Span::start(OperationKind::OutboundCall, "GET /books/{id}".to_string(), server.context(), ids(0x98, 0x2222));
    let mut outgoing = RequestCarrier::new();
    p.inject_request(&client.context(), &mut outgoing);
    let (name, value) = &outgoing.headers()[0];
    assert_eq!(name, "traceparent");
    let sent = parse_traceparent_value(value);
    assert_eq!(sent.trace_id_hex(), "4bf92f3577b34da6a3ce929d0e0e4736");
    assert_ne!(sent.span_id_hex(), "00f067aa0ba902b7");
    assert_eq!(value, "00-4bf92f3577b34da6a3ce929d0e0e4736-0000000000002222-01");
}

#[test]
fn scenario_message_consumer_starts_linked_root() {
    let p = Propagator::w3c();
    let producer_ctx = TraceContext::new(0x4bf92f3577b34da6a3ce929d0e0e4736, 0x00f067aa0ba902b7, 1);
    let producer = Span::start(OperationKind::MessageProduce, "queue".to_string(), producer_ctx, ids(0x1, 0x3333));
    let message = prepare_ingestion_message(&p, &producer.context(), &BookIngestionMessage { book_id: 42 });
    assert_eq!(message.topic, "book_ingestion");
    assert_eq!(message.key, "key-42");
    let received = HeaderExtractor::from_pairs(message.headers);
    let mut consumer = begin_consumption(&p, &received, ids(0x5555, 0x6666));
    assert_eq!(consumer.name(), "book_ingestion");
    assert_ne!(consumer.context().trace_id, producer_ctx.trace_id);
    assert_eq!(consumer.links().len(), 1);
    assert_eq!(consumer.links()[0].trace_id, producer_ctx.trace_id);
    assert_eq!(consumer.links()[0], producer.context());
    assert_eq!(consumer.parent(), None);
    assert_eq!(finish_consumption(&mut consumer, Some(BookIngestionMessage { book_id: 42 })), Some(42));
    assert_eq!(consumer.status(), SpanStatus::Success);
}

#[test]
fn undecodable_payload_ends_span_with_error() {
    let p = Propagator::w3c();
    let mut consumer = begin_consumption(&p, &HeaderExtractor::new(None), ids(0x5, 0x6));
    assert!(consumer.links().is_empty());
    assert_eq!(finish_consumption(&mut consumer, None), None);
    assert!(consumer.is_ended());
    assert_eq!(consumer.status(), SpanStatus::Error);
}

#[test]
fn record_keys() {
    assert_eq!(BookIngestionMessage { book_id: 0 }.record_key(), "key-0");
    assert_eq!(BookIngestionMessage { book_id: 1234567 }.record_key(), "key-1234567");
    assert_eq!(BookIngestionMessage { book_id: -7 }.record_key(), "key--7");
    assert_eq!(BookIngestionMessage { book_id: i32::MIN }.record_key(), "key--2147483648");
    assert_eq!(BookIngestionMessage { book_id: i32::MAX }.record_key(), "key-2147483647");
}

#[test]
fn message_without_context_has_no_headers() {
    let m = prepare_ingestion_message(&Propagator::w3c(), &TraceContext::invalid(), &BookIngestionMessage { book_id: 1 });
    assert!(m.headers.is_empty());
}
