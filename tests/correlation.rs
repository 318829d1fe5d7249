use bookapp::context::TraceContext;
use bookapp::correlation::{ErrorScope, SentryOtelCorrelationLayer, Severity};

fn active() -> TraceContext {
    TraceContext::new(0x4bf92f3577b34da6a3ce929d0e0e4736, 0x00f067aa0ba902b7, 1)
}

#[test]
fn test_new_layer_defaults_to_warn_level() {
    let layer = SentryOtelCorrelationLayer::new();
    assert_eq!(layer.min_level, Severity::Warn);
}

#[test]
fn test_with_level_sets_custom_level() {
    let layer = SentryOtelCorrelationLayer::with_level(Severity::Warn);
    assert_eq!(layer.min_level, Severity::Warn);
}

#[test]
fn test_default_implementation() {
    let layer = SentryOtelCorrelationLayer::default();
    assert_eq!(layer.min_level, Severity::Warn);
}

#[test]
fn qualifying_event_tags_scope_with_trace_and_span() {
    let layer = SentryOtelCorrelationLayer::new();
    let mut scope = ErrorScope::new();
    layer.on_event(Severity::Error, Some(active()), &mut scope);
    assert_eq!(
        scope.get_tag("otel.trace_id").as_deref(),
        Some("4bf92f3577b34da6a3ce929d0e0e4736")
    );
    assert_eq!(scope.get_tag("otel.span_id").as_deref(), Some("00f067aa0ba902b7"));
}

#[test]
fn warning_is_correlated_by_default() {
    let layer = SentryOtelCorrelationLayer::new();
    let mut scope = ErrorScope::new();
    layer.on_event(Severity::Warn, Some(active()), &mut scope);
    assert_eq!(scope.get_tag("otel.span_id").as_deref(), Some("00f067aa0ba902b7"));
}

#[test]
fn event_below_threshold_leaves_scope_unchanged() {
    let layer = SentryOtelCorrelationLayer::new();
    let mut scope = ErrorScope::new();
    scope.set_tag("service", "bookapp".to_string());
    layer.on_event(Severity::Info, Some(active()), &mut scope);
    layer.on_event(Severity::Debug, Some(active()), &mut scope);
    layer.on_event(Severity::Trace, Some(active()), &mut scope);
    assert_eq!(scope.tags().len(), 1);
    assert_eq!(scope.get_tag("otel.trace_id"), None);
}

#[test]
fn custom_level_error_skips_warnings() {
    let layer = SentryOtelCorrelationLayer::with_level(Severity::Error);
    let mut scope = ErrorScope::new();
    layer.on_event(Severity::Warn, Some(active()), &mut scope);
    assert_eq!(scope.get_tag("otel.trace_id"), None);
    layer.on_event(Severity::Error, Some(active()), &mut scope);
    assert!(scope.get_tag("otel.trace_id").is_some());
}

#[test]
fn event_outside_any_span_leaves_scope_unchanged() {
    let layer = SentryOtelCorrelationLayer::new();
    let mut scope = ErrorScope::new();
    layer.on_event(Severity::Error, None, &mut scope);
    assert!(scope.tags().is_empty());
}

#[test]
fn invalid_active_context_is_not_tagged() {
    let layer = SentryOtelCorrelationLayer::new();
    let mut scope = ErrorScope::new();
    layer.on_event(Severity::Error, Some(TraceContext::invalid()), &mut scope);
    assert!(scope.tags().is_empty());
}

#[test]
fn later_event_replaces_earlier_tags() {
    let layer = SentryOtelCorrelationLayer::new();
    let mut scope = ErrorScope::new();
    layer.on_event(Severity::Error, Some(active()), &mut scope);
    layer.on_event(Severity::Error, Some(TraceContext::new(1, 2, 0)), &mut scope);
    assert_eq!(
        scope.get_tag("otel.trace_id").as_deref(),
        Some("00000000000000000000000000000001")
    );
    assert_eq!(scope.get_tag("otel.span_id").as_deref(), Some("0000000000000002"));
}

#[test]
fn severity_order() {
    assert!(Severity::Error.at_least(Severity::Warn));
    assert!(Severity::Warn.at_least(Severity::Warn));
    assert!(!Severity::Info.at_least(Severity::Warn));
    assert!(SentryOtelCorrelationLayer::new().qualifies(Severity::Error));
    assert!(!SentryOtelCorrelationLayer::new().qualifies(Severity::Debug));
}
