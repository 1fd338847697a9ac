use logging_engine::string_map::StringMap;
use logging_engine::trace::{
    ConsoleTraceReporter, Span, SpanId, SpanIdGenerator, TraceContext, TraceId, TraceReporter,
    TracingContext,
};

#[test]
fn test_trace_context() {
    let ctx = TraceContext::new();
    let child_ctx = ctx.child_span();

    assert_eq!(ctx.trace_id, child_ctx.trace_id);
    assert_ne!(ctx.span_id, child_ctx.span_id);
    assert_eq!(child_ctx.parent_span_id, Some(ctx.span_id));
}

#[test]
fn test_span_lifecycle() {
    let span = Span::new("test_operation".to_string())
        .set_tag("test_key".to_string(), "test_value".to_string())
        .log_event("test event".to_string())
        .finish();

    assert!(span.is_finished());
    assert!(span.duration_micros().is_some());
    assert_eq!(span.tags.get("test_key"), Some(&"test_value".to_string()));
    assert_eq!(span.logs.len(), 1);
}

#[test]
fn identifiers_in_hexadecimal() {
    assert_eq!(TraceId::from_u128(0).to_hex_string(), "0".repeat(32));
    assert_eq!(TraceId::from_u128(0xdead_beef).to_hex_string(), format!("{:032x}", 0xdead_beefu128));
    assert_eq!(TraceId::from_u128(u128::MAX).to_hex_string(), "f".repeat(32));
    assert_eq!(TraceId::from_u128(77).as_u128(), 77);
    assert_eq!(SpanId::from_u64(0x0123_4567_89ab_cdef).to_hex_string(), "0123456789abcdef");
    assert_eq!(SpanId::from_u64(255).to_hex_string(), "00000000000000ff");
    assert_eq!(SpanId::from_u64(9).as_u64(), 9);
    let now = TraceId::new();
    assert!(now.as_u128() > 1_600_000_000_000_000_000);
}

#[test]
fn baggage_travels_to_children() {
    let ctx = TraceContext::with_ids(TraceId::from_u128(1), SpanId::from_u64(2))
        .with_baggage_item("tenant".into(), "acme".into())
        .with_baggage_item("tenant".into(), "zenith".into())
        .with_baggage_item("region".into(), "eu".into());
    assert_eq!(ctx.get_baggage_item("tenant"), Some(&"zenith".to_string()));
    assert_eq!(ctx.get_baggage_item("region"), Some(&"eu".to_string()));
    assert_eq!(ctx.get_baggage_item("missing"), None);
    let child = ctx.child_with_id(SpanId::from_u64(3));
    assert_eq!(child.trace_id, TraceId::from_u128(1));
    assert_eq!(child.span_id, SpanId::from_u64(3));
    assert_eq!(child.parent_span_id, Some(SpanId::from_u64(2)));
    assert_eq!(child.get_baggage_item("tenant"), Some(&"zenith".to_string()));
    assert_eq!(child.baggage.len(), 2);
}

#[test]
fn span_times_and_logs() {
    let ctx = TraceContext::with_ids(TraceId::from_u128(0xa), SpanId::from_u64(0xb));
    let span = Span::started(ctx, "op".into(), 1_000);
    assert!(!span.is_finished());
    assert_eq!(span.duration_micros(), None);
    let mut fields = StringMap::new();
    fields.insert("k".to_string(), "v".to_string());
    let span = span
        .log_event_at("first".into(), 1_100)
        .log_fields_at(fields, 1_200)
        .finish_at(4_500);
    assert_eq!(span.duration_micros(), Some(3_500));
    assert_eq!(span.logs.len(), 2);
    assert_eq!(span.logs[0].timestamp, 1_100);
    assert_eq!(span.logs[0].fields.get("event"), Some(&"first".to_string()));
    assert_eq!(span.logs[1].fields.get("k"), Some(&"v".to_string()));
    let back = Span::started(
        TraceContext::with_ids(TraceId::from_u128(1), SpanId::from_u64(1)),
        "op".into(),
        10,
    )
    .finish_at(5);
    assert_eq!(back.duration_micros(), Some(0));

    assert_eq!(
        ConsoleTraceReporter::render(&span),
        "[TRACE] op (3ms) trace=0000000000000000000000000000000a span=000000000000000b"
    );
    let mut reporter = ConsoleTraceReporter::new();
    reporter.report_span(span).unwrap();
    reporter.flush().unwrap();
    let lines = reporter.take_lines();
    assert_eq!(lines.len(), 1);
    assert!(lines[0].starts_with("[TRACE] op (3ms)"));
    assert!(reporter.take_lines().is_empty());
}

#[test]
fn trading_spans_carry_their_tags() {
    let span = Span::order_processing("o-1", "limit");
    assert_eq!(span.operation_name, "order_processing");
    assert_eq!(span.tags.get("order_id"), Some(&"o-1".to_string()));
    assert_eq!(span.tags.get("order_type"), Some(&"limit".to_string()));
    let span = Span::market_data_processing("BTCUSD", "tick");
    assert_eq!(span.operation_name, "market_data_processing");
    assert_eq!(span.tags.get("symbol"), Some(&"BTCUSD".to_string()));
    assert_eq!(span.tags.get("data_type"), Some(&"tick".to_string()));
    let span = Span::risk_check("p-9", "margin");
    assert_eq!(span.operation_name, "risk_check");
    assert_eq!(span.tags.get("position_id"), Some(&"p-9".to_string()));
    assert_eq!(span.tags.get("check_type"), Some(&"margin".to_string()));
    let span = Span::trade_execution("ETHUSD", "buy", "1.5");
    assert_eq!(span.operation_name, "trade_execution");
    assert_eq!(span.tags.get("symbol"), Some(&"ETHUSD".to_string()));
    assert_eq!(span.tags.get("side"), Some(&"buy".to_string()));
    assert_eq!(span.tags.get("quantity"), Some(&"1.5".to_string()));
    assert_eq!(span.tags.len(), 3);
}

#[test]
fn the_current_span_nests() {
    let mut tracing = TracingContext::new();
    assert!(tracing.current_span().is_none());
    assert!(tracing.finish_current_span().is_none());
    let outer = tracing.start_span("outer".into());
    assert_eq!(outer.context.parent_span_id, None);
    let inner = tracing.start_span("inner".into());
    assert_eq!(inner.context.trace_id, outer.context.trace_id);
    assert_eq!(inner.context.parent_span_id, Some(outer.context.span_id));
    let current = tracing.current_span().unwrap();
    assert_eq!(current.operation_name, "inner");
    assert_eq!(current.context.span_id, inner.context.span_id);
    let seen = tracing.with_span(outer, || 41 + 1);
    assert_eq!(seen, 42);
    assert_eq!(tracing.current_span().unwrap().operation_name, "inner");
    let done = tracing.finish_current_span().unwrap();
    assert!(done.is_finished());
    assert_eq!(done.operation_name, "inner");
    assert!(tracing.current_span().is_none());

    let previous = tracing.enter(Span::started(
        TraceContext::with_ids(TraceId::from_u128(1), SpanId::from_u64(1)),
        "manual".into(),
        0,
    ));
    assert!(previous.is_none());
    assert_eq!(tracing.current_span().unwrap().operation_name, "manual");
    tracing.leave(previous);
    assert!(tracing.current_span().is_none());
}

#[test]
fn a_map_keeps_first_come_order() {
    let mut map: StringMap<u32> = StringMap::new();
    assert!(map.is_empty());
    map.insert("b".into(), 1);
    map.insert("a".into(), 2);
    map.insert("b".into(), 3);
    map.insert("c".into(), 4);
    assert_eq!(map.len(), 3);
    assert_eq!((map.key_at(0), *map.value_at(0)), ("b", 3));
    assert_eq!((map.key_at(1), *map.value_at(1)), ("a", 2));
    assert_eq!((map.key_at(2), *map.value_at(2)), ("c", 4));
    assert_eq!(map.get("a"), Some(&2));
    assert_eq!(map.get("z"), None);
    assert!(map.contains_key("c"));
    assert!(!map.contains_key("C"));
    map.clear();
    assert!(map.is_empty());
    assert_eq!(map.get("a"), None);
}

#[test]
fn span_identifiers_count_up_from_one() {
    let mut ids = SpanIdGenerator::new();
    let first = ids.next_id();
    let second = ids.next_id();
    let third = ids.next_id();
    assert_eq!((first.as_u64(), second.as_u64(), third.as_u64()), (1, 2, 3));
    let root = TraceContext::with_ids(TraceId::from_u128(9), first);
    let child = root.child_from(&mut ids);
    let grandchild = child.child_from(&mut ids);
    assert_eq!(child.span_id, SpanId::from_u64(4));
    assert_eq!(child.parent_span_id, Some(first));
    assert_eq!(grandchild.span_id, SpanId::from_u64(5));
    assert_eq!(grandchild.parent_span_id, Some(child.span_id));
    assert_eq!(grandchild.trace_id, TraceId::from_u128(9));
}

#[test]
fn a_child_never_has_the_identifier_of_its_parent() {
    for id in [1u64, 2, 77, u64::MAX - 1, u64::MAX] {
        let parent = SpanId::from_u64(id);
        for _ in 0..200 {
            let other = SpanId::new_other_than(parent);
            assert_ne!(other, parent);
            assert!(other.as_u64() >= 1);
        }
        let ctx = TraceContext::with_ids(TraceId::from_u128(1), parent);
        assert_ne!(ctx.child_span().span_id, parent);
    }
    for _ in 0..200 {
        assert!(SpanId::new().as_u64() >= 1);
    }
    let span = Span::new("parent".to_string());
    let child = span.child_span("child".to_string());
    assert_ne!(child.context.span_id, span.context.span_id);
    assert_eq!(child.context.parent_span_id, Some(span.context.span_id));
    assert!(child.tags.is_empty() && child.logs.is_empty());
}

#[test]
fn a_finished_span_keeps_its_tags_and_logs() {
    let mut tracing = TracingContext::new();
    let started = tracing.start_span("work".into());
    let current = tracing
        .enter(started.set_tag("k".into(), "v".into()).log_event_at("e".into(), 5))
        .unwrap();
    assert_eq!(current.operation_name, "work");
    let done = tracing.finish_current_span().unwrap();
    assert!(done.is_finished());
    assert_eq!(done.tags.get("k"), Some(&"v".to_string()));
    assert_eq!(done.logs.len(), 1);
    assert_eq!(done.logs[0].timestamp, 5);
    assert_eq!(done.logs[0].fields.get("event"), Some(&"e".to_string()));
    let order = Span::order_processing("o-1", "limit");
    assert_eq!(order.tags.len(), 2);
    assert_eq!((order.tags.key_at(0), order.tags.value_at(0).as_str()), ("order_id", "o-1"));
    assert_eq!((order.tags.key_at(1), order.tags.value_at(1).as_str()), ("order_type", "limit"));
    assert!(order.logs.is_empty());
    assert_eq!(order.context.parent_span_id, None);
    assert!(!order.is_finished());
}
