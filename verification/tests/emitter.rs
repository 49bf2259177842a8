use equinix_otel_tools::codec::{parse, TraceContext};
use equinix_otel_tools::emitter::emit;
use equinix_otel_tools::generate_traceparent;
use equinix_otel_tools::runtime::SpanContextParts;
use opentelemetry::trace::{SpanContext, SpanId, TraceContextExt, TraceFlags, TraceId, TraceState};
use opentelemetry::Context;

const TRACE: u128 = 0x0af7651916cd43dd8448eb211c80319c;
const SPAN: u64 = 0xb7ad6b7169203331;

fn parts(trace_id: u128, span_id: u64, trace_flags: u8) -> SpanContextParts {
    SpanContextParts { trace_id, span_id, trace_flags, is_remote: false }
}

fn activate(trace_id: u128, span_id: u64, flags: TraceFlags) -> opentelemetry::ContextGuard {
    let span_context = SpanContext::new(
        TraceId::from(trace_id),
        SpanId::from(span_id),
        flags,
        true,
        TraceState::NONE,
    );
    Context::new().with_remote_span_context(span_context).attach()
}

#[test]
fn emit_renders_a_sampled_span() {
    assert_eq!(
        emit(&parts(TRACE, SPAN, 1)),
        Some("00-0af7651916cd43dd8448eb211c80319c-b7ad6b7169203331-01".to_string())
    );
}

#[test]
fn emit_renders_an_unsampled_span() {
    assert_eq!(
        emit(&parts(TRACE, SPAN, 0)),
        Some("00-0af7651916cd43dd8448eb211c80319c-b7ad6b7169203331-00".to_string())
    );
}

#[test]
fn emit_pads_small_identifiers() {
    assert_eq!(
        emit(&parts(0x2a, 0x1, 1)),
        Some("00-0000000000000000000000000000002a-0000000000000001-01".to_string())
    );
}

#[test]
fn emit_keeps_only_the_sampled_bit() {
    assert_eq!(
        emit(&parts(TRACE, SPAN, 0xff)),
        Some("00-0af7651916cd43dd8448eb211c80319c-b7ad6b7169203331-01".to_string())
    );
    assert_eq!(
        emit(&parts(TRACE, SPAN, 0x02)),
        Some("00-0af7651916cd43dd8448eb211c80319c-b7ad6b7169203331-00".to_string())
    );
}

#[test]
fn emit_gives_nothing_for_invalid_identifiers() {
    assert_eq!(emit(&parts(0, SPAN, 1)), None);
    assert_eq!(emit(&parts(TRACE, 0, 1)), None);
    assert_eq!(emit(&parts(0, 0, 0)), None);
}

#[test]
fn emit_does_not_look_at_the_remote_mark() {
    let local = SpanContextParts { trace_id: TRACE, span_id: SPAN, trace_flags: 1, is_remote: false };
    let remote = SpanContextParts { is_remote: true, ..local };
    assert_eq!(emit(&local), emit(&remote));
}

#[test]
fn emitted_text_decodes_to_the_span() {
    let text = emit(&parts(TRACE, SPAN, 0x03)).unwrap();
    assert_eq!(
        parse(&text),
        Ok(TraceContext { version: 0, trace_id: TRACE, parent_id: SPAN, flags: 1 })
    );
}

#[test]
fn generate_gives_nothing_without_an_active_span() {
    assert_eq!(generate_traceparent(), None);
}

#[test]
fn generate_renders_the_active_span() {
    let guard = activate(TRACE, SPAN, TraceFlags::SAMPLED);
    assert_eq!(
        generate_traceparent(),
        Some("00-0af7651916cd43dd8448eb211c80319c-b7ad6b7169203331-01".to_string())
    );
    drop(guard);
    assert_eq!(generate_traceparent(), None);
}

#[test]
fn generate_renders_an_unsampled_active_span() {
    let _guard = activate(TRACE, SPAN, TraceFlags::NOT_SAMPLED);
    assert_eq!(
        generate_traceparent(),
        Some("00-0af7651916cd43dd8448eb211c80319c-b7ad6b7169203331-00".to_string())
    );
}

#[test]
fn generate_keeps_only_the_sampled_bit() {
    let _guard = activate(TRACE, SPAN, TraceFlags::new(0xfe));
    assert_eq!(
        generate_traceparent(),
        Some("00-0af7651916cd43dd8448eb211c80319c-b7ad6b7169203331-00".to_string())
    );
}

#[test]
fn generate_gives_nothing_for_an_invalid_active_span() {
    let _guard = activate(0, SPAN, TraceFlags::SAMPLED);
    assert_eq!(generate_traceparent(), None);
    let _inner = activate(TRACE, 0, TraceFlags::SAMPLED);
    assert_eq!(generate_traceparent(), None);
}

#[test]
fn generate_renders_the_innermost_active_span() {
    let _outer = activate(TRACE, SPAN, TraceFlags::SAMPLED);
    let inner = activate(1, 2, TraceFlags::SAMPLED);
    assert_eq!(
        generate_traceparent(),
        Some("00-00000000000000000000000000000001-0000000000000002-01".to_string())
    );
    drop(inner);
    assert_eq!(
        generate_traceparent(),
        Some("00-0af7651916cd43dd8448eb211c80319c-b7ad6b7169203331-01".to_string())
    );
}
