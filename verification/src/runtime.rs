//! The calls into the OpenTelemetry runtime. Nothing here is proved: each
//! function hands its arguments to the runtime and says of the outcome only
//! what its contract states, which for most of them is nothing, since what
//! the runtime returns depends on the tracer provider that the process
//! installed and on the spans that are active on the calling thread.

use vstd::prelude::*;

verus! {

/// The runtime's tracer, `opentelemetry::global::BoxedTracer`, carried as it is.
#[verifier::external_type_specification]
#[verifier::external_body]
pub struct ExBoxedTracer(opentelemetry::global::BoxedTracer);

/// The runtime's span, `opentelemetry::global::BoxedSpan`, carried as it is.
#[verifier::external_type_specification]
#[verifier::external_body]
pub struct ExBoxedSpan(opentelemetry::global::BoxedSpan);

/// The runtime's `opentelemetry::Context`, carried as it is.
#[verifier::external_type_specification]
#[verifier::external_body]
pub struct ExContext(opentelemetry::Context);

/// The runtime's `opentelemetry::trace::SpanContext`, carried as it is.
#[verifier::external_type_specification]
#[verifier::external_body]
pub struct ExSpanContext(opentelemetry::trace::SpanContext);

/// The runtime's `opentelemetry::ContextGuard`: dropping it ends the activation
/// that it stands for.
#[verifier::external_type_specification]
#[verifier::external_body]
pub struct ExContextGuard(opentelemetry::ContextGuard);

/// The runtime's attribute, `opentelemetry::KeyValue`, carried as it is.
#[verifier::external_type_specification]
#[verifier::external_body]
pub struct ExKeyValue(opentelemetry::KeyValue);

/// What identifies a span, as plain numbers: the fields of the runtime's
/// span context, without its trace state. The library carries no trace
/// state: a span context that it hands to the runtime has the empty one.
#[derive(Clone, Copy, Debug, PartialEq, Eq, Structural)]
pub struct SpanContextParts {
    pub trace_id: u128,
    pub span_id: u64,
    pub trace_flags: u8,
    pub is_remote: bool,
}

/// `opentelemetry::global::tracer`: a tracer of the provider that is
/// installed for the process. Nothing is claimed of it. The call fails only
/// if a thread panicked while it held the lock on the provider.
#[verifier::external_body]
pub(crate) fn global_tracer(name: &'static str) -> opentelemetry::global::BoxedTracer {
    opentelemetry::global::tracer(name)
}

/// `Tracer::start_with_context`: a new span under the span of `parent`, a
/// root span when `parent` holds none. Nothing is claimed of it.
#[verifier::external_body]
pub(crate) fn start_span_with_context(
    tracer: &opentelemetry::global::BoxedTracer,
    name: &'static str,
    parent: &opentelemetry::Context,
) -> opentelemetry::global::BoxedSpan {
    opentelemetry::trace::Tracer::start_with_context(tracer, name, parent)
}

/// `Context::new`: a context without entries.
#[verifier::external_body]
pub(crate) fn empty_context() -> opentelemetry::Context {
    opentelemetry::Context::new()
}

/// `TraceContextExt::with_remote_span_context`: a copy of `cx` whose span is
/// the given span context.
#[verifier::external_body]
pub(crate) fn with_remote_span_context(
    cx: &opentelemetry::Context,
    span_context: opentelemetry::trace::SpanContext,
) -> opentelemetry::Context {
    opentelemetry::trace::TraceContextExt::with_remote_span_context(cx, span_context)
}

/// `SpanContext::new` on the four fields and the empty trace state.
#[verifier::external_body]
pub(crate) fn span_context(parts: &SpanContextParts) -> opentelemetry::trace::SpanContext {
    opentelemetry::trace::SpanContext::new(
        opentelemetry::trace::TraceId::from(parts.trace_id),
        opentelemetry::trace::SpanId::from(parts.span_id),
        opentelemetry::trace::TraceFlags::new(parts.trace_flags),
        parts.is_remote,
        opentelemetry::trace::TraceState::NONE,
    )
}

/// `KeyValue::new` on two texts.
#[verifier::external_body]
pub(crate) fn key_value(key: &'static str, value: &'static str) -> opentelemetry::KeyValue {
    opentelemetry::KeyValue::new(key, value)
}

/// `Span::add_link`: records on `span` a link to the given span context
/// with the given attributes.
#[verifier::external_body]
pub(crate) fn add_link(
    span: &mut opentelemetry::global::BoxedSpan,
    span_context: opentelemetry::trace::SpanContext,
    attributes: Vec<opentelemetry::KeyValue>,
) {
    opentelemetry::trace::Span::add_link(span, span_context, attributes)
}

/// `opentelemetry::trace::mark_span_as_active`: makes `span` the active
/// span of this thread until the guard is dropped, which brings back the
/// span that was active before.
#[verifier::external_body]
pub(crate) fn mark_span_as_active(
    span: opentelemetry::global::BoxedSpan,
) -> opentelemetry::ContextGuard {
    opentelemetry::trace::mark_span_as_active(span)
}

/// `opentelemetry::trace::get_active_span`: the span context of the span
/// that is active on this thread, all zeros when none is. Nothing is
/// claimed of it.
#[verifier::external_body]
pub(crate) fn active_span_context() -> SpanContextParts {
    let active = opentelemetry::trace::get_active_span(|span| span.span_context().clone());
    SpanContextParts {
        trace_id: u128::from_be_bytes(active.trace_id().to_bytes()),
        span_id: u64::from_be_bytes(active.span_id().to_bytes()),
        trace_flags: active.trace_flags().to_u8(),
        is_remote: active.is_remote(),
    }
}

} // verus!
