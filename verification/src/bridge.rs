//! From a context that came from elsewhere to an active span: either the
//! new span continues the remote trace as its child, or it starts on its
//! own and carries a link to the remote context.

use crate::codec::{TraceContext, SAMPLED};
use crate::runtime::{
    add_link, empty_context, global_tracer, key_value, mark_span_as_active, span_context,
    start_span_with_context, with_remote_span_context, SpanContextParts,
};
use crate::store::{spec_read, ContextStore};
use vstd::prelude::*;

verus! {

/// Name of the tracer that spans are started with. The empty name stands
/// for the provider's default tracer.
pub const TRACER_NAME: &'static str = "";

/// Key of the attribute that a link carries.
pub const LINK_KEY: &'static str = "key";

/// Value of the attribute that a link carries.
pub const LINK_VALUE: &'static str = "value";

/// How a span that continues a trace is started.
#[derive(Clone, Copy, Debug, PartialEq, Eq, Structural)]
pub enum SpanStart {
    /// Without a remote parent.
    Root,
    /// As the child of the remote span with this span context.
    RemoteChild(SpanContextParts),
}

/// A reference from a new span to a span of another trace, without making
/// that span its parent, and the one attribute that the reference carries.
#[derive(Clone, Copy, Debug, PartialEq, Eq)]
pub struct SpanLink {
    pub context: SpanContextParts,
    pub key: &'static str,
    pub value: &'static str,
}

/// A span that is active, and what was asked of the runtime to start it.
/// The span stays active until this value is dropped; the span that was
/// active before is then active again.
pub struct ActiveSpanGuard {
    /// The runtime's guard of the activation.
    pub guard: opentelemetry::ContextGuard,
    /// The name that the span was started with.
    pub name: &'static str,
    /// The parent that the span was started under.
    pub start: SpanStart,
    /// The link that was added to the span before it became active.
    pub link: Option<SpanLink>,
}

impl TraceContext {
    /// The span context that stands for this context towards the runtime:
    /// the same trace, the parent id as span id, and always sampled. The
    /// flags of the context are not honoured: only the identifiers are.
    pub open spec fn spec_as_spancontext(&self) -> SpanContextParts {
        SpanContextParts {
            trace_id: self.trace_id,
            span_id: self.parent_id,
            trace_flags: SAMPLED,
            is_remote: false,
        }
    }

    /// The span context that stands for this context towards the runtime.
    #[verifier::when_used_as_spec(spec_as_spancontext)]
    pub fn as_spancontext(&self) -> (parts: SpanContextParts)
        ensures
            parts == self.spec_as_spancontext(),
    {
        SpanContextParts {
            trace_id: self.trace_id,
            span_id: self.parent_id,
            trace_flags: SAMPLED,
            is_remote: false,
        }
    }
}

/// Continue-as-parent: with an ambient context the span is a remote child
/// of it, without one it is a root span.
pub open spec fn spec_continue_as_parent(ambient: Option<TraceContext>) -> SpanStart {
    match ambient {
        Some(ctx) => SpanStart::RemoteChild(ctx.as_spancontext()),
        None => SpanStart::Root,
    }
}

/// Correlate-as-link: the link that the new span carries, if there is an
/// ambient context. It points at that context and carries the placeholder
/// attribute.
pub open spec fn spec_correlate_as_link(ambient: Option<TraceContext>) -> Option<SpanLink> {
    match ambient {
        Some(ctx) => Some(
            SpanLink { context: ctx.as_spancontext(), key: LINK_KEY, value: LINK_VALUE },
        ),
        None => None,
    }
}

/// Decides how a span that continues the ambient trace is started.
pub fn continue_as_parent(ambient: Option<TraceContext>) -> (start: SpanStart)
    ensures
        start == spec_continue_as_parent(ambient),
{
    match ambient {
        Some(ctx) => SpanStart::RemoteChild(ctx.as_spancontext()),
        None => SpanStart::Root,
    }
}

/// Decides what a span that only refers to the ambient trace is linked to.
pub fn correlate_as_link(ambient: Option<TraceContext>) -> (link: Option<SpanLink>)
    ensures
        link == spec_correlate_as_link(ambient),
{
    match ambient {
        Some(ctx) => Some(
            SpanLink { context: ctx.as_spancontext(), key: LINK_KEY, value: LINK_VALUE },
        ),
        None => None,
    }
}

/// Continue-as-parent over the slot: a slot with a valid context gives a
/// remote child with the trace id and the parent id of that context, marked
/// sampled whatever its flags say; any other slot gives a root span.
pub proof fn law_continue_as_parent(slot: Option<Seq<char>>)
    ensures
        match spec_read(slot) {
            Some(ctx) => spec_continue_as_parent(spec_read(slot)) == SpanStart::RemoteChild(
                SpanContextParts {
                    trace_id: ctx.trace_id,
                    span_id: ctx.parent_id,
                    trace_flags: SAMPLED,
                    is_remote: false,
                },
            ),
            None => spec_continue_as_parent(spec_read(slot)) == SpanStart::Root,
        },
{
}

/// Correlate-as-link over the slot: there is a link exactly when the slot
/// holds a valid context. It points at that context, marked sampled, and
/// carries the one attribute `key` = `value`.
pub proof fn law_correlate_as_link(slot: Option<Seq<char>>)
    ensures
        spec_correlate_as_link(spec_read(slot)) is Some <==> spec_read(slot) is Some,
        spec_read(slot) matches Some(ctx) ==> spec_correlate_as_link(spec_read(slot)) == Some(
            SpanLink {
                context: SpanContextParts {
                    trace_id: ctx.trace_id,
                    span_id: ctx.parent_id,
                    trace_flags: SAMPLED,
                    is_remote: false,
                },
                key: LINK_KEY,
                value: LINK_VALUE,
            },
        ),
{
}

/// Starts one span as asked and makes it the active one: under the remote
/// parent of `start`, or under no parent at all, whatever span is active on
/// the thread; with the link of `link` added before the span becomes
/// active, or with none.
///
/// The result holds what was asked next to the runtime's guard. The span
/// itself is the runtime's, made by the tracer provider that the process
/// installed: nothing is promised of its own identifiers.
pub fn activate(
    span_name: &'static str,
    start: SpanStart,
    link: Option<SpanLink>,
) -> (active: ActiveSpanGuard)
    ensures
        active.name == span_name,
        active.start == start,
        active.link == link,
{
    let tracer = global_tracer(TRACER_NAME);
    let parent = match start {
        SpanStart::RemoteChild(remote) => with_remote_span_context(
            &empty_context(),
            span_context(&remote),
        ),
        SpanStart::Root => empty_context(),
    };
    let mut span = start_span_with_context(&tracer, span_name, &parent);
    match link {
        Some(linked) => {
            let mut attributes = Vec::new();
            attributes.push(key_value(linked.key, linked.value));
            add_link(&mut span, span_context(&linked.context), attributes);
        },
        None => {},
    }
    ActiveSpanGuard { guard: mark_span_as_active(span), name: span_name, start, link }
}

/// Starts a span named `span_name` and makes it the active one. If the
/// slot holds a valid context, the span continues that trace as a child of
/// the remote span, which is taken as sampled whatever its flags say; if
/// not, it is started as a root span. It carries no link. The span stays
/// active until the result is dropped.
pub fn start_with_traceparent(span_name: &'static str, store: &ContextStore) -> (active:
    ActiveSpanGuard)
    ensures
        active.name == span_name,
        active.start == spec_continue_as_parent(spec_read(store@)),
        active.link is None,
{
    activate(span_name, continue_as_parent(store.read()), None)
}

/// Starts a span named `span_name` and makes it the active one. The span
/// is always a root span, never a child of the context in the slot; if the
/// slot holds a valid context, the span carries a link to it. The span
/// stays active until the result is dropped.
pub fn start_with_spanlink(span_name: &'static str, store: &ContextStore) -> (active:
    ActiveSpanGuard)
    ensures
        active.name == span_name,
        active.start == SpanStart::Root,
        active.link == spec_correlate_as_link(spec_read(store@)),
{
    activate(span_name, SpanStart::Root, correlate_as_link(store.read()))
}

} // verus!
