//! From the active span back to text, for the next hop.

use crate::codec::{
    joined, law_round_trip, lemma_format_fields, lemma_hex_limits, spec_format, spec_parse,
    DecodeError, TraceContext, SAMPLED, SUPPORTED_VERSION,
};
use crate::hex::{lemma_hex_round_trip, lower_hex};
use crate::runtime::{active_span_context, SpanContextParts};
use vstd::prelude::*;

verus! {

/// The context that the next hop is to receive for a span: the span's trace
/// and, as parent id, the span's own id.
pub open spec fn spec_next_hop(span: SpanContextParts) -> TraceContext {
    TraceContext {
        version: SUPPORTED_VERSION,
        trace_id: span.trace_id,
        parent_id: span.span_id,
        flags: span.trace_flags,
    }
}

/// The text for the next hop: none for a span without valid identifiers,
/// else the rendering of its context.
pub open spec fn spec_emit(span: SpanContextParts) -> Option<Seq<char>> {
    if span.trace_id != 0 && span.span_id != 0 {
        Some(spec_format(spec_next_hop(span)))
    } else {
        None
    }
}

/// Renders the given span context for the next hop, if its two identifiers
/// are valid.
pub fn emit(span: &SpanContextParts) -> (text: Option<String>)
    ensures
        match text {
            Some(t) => spec_emit(*span) == Some(t@),
            None => spec_emit(*span) is None,
        },
{
    if span.trace_id != 0 && span.span_id != 0 {
        let ctx = TraceContext {
            version: SUPPORTED_VERSION,
            trace_id: span.trace_id,
            parent_id: span.span_id,
            flags: span.trace_flags,
        };
        Some(crate::codec::format(&ctx))
    } else {
        None
    }
}

/// What is emitted decodes: to the span's trace id, its span id as parent
/// id, and of its flags the sampled bit.
pub proof fn law_emitted_text_decodes(span: SpanContextParts)
    ensures
        spec_emit(span) matches Some(text) ==> spec_parse(text) == Ok::<
            TraceContext,
            DecodeError,
        >(
            TraceContext {
                version: SUPPORTED_VERSION,
                trace_id: span.trace_id,
                parent_id: span.span_id,
                flags: span.trace_flags & SAMPLED,
            },
        ),
{
    if span.trace_id != 0 && span.span_id != 0 {
        law_round_trip(spec_next_hop(span));
    }
}

/// For a span with valid identifiers the text is `00`, the trace id in 32
/// digits, the span id in 16 digits, and `01` if the span is sampled, `00`
/// if it is not.
pub proof fn law_emitted_text(span: SpanContextParts)
    requires
        span.trace_id != 0,
        span.span_id != 0,
    ensures
        spec_emit(span) == Some(
            joined(
                seq!['0', '0'],
                lower_hex(span.trace_id as nat, 32),
                lower_hex(span.span_id as nat, 16),
                if span.trace_flags & SAMPLED == SAMPLED {
                    seq!['0', '1']
                } else {
                    seq!['0', '0']
                },
            ),
        ),
{
    let flags = span.trace_flags;
    assert(flags & 1 == 0 || flags & 1 == 1) by (bit_vector);
    reveal_with_fuel(lower_hex, 3);
    assert(lower_hex(0, 2) =~= seq!['0', '0']);
    assert(lower_hex(1, 2) =~= seq!['0', '1']);
}

/// The next hop: a span that belongs to the trace of an ambient context and
/// has a span id of its own is emitted as a text with the ambient trace id
/// in its second field and, in its third, the span's id, which is not the
/// ambient parent id. That a span which continues the ambient trace keeps
/// its trace id and is given an id of its own is the runtime's part.
pub proof fn law_next_hop(ambient: TraceContext, span: SpanContextParts)
    requires
        ambient.well_formed(),
        span.trace_id == ambient.trace_id,
        span.span_id != 0,
        span.span_id != ambient.parent_id,
    ensures
        spec_emit(span) matches Some(text) && spec_parse(text) == Ok::<TraceContext, DecodeError>(
            TraceContext {
                version: SUPPORTED_VERSION,
                trace_id: ambient.trace_id,
                parent_id: span.span_id,
                flags: span.trace_flags & SAMPLED,
            },
        ) && text.subrange(3, 35) == spec_format(ambient).subrange(3, 35) && text.subrange(36, 52)
            != spec_format(ambient).subrange(36, 52),
{
    law_emitted_text_decodes(span);
    lemma_format_fields(spec_next_hop(span));
    lemma_format_fields(ambient);
    lemma_hex_limits();
    lemma_hex_round_trip(span.span_id as nat, 16);
    lemma_hex_round_trip(ambient.parent_id as nat, 16);
}

/// The text form of the span that is active on this thread, for handing
/// to a further hop: none if no span is active or the active one has no
/// valid identifiers. Whatever span is active, a text that is returned is
/// the rendering of a span with valid identifiers, and so one that `parse`
/// accepts.
///
/// Which span is active is the runtime's to say, so no text is promised
/// here. What is returned for each span context is stated by `emit`.
pub fn generate_traceparent() -> (text: Option<String>)
    ensures
        text matches Some(t) ==> exists|span: SpanContextParts| spec_emit(span) == Some(t@),
        text matches Some(t) ==> spec_parse(t@) is Ok,
{
    let active = active_span_context();
    proof {
        law_emitted_text_decodes(active);
    }
    emit(&active)
}

} // verus!
