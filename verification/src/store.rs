//! The slot that holds the current trace context as text. The process
//! environment is the real slot; a `ContextStore` is its value in memory, so
//! that reading and "update if different" are decided here and only the
//! transfer to and from the environment is left to the caller.

use crate::codec::{make_bogus, parse, spec_parse, TraceContext};
use vstd::prelude::*;

verus! {

/// Name of the environment variable that carries the trace context from one
/// process to the next.
pub const TRACEPARENT: &'static str = "TRACEPARENT";

/// The content of the slot: a text, or nothing when the slot is unset.
pub struct ContextStore {
    pub value: Option<String>,
}

impl View for ContextStore {
    type V = Option<Seq<char>>;

    open spec fn view(&self) -> Option<Seq<char>> {
        match self.value {
            Some(text) => Some(text@),
            None => None,
        }
    }
}

/// The context that a slot holds: none when it is unset, and none when its
/// text does not decode.
pub open spec fn spec_read(slot: Option<Seq<char>>) -> Option<TraceContext> {
    match slot {
        Some(text) => match spec_parse(text) {
            Ok(ctx) => Some(ctx),
            Err(_) => None,
        },
        None => None,
    }
}

/// The context that a new one is compared with: the one in the slot, or the
/// all-zero stand-in when the slot holds none.
pub open spec fn spec_current(slot: Option<Seq<char>>) -> TraceContext {
    match spec_read(slot) {
        Some(ctx) => ctx,
        None => TraceContext { version: 0, trace_id: 0, parent_id: 0, flags: 0 },
    }
}

/// The decision of an update: the decoded context when the text is to be
/// written, nothing when the text does not decode or decodes to what the
/// slot holds already.
pub open spec fn spec_update(slot: Option<Seq<char>>, text: Seq<char>) -> Option<TraceContext> {
    match spec_parse(text) {
        Ok(ctx) => if ctx == spec_current(slot) {
            None
        } else {
            Some(ctx)
        },
        Err(_) => None,
    }
}

/// The slot after an update with `text`.
pub open spec fn spec_slot_after(slot: Option<Seq<char>>, text: Seq<char>) -> Option<Seq<char>> {
    if spec_update(slot, text) is Some {
        Some(text)
    } else {
        slot
    }
}

impl ContextStore {
    /// A store with the given content.
    pub fn new(value: Option<String>) -> (store: ContextStore)
        ensures
            store.value == value,
    {
        ContextStore { value }
    }

    /// The context in the slot. A text that does not decode counts as no
    /// context: the error is not handed on.
    pub fn read(&self) -> (ctx: Option<TraceContext>)
        ensures
            ctx == spec_read(self@),
    {
        match &self.value {
            Some(text) => match parse(text.as_str()) {
                Ok(ctx) => Some(ctx),
                Err(_) => None,
            },
            None => None,
        }
    }

    /// Writes `new_text` into the slot if it decodes to a context other than
    /// the one the slot holds, and tells whether it wrote.
    pub fn update(&mut self, new_text: &str) -> (changed: bool)
        ensures
            changed == spec_update(old(self)@, new_text@) is Some,
            final(self)@ == spec_slot_after(old(self)@, new_text@),
    {
        match self.decide(new_text) {
            Some(_) => {
                self.value = Some(new_text.to_owned());
                true
            },
            None => false,
        }
    }

    /// The decision of an update with `new_text`, without the write.
    pub fn decide(&self, new_text: &str) -> (decision: Option<TraceContext>)
        ensures
            decision == spec_update(self@, new_text@),
    {
        let current = match self.read() {
            Some(ctx) => ctx,
            None => make_bogus(),
        };
        match parse(new_text) {
            Ok(ctx) => if ctx == current {
                None
            } else {
                Some(ctx)
            },
            Err(_) => None,
        }
    }
}

/// The context that the slot holds, if it holds a valid one.
pub fn read_traceparent(store: &ContextStore) -> (ctx: Option<TraceContext>)
    ensures
        ctx == spec_read(store@),
{
    store.read()
}

/// Writes `new_traceparent` into the slot if it decodes to a context other
/// than the one the slot holds. Returns the decoded context if it wrote,
/// and nothing if the slot is left as it was.
pub fn update_traceparent(store: &mut ContextStore, new_traceparent: String) -> (written: Option<
    TraceContext,
>)
    ensures
        written == spec_update(old(store)@, new_traceparent@),
        final(store)@ == spec_slot_after(old(store)@, new_traceparent@),
{
    let decision = store.decide(new_traceparent.as_str());
    if decision.is_some() {
        store.value = Some(new_traceparent);
    }
    decision
}

/// An update writes exactly when the text decodes and the slot does not
/// hold the same context. On an unset or invalid slot every valid text is
/// written, and a read then gives its context. The same text a second time
/// is not written again, and a text that does not decode never is.
pub proof fn law_update(slot: Option<Seq<char>>, text: Seq<char>)
    ensures
        spec_parse(text) is Err ==> spec_update(slot, text) is None && spec_slot_after(slot, text)
            == slot,
        spec_read(slot) is None && spec_parse(text) is Ok ==> spec_update(slot, text) == Some(
            spec_parse(text)->Ok_0,
        ) && spec_read(spec_slot_after(slot, text)) == Some(spec_parse(text)->Ok_0),
        spec_update(spec_slot_after(slot, text), text) is None,
        spec_slot_after(spec_slot_after(slot, text), text) == spec_slot_after(slot, text),
{
}

} // verus!
