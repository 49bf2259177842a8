//! The text form of a trace context, `vv-t..t-p..p-ff`: decoding, validation
//! and rendering.

use crate::hex::{
    check_hex_digit, hex_digit_value, hex_limit, hex_value, is_hex_digit, lemma_hex_round_trip,
    lemma_hex_value_bound, lemma_lower_hex_shape, lower_hex, push_lower_hex,
};
use vstd::prelude::*;
use vstd::std_specs::iter::IteratorSpec;

verus! {

/// The only version of the text format that is understood.
pub const SUPPORTED_VERSION: u8 = 0;

/// Bit 0 of the flags: the trace is to be recorded.
pub const SAMPLED: u8 = 1;

/// Number of characters of the text form: 2 + 32 + 16 + 2 digits and three
/// hyphens.
pub const TEXT_LEN: usize = 55;

/// A position within a distributed trace, as carried between processes.
#[derive(Clone, Copy, Debug, PartialEq, Eq, Structural)]
pub struct TraceContext {
    pub version: u8,
    pub trace_id: u128,
    pub parent_id: u64,
    pub flags: u8,
}

/// Why a text is not a trace context.
#[derive(Clone, Copy, Debug, PartialEq, Eq, Structural)]
pub enum DecodeError {
    /// Not four hyphen-separated fields of 2, 32, 16 and 2 characters.
    Malformed,
    /// A field holds a character that is no hexadecimal digit.
    InvalidHex,
    /// The version field is not `00`.
    UnsupportedVersion,
    /// The trace id is zero.
    ZeroTraceId,
    /// The parent id is zero.
    ZeroParentId,
}

impl TraceContext {
    /// A context that may be propagated: the supported version and two
    /// non-zero identifiers.
    pub open spec fn well_formed(&self) -> bool {
        &&& self.version == SUPPORTED_VERSION
        &&& self.trace_id != 0
        &&& self.parent_id != 0
    }

    /// Tells whether the context may be propagated.
    pub fn is_well_formed(&self) -> (b: bool)
        ensures
            b == self.well_formed(),
    {
        self.version == SUPPORTED_VERSION && self.trace_id != 0 && self.parent_id != 0
    }

    /// Whether the sampled bit is set.
    pub open spec fn spec_sampled(&self) -> bool {
        self.flags & SAMPLED == SAMPLED
    }

    /// Tells whether the sampled bit is set.
    #[verifier::when_used_as_spec(spec_sampled)]
    pub fn sampled(&self) -> (b: bool)
        ensures
            b == self.spec_sampled(),
    {
        self.flags & SAMPLED == SAMPLED
    }
}

/// Whether position `i` of the text form holds a hyphen.
pub open spec fn is_separator(i: int) -> bool {
    i == 2 || i == 35 || i == 52
}

/// Four fields of 2, 32, 16 and 2 characters with a hyphen between them and
/// none inside them.
pub open spec fn well_shaped(s: Seq<char>) -> bool {
    &&& s.len() == TEXT_LEN
    &&& forall|i: int| 0 <= i < s.len() ==> ((#[trigger] s[i] == '-') <==> is_separator(i))
}

/// Every character outside the hyphens is a hexadecimal digit.
pub open spec fn all_hex(s: Seq<char>) -> bool {
    forall|i: int| 0 <= i < s.len() && #[trigger] s[i] != '-' ==> is_hex_digit(s[i])
}

/// The four numbers that a well-shaped text of digits denotes.
pub open spec fn decoded(s: Seq<char>) -> TraceContext {
    TraceContext {
        version: hex_value(s.subrange(0, 2)) as u8,
        trace_id: hex_value(s.subrange(3, 35)) as u128,
        parent_id: hex_value(s.subrange(36, 52)) as u64,
        flags: hex_value(s.subrange(53, 55)) as u8,
    }
}

/// What decoding a text gives: the context, or the first of the checks that
/// it fails, in the order shape, digits, version, trace id, parent id.
pub open spec fn spec_parse(s: Seq<char>) -> Result<TraceContext, DecodeError> {
    if !well_shaped(s) {
        Err(DecodeError::Malformed)
    } else if !all_hex(s) {
        Err(DecodeError::InvalidHex)
    } else if decoded(s).version != SUPPORTED_VERSION {
        Err(DecodeError::UnsupportedVersion)
    } else if decoded(s).trace_id == 0 {
        Err(DecodeError::ZeroTraceId)
    } else if decoded(s).parent_id == 0 {
        Err(DecodeError::ZeroParentId)
    } else {
        Ok(decoded(s))
    }
}

/// Four fields with a hyphen between each two.
pub open spec fn joined(
    version: Seq<char>,
    trace_id: Seq<char>,
    parent_id: Seq<char>,
    flags: Seq<char>,
) -> Seq<char> {
    version + seq!['-'] + trace_id + seq!['-'] + parent_id + seq!['-'] + flags
}

/// No character is a hyphen.
pub open spec fn hyphen_free(s: Seq<char>) -> bool {
    forall|i: int| 0 <= i < s.len() ==> s[i] != '-'
}

/// The text form of a context: version `00`, the two identifiers, and of the
/// flags the sampled bit alone, each in lowercase digits of fixed width.
pub open spec fn spec_format(c: TraceContext) -> Seq<char> {
    joined(
        lower_hex(SUPPORTED_VERSION as nat, 2),
        lower_hex(c.trace_id as nat, 32),
        lower_hex(c.parent_id as nat, 16),
        lower_hex((c.flags & SAMPLED) as nat, 2),
    )
}

/// `traceparent::parse` on a text of 55 characters with hyphens at 2, 35 and
/// 52 and hexadecimal digits elsewhere: it splits at the hyphens and reads
/// each of the four fields as a base-16 number, so it succeeds with the
/// numbers that the fields denote. Other texts are kept away from it: it
/// indexes the fields without looking at their count.
#[verifier::external_body]
fn decode_fields(text: &str) -> (r: Option<TraceContext>)
    requires
        well_shaped(text@),
        all_hex(text@),
    ensures
        r == Some(decoded(text@)),
{
    match traceparent::parse(text) {
        Ok(tp) => Some(
            TraceContext {
                version: tp.version(),
                trace_id: tp.trace_id(),
                parent_id: tp.parent_id(),
                flags: tp.flags(),
            },
        ),
        Err(_) => None,
    }
}

/// Decodes the text form of a trace context. Nothing lenient is returned:
/// the text is a context in every respect, or the call fails.
pub fn parse(text: &str) -> (r: Result<TraceContext, DecodeError>)
    ensures
        r == spec_parse(text@),
{
    let mut count: usize = 0;
    let mut digits = true;
    for c in it: text.chars()
        invariant
            it.seq() == text@,
            count == it.index(),
            count <= TEXT_LEN,
            forall|j: int| 0 <= j < count ==> ((#[trigger] text@[j] == '-') <==> is_separator(j)),
            digits <==> forall|j: int|
                0 <= j < count && #[trigger] text@[j] != '-' ==> is_hex_digit(text@[j]),
    {
        if count >= TEXT_LEN {
            return Err(DecodeError::Malformed);
        }
        let separator = count == 2 || count == 35 || count == 52;
        if (c == '-') != separator {
            return Err(DecodeError::Malformed);
        }
        if !separator && !check_hex_digit(c) {
            digits = false;
        }
        count += 1;
    }
    if count != TEXT_LEN {
        return Err(DecodeError::Malformed);
    }
    if !digits {
        return Err(DecodeError::InvalidHex);
    }
    match decode_fields(text) {
        Some(ctx) => {
            if ctx.version != SUPPORTED_VERSION {
                Err(DecodeError::UnsupportedVersion)
            } else if ctx.trace_id == 0 {
                Err(DecodeError::ZeroTraceId)
            } else if ctx.parent_id == 0 {
                Err(DecodeError::ZeroParentId)
            } else {
                Ok(ctx)
            }
        },
        None => Err(DecodeError::Malformed),
    }
}

/// Renders a context in its text form. The flags are cut down to the sampled
/// bit, so no other bit survives a round through the text.
pub fn format(ctx: &TraceContext) -> (text: String)
    requires
        ctx.well_formed(),
    ensures
        text@ == spec_format(*ctx),
{
    let mut text = String::new();
    push_lower_hex(&mut text, SUPPORTED_VERSION as u128, 2);
    text.push('-');
    push_lower_hex(&mut text, ctx.trace_id, 32);
    text.push('-');
    push_lower_hex(&mut text, ctx.parent_id as u128, 16);
    text.push('-');
    push_lower_hex(&mut text, (ctx.flags & SAMPLED) as u128, 2);
    assert(text@ =~= spec_format(*ctx));
    text
}

/// The all-zero context that stands in for "nothing stored" when a stored
/// context is compared with a new one. It is no context that `parse` could
/// give, and `format` does not take it.
pub fn make_bogus() -> (ctx: TraceContext)
    ensures
        ctx == (TraceContext { version: 0, trace_id: 0, parent_id: 0, flags: 0 }),
        !ctx.well_formed(),
        forall|s: Seq<char>| spec_parse(s) != Ok::<TraceContext, DecodeError>(ctx),
{
    TraceContext { version: 0, trace_id: 0, parent_id: 0, flags: 0 }
}

/// The limits of the three field widths are the limits of `u8`, `u64` and
/// `u128`.
pub proof fn lemma_hex_limits()
    ensures
        hex_limit(2) == 0x100,
        hex_limit(16) == 0x1_0000_0000_0000_0000,
        hex_limit(32) == 0x1_0000_0000_0000_0000_0000_0000_0000_0000,
{
    reveal_with_fuel(hex_limit, 33);
}

/// The four fields of a text of full length fit their types: the numbers of
/// a decoded context are the numbers that the fields denote, none of them
/// cut short.
pub proof fn law_decoded_is_exact(s: Seq<char>)
    requires
        s.len() == TEXT_LEN,
    ensures
        decoded(s).version == hex_value(s.subrange(0, 2)),
        decoded(s).trace_id == hex_value(s.subrange(3, 35)),
        decoded(s).parent_id == hex_value(s.subrange(36, 52)),
        decoded(s).flags == hex_value(s.subrange(53, 55)),
{
    lemma_hex_limits();
    lemma_hex_value_bound(s.subrange(0, 2));
    lemma_hex_value_bound(s.subrange(3, 35));
    lemma_hex_value_bound(s.subrange(36, 52));
    lemma_hex_value_bound(s.subrange(53, 55));
}

/// A text is well shaped exactly when it is four fields of 2, 32, 16 and 2
/// characters, none of them a hyphen, joined by hyphens.
pub proof fn law_shape_is_four_fields(s: Seq<char>)
    ensures
        well_shaped(s) <==> exists|v: Seq<char>, t: Seq<char>, p: Seq<char>, f: Seq<char>|
            #[trigger] joined(v, t, p, f) == s && v.len() == 2 && t.len() == 32 && p.len() == 16
                && f.len() == 2 && hyphen_free(v) && hyphen_free(t) && hyphen_free(p)
                && hyphen_free(f),
{
    if well_shaped(s) {
        let v = s.subrange(0, 2);
        let t = s.subrange(3, 35);
        let p = s.subrange(36, 52);
        let f = s.subrange(53, 55);
        assert(joined(v, t, p, f) =~= s);
        assert(hyphen_free(v) && hyphen_free(t) && hyphen_free(p) && hyphen_free(f));
    }
    if exists|v: Seq<char>, t: Seq<char>, p: Seq<char>, f: Seq<char>|
        #[trigger] joined(v, t, p, f) == s && v.len() == 2 && t.len() == 32 && p.len() == 16
            && f.len() == 2 && hyphen_free(v) && hyphen_free(t) && hyphen_free(p) && hyphen_free(
            f,
        ) {
        let (v, t, p, f) = choose|v: Seq<char>, t: Seq<char>, p: Seq<char>, f: Seq<char>|
            #[trigger] joined(v, t, p, f) == s && v.len() == 2 && t.len() == 32 && p.len() == 16
                && f.len() == 2 && hyphen_free(v) && hyphen_free(t) && hyphen_free(p)
                && hyphen_free(f);
        assert forall|i: int| 0 <= i < s.len() implies ((#[trigger] s[i] == '-') <==> is_separator(
            i,
        )) by {
            if i < 2 {
                assert(s[i] == v[i]);
            } else if i == 2 {
            } else if i < 35 {
                assert(s[i] == t[i - 3]);
            } else if i == 35 {
            } else if i < 52 {
                assert(s[i] == p[i - 36]);
            } else if i == 52 {
            } else {
                assert(s[i] == f[i - 53]);
            }
        }
    }
}

/// The rendering of a context has the shape that decoding asks for, and its
/// four fields are the renderings of the four numbers.
pub proof fn lemma_format_fields(c: TraceContext)
    ensures
        well_shaped(spec_format(c)),
        all_hex(spec_format(c)),
        spec_format(c).subrange(0, 2) == lower_hex(SUPPORTED_VERSION as nat, 2),
        spec_format(c).subrange(3, 35) == lower_hex(c.trace_id as nat, 32),
        spec_format(c).subrange(36, 52) == lower_hex(c.parent_id as nat, 16),
        spec_format(c).subrange(53, 55) == lower_hex((c.flags & SAMPLED) as nat, 2),
{
    let s = spec_format(c);
    let v = lower_hex(SUPPORTED_VERSION as nat, 2);
    let t = lower_hex(c.trace_id as nat, 32);
    let p = lower_hex(c.parent_id as nat, 16);
    let f = lower_hex((c.flags & SAMPLED) as nat, 2);
    lemma_lower_hex_shape(SUPPORTED_VERSION as nat, 2);
    lemma_lower_hex_shape(c.trace_id as nat, 32);
    lemma_lower_hex_shape(c.parent_id as nat, 16);
    lemma_lower_hex_shape((c.flags & SAMPLED) as nat, 2);
    assert(s.len() == 55);
    assert forall|i: int| 0 <= i < s.len() implies ((#[trigger] s[i] == '-') <==> is_separator(i))
        && (s[i] != '-' ==> is_hex_digit(s[i])) by {
        if i < 2 {
            assert(s[i] == v[i]);
        } else if i == 2 {
        } else if i < 35 {
            assert(s[i] == t[i - 3]);
        } else if i == 35 {
        } else if i < 52 {
            assert(s[i] == p[i - 36]);
        } else if i == 52 {
        } else {
            assert(s[i] == f[i - 53]);
        }
    }
    assert(s.subrange(0, 2) =~= v);
    assert(s.subrange(3, 35) =~= t);
    assert(s.subrange(36, 52) =~= p);
    assert(s.subrange(53, 55) =~= f);
}

/// Round trip: decoding the rendering of a well-formed context gives the
/// context back, with the flags cut down to the sampled bit. A context
/// whose flags hold no other bit comes back unchanged.
pub proof fn law_round_trip(c: TraceContext)
    requires
        c.well_formed(),
    ensures
        spec_parse(spec_format(c)) == Ok::<TraceContext, DecodeError>(
            TraceContext { flags: c.flags & SAMPLED, ..c },
        ),
        c.flags == 0 || c.flags == SAMPLED ==> spec_parse(spec_format(c)) == Ok::<
            TraceContext,
            DecodeError,
        >(c),
{
    let flags = c.flags;
    assert(flags & 1 <= 1) by (bit_vector);
    assert(flags == 0 || flags == 1 ==> flags & 1 == flags) by (bit_vector);
    lemma_format_fields(c);
    lemma_hex_limits();
    lemma_hex_round_trip(SUPPORTED_VERSION as nat, 2);
    lemma_hex_round_trip(c.trace_id as nat, 32);
    lemma_hex_round_trip(c.parent_id as nat, 16);
    lemma_hex_round_trip((c.flags & SAMPLED) as nat, 2);
}

/// How many hyphens a text holds: one less than the number of its fields.
pub open spec fn hyphen_count(s: Seq<char>) -> nat
    decreases s.len(),
{
    if s.len() == 0 {
        0
    } else {
        hyphen_count(s.drop_last()) + if s.last() == '-' {
            1nat
        } else {
            0nat
        }
    }
}

/// Every character is the digit `0`.
pub open spec fn all_zero_digits(s: Seq<char>) -> bool {
    forall|i: int| 0 <= i < s.len() ==> s[i] == '0'
}

/// A run of zeros denotes zero.
pub proof fn lemma_zeros_denote_zero(s: Seq<char>)
    requires
        all_zero_digits(s),
    ensures
        hex_value(s) == 0,
    decreases s.len(),
{
    if s.len() > 0 {
        lemma_zeros_denote_zero(s.drop_last());
    }
}

/// The first `k` characters of a well-shaped text hold as many hyphens as
/// there are separator positions below `k`.
proof fn lemma_hyphens_of_prefix(s: Seq<char>, k: int)
    requires
        well_shaped(s),
        0 <= k <= s.len(),
    ensures
        hyphen_count(s.take(k)) == (if k > 2 {
            1nat
        } else {
            0nat
        }) + (if k > 35 {
            1nat
        } else {
            0nat
        }) + (if k > 52 {
            1nat
        } else {
            0nat
        }),
    decreases k,
{
    if k > 0 {
        lemma_hyphens_of_prefix(s, k - 1);
        assert(s.take(k).drop_last() =~= s.take(k - 1));
        assert(s.take(k).last() == s[k - 1]);
    }
}

/// Two digits that denote zero are both `0`.
proof fn lemma_zero_version_is_00(s: Seq<char>)
    requires
        s.len() == 2,
        is_hex_digit(s[0]),
        is_hex_digit(s[1]),
        hex_value(s) as u8 == 0,
    ensures
        s[0] == '0',
        s[1] == '0',
{
    reveal_with_fuel(hex_value, 3);
    assert(s.drop_last().drop_last().len() == 0);
    assert(s.drop_last().last() == s[0]);
    assert(hex_value(s) == 16 * hex_digit_value(s[0])->0 + hex_digit_value(s[1])->0);
}

/// Rejection: a text is refused when its version is not `00`, when it does
/// not have four fields, when a field holds a character that is no
/// hexadecimal digit, and when either identifier is all zeros.
pub proof fn law_rejection(s: Seq<char>)
    ensures
        !(s.len() >= 2 && s[0] == '0' && s[1] == '0') ==> spec_parse(s) is Err,
        hyphen_count(s) != 3 ==> spec_parse(s) is Err,
        (exists|i: int| 0 <= i < s.len() && s[i] != '-' && !is_hex_digit(s[i])) ==> spec_parse(
            s,
        ) is Err,
        s.len() == TEXT_LEN && all_zero_digits(s.subrange(3, 35)) ==> spec_parse(s) is Err,
        s.len() == TEXT_LEN && all_zero_digits(s.subrange(36, 52)) ==> spec_parse(s) is Err,
{
    if well_shaped(s) && all_hex(s) {
        lemma_hyphens_of_prefix(s, s.len() as int);
        assert(s.take(s.len() as int) =~= s);
        if decoded(s).version == SUPPORTED_VERSION {
            let v = s.subrange(0, 2);
            assert(v[0] == s[0] && v[1] == s[1]);
            assert(is_hex_digit(s[0]) && is_hex_digit(s[1]));
            lemma_zero_version_is_00(v);
        }
        if all_zero_digits(s.subrange(3, 35)) {
            lemma_zeros_denote_zero(s.subrange(3, 35));
        }
        if all_zero_digits(s.subrange(36, 52)) {
            lemma_zeros_denote_zero(s.subrange(36, 52));
        }
    } else if well_shaped(s) {
        lemma_hyphens_of_prefix(s, s.len() as int);
        assert(s.take(s.len() as int) =~= s);
    }
}

/// What decoding accepts is well formed, so it is never the all-zero
/// stand-in.
pub proof fn law_parsed_is_well_formed(s: Seq<char>)
    ensures
        spec_parse(s) matches Ok(c) ==> c.well_formed(),
{
}

/// Equality is exact: two contexts are equal when all four fields agree and
/// in no other case, so a difference in the flags alone makes them differ.
pub proof fn law_equality_is_exact(a: TraceContext, b: TraceContext)
    ensures
        (a == b) <==> (a.version == b.version && a.trace_id == b.trace_id && a.parent_id
            == b.parent_id && a.flags == b.flags),
        a.flags != b.flags ==> a != b,
{
}

} // verus!
