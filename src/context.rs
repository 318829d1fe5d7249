//! The identity of a distributed operation and its W3C `traceparent` text form.
use vstd::prelude::*;
use vstd::string::*;
use crate::hex::{
    all_hex, hex_of, hex_value, lemma_hex_of_shape, lemma_hex_round_trip, lemma_hex_value_bound,
    parse_hex, pow16, push_char, push_hex, lemma_pow16_32, lemma_pow16_mono,
};

verus! {

/// The trace-context version written by this library.
pub const TRACEPARENT_VERSION: u8 = 0;

/// A trace identity: 128-bit trace id, 64-bit span id and the trace flags (sampling bit).
#[derive(Clone, Copy, Debug, PartialEq, Eq, Structural)]
pub struct TraceContext {
    pub trace_id: u128,
    pub span_id: u64,
    pub trace_flags: u8,
}

/// The canonical invalid context: all identifiers zero.
pub open spec fn invalid_context() -> TraceContext {
    TraceContext { trace_id: 0, span_id: 0, trace_flags: 0 }
}

impl TraceContext {
    /// A context is valid when neither identifier is all zeros.
    pub open spec fn spec_is_valid(&self) -> bool {
        self.trace_id != 0 && self.span_id != 0
    }

    pub fn new(trace_id: u128, span_id: u64, trace_flags: u8) -> (r: TraceContext)
        ensures
            r == (TraceContext { trace_id, span_id, trace_flags }),
    {
        TraceContext { trace_id, span_id, trace_flags }
    }

    /// The canonical invalid context.
    pub fn invalid() -> (r: TraceContext)
        ensures
            r == invalid_context(),
    {
        TraceContext { trace_id: 0, span_id: 0, trace_flags: 0 }
    }

    #[verifier::when_used_as_spec(spec_is_valid)]
    pub fn is_valid(&self) -> (r: bool)
        ensures
            r == self.spec_is_valid(),
    {
        self.trace_id != 0 && self.span_id != 0
    }

    /// Whether the sampling bit of the flags is set.
    pub fn is_sampled(&self) -> (r: bool)
        ensures
            r == (self.trace_flags % 2 == 1),
    {
        self.trace_flags % 2 == 1
    }

    /// The trace id as 32 lowercase hexadecimal characters.
    pub fn trace_id_hex(&self) -> (r: String)
        ensures
            r@ == hex_of(self.trace_id as nat, 32),
    {
        let mut s = String::new();
        push_hex(&mut s, self.trace_id, 32);
        s
    }

    /// The span id as 16 lowercase hexadecimal characters.
    pub fn span_id_hex(&self) -> (r: String)
        ensures
            r@ == hex_of(self.span_id as nat, 16),
    {
        let mut s = String::new();
        push_hex(&mut s, self.span_id as u128, 16);
        s
    }
}

/// `{version:2hex}-{trace_id:32hex}-{span_id:16hex}-{flags:2hex}` for a context.
pub open spec fn traceparent_text(c: TraceContext) -> Seq<char> {
    hex_of(TRACEPARENT_VERSION as nat, 2) + seq!['-'] + hex_of(c.trace_id as nat, 32) + seq!['-']
        + hex_of(c.span_id as nat, 16) + seq!['-'] + hex_of(c.trace_flags as nat, 2)
}

/// Whether `s` has the shape `{2hex}-{32hex}-{16hex}-{2hex}`, with lowercase digits.
pub open spec fn is_traceparent_shape(s: Seq<char>) -> bool {
    &&& s.len() == 55
    &&& s[2] == '-'
    &&& s[35] == '-'
    &&& s[52] == '-'
    &&& all_hex(s.subrange(0, 2))
    &&& all_hex(s.subrange(3, 35))
    &&& all_hex(s.subrange(36, 52))
    &&& all_hex(s.subrange(53, 55))
}

/// The context that a well-shaped header value denotes (validity not checked).
pub open spec fn traceparent_fields(s: Seq<char>) -> TraceContext {
    TraceContext {
        trace_id: hex_value(s.subrange(3, 35)) as u128,
        span_id: hex_value(s.subrange(36, 52)) as u64,
        trace_flags: hex_value(s.subrange(53, 55)) as u8,
    }
}

/// What a `traceparent` header value decodes to: the context it carries when it has the
/// right shape and carries a valid context, and the invalid context otherwise.
pub open spec fn parse_traceparent(s: Seq<char>) -> TraceContext {
    if is_traceparent_shape(s) && traceparent_fields(s).spec_is_valid() {
        traceparent_fields(s)
    } else {
        invalid_context()
    }
}

/// The `traceparent` header value for a context.
pub fn format_traceparent(c: &TraceContext) -> (r: String)
    ensures
        r@ == traceparent_text(*c),
{
    let mut s = String::new();
    push_hex(&mut s, TRACEPARENT_VERSION as u128, 2);
    push_char(&mut s, '-');
    push_hex(&mut s, c.trace_id, 32);
    push_char(&mut s, '-');
    push_hex(&mut s, c.span_id as u128, 16);
    push_char(&mut s, '-');
    push_hex(&mut s, c.trace_flags as u128, 2);
    s
}

/// Decodes a `traceparent` header value; anything malformed gives the invalid context.
pub fn parse_traceparent_value(s: &str) -> (r: TraceContext)
    ensures
        r == parse_traceparent(s@),
{
    let n = s.unicode_len();
    if n != 55 {
        return TraceContext::invalid();
    }
    if s.get_char(2) != '-' || s.get_char(35) != '-' || s.get_char(52) != '-' {
        return TraceContext::invalid();
    }
    let version = parse_hex(s, 0, 2);
    let trace_id = parse_hex(s, 3, 35);
    let span_id = parse_hex(s, 36, 52);
    let flags = parse_hex(s, 53, 55);
    match (version, trace_id, span_id, flags) {
        (Some(_), Some(t), Some(p), Some(f)) => {
            proof {
                lemma_hex_value_bound(s@.subrange(3, 35));
                lemma_hex_value_bound(s@.subrange(36, 52));
                lemma_hex_value_bound(s@.subrange(53, 55));
                lemma_pow16_32();
                reveal_with_fuel(pow16, 17);
            }
            let c = TraceContext { trace_id: t, span_id: p as u64, trace_flags: f as u8 };
            if c.is_valid() {
                c
            } else {
                TraceContext::invalid()
            }
        },
        _ => TraceContext::invalid(),
    }
}

/// Decoding the header value written for a valid context gives that context back.
pub proof fn lemma_traceparent_round_trip(c: TraceContext)
    requires
        c.spec_is_valid(),
    ensures
        is_traceparent_shape(traceparent_text(c)),
        parse_traceparent(traceparent_text(c)) == c,
{
    let s = traceparent_text(c);
    let v = hex_of(TRACEPARENT_VERSION as nat, 2);
    let t = hex_of(c.trace_id as nat, 32);
    let p = hex_of(c.span_id as nat, 16);
    let f = hex_of(c.trace_flags as nat, 2);
    lemma_hex_of_shape(TRACEPARENT_VERSION as nat, 2);
    lemma_hex_of_shape(c.trace_id as nat, 32);
    lemma_hex_of_shape(c.span_id as nat, 16);
    lemma_hex_of_shape(c.trace_flags as nat, 2);
    assert(s.subrange(0, 2) =~= v);
    assert(s.subrange(3, 35) =~= t);
    assert(s.subrange(36, 52) =~= p);
    assert(s.subrange(53, 55) =~= f);
    assert(s[2] == '-');
    assert(s[35] == '-');
    assert(s[52] == '-');
    lemma_pow16_32();
    lemma_pow16_mono(16, 32);
    lemma_pow16_mono(2, 32);
    reveal_with_fuel(pow16, 17);
    lemma_hex_round_trip(c.trace_id as nat, 32);
    lemma_hex_round_trip(c.span_id as nat, 16);
    lemma_hex_round_trip(c.trace_flags as nat, 2);
}

/// Any value without the `{2hex}-{32hex}-{16hex}-{2hex}` shape decodes to the invalid context.
pub proof fn lemma_malformed_traceparent_is_invalid(s: Seq<char>)
    requires
        !is_traceparent_shape(s),
    ensures
        parse_traceparent(s) == invalid_context(),
        !parse_traceparent(s).spec_is_valid(),
{
}

} // verus!
