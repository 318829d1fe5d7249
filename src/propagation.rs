//! Injection and extraction of trace context through carriers, in the W3C trace-context
//! text format.
use vstd::prelude::*;
use crate::carrier::{
    as_received, eq_ignore_case, first_match, fold_case, is_header_name, is_header_value,
    is_token_char, is_value_char, without_name, HeaderExtractor, PairView, RequestCarrier,
    VecInjector,
};
use crate::context::{
    invalid_context, lemma_traceparent_round_trip, parse_traceparent, parse_traceparent_value,
    traceparent_text, format_traceparent, TraceContext, TRACEPARENT_VERSION,
};
use crate::hex::{hex_of, is_hex_char, lemma_hex_of_shape};

verus! {

/// The header that carries the trace context.
pub open spec fn traceparent_key() -> Seq<char> {
    seq!['t', 'r', 'a', 'c', 'e', 'p', 'a', 'r', 'e', 'n', 't']
}

/// The text formats a propagator can speak.
#[derive(Clone, Copy, Debug, PartialEq, Eq, Structural)]
pub enum PropagationFormat {
    /// W3C trace context: one `traceparent` header.
    W3cTraceContext,
}

/// The pairs that injecting `ctx` writes: the `traceparent` pair for a valid context,
/// nothing otherwise.
pub open spec fn injected_pairs(ctx: TraceContext) -> Seq<PairView> {
    if ctx.spec_is_valid() {
        seq![(traceparent_key(), traceparent_text(ctx))]
    } else {
        Seq::empty()
    }
}

/// The context that received headers carry: the decoded `traceparent` value found by a
/// case-insensitive lookup, or the invalid context when there is none.
pub open spec fn extracted_context(hs: Seq<(Seq<char>, Option<Seq<char>>)>) -> TraceContext {
    match first_match(hs, traceparent_key()) {
        Some(v) => parse_traceparent(v),
        None => invalid_context(),
    }
}

/// Encodes and decodes trace context. It is built once at startup and shared by reference.
#[derive(Clone, Copy, Debug)]
pub struct Propagator {
    pub format: PropagationFormat,
}

fn traceparent_name() -> (r: &'static str)
    ensures
        r@ == traceparent_key(),
{
    proof {
        reveal_strlit("traceparent");
    }
    let r = "traceparent";
    assert(r@ =~= traceparent_key());
    r
}

impl Propagator {
    /// The W3C trace-context propagator.
    pub fn w3c() -> (r: Propagator)
        ensures
            r.format == PropagationFormat::W3cTraceContext,
    {
        Propagator { format: PropagationFormat::W3cTraceContext }
    }

    /// The header names this propagator reads and writes.
    pub fn fields(&self) -> (r: Vec<String>)
        ensures
            r@.len() == 1,
            r@[0]@ == traceparent_key(),
    {
        let mut v: Vec<String> = Vec::new();
        v.push(traceparent_name().to_owned());
        v
    }

    /// Writes `ctx` into a message's pair list. An invalid context writes nothing.
    pub fn inject(&self, ctx: &TraceContext, injector: &mut VecInjector)
        ensures
            final(injector).view() == old(injector).view() + injected_pairs(*ctx),
    {
        if ctx.is_valid() {
            let value = format_traceparent(ctx);
            let ghost before = injector.view();
            injector.set(traceparent_name(), value);
            assert(injector.view() =~= before + injected_pairs(*ctx));
        } else {
            assert(injector.view() =~= injector.view() + injected_pairs(*ctx));
        }
    }

    /// Writes `ctx` into an outbound HTTP request's headers, replacing any `traceparent`
    /// already there. An invalid context leaves the headers unchanged.
    pub fn inject_request(&self, ctx: &TraceContext, carrier: &mut RequestCarrier)
        ensures
            final(carrier).view() == (if ctx.spec_is_valid() {
                without_name(old(carrier).view(), traceparent_key()).push(
                    (traceparent_key(), traceparent_text(*ctx)),
                )
            } else {
                old(carrier).view()
            }),
    {
        if ctx.is_valid() {
            let value = format_traceparent(ctx);
            proof {
                lemma_traceparent_key_legal();
                lemma_traceparent_text_legal(*ctx);
            }
            let r = carrier.set(traceparent_name(), value);
            assert(r is Ok);
        }
    }

    /// Reads the context carried by received headers; absent or malformed headers give the
    /// invalid context.
    pub fn extract(&self, extractor: &HeaderExtractor) -> (r: TraceContext)
        ensures
            r == extracted_context(extractor.view()),
    {
        match extractor.get(traceparent_name()) {
            Some(v) => parse_traceparent_value(v.as_str()),
            None => TraceContext::invalid(),
        }
    }
}

proof fn lemma_traceparent_key_legal()
    ensures
        is_header_name(traceparent_key()),
{
    let k = traceparent_key();
    assert forall|i: int| 0 <= i < k.len() implies is_token_char(#[trigger] k[i]) by {
        assert(97 <= k[i] as u32 && k[i] as u32 <= 122);
    }
}

proof fn lemma_traceparent_text_legal(c: TraceContext)
    ensures
        is_header_value(traceparent_text(c)),
{
    let s = traceparent_text(c);
    let v = hex_of(TRACEPARENT_VERSION as nat, 2);
    let t = hex_of(c.trace_id as nat, 32);
    let p = hex_of(c.span_id as nat, 16);
    let f = hex_of(c.trace_flags as nat, 2);
    lemma_hex_of_shape(TRACEPARENT_VERSION as nat, 2);
    lemma_hex_of_shape(c.trace_id as nat, 32);
    lemma_hex_of_shape(c.span_id as nat, 16);
    lemma_hex_of_shape(c.trace_flags as nat, 2);
    assert forall|i: int| 0 <= i < s.len() implies is_value_char(#[trigger] s[i]) by {
        if i < 2 {
            assert(s[i] == v[i]);
            assert(is_hex_char(v[i]));
        } else if i == 2 || i == 35 || i == 52 {
        } else if i < 35 {
            assert(s[i] == t[i - 3]);
            assert(is_hex_char(t[i - 3]));
        } else if i < 52 {
            assert(s[i] == p[i - 36]);
            assert(is_hex_char(p[i - 36]));
        } else {
            assert(s[i] == f[i - 53]);
            assert(is_hex_char(f[i - 53]));
        }
    }
}

/// A lookup in two lists in a row finds what the first holds, else what the second holds.
pub proof fn lemma_first_match_append(
    a: Seq<(Seq<char>, Option<Seq<char>>)>,
    b: Seq<(Seq<char>, Option<Seq<char>>)>,
    key: Seq<char>,
)
    ensures
        first_match(a + b, key) == (if first_match(a, key) is Some {
            first_match(a, key)
        } else {
            first_match(b, key)
        }),
    decreases a.len(),
{
    if a.len() > 0 {
        assert((a + b).drop_first() =~= a.drop_first() + b);
        assert((a + b)[0] == a[0]);
        lemma_first_match_append(a.drop_first(), b, key);
    } else {
        assert(a + b =~= b);
    }
}

/// After removing every pair named `key`, a lookup of `key` finds nothing.
pub proof fn lemma_without_name_no_match(hs: Seq<PairView>, key: Seq<char>)
    ensures
        first_match(as_received(without_name(hs, key)), key) is None,
    decreases hs.len(),
{
    if hs.len() > 0 {
        let rest = without_name(hs.drop_last(), key);
        lemma_without_name_no_match(hs.drop_last(), key);
        if !eq_ignore_case(hs.last().0, key) {
            let one = seq![(hs.last().0, Some(hs.last().1))];
            assert(as_received(rest.push(hs.last())) =~= as_received(rest) + one);
            lemma_first_match_append(as_received(rest), one, key);
            assert(one.drop_first() =~= Seq::<(Seq<char>, Option<Seq<char>>)>::empty());
            assert(!eq_ignore_case(one[0].0, key));
            assert(first_match(one.drop_first(), key) is None);
            assert(first_match(one, key) is None);
        } else {
            assert(without_name(hs, key) == rest);
        }
    } else {
        assert(as_received(without_name(hs, key)).len() == 0);
    }
}

/// Extracting from a message's pairs what was injected into a fresh injector gives back the
/// context, for every valid context.
pub proof fn lemma_message_round_trip(ctx: TraceContext)
    requires
        ctx.spec_is_valid(),
    ensures
        extracted_context(as_received(Seq::<PairView>::empty() + injected_pairs(ctx))) == ctx,
{
    lemma_traceparent_round_trip(ctx);
    let hs = as_received(Seq::<PairView>::empty() + injected_pairs(ctx));
    assert(hs[0] == (traceparent_key(), Some(traceparent_text(ctx))));
    assert(eq_ignore_case(traceparent_key(), traceparent_key()));
}

/// Extracting from an HTTP request's headers what was injected into them gives back the
/// context, for every valid context and whatever headers the request already had.
pub proof fn lemma_request_round_trip(ctx: TraceContext, before: Seq<PairView>)
    requires
        ctx.spec_is_valid(),
    ensures
        extracted_context(
            as_received(
                without_name(before, traceparent_key()).push(
                    (traceparent_key(), traceparent_text(ctx)),
                ),
            ),
        ) == ctx,
{
    lemma_traceparent_round_trip(ctx);
    let kept = without_name(before, traceparent_key());
    let one = seq![(traceparent_key(), Some(traceparent_text(ctx)))];
    assert(as_received(kept.push((traceparent_key(), traceparent_text(ctx)))) =~= as_received(kept)
        + one);
    lemma_without_name_no_match(before, traceparent_key());
    lemma_first_match_append(as_received(kept), one, traceparent_key());
    assert(eq_ignore_case(traceparent_key(), traceparent_key()));
}

/// Header lookup does not depend on the letter case of the key asked for.
pub proof fn lemma_lookup_ignores_case(
    hs: Seq<(Seq<char>, Option<Seq<char>>)>,
    k1: Seq<char>,
    k2: Seq<char>,
)
    requires
        eq_ignore_case(k1, k2),
    ensures
        first_match(hs, k1) == first_match(hs, k2),
    decreases hs.len(),
{
    if hs.len() > 0 {
        let h = hs[0].0;
        assert(eq_ignore_case(h, k1) == eq_ignore_case(h, k2)) by {
            if eq_ignore_case(h, k1) {
                assert forall|i: int| 0 <= i < h.len() implies fold_case(#[trigger] h[i])
                    == fold_case(k2[i]) by {
                    assert(fold_case(h[i]) == fold_case(k1[i]));
                    assert(fold_case(k1[i]) == fold_case(k2[i]));
                }
            }
            if eq_ignore_case(h, k2) {
                assert forall|i: int| 0 <= i < h.len() implies fold_case(#[trigger] h[i])
                    == fold_case(k1[i]) by {
                    assert(fold_case(h[i]) == fold_case(k2[i]));
                    assert(fold_case(k1[i]) == fold_case(k2[i]));
                }
            }
        }
        lemma_lookup_ignores_case(hs.drop_first(), k1, k2);
    }
}

/// A missing or malformed `traceparent` yields the invalid context.
pub proof fn lemma_extract_tolerates_malformed(hs: Seq<(Seq<char>, Option<Seq<char>>)>)
    requires
        match first_match(hs, traceparent_key()) {
            Some(v) => !crate::context::is_traceparent_shape(v),
            None => true,
        },
    ensures
        extracted_context(hs) == invalid_context(),
{
}

} // verus!
