//! The correlation bridge: copies the active trace identity into the error-reporting
//! pipeline's scope for events at or above a minimum severity.
use vstd::prelude::*;
use crate::carrier::{opt_view, PairView, pairs_view};
use crate::context::TraceContext;
use crate::hex::hex_of;

verus! {

/// Event severity, from least to most severe.
#[derive(Clone, Copy, Debug, PartialEq, Eq, Structural)]
pub enum Severity {
    Trace,
    Debug,
    Info,
    Warn,
    Error,
}

impl Severity {
    pub open spec fn rank(self) -> nat {
        match self {
            Severity::Trace => 0,
            Severity::Debug => 1,
            Severity::Info => 2,
            Severity::Warn => 3,
            Severity::Error => 4,
        }
    }

    /// The position of the severity in the order from least to most severe.
    pub fn level_rank(self) -> (r: u8)
        ensures
            r as nat == self.rank(),
    {
        match self {
            Severity::Trace => 0,
            Severity::Debug => 1,
            Severity::Info => 2,
            Severity::Warn => 3,
            Severity::Error => 4,
        }
    }

    /// Whether `self` is at least as severe as `other`.
    pub fn at_least(self, other: Severity) -> (r: bool)
        ensures
            r == (self.rank() >= other.rank()),
    {
        self.level_rank() >= other.level_rank()
    }
}

/// The tags a sequence of writes leaves: a later write of a key replaces an earlier one.
pub open spec fn tag_map(s: Seq<PairView>) -> Map<Seq<char>, Seq<char>>
    decreases s.len(),
{
    if s.len() == 0 {
        Map::empty()
    } else {
        tag_map(s.drop_last()).insert(s.last().0, s.last().1)
    }
}

/// The value a tag map holds for `k`.
pub open spec fn tag_of(m: Map<Seq<char>, Seq<char>>, k: Seq<char>) -> Option<Seq<char>> {
    if m.contains_key(k) {
        Some(m[k])
    } else {
        None
    }
}

/// The tag naming the trace of the event.
pub open spec fn trace_id_tag() -> Seq<char> {
    seq!['o', 't', 'e', 'l', '.', 't', 'r', 'a', 'c', 'e', '_', 'i', 'd']
}

/// The tag naming the span of the event.
pub open spec fn span_id_tag() -> Seq<char> {
    seq!['o', 't', 'e', 'l', '.', 's', 'p', 'a', 'n', '_', 'i', 'd']
}

/// The error-reporting pipeline's current scope: the tags that the next captured error
/// event carries.
pub struct ErrorScope {
    tags: Vec<(String, String)>,
}

impl ErrorScope {
    pub closed spec fn view(&self) -> Map<Seq<char>, Seq<char>> {
        tag_map(pairs_view(self.tags@))
    }

    pub fn new() -> (r: ErrorScope)
        ensures
            r.view() == Map::<Seq<char>, Seq<char>>::empty(),
    {
        ErrorScope { tags: Vec::new() }
    }

    /// Sets a tag, replacing any earlier value.
    pub fn set_tag(&mut self, key: &str, value: String)
        ensures
            final(self).view() == old(self).view().insert(key@, value@),
    {
        let ghost before = pairs_view(self.tags@);
        self.tags.push((key.to_owned(), value));
        assert(pairs_view(self.tags@).drop_last() =~= before);
    }

    /// The current value of a tag.
    pub fn get_tag(&self, key: &str) -> (r: Option<String>)
        ensures
            opt_view(r) == tag_of(self.view(), key@),
    {
        let k = key.to_owned();
        let ghost all = pairs_view(self.tags@);
        let mut j: usize = self.tags.len();
        assert(all.take(j as int) =~= all);
        while j > 0
            invariant
                j <= self.tags@.len(),
                all == pairs_view(self.tags@),
                k@ == key@,
                tag_of(self.view(), key@) == tag_of(tag_map(all.take(j as int)), key@),
            decreases j,
        {
            proof {
                assert(all.take(j as int).drop_last() =~= all.take(j - 1));
                assert(all.take(j as int).last() == (self.tags@[j - 1].0@, self.tags@[j - 1].1@));
            }
            if self.tags[j - 1].0 == k {
                return Some(self.tags[j - 1].1.clone());
            }
            j = j - 1;
        }
        None
    }

    /// Every tag write in order; a later write of a key replaces an earlier one.
    pub fn tags(&self) -> (r: &Vec<(String, String)>)
        ensures
            tag_map(pairs_view(r@)) == self.view(),
    {
        &self.tags
    }
}

/// The scope after an event at `level` is seen with `active` as the context of the span it
/// was emitted in (if any), by a bridge whose minimum severity is `min`.
pub open spec fn scope_after_event(
    min: Severity,
    level: Severity,
    active: Option<TraceContext>,
    scope: Map<Seq<char>, Seq<char>>,
) -> Map<Seq<char>, Seq<char>> {
    match active {
        Some(c) => if level.rank() >= min.rank() && c.spec_is_valid() {
            scope.insert(trace_id_tag(), hex_of(c.trace_id as nat, 32)).insert(
                span_id_tag(),
                hex_of(c.span_id as nat, 16),
            )
        } else {
            scope
        },
        None => scope,
    }
}

fn trace_id_tag_name() -> (r: &'static str)
    ensures
        r@ == trace_id_tag(),
{
    proof {
        reveal_strlit("otel.trace_id");
    }
    let r = "otel.trace_id";
    assert(r@ =~= trace_id_tag());
    r
}

fn span_id_tag_name() -> (r: &'static str)
    ensures
        r@ == span_id_tag(),
{
    proof {
        reveal_strlit("otel.span_id");
    }
    let r = "otel.span_id";
    assert(r@ =~= span_id_tag());
    r
}

/// Observes every emitted event and, for those at or above `min_level` emitted inside a
/// span with a valid context, tags the error-reporting scope with that trace and span.
pub struct SentryOtelCorrelationLayer {
    /// The least severity that triggers correlation.
    pub min_level: Severity,
}

impl SentryOtelCorrelationLayer {
    /// A bridge that correlates warnings and errors.
    pub fn new() -> (r: SentryOtelCorrelationLayer)
        ensures
            r.min_level == Severity::Warn,
    {
        SentryOtelCorrelationLayer { min_level: Severity::Warn }
    }

    /// A bridge that correlates events at `level` and above.
    pub fn with_level(level: Severity) -> (r: SentryOtelCorrelationLayer)
        ensures
            r.min_level == level,
    {
        SentryOtelCorrelationLayer { min_level: level }
    }

    /// Whether an event at `level` is correlated.
    pub fn qualifies(&self, level: Severity) -> (r: bool)
        ensures
            r == (level.rank() >= self.min_level.rank()),
    {
        level.at_least(self.min_level)
    }

    /// Writes the trace and span of a valid `active` context into the scope.
    fn correlate_with_sentry(&self, active: Option<TraceContext>, scope: &mut ErrorScope)
        ensures
            final(scope).view() == (match active {
                Some(c) => if c.spec_is_valid() {
                    old(scope).view().insert(trace_id_tag(), hex_of(c.trace_id as nat, 32)).insert(
                        span_id_tag(),
                        hex_of(c.span_id as nat, 16),
                    )
                } else {
                    old(scope).view()
                },
                None => old(scope).view(),
            }),
    {
        match active {
            Some(c) => {
                if c.is_valid() {
                    let t = c.trace_id_hex();
                    let s = c.span_id_hex();
                    scope.set_tag(trace_id_tag_name(), t);
                    scope.set_tag(span_id_tag_name(), s);
                }
            },
            None => {},
        }
    }

    /// Handles one emitted event. Below the minimum severity it returns at once; without a
    /// valid active context it changes nothing.
    pub fn on_event(&self, level: Severity, active: Option<TraceContext>, scope: &mut ErrorScope)
        ensures
            final(scope).view() == scope_after_event(self.min_level, level, active, old(scope).view()),
    {
        if self.qualifies(level) {
            self.correlate_with_sentry(active, scope);
        }
    }
}

impl Default for SentryOtelCorrelationLayer {
    fn default() -> (r: SentryOtelCorrelationLayer)
        ensures
            r.min_level == Severity::Warn,
    {
        SentryOtelCorrelationLayer::new()
    }
}

/// A qualifying event inside a span with valid context `c` leaves the scope holding `c`'s
/// trace id in 32 and its span id in 16 lowercase hexadecimal digits; a less severe event
/// leaves the scope unchanged.
pub proof fn lemma_correlation_tagging(
    min: Severity,
    level: Severity,
    c: TraceContext,
    scope: Map<Seq<char>, Seq<char>>,
)
    requires
        c.spec_is_valid(),
    ensures
        level.rank() >= min.rank() ==> tag_of(scope_after_event(min, level, Some(c), scope), trace_id_tag())
            == Some(hex_of(c.trace_id as nat, 32)),
        level.rank() >= min.rank() ==> tag_of(scope_after_event(min, level, Some(c), scope), span_id_tag())
            == Some(hex_of(c.span_id as nat, 16)),
        level.rank() < min.rank() ==> scope_after_event(min, level, Some(c), scope) == scope,
{
    assert(trace_id_tag() != span_id_tag()) by {
        assert(trace_id_tag()[5] != span_id_tag()[5]);
    }
}

/// An event emitted outside any span leaves the scope as it was, whatever its severity.
pub proof fn lemma_no_active_context_no_tagging(
    min: Severity,
    level: Severity,
    scope: Map<Seq<char>, Seq<char>>,
)
    ensures
        scope_after_event(min, level, None, scope) == scope,
{
}

} // verus!
