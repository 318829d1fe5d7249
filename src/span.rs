//! Span lifecycle and the policy that relates a new span to an upstream context: a child
//! for synchronous chains, a link for asynchronous message consumption.
use vstd::prelude::*;
use crate::carrier::{pairs_view, PairView};
use crate::context::TraceContext;

verus! {

/// What a span stands for.
#[derive(Clone, Copy, Debug, PartialEq, Eq, Structural)]
pub enum SpanKind {
    Internal,
    Server,
    Client,
    Producer,
    Consumer,
}

/// How a span finished.
#[derive(Clone, Copy, Debug, PartialEq, Eq, Structural)]
pub enum SpanStatus {
    Unset,
    Success,
    Error,
}

/// The points at which a unit of work starts.
#[derive(Clone, Copy, Debug, PartialEq, Eq, Structural)]
pub enum OperationKind {
    /// A synchronous HTTP request arrives.
    InboundRequest,
    /// A synchronous HTTP call goes out to another service.
    OutboundCall,
    /// A message is produced for later consumption.
    MessageProduce,
    /// A produced message is consumed.
    MessageConsume,
}

/// How a new span relates to the upstream context.
#[derive(Clone, Copy, Debug, PartialEq, Eq, Structural)]
pub enum Relation {
    /// The upstream context is the new span's parent: same trace.
    Child,
    /// The new span starts its own trace and links to the upstream context.
    Linked,
}

pub open spec fn spec_relation(op: OperationKind) -> Relation {
    match op {
        OperationKind::MessageConsume => Relation::Linked,
        _ => Relation::Child,
    }
}

pub open spec fn spec_kind(op: OperationKind) -> SpanKind {
    match op {
        OperationKind::InboundRequest => SpanKind::Server,
        OperationKind::OutboundCall => SpanKind::Client,
        OperationKind::MessageProduce => SpanKind::Producer,
        OperationKind::MessageConsume => SpanKind::Consumer,
    }
}

/// The relation that each kind of operation has to its upstream context.
pub fn relation_for(op: OperationKind) -> (r: Relation)
    ensures
        r == spec_relation(op),
{
    match op {
        OperationKind::MessageConsume => Relation::Linked,
        _ => Relation::Child,
    }
}

/// The span kind recorded for each kind of operation.
pub fn kind_for(op: OperationKind) -> (r: SpanKind)
    ensures
        r == spec_kind(op),
{
    match op {
        OperationKind::InboundRequest => SpanKind::Server,
        OperationKind::OutboundCall => SpanKind::Client,
        OperationKind::MessageProduce => SpanKind::Producer,
        OperationKind::MessageConsume => SpanKind::Consumer,
    }
}

/// Fresh identifiers handed out by the id generator and sampler for a new span.
#[derive(Clone, Copy, Debug, PartialEq, Eq, Structural)]
pub struct SpanIds {
    /// Used when the span starts a new trace.
    pub trace_id: u128,
    pub span_id: u64,
    /// Used when the span starts a new trace.
    pub trace_flags: u8,
}

/// What a span holds, apart from its name.
pub struct SpanView {
    pub kind: SpanKind,
    pub context: TraceContext,
    pub parent: Option<TraceContext>,
    pub links: Seq<TraceContext>,
    pub attributes: Seq<PairView>,
    pub status: SpanStatus,
    pub ended: bool,
}

/// The span started for `op` from `upstream` with fresh `ids`. A valid upstream context
/// becomes the parent or the one link, as the policy says; an invalid one gives a plain
/// root span.
pub open spec fn started(op: OperationKind, upstream: TraceContext, ids: SpanIds) -> SpanView {
    let root = TraceContext { trace_id: ids.trace_id, span_id: ids.span_id, trace_flags: ids.trace_flags };
    SpanView {
        kind: spec_kind(op),
        context: if upstream.spec_is_valid() && spec_relation(op) == Relation::Child {
            TraceContext { trace_id: upstream.trace_id, span_id: ids.span_id, trace_flags: upstream.trace_flags }
        } else {
            root
        },
        parent: if upstream.spec_is_valid() && spec_relation(op) == Relation::Child {
            Some(upstream)
        } else {
            None
        },
        links: if upstream.spec_is_valid() && spec_relation(op) == Relation::Linked {
            seq![upstream]
        } else {
            Seq::empty()
        },
        attributes: Seq::empty(),
        status: SpanStatus::Unset,
        ended: false,
    }
}

/// A named, timed unit of work. Once ended it records nothing more.
pub struct Span {
    name: String,
    kind: SpanKind,
    context: TraceContext,
    parent: Option<TraceContext>,
    links: Vec<TraceContext>,
    attributes: Vec<(String, String)>,
    status: SpanStatus,
    ended: bool,
}

impl Span {
    pub closed spec fn view(&self) -> SpanView {
        SpanView {
            kind: self.kind,
            context: self.context,
            parent: self.parent,
            links: self.links@,
            attributes: pairs_view(self.attributes@),
            status: self.status,
            ended: self.ended,
        }
    }

    pub closed spec fn spec_name(&self) -> Seq<char> {
        self.name@
    }

    /// Starts a span for `op`, relating it to `upstream` as the policy says.
    pub fn start(op: OperationKind, name: String, upstream: TraceContext, ids: SpanIds) -> (r: Span)
        ensures
            r.view() == started(op, upstream, ids),
            r.spec_name() == name@,
    {
        let kind = kind_for(op);
        let relation = relation_for(op);
        let root = TraceContext::new(ids.trace_id, ids.span_id, ids.trace_flags);
        let mut links: Vec<TraceContext> = Vec::new();
        if upstream.is_valid() {
            match relation {
                Relation::Child => {
                    let context = TraceContext::new(upstream.trace_id, ids.span_id, upstream.trace_flags);
                    let r = Span {
                        name,
                        kind,
                        context,
                        parent: Some(upstream),
                        links,
                        attributes: Vec::new(),
                        status: SpanStatus::Unset,
                        ended: false,
                    };
                    assert(r.view().links =~= started(op, upstream, ids).links);
                    assert(r.view().attributes =~= started(op, upstream, ids).attributes);
                    return r;
                },
                Relation::Linked => {
                    links.push(upstream);
                },
            }
        }
        let r = Span {
            name,
            kind,
            context: root,
            parent: None,
            links,
            attributes: Vec::new(),
            status: SpanStatus::Unset,
            ended: false,
        };
        assert(r.view().links =~= started(op, upstream, ids).links);
        assert(r.view().attributes =~= started(op, upstream, ids).attributes);
        r
    }

    pub fn name(&self) -> (r: &String)
        ensures
            r@ == self.spec_name(),
    {
        &self.name
    }

    pub fn kind(&self) -> (r: SpanKind)
        ensures
            r == self.view().kind,
    {
        self.kind
    }

    /// The span's own context, which is what gets propagated downstream.
    pub fn context(&self) -> (r: TraceContext)
        ensures
            r == self.view().context,
    {
        self.context
    }

    pub fn parent(&self) -> (r: Option<TraceContext>)
        ensures
            r == self.view().parent,
    {
        self.parent
    }

    pub fn links(&self) -> (r: &Vec<TraceContext>)
        ensures
            r@ == self.view().links,
    {
        &self.links
    }

    pub fn attributes(&self) -> (r: &Vec<(String, String)>)
        ensures
            pairs_view(r@) == self.view().attributes,
    {
        &self.attributes
    }

    pub fn status(&self) -> (r: SpanStatus)
        ensures
            r == self.view().status,
    {
        self.status
    }

    pub fn is_ended(&self) -> (r: bool)
        ensures
            r == self.view().ended,
    {
        self.ended
    }

    /// Records an attribute while the span is open; does nothing once it has ended.
    pub fn set_attribute(&mut self, key: String, value: String)
        ensures
            final(self).spec_name() == old(self).spec_name(),
            final(self).view() == (if old(self).view().ended {
                old(self).view()
            } else {
                SpanView {
                    attributes: old(self).view().attributes.push((key@, value@)),
                    ..old(self).view()
                }
            }),
    {
        if !self.ended {
            let ghost before = self.attributes@;
            self.attributes.push((key, value));
            assert(pairs_view(self.attributes@) =~= pairs_view(before).push((key@, value@)));
        }
    }

    /// Adds a link to a valid context while the span is open; otherwise does nothing.
    pub fn add_link(&mut self, target: TraceContext)
        ensures
            final(self).spec_name() == old(self).spec_name(),
            final(self).view() == (if old(self).view().ended || !target.spec_is_valid() {
                old(self).view()
            } else {
                SpanView { links: old(self).view().links.push(target), ..old(self).view() }
            }),
    {
        if !self.ended && target.is_valid() {
            self.links.push(target);
        }
    }

    /// Ends the span with `status`. Ending an ended span changes nothing: it is never
    /// reopened.
    pub fn end(&mut self, status: SpanStatus)
        ensures
            final(self).spec_name() == old(self).spec_name(),
            final(self).view() == (if old(self).view().ended {
                old(self).view()
            } else {
                SpanView { status, ended: true, ..old(self).view() }
            }),
    {
        if !self.ended {
            self.status = status;
            self.ended = true;
        }
    }

    /// Ends the span when its work finished: with `Success` on success and `Error` on failure.
    pub fn end_with_outcome(&mut self, succeeded: bool)
        ensures
            final(self).spec_name() == old(self).spec_name(),
            final(self).view() == (if old(self).view().ended {
                old(self).view()
            } else {
                SpanView {
                    status: if succeeded { SpanStatus::Success } else { SpanStatus::Error },
                    ended: true,
                    ..old(self).view()
                }
            }),
    {
        if succeeded {
            self.end(SpanStatus::Success);
        } else {
            self.end(SpanStatus::Error);
        }
    }
}

/// A span started by consuming a message produced under a valid context `p` has no parent
/// and exactly one link, to `p`.
pub proof fn lemma_consumer_links_not_parents(p: TraceContext, ids: SpanIds)
    requires
        p.spec_is_valid(),
    ensures
        started(OperationKind::MessageConsume, p, ids).parent is None,
        started(OperationKind::MessageConsume, p, ids).parent != Some(p),
        started(OperationKind::MessageConsume, p, ids).links == seq![p],
        started(OperationKind::MessageConsume, p, ids).context.trace_id == ids.trace_id,
{
}

/// A span started for a synchronous operation under a valid context `p` is its child: same
/// trace, parent `p`, no links.
pub proof fn lemma_synchronous_spans_are_children(op: OperationKind, p: TraceContext, ids: SpanIds)
    requires
        p.spec_is_valid(),
        op != OperationKind::MessageConsume,
    ensures
        started(op, p, ids).parent == Some(p),
        started(op, p, ids).context.trace_id == p.trace_id,
        started(op, p, ids).context.span_id == ids.span_id,
        started(op, p, ids).links.len() == 0,
{
}

/// Without a valid upstream context a span is a plain root: no parent and no link.
pub proof fn lemma_no_context_gives_root(op: OperationKind, upstream: TraceContext, ids: SpanIds)
    requires
        !upstream.spec_is_valid(),
    ensures
        started(op, upstream, ids).parent is None,
        started(op, upstream, ids).links.len() == 0,
        started(op, upstream, ids).context.trace_id == ids.trace_id,
{
}

} // verus!
