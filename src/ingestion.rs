//! The book-ingestion message channel: producing a message with the active trace context
//! in its headers, and consuming it under a new root span linked to that context.
use vstd::prelude::*;
use crate::carrier::{pairs_view, HeaderExtractor, PairView, VecInjector};
use crate::context::TraceContext;
use crate::hex::{decimal_text, push_decimal, push_char};
use crate::propagation::{extracted_context, injected_pairs, Propagator};
use crate::span::{started, OperationKind, Span, SpanIds, SpanStatus, SpanView};

verus! {

/// The body of a book-ingestion message.
#[derive(Clone, Copy, Debug, PartialEq, Eq, Structural)]
pub struct BookIngestionMessage {
    pub book_id: i32,
}

/// The topic the messages travel on.
pub open spec fn ingestion_topic() -> Seq<char> {
    seq!['b', 'o', 'o', 'k', '_', 'i', 'n', 'g', 'e', 's', 't', 'i', 'o', 'n']
}

/// The record key of the message for book `id`: `key-{id}`.
pub open spec fn record_key_text(id: int) -> Seq<char> {
    seq!['k', 'e', 'y', '-'] + decimal_text(id)
}

/// Everything about an outgoing message but its payload.
pub struct OutgoingMessage {
    pub topic: String,
    pub key: String,
    pub headers: Vec<(String, String)>,
}

fn topic_name() -> (r: String)
    ensures
        r@ == ingestion_topic(),
{
    proof {
        reveal_strlit("book_ingestion");
    }
    let t = "book_ingestion";
    assert(t@ =~= ingestion_topic());
    t.to_owned()
}

impl BookIngestionMessage {
    /// The record key: `key-` followed by the book id in decimal.
    pub fn record_key(&self) -> (r: String)
        ensures
            r@ == record_key_text(self.book_id as int),
    {
        let mut s = String::new();
        push_char(&mut s, 'k');
        push_char(&mut s, 'e');
        push_char(&mut s, 'y');
        push_char(&mut s, '-');
        push_decimal(&mut s, self.book_id as i64);
        assert(s@ =~= record_key_text(self.book_id as int));
        s
    }
}

/// The envelope of the message announcing `message`, with `ctx` injected into its headers.
pub fn prepare_ingestion_message(
    propagator: &Propagator,
    ctx: &TraceContext,
    message: &BookIngestionMessage,
) -> (r: OutgoingMessage)
    ensures
        r.topic@ == ingestion_topic(),
        r.key@ == record_key_text(message.book_id as int),
        pairs_view(r.headers@) == injected_pairs(*ctx),
{
    let mut injector = VecInjector::new();
    propagator.inject(ctx, &mut injector);
    assert(Seq::<PairView>::empty() + injected_pairs(*ctx) =~= injected_pairs(*ctx));
    OutgoingMessage {
        topic: topic_name(),
        key: message.record_key(),
        headers: injector.into_owned_headers(),
    }
}

/// Starts the span for consuming a received message: a new root span named after the
/// topic, linked to the context found in the message headers.
pub fn begin_consumption(propagator: &Propagator, headers: &HeaderExtractor, ids: SpanIds) -> (r: Span)
    ensures
        r.view() == started(OperationKind::MessageConsume, extracted_context(headers.view()), ids),
        r.spec_name() == ingestion_topic(),
{
    let upstream = propagator.extract(headers);
    Span::start(OperationKind::MessageConsume, topic_name(), upstream, ids)
}

/// Ends the consumption span once the payload has been decoded or has failed to decode,
/// and gives the book to process, if any. A payload that failed to decode ends the span
/// with an error status before the failure is reported.
pub fn finish_consumption(span: &mut Span, decoded: Option<BookIngestionMessage>) -> (r: Option<i32>)
    ensures
        r == (match decoded {
            Some(m) => Some(m.book_id),
            None => None::<i32>,
        }),
        final(span).spec_name() == old(span).spec_name(),
        final(span).view() == (if old(span).view().ended {
            old(span).view()
        } else {
            SpanView {
                status: if decoded is Some { SpanStatus::Success } else { SpanStatus::Error },
                ended: true,
                ..old(span).view()
            }
        }),
{
    match decoded {
        Some(m) => {
            span.end(SpanStatus::Success);
            Some(m.book_id)
        },
        None => {
            span.end(SpanStatus::Error);
            None
        },
    }
}

} // verus!
