//! Assembly and lifecycle of the telemetry pipeline: the fixed order of the event-sink
//! chain, its one-time installation, and an ordered shutdown that tries every exporter.
use vstd::prelude::*;
use crate::carrier::opt_view;

verus! {

/// The stages of the event-processing chain.
#[derive(Clone, Copy, Debug, PartialEq, Eq, Structural)]
pub enum Sink {
    /// Opens spans and establishes the active trace context.
    TraceContext,
    /// Copies the active trace identity into the error-reporting scope.
    Correlation,
    /// The error-reporting pipeline's capture step.
    ErrorCapture,
    /// Ships log records to the collector.
    LogExport,
    /// Turns span fields into metrics.
    MetricExport,
    /// Writes formatted events to standard output.
    Console,
}

/// The order in which events flow through the sinks.
pub open spec fn chain_order() -> Seq<Sink> {
    seq![
        Sink::TraceContext,
        Sink::Correlation,
        Sink::ErrorCapture,
        Sink::LogExport,
        Sink::MetricExport,
        Sink::Console,
    ]
}

/// The event-sink chain, in the order events must pass through it: the context-establishing
/// stage, then the correlation bridge, then error capture, then every other sink.
pub fn event_chain() -> (r: Vec<Sink>)
    ensures
        r@ == chain_order(),
        r@[0] == Sink::TraceContext,
        r@[1] == Sink::Correlation,
        r@[2] == Sink::ErrorCapture,
        forall|i: int, j: int| 0 <= i < j < r@.len() ==> r@[i] != r@[j],
{
    let r = vec![
        Sink::TraceContext,
        Sink::Correlation,
        Sink::ErrorCapture,
        Sink::LogExport,
        Sink::MetricExport,
        Sink::Console,
    ];
    assert(r@ =~= chain_order());
    r
}

/// Why installing the pipeline was refused.
#[derive(Clone, Copy, Debug, PartialEq, Eq, Structural)]
pub enum InstallError {
    AlreadyInstalled,
}

/// Guards the one installation of the process-wide event sink.
pub struct Installation {
    installed: bool,
}

impl Installation {
    pub closed spec fn spec_installed(&self) -> bool {
        self.installed
    }

    pub fn new() -> (r: Installation)
        ensures
            !r.spec_installed(),
    {
        Installation { installed: false }
    }

    pub fn is_installed(&self) -> (r: bool)
        ensures
            r == self.spec_installed(),
    {
        self.installed
    }

    /// Claims the installation: granted the first time, refused every later time.
    pub fn claim(&mut self) -> (r: Result<(), InstallError>)
        ensures
            final(self).spec_installed(),
            r == (if old(self).spec_installed() {
                Err::<(), InstallError>(InstallError::AlreadyInstalled)
            } else {
                Ok(())
            }),
    {
        if self.installed {
            Err(InstallError::AlreadyInstalled)
        } else {
            self.installed = true;
            Ok(())
        }
    }
}

/// The exporters, one per signal.
#[derive(Clone, Copy, Debug, PartialEq, Eq, Structural)]
pub enum Exporter {
    Traces,
    Metrics,
    Logs,
}

/// The failures among recorded shutdown outcomes, each with its exporter, in order.
pub open spec fn failures_of(order: Seq<Exporter>, outcomes: Seq<Option<Seq<char>>>) -> Seq<(Exporter, Seq<char>)>
    decreases outcomes.len(),
{
    if outcomes.len() == 0 {
        Seq::empty()
    } else {
        let rest = failures_of(order, outcomes.drop_last());
        match outcomes.last() {
            Some(e) => rest.push((order[outcomes.len() - 1], e)),
            None => rest,
        }
    }
}

/// An ordered shutdown: each exporter is flushed and closed in turn, and a failure of one
/// is kept for reporting without keeping the later ones from being tried.
pub struct Shutdown {
    order: Vec<Exporter>,
    /// One entry per exporter tried so far: the error it reported, if any.
    outcomes: Vec<Option<String>>,
}

impl Shutdown {
    pub closed spec fn order(&self) -> Seq<Exporter> {
        self.order@
    }

    /// What each exporter tried so far reported (`None` for success).
    pub closed spec fn outcomes(&self) -> Seq<Option<Seq<char>>> {
        self.outcomes@.map_values(|o: Option<String>| opt_view(o))
    }

    pub closed spec fn wf(&self) -> bool {
        self.outcomes@.len() <= self.order@.len()
    }

    /// A shutdown of the given exporters, in the given order.
    pub fn new(order: Vec<Exporter>) -> (r: Shutdown)
        ensures
            r.wf(),
            r.order() == order@,
            r.outcomes() == Seq::<Option<Seq<char>>>::empty(),
    {
        let r = Shutdown { order, outcomes: Vec::new() };
        assert(r.outcomes() =~= Seq::<Option<Seq<char>>>::empty());
        r
    }

    /// Traces first, then metrics, then logs.
    pub fn standard() -> (r: Shutdown)
        ensures
            r.wf(),
            r.order() == seq![Exporter::Traces, Exporter::Metrics, Exporter::Logs],
            r.outcomes() == Seq::<Option<Seq<char>>>::empty(),
    {
        let order = vec![Exporter::Traces, Exporter::Metrics, Exporter::Logs];
        assert(order@ =~= seq![Exporter::Traces, Exporter::Metrics, Exporter::Logs]);
        Shutdown::new(order)
    }

    /// The exporter to shut down next, or `None` once every one has been tried.
    pub fn next_exporter(&self) -> (r: Option<Exporter>)
        requires
            self.wf(),
        ensures
            r == (if self.outcomes().len() < self.order().len() {
                Some(self.order()[self.outcomes().len() as int])
            } else {
                None::<Exporter>
            }),
    {
        if self.outcomes.len() < self.order.len() {
            Some(self.order[self.outcomes.len()])
        } else {
            None
        }
    }

    /// Records what the exporter returned by `next_exporter` reported. Whatever it was, the
    /// shutdown moves on to the next exporter.
    pub fn record(&mut self, result: Result<(), String>)
        requires
            old(self).wf(),
            old(self).outcomes().len() < old(self).order().len(),
        ensures
            final(self).wf(),
            final(self).order() == old(self).order(),
            final(self).outcomes() == old(self).outcomes().push(
                match result {
                    Ok(()) => None::<Seq<char>>,
                    Err(e) => Some(e@),
                },
            ),
    {
        let ghost before = self.outcomes@;
        match result {
            Ok(()) => self.outcomes.push(None),
            Err(e) => self.outcomes.push(Some(e)),
        }
        assert(self.outcomes@.map_values(|o: Option<String>| opt_view(o)) =~= before.map_values(
            |o: Option<String>| opt_view(o),
        ).push(
            match result {
                Ok(()) => None::<Seq<char>>,
                Err(e) => Some(e@),
            },
        ));
    }

    /// Whether every exporter has been tried.
    pub fn is_complete(&self) -> (r: bool)
        requires
            self.wf(),
        ensures
            r == (self.outcomes().len() == self.order().len()),
    {
        self.outcomes.len() == self.order.len()
    }

    /// How many exporters have been tried.
    pub fn attempted(&self) -> (r: usize)
        ensures
            r == self.outcomes().len(),
    {
        self.outcomes.len()
    }

    /// The failures so far, each with its exporter, in the order they happened.
    pub fn failures(&self) -> (r: Vec<(Exporter, String)>)
        requires
            self.wf(),
        ensures
            r@.len() == failures_of(self.order(), self.outcomes()).len(),
            forall|i: int| 0 <= i < r@.len() ==> ((#[trigger] r@[i]).0, r@[i].1@) == failures_of(
                self.order(),
                self.outcomes(),
            )[i],
    {
        let mut out: Vec<(Exporter, String)> = Vec::new();
        let mut i: usize = 0;
        while i < self.outcomes.len()
            invariant
                i <= self.outcomes@.len(),
                self.wf(),
                out@.len() == failures_of(self.order(), self.outcomes().take(i as int)).len(),
                forall|j: int| 0 <= j < out@.len() ==> ((#[trigger] out@[j]).0, out@[j].1@)
                    == failures_of(self.order(), self.outcomes().take(i as int))[j],
            decreases self.outcomes@.len() - i,
        {
            proof {
                assert(self.outcomes().take(i + 1).drop_last() =~= self.outcomes().take(i as int));
                assert(self.outcomes().take(i + 1).last() == opt_view(self.outcomes@[i as int]));
            }
            match &self.outcomes[i] {
                Some(e) => {
                    out.push((self.order[i], e.clone()));
                },
                None => {},
            }
            i = i + 1;
        }
        assert(self.outcomes().take(self.outcomes@.len() as int) =~= self.outcomes());
        out
    }
}

/// A failed exporter never hides a later one: every exporter is tried, and the failures
/// reported are exactly the errors returned, each with its exporter.
pub proof fn lemma_failures_are_reported(
    order: Seq<Exporter>,
    outcomes: Seq<Option<Seq<char>>>,
    k: int,
)
    requires
        0 <= k < outcomes.len(),
        outcomes[k] is Some,
    ensures
        exists|i: int|
            0 <= i < failures_of(order, outcomes).len() && #[trigger] failures_of(order, outcomes)[i]
                == (order[k], outcomes[k]->0),
    decreases outcomes.len(),
{
    if k == outcomes.len() - 1 {
        let f = failures_of(order, outcomes);
        assert(f[f.len() - 1] == (order[k], outcomes[k]->0));
    } else {
        let p = outcomes.drop_last();
        assert(p[k] == outcomes[k]);
        lemma_failures_are_reported(order, p, k);
        let i = choose|i: int|
            0 <= i < failures_of(order, p).len() && #[trigger] failures_of(order, p)[i] == (
            order[k], p[k]->0);
        assert(failures_of(order, outcomes)[i] == failures_of(order, p)[i]);
    }
}

} // verus!
