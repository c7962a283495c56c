//! Storing the metrics of one benchmark of one iteration of a report.
//!
//! The benchmark's id is looked up, a perf row is inserted for it under a
//! fresh UUID and its id read back by that UUID; then, for each metric in turn, the id of its kind is looked
//! up, the metric is inserted, and the threshold detectors are run on it.
//! The first error stops everything and is handed back. The database work
//! is done by the caller: `MetricsInsert` decides, from each outcome it is
//! handed, what to do next.

use vstd::prelude::*;

use crate::outside::{is_uuid_v4_text, new_v4_text};

verus! {

/// The metrics of a report, tied to the report's id.
#[derive(Debug, Clone, Copy)]
pub struct Metrics {
    pub report_id: i32,
}

/// What the caller found when it did what the insertion asked: an id
/// looked up or read back, or whether a write or detection went through.
#[derive(Debug)]
pub enum InsertEvent<E> {
    Id(Result<i32, E>),
    Done(Result<(), E>),
}

/// What the insertion asks the caller to do next.
#[derive(Debug)]
pub enum InsertAction<E> {
    /// Look up the id of the benchmark named `name`.
    LookupBenchmark { name: String },
    /// Insert a perf row for the report, iteration and benchmark, under
    /// the UUID `uuid`.
    InsertPerf { report_id: i32, iteration: usize, benchmark_id: i32, uuid: String },
    /// Read back the id of the perf row with the UUID `uuid`.
    QueryPerfId { uuid: String },
    /// Look up the id of the kind `key` of the metric at `index`.
    LookupMetricKind { index: usize, key: String },
    /// Insert the metric at `index` for the perf row, as of that kind.
    InsertMetric { perf_id: i32, metric_kind_id: i32, index: usize },
    /// Run the threshold detectors on the metric at `index`.
    Detect { perf_id: i32, benchmark_id: i32, metric_kind_id: i32, index: usize },
    /// Stop: everything went through, or this error came up.
    Finish(Result<(), E>),
}

/// An `InsertAction` with its texts taken by their characters and its
/// indices as natural numbers.
pub enum InsertActionView<E> {
    LookupBenchmark { name: Seq<char> },
    InsertPerf { report_id: i32, iteration: usize, benchmark_id: i32, uuid: Seq<char> },
    QueryPerfId { uuid: Seq<char> },
    LookupMetricKind { index: nat, key: Seq<char> },
    InsertMetric { perf_id: i32, metric_kind_id: i32, index: nat },
    Detect { perf_id: i32, benchmark_id: i32, metric_kind_id: i32, index: nat },
    Finish(Result<(), E>),
}

impl<E> View for InsertAction<E> {
    type V = InsertActionView<E>;

    open spec fn view(&self) -> InsertActionView<E> {
        match self {
            InsertAction::LookupBenchmark { name } => InsertActionView::LookupBenchmark { name: name@ },
            InsertAction::InsertPerf { report_id, iteration, benchmark_id, uuid } => InsertActionView::InsertPerf {
                report_id: *report_id,
                iteration: *iteration,
                benchmark_id: *benchmark_id,
                uuid: uuid@,
            },
            InsertAction::QueryPerfId { uuid } => InsertActionView::QueryPerfId { uuid: uuid@ },
            InsertAction::LookupMetricKind { index, key } => InsertActionView::LookupMetricKind {
                index: *index as nat,
                key: key@,
            },
            InsertAction::InsertMetric { perf_id, metric_kind_id, index } => InsertActionView::InsertMetric {
                perf_id: *perf_id,
                metric_kind_id: *metric_kind_id,
                index: *index as nat,
            },
            InsertAction::Detect { perf_id, benchmark_id, metric_kind_id, index } => InsertActionView::Detect {
                perf_id: *perf_id,
                benchmark_id: *benchmark_id,
                metric_kind_id: *metric_kind_id,
                index: *index as nat,
            },
            InsertAction::Finish(r) => InsertActionView::Finish(*r),
        }
    }
}

/// Where the insertion stands: what it waits for, and the ids it has.
pub enum InsertStateView {
    AwaitBenchmarkId,
    AwaitPerfInsert { benchmark_id: i32 },
    AwaitPerfId { benchmark_id: i32 },
    AwaitMetricKindId { benchmark_id: i32, perf_id: i32, index: nat },
    AwaitMetricInsert { benchmark_id: i32, perf_id: i32, index: nat, metric_kind_id: i32 },
    AwaitDetect { benchmark_id: i32, perf_id: i32, index: nat, metric_kind_id: i32 },
    Finished,
}

/// The insertion of the metrics of one benchmark of one iteration: the
/// report, the iteration, the UUID of its perf row, the benchmark's name,
/// the kinds of its metrics in the order they are stored, and where it
/// stands.
pub struct InsertMachineView {
    pub report_id: i32,
    pub iteration: usize,
    pub perf_uuid: Seq<char>,
    pub benchmark_name: Seq<char>,
    pub kinds: Seq<Seq<char>>,
    pub state: InsertStateView,
}

/// Whether the insertion, standing at `s`, can take `e`.
pub open spec fn insert_accepts<E>(s: InsertStateView, e: InsertEvent<E>) -> bool {
    match s {
        InsertStateView::AwaitBenchmarkId => e is Id,
        InsertStateView::AwaitPerfInsert { .. } => e is Done,
        InsertStateView::AwaitPerfId { .. } => e is Id,
        InsertStateView::AwaitMetricKindId { .. } => e is Id,
        InsertStateView::AwaitMetricInsert { .. } => e is Done,
        InsertStateView::AwaitDetect { .. } => e is Done,
        InsertStateView::Finished => false,
    }
}

/// The move to the metric at `index`: look up its kind, or, past the last
/// metric, finish.
pub open spec fn insert_metric_from<E>(kinds: Seq<Seq<char>>, benchmark_id: i32, perf_id: i32, index: nat) -> (
    InsertStateView,
    InsertActionView<E>,
) {
    if index < kinds.len() {
        (
            InsertStateView::AwaitMetricKindId { benchmark_id, perf_id, index },
            InsertActionView::LookupMetricKind { index, key: kinds[index as int] },
        )
    } else {
        (InsertStateView::Finished, InsertActionView::Finish(Ok(())))
    }
}

/// One move of the insertion `m`: from its state and the outcome `e` of
/// the last action, the next state and action.
pub open spec fn insert_next<E>(m: InsertMachineView, e: InsertEvent<E>) -> (InsertStateView, InsertActionView<E>) {
    match (m.state, e) {
        (InsertStateView::AwaitBenchmarkId, InsertEvent::Id(Ok(benchmark_id))) => (
            InsertStateView::AwaitPerfInsert { benchmark_id },
            InsertActionView::InsertPerf {
                report_id: m.report_id,
                iteration: m.iteration,
                benchmark_id,
                uuid: m.perf_uuid,
            },
        ),
        (InsertStateView::AwaitPerfInsert { benchmark_id }, InsertEvent::Done(Ok(_))) => (
            InsertStateView::AwaitPerfId { benchmark_id },
            InsertActionView::QueryPerfId { uuid: m.perf_uuid },
        ),
        (InsertStateView::AwaitPerfId { benchmark_id }, InsertEvent::Id(Ok(perf_id))) =>
            insert_metric_from(m.kinds, benchmark_id, perf_id, 0),
        (InsertStateView::AwaitMetricKindId { benchmark_id, perf_id, index }, InsertEvent::Id(Ok(metric_kind_id))) => (
            InsertStateView::AwaitMetricInsert { benchmark_id, perf_id, index, metric_kind_id },
            InsertActionView::InsertMetric { perf_id, metric_kind_id, index },
        ),
        (InsertStateView::AwaitMetricInsert { benchmark_id, perf_id, index, metric_kind_id }, InsertEvent::Done(Ok(_))) => (
            InsertStateView::AwaitDetect { benchmark_id, perf_id, index, metric_kind_id },
            InsertActionView::Detect { perf_id, benchmark_id, metric_kind_id, index },
        ),
        (InsertStateView::AwaitDetect { benchmark_id, perf_id, index, metric_kind_id }, InsertEvent::Done(Ok(_))) =>
            insert_metric_from(m.kinds, benchmark_id, perf_id, index + 1),
        (_, InsertEvent::Id(Err(err))) => (InsertStateView::Finished, InsertActionView::Finish(Err(err))),
        (_, InsertEvent::Done(Err(err))) => (InsertStateView::Finished, InsertActionView::Finish(Err(err))),
        (_, _) => (InsertStateView::Finished, InsertActionView::Finish(Ok(()))),
    }
}


/// What the database gives: the ids it looks up or reads back, and whether
/// each write and detection goes through.
pub struct InsertWorld<E> {
    pub benchmark_id: spec_fn(Seq<char>) -> Result<i32, E>,
    pub insert_perf: spec_fn(i32, usize, i32, Seq<char>) -> Result<(), E>,
    pub perf_id: spec_fn(Seq<char>) -> Result<i32, E>,
    pub metric_kind_id: spec_fn(Seq<char>) -> Result<i32, E>,
    pub insert_metric: spec_fn(i32, i32, nat) -> Result<(), E>,
    pub detect: spec_fn(i32, i32, i32, nat) -> Result<(), E>,
}

/// The outcome that the world `w` gives of the action `a`.
pub open spec fn insert_respond<E>(w: InsertWorld<E>, a: InsertActionView<E>) -> InsertEvent<E> {
    match a {
        InsertActionView::LookupBenchmark { name } => InsertEvent::Id((w.benchmark_id)(name)),
        InsertActionView::InsertPerf { report_id, iteration, benchmark_id, uuid } => InsertEvent::Done(
            (w.insert_perf)(report_id, iteration, benchmark_id, uuid),
        ),
        InsertActionView::QueryPerfId { uuid } => InsertEvent::Id((w.perf_id)(uuid)),
        InsertActionView::LookupMetricKind { index, key } => InsertEvent::Id((w.metric_kind_id)(key)),
        InsertActionView::InsertMetric { perf_id, metric_kind_id, index } => InsertEvent::Done(
            (w.insert_metric)(perf_id, metric_kind_id, index),
        ),
        InsertActionView::Detect { perf_id, benchmark_id, metric_kind_id, index } => InsertEvent::Done(
            (w.detect)(perf_id, benchmark_id, metric_kind_id, index),
        ),
        InsertActionView::Finish(_) => InsertEvent::Done(Ok(())),
    }
}

/// The insertion `m` run against the world `w` for at most `fuel` rounds
/// from the pending action `a`: the last action, the actions performed
/// before it in order, and whether every outcome handed over was accepted.
pub open spec fn insert_run<E>(m: InsertMachineView, a: InsertActionView<E>, w: InsertWorld<E>, fuel: nat) -> (
    InsertActionView<E>,
    Seq<InsertActionView<E>>,
    bool,
)
    decreases fuel,
{
    if fuel == 0 || a is Finish {
        (a, Seq::empty(), true)
    } else {
        let e = insert_respond(w, a);
        let (s2, a2) = insert_next(m, e);
        let (last, performed, accepted) = insert_run(
            InsertMachineView { state: s2, ..m },
            a2,
            w,
            (fuel - 1) as nat,
        );
        (last, seq![a] + performed, accepted && insert_accepts(m.state, e))
    }
}

/// Storing the metrics of `kinds` from `index` on, for the benchmark and
/// perf row given: the outcome, and the actions performed, in order. For
/// each metric its kind is looked up, it is inserted, and the detectors
/// run on it; the first error stops everything.
pub open spec fn insert_metrics_outcome<E>(
    kinds: Seq<Seq<char>>,
    benchmark_id: i32,
    perf_id: i32,
    index: nat,
    w: InsertWorld<E>,
) -> (Result<(), E>, Seq<InsertActionView<E>>)
    decreases kinds.len() - index,
{
    if index >= kinds.len() {
        (Ok(()), Seq::empty())
    } else {
        let lookup = InsertActionView::LookupMetricKind { index, key: kinds[index as int] };
        match (w.metric_kind_id)(kinds[index as int]) {
            Err(e) => (Err(e), seq![lookup]),
            Ok(metric_kind_id) => {
                let insert = InsertActionView::InsertMetric { perf_id, metric_kind_id, index };
                match (w.insert_metric)(perf_id, metric_kind_id, index) {
                    Err(e) => (Err(e), seq![lookup, insert]),
                    Ok(_) => {
                        let detect = InsertActionView::Detect { perf_id, benchmark_id, metric_kind_id, index };
                        match (w.detect)(perf_id, benchmark_id, metric_kind_id, index) {
                            Err(e) => (Err(e), seq![lookup, insert, detect]),
                            Ok(_) => {
                                let (r, rest) = insert_metrics_outcome(kinds, benchmark_id, perf_id, index + 1, w);
                                (r, seq![lookup, insert, detect] + rest)
                            },
                        }
                    },
                }
            },
        }
    }
}

/// Storing the metrics of the insertion `m` in the world `w`: the outcome
/// and the actions performed, in order. The benchmark's id is looked up,
/// its perf row inserted under the insertion's UUID and its id read back by
/// that UUID, then the metrics are stored
/// one by one; the first error stops everything and is the outcome.
pub open spec fn insert_outcome<E>(m: InsertMachineView, w: InsertWorld<E>) -> (Result<(), E>, Seq<InsertActionView<E>>) {
    let lookup = InsertActionView::LookupBenchmark { name: m.benchmark_name };
    match (w.benchmark_id)(m.benchmark_name) {
        Err(e) => (Err(e), seq![lookup]),
        Ok(benchmark_id) => {
            let insert = InsertActionView::InsertPerf {
                report_id: m.report_id,
                iteration: m.iteration,
                benchmark_id,
                uuid: m.perf_uuid,
            };
            match (w.insert_perf)(m.report_id, m.iteration, benchmark_id, m.perf_uuid) {
                Err(e) => (Err(e), seq![lookup, insert]),
                Ok(_) => {
                    let query = InsertActionView::QueryPerfId { uuid: m.perf_uuid };
                    match (w.perf_id)(m.perf_uuid) {
                        Err(e) => (Err(e), seq![lookup, insert, query]),
                        Ok(perf_id) => {
                            let (r, rest) = insert_metrics_outcome(m.kinds, benchmark_id, perf_id, 0, w);
                            (r, seq![lookup, insert, query] + rest)
                        },
                    }
                },
            }
        },
    }
}

proof fn lemma_insert_metrics_run<E>(m: InsertMachineView, benchmark_id: i32, perf_id: i32, index: nat, w: InsertWorld<E>)
    requires
        index <= m.kinds.len(),
    ensures
        ({
            let (s, a) = insert_metric_from::<E>(m.kinds, benchmark_id, perf_id, index);
            let out = insert_metrics_outcome(m.kinds, benchmark_id, perf_id, index, w);
            insert_run(InsertMachineView { state: s, ..m }, a, w, (3 * (m.kinds.len() - index)) as nat)
                == (InsertActionView::Finish(out.0), out.1, true)
        }),
    decreases m.kinds.len() - index,
{
    reveal_with_fuel(insert_run, 4);
    if index < m.kinds.len() {
        lemma_insert_metrics_run(m, benchmark_id, perf_id, index + 1, w);
        let (s, a) = insert_metric_from::<E>(m.kinds, benchmark_id, perf_id, index);
        let out = insert_metrics_outcome(m.kinds, benchmark_id, perf_id, index, w);
        let (s1, a1) = insert_metric_from::<E>(m.kinds, benchmark_id, perf_id, index + 1);
        let out1 = insert_metrics_outcome(m.kinds, benchmark_id, perf_id, index + 1, w);
        let fuel = (3 * (m.kinds.len() - index)) as nat;
        let r = insert_run(InsertMachineView { state: s, ..m }, a, w, fuel);
        match (w.metric_kind_id)(m.kinds[index as int]) {
            Err(e) => {},
            Ok(k) => match (w.insert_metric)(perf_id, k, index) {
                Err(e) => {},
                Ok(_) => match (w.detect)(perf_id, benchmark_id, k, index) {
                    Err(e) => {},
                    Ok(_) => {
                        assert(r.1 =~= seq![a] + (seq![
                            InsertActionView::InsertMetric { perf_id, metric_kind_id: k, index },
                            InsertActionView::Detect { perf_id, benchmark_id, metric_kind_id: k, index },
                        ] + out1.1));
                        assert(out.1 =~= r.1);
                    },
                },
            },
        }
    }
}

/// Storing the metrics of a benchmark, run from its start against any
/// database, accepts every outcome it is handed, finishes within three
/// rounds plus three per metric, and performs exactly the actions of
/// `insert_outcome`, in order: the first error stops it and is its
/// outcome, and where none comes every metric is inserted and checked by
/// the detectors, in the order given.
pub proof fn lemma_insert_follows_order<E>(m: InsertMachineView, w: InsertWorld<E>)
    requires
        m.state == InsertStateView::AwaitBenchmarkId,
    ensures
        insert_run(
            m,
            InsertActionView::LookupBenchmark { name: m.benchmark_name },
            w,
            (3 + 3 * m.kinds.len()) as nat,
        ) == (InsertActionView::Finish(insert_outcome(m, w).0), insert_outcome(m, w).1, true),
{
    reveal_with_fuel(insert_run, 4);
    match (w.benchmark_id)(m.benchmark_name) {
        Err(e) => {},
        Ok(b) => match (w.insert_perf)(m.report_id, m.iteration, b, m.perf_uuid) {
            Err(e) => {},
            Ok(_) => match (w.perf_id)(m.perf_uuid) {
                Err(e) => {},
                Ok(p) => {
                    lemma_insert_metrics_run(m, b, p, 0, w);
                    let r = insert_run(
                        m,
                        InsertActionView::LookupBenchmark { name: m.benchmark_name },
                        w,
                        (3 + 3 * m.kinds.len()) as nat,
                    );
                    assert(r.1 =~= insert_outcome(m, w).1);
                },
            },
        },
    }
}

/// Each write uses the ids just received: the perf row goes in for the
/// report, iteration and looked-up benchmark under the insertion's UUID,
/// its id is read back by that UUID, each metric is inserted for the perf
/// id read back and the kind id just looked up, and the detectors run on it
/// with the benchmark's id; after the last metric the insertion finishes,
/// and any error ends it with that error.
pub proof fn lemma_insert_uses_ids<E>(m: InsertMachineView, b: i32, p: i32, k: i32, i: nat, err: E)
    ensures
        m.state == InsertStateView::AwaitBenchmarkId ==> insert_next(m, InsertEvent::<E>::Id(Ok(b))).1
            == (InsertActionView::<E>::InsertPerf {
                report_id: m.report_id,
                iteration: m.iteration,
                benchmark_id: b,
                uuid: m.perf_uuid,
            }),
        m.state == (InsertStateView::AwaitPerfInsert { benchmark_id: b }) ==> insert_next(
            m,
            InsertEvent::<E>::Done(Ok(())),
        ).1 == (InsertActionView::<E>::QueryPerfId { uuid: m.perf_uuid }),
        m.state == (InsertStateView::AwaitPerfId { benchmark_id: b }) ==> insert_next(m, InsertEvent::<E>::Id(Ok(p))).1
            == (if 0 < m.kinds.len() {
                InsertActionView::<E>::LookupMetricKind { index: 0, key: m.kinds[0] }
            } else {
                InsertActionView::<E>::Finish(Ok(()))
            }),
        m.state == (InsertStateView::AwaitMetricKindId { benchmark_id: b, perf_id: p, index: i }) ==> insert_next(
            m,
            InsertEvent::<E>::Id(Ok(k)),
        ).1 == (InsertActionView::<E>::InsertMetric { perf_id: p, metric_kind_id: k, index: i }),
        m.state == (InsertStateView::AwaitMetricInsert { benchmark_id: b, perf_id: p, index: i, metric_kind_id: k })
            ==> insert_next(m, InsertEvent::<E>::Done(Ok(()))).1 == (InsertActionView::<E>::Detect {
            perf_id: p,
            benchmark_id: b,
            metric_kind_id: k,
            index: i,
        }),
        m.state == (InsertStateView::AwaitDetect { benchmark_id: b, perf_id: p, index: i, metric_kind_id: k })
            ==> insert_next(m, InsertEvent::<E>::Done(Ok(()))).1 == (if i + 1 < m.kinds.len() {
            InsertActionView::<E>::LookupMetricKind { index: i + 1, key: m.kinds[(i + 1) as int] }
        } else {
            InsertActionView::<E>::Finish(Ok(()))
        }),
        insert_next(m, InsertEvent::<E>::Id(Err(err))).1 == InsertActionView::<E>::Finish(Err(err)),
        insert_next(m, InsertEvent::<E>::Done(Err(err))).1 == InsertActionView::<E>::Finish(Err(err)),
{
}

/// Where the insertion stands, with its indices as machine integers.
#[derive(Debug, Clone, Copy)]
enum InsertState {
    AwaitBenchmarkId,
    AwaitPerfInsert { benchmark_id: i32 },
    AwaitPerfId { benchmark_id: i32 },
    AwaitMetricKindId { benchmark_id: i32, perf_id: i32, index: usize },
    AwaitMetricInsert { benchmark_id: i32, perf_id: i32, index: usize, metric_kind_id: i32 },
    AwaitDetect { benchmark_id: i32, perf_id: i32, index: usize, metric_kind_id: i32 },
    Finished,
}

impl View for InsertState {
    type V = InsertStateView;

    closed spec fn view(&self) -> InsertStateView {
        match *self {
            InsertState::AwaitBenchmarkId => InsertStateView::AwaitBenchmarkId,
            InsertState::AwaitPerfInsert { benchmark_id } => InsertStateView::AwaitPerfInsert { benchmark_id },
            InsertState::AwaitPerfId { benchmark_id } => InsertStateView::AwaitPerfId { benchmark_id },
            InsertState::AwaitMetricKindId { benchmark_id, perf_id, index } =>
                InsertStateView::AwaitMetricKindId { benchmark_id, perf_id, index: index as nat },
            InsertState::AwaitMetricInsert { benchmark_id, perf_id, index, metric_kind_id } =>
                InsertStateView::AwaitMetricInsert { benchmark_id, perf_id, index: index as nat, metric_kind_id },
            InsertState::AwaitDetect { benchmark_id, perf_id, index, metric_kind_id } =>
                InsertStateView::AwaitDetect { benchmark_id, perf_id, index: index as nat, metric_kind_id },
            InsertState::Finished => InsertStateView::Finished,
        }
    }
}

/// The kinds of metrics, taken by their characters.
pub open spec fn kinds_view(kinds: Seq<String>) -> Seq<Seq<char>> {
    kinds.map_values(|k: String| k@)
}

/// Whether the metric index of `s`, where it has one, names a metric of
/// `kinds`.
pub open spec fn insert_index_in_range(s: InsertStateView, kinds: Seq<Seq<char>>) -> bool {
    match s {
        InsertStateView::AwaitMetricKindId { index, .. } => index < kinds.len(),
        InsertStateView::AwaitMetricInsert { index, .. } => index < kinds.len(),
        InsertStateView::AwaitDetect { index, .. } => index < kinds.len(),
        _ => true,
    }
}

/// Decides, step by step, how the metrics of one benchmark are stored.
pub struct MetricsInsert {
    report_id: i32,
    iteration: usize,
    perf_uuid: String,
    benchmark_name: String,
    kinds: Vec<String>,
    state: InsertState,
}

impl View for MetricsInsert {
    type V = InsertMachineView;

    closed spec fn view(&self) -> InsertMachineView {
        InsertMachineView {
            report_id: self.report_id,
            iteration: self.iteration,
            perf_uuid: self.perf_uuid@,
            benchmark_name: self.benchmark_name@,
            kinds: kinds_view(self.kinds@),
            state: self.state@,
        }
    }
}

impl MetricsInsert {
    /// Whether the insertion's metric index is in range.
    pub closed spec fn well_formed(&self) -> bool {
        insert_index_in_range(self.state@, self@.kinds)
    }

    /// Whether the insertion can take `event` now.
    pub fn accepts<E>(&self, event: &InsertEvent<E>) -> (b: bool)
        ensures
            b == insert_accepts(self@.state, *event),
    {
        match (&self.state, event) {
            (InsertState::AwaitBenchmarkId, InsertEvent::Id(_)) => true,
            (InsertState::AwaitPerfInsert { .. }, InsertEvent::Done(_)) => true,
            (InsertState::AwaitPerfId { .. }, InsertEvent::Id(_)) => true,
            (InsertState::AwaitMetricKindId { .. }, InsertEvent::Id(_)) => true,
            (InsertState::AwaitMetricInsert { .. }, InsertEvent::Done(_)) => true,
            (InsertState::AwaitDetect { .. }, InsertEvent::Done(_)) => true,
            _ => false,
        }
    }

    fn metric_from<E>(&self, benchmark_id: i32, perf_id: i32, index: usize) -> (res: (InsertState, InsertAction<E>))
        requires
            index <= self.kinds@.len(),
        ensures
            (res.0@, res.1@) == insert_metric_from::<E>(self@.kinds, benchmark_id, perf_id, index as nat),
            insert_index_in_range(res.0@, self@.kinds),
    {
        if index < self.kinds.len() {
            let key = self.kinds[index].clone();
            (InsertState::AwaitMetricKindId { benchmark_id, perf_id, index }, InsertAction::LookupMetricKind { index, key })
        } else {
            (InsertState::Finished, InsertAction::Finish(Ok(())))
        }
    }

    /// Takes the outcome of the last action and gives the next action.
    pub fn step<E>(self, event: InsertEvent<E>) -> (res: (MetricsInsert, InsertAction<E>))
        requires
            self.well_formed(),
            insert_accepts(self@.state, event),
        ensures
            res.0.well_formed(),
            res.0@.report_id == self@.report_id,
            res.0@.iteration == self@.iteration,
            res.0@.perf_uuid == self@.perf_uuid,
            res.0@.benchmark_name == self@.benchmark_name,
            res.0@.kinds == self@.kinds,
            (res.0@.state, res.1@) == insert_next(self@, event),
    {
        let (state, action) = match (self.state, event) {
            (InsertState::AwaitBenchmarkId, InsertEvent::Id(Ok(benchmark_id))) => (
                InsertState::AwaitPerfInsert { benchmark_id },
                InsertAction::InsertPerf {
                    report_id: self.report_id,
                    iteration: self.iteration,
                    benchmark_id,
                    uuid: self.perf_uuid.clone(),
                },
            ),
            (InsertState::AwaitPerfInsert { benchmark_id }, InsertEvent::Done(Ok(_))) => (
                InsertState::AwaitPerfId { benchmark_id },
                InsertAction::QueryPerfId { uuid: self.perf_uuid.clone() },
            ),
            (InsertState::AwaitPerfId { benchmark_id }, InsertEvent::Id(Ok(perf_id))) =>
                self.metric_from(benchmark_id, perf_id, 0),
            (InsertState::AwaitMetricKindId { benchmark_id, perf_id, index }, InsertEvent::Id(Ok(metric_kind_id))) => (
                InsertState::AwaitMetricInsert { benchmark_id, perf_id, index, metric_kind_id },
                InsertAction::InsertMetric { perf_id, metric_kind_id, index },
            ),
            (InsertState::AwaitMetricInsert { benchmark_id, perf_id, index, metric_kind_id }, InsertEvent::Done(Ok(_))) => (
                InsertState::AwaitDetect { benchmark_id, perf_id, index, metric_kind_id },
                InsertAction::Detect { perf_id, benchmark_id, metric_kind_id, index },
            ),
            (InsertState::AwaitDetect { benchmark_id, perf_id, index, metric_kind_id }, InsertEvent::Done(Ok(_))) => {
                let count = self.kinds.len();
                assert(index < count);
                self.metric_from(benchmark_id, perf_id, index + 1)
            },
            (_, InsertEvent::Id(Err(err))) => (InsertState::Finished, InsertAction::Finish(Err(err))),
            (_, InsertEvent::Done(Err(err))) => (InsertState::Finished, InsertAction::Finish(Err(err))),
            (_, _) => (InsertState::Finished, InsertAction::Finish(Ok(()))),
        };
        (
            MetricsInsert {
                report_id: self.report_id,
                iteration: self.iteration,
                perf_uuid: self.perf_uuid,
                benchmark_name: self.benchmark_name,
                kinds: self.kinds,
                state,
            },
            action,
        )
    }
}

impl Metrics {
    /// The metrics of the report with id `report_id`.
    pub fn new(report_id: i32) -> (metrics: Metrics)
        ensures
            metrics.report_id == report_id,
    {
        Metrics { report_id }
    }

    /// Starts storing the metrics of the benchmark named `benchmark_name`
    /// at `iteration`, whose kinds are `metric_kinds` in the order they are
    /// stored; its perf row gets a fresh random UUID. The first action looks
    /// up the benchmark's id.
    pub fn insert<E>(
        &self,
        iteration: usize,
        benchmark_name: String,
        metric_kinds: Vec<String>,
    ) -> (res: (MetricsInsert, InsertAction<E>))
        ensures
            res.0.well_formed(),
            res.0@.report_id == self.report_id,
            res.0@.iteration == iteration,
            is_uuid_v4_text(res.0@.perf_uuid),
            res.0@.benchmark_name == benchmark_name@,
            res.0@.kinds == kinds_view(metric_kinds@),
            res.0@.state == InsertStateView::AwaitBenchmarkId,
            res.1@ == (InsertActionView::<E>::LookupBenchmark { name: benchmark_name@ }),
    {
        let name = benchmark_name.clone();
        (
            MetricsInsert {
                report_id: self.report_id,
                iteration,
                perf_uuid: new_v4_text(),
                benchmark_name,
                kinds: metric_kinds,
                state: InsertState::AwaitBenchmarkId,
            },
            InsertAction::LookupBenchmark { name },
        )
    }
}

} // verus!
