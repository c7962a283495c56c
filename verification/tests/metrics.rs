use bencher::metrics::{InsertAction, InsertEvent, Metrics};

#[derive(Debug, PartialEq)]
enum Done {
    LookupBenchmark(String),
    InsertPerf(i32, usize, i32, String),
    QueryPerfId(String),
    LookupMetricKind(usize, String),
    InsertMetric(i32, i32, usize),
    Detect(i32, i32, i32, usize),
}

/// Runs an insertion, answering each action from `answer`, which may fail
/// the action with a message.
fn run(
    kinds: &[&str],
    mut fail: impl FnMut(&Done) -> Option<String>,
) -> (Result<(), String>, Vec<Done>) {
    let metrics = Metrics::new(7);
    let (mut insert, mut action) = metrics.insert::<String>(
        3,
        "bench".to_string(),
        kinds.iter().map(|k| k.to_string()).collect(),
    );
    let mut done = Vec::new();
    loop {
        let (record, id) = match action {
            InsertAction::Finish(result) => return (result, done),
            InsertAction::LookupBenchmark { name } => (Done::LookupBenchmark(name), Some(100)),
            InsertAction::InsertPerf { report_id, iteration, benchmark_id, uuid } => {
                (Done::InsertPerf(report_id, iteration, benchmark_id, uuid), None)
            },
            InsertAction::QueryPerfId { uuid } => (Done::QueryPerfId(uuid), Some(200)),
            InsertAction::LookupMetricKind { index, key } => {
                let id = 300 + index as i32;
                (Done::LookupMetricKind(index, key), Some(id))
            },
            InsertAction::InsertMetric { perf_id, metric_kind_id, index } => {
                (Done::InsertMetric(perf_id, metric_kind_id, index), None)
            },
            InsertAction::Detect { perf_id, benchmark_id, metric_kind_id, index } => {
                (Done::Detect(perf_id, benchmark_id, metric_kind_id, index), None)
            },
        };
        let failure = fail(&record);
        done.push(record);
        let event = match (failure, id) {
            (Some(e), Some(_)) => InsertEvent::Id(Err(e)),
            (Some(e), None) => InsertEvent::Done(Err(e)),
            (None, Some(id)) => InsertEvent::Id(Ok(id)),
            (None, None) => InsertEvent::Done(Ok(())),
        };
        assert!(insert.accepts(&event));
        let (next, next_action) = insert.step(event);
        insert = next;
        action = next_action;
    }
}

#[test]
fn all_metrics_are_inserted_and_checked_in_order() {
    let (result, done) = run(&["latency", "throughput"], |_| None);
    assert_eq!(result, Ok(()));
    let uuid = match &done[1] {
        Done::InsertPerf(_, _, _, uuid) => uuid.clone(),
        other => panic!("expected a perf insert, got {other:?}"),
    };
    assert_eq!(uuid.len(), 36);
    assert_eq!(uuid.chars().nth(14), Some('4'));
    assert_eq!(
        done,
        vec![
            Done::LookupBenchmark("bench".to_string()),
            Done::InsertPerf(7, 3, 100, uuid.clone()),
            Done::QueryPerfId(uuid.clone()),
            Done::LookupMetricKind(0, "latency".to_string()),
            Done::InsertMetric(200, 300, 0),
            Done::Detect(200, 100, 300, 0),
            Done::LookupMetricKind(1, "throughput".to_string()),
            Done::InsertMetric(200, 301, 1),
            Done::Detect(200, 100, 301, 1),
        ]
    );
}

#[test]
fn no_metrics() {
    let (result, done) = run(&[], |_| None);
    assert_eq!(result, Ok(()));
    assert_eq!(done.len(), 3);
}

#[test]
fn unknown_benchmark_stops_everything() {
    let (result, done) = run(&["latency"], |d| match d {
        Done::LookupBenchmark(_) => Some("no benchmark".to_string()),
        _ => None,
    });
    assert_eq!(result, Err("no benchmark".to_string()));
    assert_eq!(done, vec![Done::LookupBenchmark("bench".to_string())]);
}

#[test]
fn failed_perf_insert_stops_everything() {
    let (result, done) = run(&["latency"], |d| match d {
        Done::InsertPerf(..) => Some("insert".to_string()),
        _ => None,
    });
    assert_eq!(result, Err("insert".to_string()));
    assert_eq!(done.len(), 2);
}

#[test]
fn failed_detection_stops_later_metrics() {
    let (result, done) = run(&["latency", "throughput"], |d| match d {
        Done::Detect(_, _, _, 0) => Some("alert".to_string()),
        _ => None,
    });
    assert_eq!(result, Err("alert".to_string()));
    assert_eq!(done.last(), Some(&Done::Detect(200, 100, 300, 0)));
    assert_eq!(done.len(), 6);
}

#[test]
fn unknown_metric_kind_stops() {
    let (result, done) = run(&["latency", "throughput"], |d| match d {
        Done::LookupMetricKind(1, _) => Some("kind".to_string()),
        _ => None,
    });
    assert_eq!(result, Err("kind".to_string()));
    assert_eq!(done.len(), 7);
}

#[test]
fn new_metrics_keep_report_id() {
    assert_eq!(Metrics::new(42).report_id, 42);
}

#[test]
fn each_insertion_gets_its_own_perf_uuid() {
    let metrics = Metrics::new(1);
    let (_, a) = metrics.insert::<()>(0, "b".to_string(), Vec::new());
    let (insert_b, _) = metrics.insert::<()>(0, "b".to_string(), Vec::new());
    let (insert_a, _) = metrics.insert::<()>(0, "b".to_string(), Vec::new());
    let uuid_of = |insert: bencher::metrics::MetricsInsert| {
        let (insert, _) = insert.step::<()>(InsertEvent::Id(Ok(1)));
        match insert.step::<()>(InsertEvent::Done(Ok(()))).1 {
            InsertAction::QueryPerfId { uuid } => uuid,
            _ => panic!("expected the perf id query"),
        }
    };
    assert!(matches!(a, InsertAction::LookupBenchmark { .. }));
    assert_ne!(uuid_of(insert_a), uuid_of(insert_b));
}
