use bookapp::pipeline::{event_chain, Exporter, InstallError, Installation, Shutdown, Sink};

#[test]
fn chain_order_puts_bridge_between_context_and_capture() {
    assert_eq!(
        event_chain(),
        vec![
            Sink::TraceContext,
            Sink::Correlation,
            Sink::ErrorCapture,
            Sink::LogExport,
            Sink::MetricExport,
            Sink::Console
        ]
    );
}

#[test]
fn installation_happens_once() {
    let mut i = Installation::new();
    assert!(!i.is_installed());
    assert_eq!(i.claim(), Ok(()));
    assert!(i.is_installed());
    assert_eq!(i.claim(), Err(InstallError::AlreadyInstalled));
}

#[test]
fn shutdown_tries_every_exporter_after_a_failure() {
    let mut calls = [0u32; 3];
    let mut plan = Shutdown::standard();
    while let Some(exporter) = plan.next_exporter() {
        let result = match exporter {
            Exporter::Traces => {
                calls[0] += 1;
                Ok(())
            }
            Exporter::Metrics => {
                calls[1] += 1;
                Err("metrics exporter failed".to_string())
            }
            Exporter::Logs => {
                calls[2] += 1;
                Ok(())
            }
        };
        plan.record(result);
    }
    assert_eq!(calls, [1, 1, 1]);
    assert!(plan.is_complete());
    assert_eq!(plan.attempted(), 3);
    assert_eq!(plan.failures(), vec![(Exporter::Metrics, "metrics exporter failed".to_string())]);
}

#[test]
fn shutdown_without_failures_reports_none() {
    let mut plan = Shutdown::new(vec![Exporter::Logs, Exporter::Traces]);
    assert_eq!(plan.next_exporter(), Some(Exporter::Logs));
    plan.record(Ok(()));
    assert_eq!(plan.next_exporter(), Some(Exporter::Traces));
    plan.record(Ok(()));
    assert_eq!(plan.next_exporter(), None);
    assert!(plan.failures().is_empty());
}

#[test]
fn shutdown_reports_every_failure_in_order() {
    let mut plan = Shutdown::standard();
    plan.record(Err("a".to_string()));
    plan.record(Ok(()));
    plan.record(Err("c".to_string()));
    assert_eq!(
        plan.failures(),
        vec![(Exporter::Traces, "a".to_string()), (Exporter::Logs, "c".to_string())]
    );
}
