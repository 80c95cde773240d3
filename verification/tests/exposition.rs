use raspi_exporter::cli::{Cli, Log, Metric, Metrics};
use raspi_exporter::collector::throttled::Throttled;
use raspi_exporter::command::{interpret_output, CommandExecutor};
use raspi_exporter::executor::{ExecError, Executor};
use raspi_exporter::metrics::{CollectError, Collector, Handler, MetricsHandler};
use raspi_exporter::parser::throttled::ThrottledParser;
use raspi_exporter::registerer::throttled::ThrottledRegisterer;
use raspi_exporter::registry::Registry;
use raspi_exporter::server::metrics_response;

/// An executor that answers with a fixed line, as the status command would.
struct FixedExecutor(&'static str);

impl Executor for FixedExecutor {
    fn execute(&self) -> Result<String, ExecError> {
        Ok(self.0.to_string())
    }
}

/// An executor whose command cannot be spawned.
struct FailingExecutor;

impl Executor for FailingExecutor {
    fn execute(&self) -> Result<String, ExecError> {
        Err(ExecError::ExecutionFailed)
    }
}

/// A collector that touches nothing and succeeds.
struct IdleCollector;

impl Collector for IdleCollector {
    fn spec_name(&self) -> vstd::prelude::Seq<char> {
        unreachable!()
    }

    fn name(&self) -> &'static str {
        "idle"
    }

    fn collect(&self, _registry: &mut Registry) -> Result<(), CollectError> {
        Ok(())
    }
}

#[test]
fn collect() {
    let mut registry = Registry::new();
    let registerer = ThrottledRegisterer::new(&mut registry);
    let throttled = Throttled::new(FixedExecutor("throttled=0xd0005"), ThrottledParser, registerer);
    let result = throttled.collect(&mut registry);

    assert!(result.is_ok())
}

#[test]
fn handle() {
    let metrics_handler = MetricsHandler::new(Some(IdleCollector), Registry::new());
    let mut metrics_handler = metrics_handler;
    let result = metrics_handler.handle().unwrap();

    assert_eq!(result, "# EOF\n")
}

#[test]
fn metrics() {
    let mut registry = Registry::new();
    let registerer = ThrottledRegisterer::new(&mut registry);
    let throttled = Throttled::new(FixedExecutor("throttled=0xd0005"), ThrottledParser, registerer);
    let mut metrics_handler = MetricsHandler::new(Some(throttled), registry);
    let result = metrics_handler.handle().unwrap();
    let mut lines = result.lines();

    assert_eq!(lines.clone().count(), 13);
    assert_eq!(
        lines.next(),
        Some("# HELP raspi_throttling_active State about throttling active currently.")
    );
    assert_eq!(lines.next(), Some("# TYPE raspi_throttling_active gauge"));

    let mut metrics = lines.by_ref().take(4).collect::<Vec<_>>();
    metrics.sort();

    assert_eq!(metrics.clone().len(), 4);
    assert_eq!(
        metrics,
        [
            "raspi_throttling_active{kind=\"arm frequency\"} 0",
            "raspi_throttling_active{kind=\"soft temperature limit\"} 0",
            "raspi_throttling_active{kind=\"throttled\"} 1",
            "raspi_throttling_active{kind=\"undervoltage\"} 1",
        ]
    );

    assert_eq!(
        lines.next(),
        Some("# HELP raspi_throttling_occurred State about throttling occurred in the past.")
    );
    assert_eq!(lines.next(), Some("# TYPE raspi_throttling_occurred gauge"));

    let mut metrics = lines.by_ref().take(4).collect::<Vec<_>>();
    metrics.sort();
    assert_eq!(metrics.clone().len(), 4);
    assert_eq!(
        metrics,
        [
            "raspi_throttling_occurred{kind=\"arm frequency\"} 0",
            "raspi_throttling_occurred{kind=\"soft temperature limit\"} 1",
            "raspi_throttling_occurred{kind=\"throttled\"} 1",
            "raspi_throttling_occurred{kind=\"undervoltage\"} 1",
        ]
    );
    assert_eq!(lines.next(), Some("# EOF"))
}

#[test]
fn command_not_found() {
    // The command cannot be run at all: the scrape still succeeds, showing
    // the families as registered (all gauges at zero), and the failure is
    // kept for the log sink, wrapped with the collector's name.
    let mut registry = Registry::new();
    let registerer = ThrottledRegisterer::new(&mut registry);
    let throttled = Throttled::new(FailingExecutor, ThrottledParser, registerer);
    let mut metrics_handler = MetricsHandler::new(Some(throttled), registry);
    let result = metrics_handler.handle().unwrap();
    let lines: Vec<&str> = result.lines().collect();

    assert_eq!(lines.len(), 13);
    assert_eq!(lines[lines.len() - 1], "# EOF");
    for line in &lines {
        if line.starts_with("raspi_throttling_") {
            assert!(line.ends_with(" 0"));
        }
    }
    assert_eq!(
        metrics_handler.last_failure.as_deref(),
        Some("throttled collector error: command execution error")
    );
}

#[test]
fn bad_poll_keeps_stale_active_values() {
    let mut registry = Registry::new();
    let registerer = ThrottledRegisterer::new(&mut registry);
    let throttled = Throttled::new(FixedExecutor("throttled=0x50005"), ThrottledParser, registerer);
    let mut metrics_handler = MetricsHandler::new(Some(throttled), registry);
    let good = metrics_handler.handle().unwrap();
    assert!(good.contains("raspi_throttling_active{kind=\"undervoltage\"} 1"));
    assert!(metrics_handler.last_failure.is_none());

    // The next poll returns garbage: the scrape keeps the last good values.
    metrics_handler.throttled =
        Some(Throttled::new(FixedExecutor("garbage"), ThrottledParser, registerer));
    let stale = metrics_handler.handle().unwrap();
    assert_eq!(good, stale);
    assert_eq!(
        metrics_handler.last_failure.as_deref(),
        Some("throttled collector error: invalid input: garbage")
    );
}

#[test]
fn response_success_carries_body_and_content_type() {
    let response = metrics_response(Ok("# EOF\n".to_string()));
    assert_eq!(response.status, 200);
    assert_eq!(
        response.content_type.as_deref(),
        Some("application/openmetrics-text; version=1.0.0; charset=utf-8")
    );
    assert_eq!(response.body, "# EOF\n");
}

#[test]
fn response_failure_is_bodiless_500() {
    let response = metrics_response(Err("encoding failed".to_string()));
    assert_eq!(response.status, 500);
    assert_eq!(response.content_type, None);
    assert_eq!(response.body, "");
}

#[test]
fn interpret_output_classifies_every_outcome() {
    assert_eq!(
        interpret_output(true, true, Some(0), Some("throttled=0x0".to_string())),
        Ok("throttled=0x0".to_string())
    );
    assert_eq!(interpret_output(false, false, None, None), Err(ExecError::ExecutionFailed));
    assert_eq!(interpret_output(true, true, Some(0), None), Err(ExecError::InvalidOutput));
    assert_eq!(interpret_output(true, false, Some(13), None), Err(ExecError::NonZeroExit(13)));
    assert_eq!(interpret_output(true, false, None, None), Err(ExecError::TerminatedBySignal));
}

#[test]
fn exec_error_messages() {
    assert_eq!(ExecError::ExecutionFailed.message(), "command execution error");
    assert_eq!(ExecError::NonZeroExit(13).message(), "process exited with status code 13");
    assert_eq!(ExecError::NonZeroExit(-2).message(), "process exited with status code -2");
    assert_eq!(ExecError::TerminatedBySignal.message(), "process terminated by signal");
    assert_eq!(ExecError::InvalidOutput.message(), "command output is not valid text");
}

#[test]
fn command_executor_keeps_its_invocation() {
    let command = CommandExecutor::new(
        "vcgencmd".to_string(),
        vec!["get_throttled".to_string()],
    );
    assert_eq!(command.command, "vcgencmd");
    assert_eq!(command.args, vec!["get_throttled".to_string()]);
}

#[test]
fn cli_defaults_enable_throttled() {
    let cli = Cli::default();
    assert_eq!(cli.port, 8021);
    assert!(matches!(cli.log, Log::Plain));
    assert!(cli.metrics.has_throttled());
    assert_eq!(cli.metrics.label_list(), "throttled");
}

#[test]
fn metrics_selection_is_read_from_the_list() {
    let none = Metrics { enable_metrics: Vec::new() };
    assert!(!none.has_throttled());
    assert_eq!(none.label_list(), "");

    let some = Metrics { enable_metrics: vec![Metric::Throttled] };
    assert!(some.has_throttled());
}

#[test]
fn render_empty_registry_is_just_the_terminator() {
    let registry = Registry::new();
    assert_eq!(registry.render(), "# EOF\n");
}
