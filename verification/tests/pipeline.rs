use lich::classify::ClassifyError;
use lich::configurator::{BinaryConfig, Configurator};
use lich::invoke::ExecResult;
use lich::output::{ReportError, ReportFormat, TemplateEnv, TemplateName};
use lich::pipeline::{
    advance, is_enabled, run_pipeline, tool_order, FatalError, Phase, PipelineReports, ToolEvent,
    ToolKind, ToolSession,
};
use lich::tools::{
    check_availability, Perf, Powertop, PerfConfig, PowerstatConfig, PowertopConfig, ToolError,
    Valgrind, ValgrindConfig,
};

const SUCCESS: &str = "[Success 😁]";
const ERROR: &str = "[Error 🤕]";

fn config() -> Configurator {
    Configurator {
        binary_path: "./target".to_string(),
        report_path: "reports".to_string(),
        root: String::new(),
        docker: false,
        format: ReportFormat::Markdown,
        binary: BinaryConfig::default(),
        valgrind: ValgrindConfig::default(),
        perf: PerfConfig::default(),
        powerstat: PowerstatConfig::default(),
        powertop: PowertopConfig::default(),
    }
}

fn env() -> TemplateEnv {
    let mut env = TemplateEnv::new();
    env.add_template(TemplateName::Report, "{{header}}|{{result}}|{{output}}".to_string());
    env.add_template(
        TemplateName::FinalReport,
        "{% for t in vulnerability_tools %}{{ t[0] }};{% endfor %}\
{% for t in energy_tools %}{{ t[0] }};{% endfor %}"
            .to_string(),
    );
    env
}

fn ran(code: Option<i32>, stdout: &[u8], stderr: &[u8]) -> ToolSession {
    ToolSession {
        available: true,
        execution: Some(ExecResult { code, stdout: stdout.to_vec(), stderr: stderr.to_vec() }),
        side_output: None,
    }
}

fn skipped() -> ToolSession {
    ToolSession { available: true, execution: None, side_output: None }
}

fn all_quiet_sessions() -> (ToolSession, ToolSession, ToolSession, ToolSession) {
    (
        ran(Some(0), b"v", b""),
        ran(Some(0), b"p", b""),
        ran(Some(0), b"s", b""),
        ToolSession {
            available: true,
            execution: Some(ExecResult { code: Some(0), stdout: Vec::new(), stderr: Vec::new() }),
            side_output: Some("t".to_string()),
        },
    )
}

fn run(
    config: &Configurator,
    env: &TemplateEnv,
    sessions: &(ToolSession, ToolSession, ToolSession, ToolSession),
) -> Result<PipelineReports, FatalError> {
    run_pipeline(config, env, &sessions.0, &sessions.1, &sessions.2, &sessions.3)
}

#[test]
fn one_outcome_per_enabled_tool_in_order() {
    let rep = run(&config(), &env(), &all_quiet_sessions()).expect("run passes");
    let vulnerability: Vec<&str> = rep.vulnerability_tools.iter().map(|t| t.header).collect();
    let energy: Vec<&str> = rep.energy_tools.iter().map(|t| t.header).collect();
    assert_eq!(vulnerability, vec!["Valgrind", "Perf"]);
    assert_eq!(energy, vec!["Powerstat", "Powertop"]);
    let files: Vec<&str> = rep.tool_reports.iter().map(|f| f.name.as_str()).collect();
    assert_eq!(files, vec!["valgrind.md", "perf.md", "powerstat.md", "powertop.md"]);
    let aggregate = rep.final_report.expect("markdown format renders the aggregate");
    assert_eq!(aggregate.name, "final_report.md");
    assert_eq!(aggregate.contents, "Valgrind;Perf;Powerstat;Powertop;");
}

#[test]
fn disabled_tools_produce_no_outcome() {
    let mut c = config();
    c.perf.enable = false;
    c.powerstat.enable = false;
    let rep = run(&c, &env(), &all_quiet_sessions()).expect("run passes");
    assert_eq!(rep.vulnerability_tools.len(), 1);
    assert_eq!(rep.energy_tools.len(), 1);
    assert_eq!(rep.final_report.unwrap().contents, "Valgrind;Powertop;");
}

#[test]
fn pipeline_is_idempotent_on_immutable_inputs() {
    let c = config();
    let e = env();
    let sessions = all_quiet_sessions();
    let rep1 = run(&c, &e, &sessions).expect("first run passes");
    let rep2 = run(&c, &e, &sessions).expect("second run passes");
    assert_eq!(rep1.tool_reports.len(), rep2.tool_reports.len());
    for (f1, f2) in rep1.tool_reports.iter().zip(rep2.tool_reports.iter()) {
        assert_eq!(f1.name, f2.name);
        assert_eq!(f1.contents, f2.contents);
    }
    assert_eq!(
        rep1.final_report.unwrap().contents,
        rep2.final_report.unwrap().contents
    );
}

#[test]
fn scenario_memory_check_clean_run() {
    let mut c = config();
    c.perf.enable = false;
    c.powerstat.enable = false;
    c.powertop.enable = false;
    let sessions = (
        ran(Some(0), b"no leaks", b""),
        skipped(),
        skipped(),
        skipped(),
    );
    let rep = run(&c, &env(), &sessions).expect("run passes");
    assert_eq!(rep.vulnerability_tools.len(), 1);
    assert_eq!(rep.vulnerability_tools[0].header, "Valgrind");
    assert_eq!(rep.vulnerability_tools[0].result, SUCCESS);
    assert_eq!(rep.tool_reports[0].name, "valgrind.md");
    assert_eq!(rep.tool_reports[0].contents, format!("Valgrind|{SUCCESS}|no leaks"));
}

#[test]
fn scenario_profiler_killed_by_its_timeout() {
    let mut c = config();
    c.perf.timeout = 5;
    // The timeout wrapper enforces the five seconds around the profiler.
    let request = Perf::request(&c);
    assert_eq!(request.program, "timeout");
    assert_eq!(request.args[0], "5s");
    assert_eq!(request.args[1], "perf");
    // The wrapper kills the process after the timeout: exit code 124, the
    // partial streams captured up to that point.
    let captured = ExecResult {
        code: Some(124),
        stdout: b"partial samples".to_vec(),
        stderr: b"terminated".to_vec(),
    };
    let outcome = Perf::run(&c, &captured).expect("tolerant rule classifies");
    assert_eq!(outcome.result, SUCCESS);
    assert_eq!(outcome.output, "partial samples\n\nterminated");
}

#[test]
fn scenario_side_output_path_with_wrong_extension() {
    let mut c = config();
    c.powertop.csv_output = "powertop.txt".to_string();
    // The mismatch is a fatal configuration error, raised while the
    // configuration is normalized — before any process is spawned.
    assert!(!c.normalize());
    assert!(c.powertop.args.is_empty());
}

#[test]
fn scenario_memory_check_binary_absent() {
    // The availability probe fails for the absent binary.
    assert_eq!(Valgrind::check_existence(false), Err(ToolError::Unavailable));
    assert_eq!(check_availability(false), Err(ToolError::Unavailable));
    // Chosen policy: the unavailable tool is skipped, the rest of the run
    // proceeds, and the aggregate report omits the skipped tool.
    let mut sessions = all_quiet_sessions();
    sessions.0 = ToolSession { available: false, execution: None, side_output: None };
    let rep = run(&config(), &env(), &sessions).expect("run passes");
    assert_eq!(rep.vulnerability_tools.len(), 1);
    assert_eq!(rep.vulnerability_tools[0].header, "Perf");
    assert_eq!(rep.final_report.unwrap().contents, "Perf;Powerstat;Powertop;");
}

#[test]
fn memory_check_run_classifies_and_names_its_report() {
    let c = config();
    let captured = ExecResult {
        code: Some(0),
        stdout: b"no leaks\n".to_vec(),
        stderr: Vec::new(),
    };
    let outcome = lich::tools::Valgrind::run(&c, &captured).expect("classifies");
    assert_eq!(outcome.output, "no leaks");
    assert_eq!(outcome.result, SUCCESS);
    assert_eq!(outcome.report_path, "valgrind.md");
    let data = outcome.final_report_data();
    assert_eq!(data.header, "Valgrind");
    assert_eq!(data.report_path, "valgrind.md");
}

#[test]
fn power_profiler_failure_shows_stderr_alone() {
    let c = config();
    let captured = ExecResult {
        code: Some(124),
        stdout: b"partial".to_vec(),
        stderr: b"interrupted".to_vec(),
    };
    // The first power profiler uses the default rule: a timeout exit code
    // is not benign for it.
    let outcome = lich::tools::Powerstat::run(&c, &captured).expect("classifies");
    assert_eq!(outcome.output, "interrupted");
    assert_eq!(outcome.result, ERROR);
    assert_eq!(outcome.report_path, "powerstat.md");
}

#[test]
fn side_output_contents_become_the_report_body() {
    let c = config();
    let captured = ExecResult { code: Some(0), stdout: Vec::new(), stderr: Vec::new() };
    let outcome = Powertop::run(&c, &captured, Some("event,count\nwakeup,3\n".to_string()))
        .expect("success with side output");
    assert_eq!(outcome.output, "event,count\nwakeup,3\n");
    assert_eq!(outcome.result, SUCCESS);
}

#[test]
fn side_output_tool_failure_surfaces_stderr() {
    let c = config();
    let captured = ExecResult {
        code: Some(1),
        stdout: Vec::new(),
        stderr: b"cannot open device\n".to_vec(),
    };
    let outcome = Powertop::run(&c, &captured, None).expect("failure classifies");
    assert_eq!(outcome.output, "cannot open device");
    assert_eq!(outcome.result, ERROR);
}

#[test]
fn undecodable_stream_aborts_the_run() {
    let mut sessions = all_quiet_sessions();
    sessions.2 = ran(Some(1), b"", &[0xff]);
    let r = run(&config(), &env(), &sessions);
    assert_eq!(r.unwrap_err(), FatalError::Classify(ClassifyError::InvalidUtf8));
}

#[test]
fn missing_template_aborts_the_run() {
    let mut e = TemplateEnv::new();
    e.add_template(
        TemplateName::FinalReport,
        "{% for t in vulnerability_tools %}{{ t[0] }}{% endfor %}".to_string(),
    );
    let r = run(&config(), &e, &all_quiet_sessions());
    assert_eq!(r.unwrap_err(), FatalError::Report(ReportError::MissingTemplate));
}

#[test]
fn fixed_invocation_order() {
    assert_eq!(
        tool_order(),
        vec![ToolKind::Valgrind, ToolKind::Perf, ToolKind::Powerstat, ToolKind::Powertop]
    );
}

#[test]
fn enabled_flags_drive_the_plan() {
    let mut c = config();
    c.powerstat.enable = false;
    assert!(is_enabled(&c, ToolKind::Valgrind));
    assert!(is_enabled(&c, ToolKind::Perf));
    assert!(!is_enabled(&c, ToolKind::Powerstat));
    assert!(is_enabled(&c, ToolKind::Powertop));
}

#[test]
fn every_adapter_probes_with_the_version_flag() {
    for (request, name) in [
        (Valgrind::existence_request(), "valgrind"),
        (Perf::existence_request(), "perf"),
        (lich::tools::Powerstat::existence_request(), "powerstat"),
        (Powertop::existence_request(), "powertop"),
    ] {
        assert_eq!(request.program, name);
        assert_eq!(request.args, vec!["-v".to_string()]);
    }
}

#[test]
fn phase_transitions() {
    assert_eq!(advance(Phase::Idle, ToolEvent::Begin), Some(Phase::CheckingAvailability));
    assert_eq!(
        advance(Phase::CheckingAvailability, ToolEvent::Probed(true)),
        Some(Phase::Running)
    );
    // A failed probe ends this tool's pass without touching the others.
    assert_eq!(
        advance(Phase::CheckingAvailability, ToolEvent::Probed(false)),
        Some(Phase::Done)
    );
    assert_eq!(advance(Phase::Running, ToolEvent::Executed), Some(Phase::Classifying));
    assert_eq!(advance(Phase::Classifying, ToolEvent::Classified), Some(Phase::Reporting));
    assert_eq!(advance(Phase::Reporting, ToolEvent::Reported), Some(Phase::Done));
    assert_eq!(advance(Phase::Done, ToolEvent::Begin), None);
    assert_eq!(advance(Phase::Idle, ToolEvent::Executed), None);
}
