//! The orchestrator: one pass per enabled tool, in the fixed invocation
//! order — memory check, CPU profile, then the two power profiles — each
//! pass independent of the others, followed by one unconditional
//! aggregate-report step. A tool whose availability probe fails is skipped;
//! every other failure is fatal for the whole run.

use vstd::prelude::*;

use crate::classify::ClassifyError;
use crate::configurator::Configurator;
use crate::invoke::ExecResult;
use crate::output::{
    spec_produce_final_report,
    spec_render_tool_report,
    spec_rows,
    spec_template_view,
    Output,
    ReportError,
    ReportFile,
    TemplateEnv,
    ToolOutput,
};
use crate::tools::{
    spec_powertop_run,
    spec_tool_run,
    Perf,
    Powerstat,
    Powertop,
    Valgrind,
};

verus! {

/// The four external tools, in no particular order; `tool_order` fixes the
/// order in which a run invokes them.
#[derive(Clone, Copy, Debug, PartialEq, Eq, Structural)]
pub enum ToolKind {
    Valgrind,
    Perf,
    Powerstat,
    Powertop,
}

/// The fixed order in which the tools run: the memory check, the CPU
/// profile, then the two power profiles.
pub fn tool_order() -> (r: Vec<ToolKind>)
    ensures
        r@ == seq![ToolKind::Valgrind, ToolKind::Perf, ToolKind::Powerstat, ToolKind::Powertop],
{
    let mut r: Vec<ToolKind> = Vec::new();
    r.push(ToolKind::Valgrind);
    r.push(ToolKind::Perf);
    r.push(ToolKind::Powerstat);
    r.push(ToolKind::Powertop);
    proof {
        assert(r@ =~= seq![
            ToolKind::Valgrind,
            ToolKind::Perf,
            ToolKind::Powerstat,
            ToolKind::Powertop,
        ]);
    }
    r
}

/// Whether the configuration enables `kind`.
pub open spec fn spec_enabled(config: Configurator, kind: ToolKind) -> bool {
    match kind {
        ToolKind::Valgrind => config.valgrind.enable,
        ToolKind::Perf => config.perf.enable,
        ToolKind::Powerstat => config.powerstat.enable,
        ToolKind::Powertop => config.powertop.enable,
    }
}

pub fn is_enabled(config: &Configurator, kind: ToolKind) -> (r: bool)
    ensures
        r == spec_enabled(*config, kind),
{
    match kind {
        ToolKind::Valgrind => config.valgrind.enable,
        ToolKind::Perf => config.perf.enable,
        ToolKind::Powerstat => config.powerstat.enable,
        ToolKind::Powertop => config.powertop.enable,
    }
}

/// One tool's pass through the pipeline.
#[derive(Clone, Copy, Debug, PartialEq, Eq, Structural)]
pub enum Phase {
    Idle,
    CheckingAvailability,
    Running,
    Classifying,
    Reporting,
    Done,
}

/// What moves one tool's pass forward.
#[derive(Clone, Copy, Debug, PartialEq, Eq, Structural)]
pub enum ToolEvent {
    Begin,
    Probed(bool),
    Executed,
    Classified,
    Reported,
}

/// The transition table of one tool's pass. A failed availability probe
/// moves the pass straight to `Done`: it aborts that tool alone, never the
/// tools that already completed nor those still to come. `None` marks an
/// event that the phase does not accept.
pub open spec fn spec_advance(p: Phase, e: ToolEvent) -> Option<Phase> {
    match (p, e) {
        (Phase::Idle, ToolEvent::Begin) => Some(Phase::CheckingAvailability),
        (Phase::CheckingAvailability, ToolEvent::Probed(true)) => Some(Phase::Running),
        (Phase::CheckingAvailability, ToolEvent::Probed(false)) => Some(Phase::Done),
        (Phase::Running, ToolEvent::Executed) => Some(Phase::Classifying),
        (Phase::Classifying, ToolEvent::Classified) => Some(Phase::Reporting),
        (Phase::Reporting, ToolEvent::Reported) => Some(Phase::Done),
        _ => None,
    }
}

pub fn advance(p: Phase, e: ToolEvent) -> (r: Option<Phase>)
    ensures
        r == spec_advance(p, e),
{
    match (p, e) {
        (Phase::Idle, ToolEvent::Begin) => Some(Phase::CheckingAvailability),
        (Phase::CheckingAvailability, ToolEvent::Probed(true)) => Some(Phase::Running),
        (Phase::CheckingAvailability, ToolEvent::Probed(false)) => Some(Phase::Done),
        (Phase::Running, ToolEvent::Executed) => Some(Phase::Classifying),
        (Phase::Classifying, ToolEvent::Classified) => Some(Phase::Reporting),
        (Phase::Reporting, ToolEvent::Reported) => Some(Phase::Done),
        _ => None,
    }
}

/// How far along a pass each phase stands.
pub open spec fn phase_rank(p: Phase) -> nat {
    match p {
        Phase::Idle => 0,
        Phase::CheckingAvailability => 1,
        Phase::Running => 2,
        Phase::Classifying => 3,
        Phase::Reporting => 4,
        Phase::Done => 5,
    }
}

/// Every accepted event moves a pass strictly forward, so no pass can
/// loop, and a finished pass accepts no further event.
pub proof fn lemma_phases_progress(p: Phase, e: ToolEvent)
    ensures
        spec_advance(p, e) is Some ==> phase_rank(spec_advance(p, e)->0) > phase_rank(p),
        spec_advance(Phase::Done, e) is None,
{
}

/// What the embedding application gathered for one tool: whether its
/// availability probe could be spawned, the captured result where the tool
/// ran, and the side-output file's contents where the tool writes one and
/// the run succeeded.
pub struct ToolSession {
    pub available: bool,
    pub execution: Option<ExecResult>,
    pub side_output: Option<String>,
}

/// A failure that aborts the whole run: a captured stream that could not be
/// decoded, or a report that could not be rendered.
#[derive(Clone, Copy, Debug, PartialEq, Eq, Structural)]
pub enum FatalError {
    Classify(ClassifyError),
    Report(ReportError),
}

/// Everything one run produces, ready to be written to the report
/// directory: the per-tool report files, the two groups of aggregate
/// entries, and the aggregate report where the format renders one.
#[derive(Debug)]
pub struct PipelineReports {
    pub tool_reports: Vec<ReportFile>,
    pub vulnerability_tools: Vec<ToolOutput>,
    pub energy_tools: Vec<ToolOutput>,
    pub final_report: Option<ReportFile>,
}

/// The views of rendered report files, in order.
pub open spec fn files_view(files: Seq<ReportFile>) -> Seq<(Seq<char>, Seq<char>)> {
    files.map_values(|f: ReportFile| f@)
}

/// One stream-based tool's pass at specification level: `Ok(None)` when
/// the tool is skipped (disabled, or its probe failed), a fatal error, or
/// the rendered report file together with the tool's aggregate row.
pub open spec fn spec_tool_step(
    tolerant: bool,
    tool_name: Seq<char>,
    header: Seq<char>,
    enabled: bool,
    config: Configurator,
    env: TemplateEnv,
    session: ToolSession,
) -> Result<Option<((Seq<char>, Seq<char>), Seq<Seq<char>>)>, FatalError> {
    if !(enabled && session.available) {
        Ok(None)
    } else {
        let exec = session.execution->0;
        match spec_tool_run(tolerant, tool_name, config.format, exec.code, exec.stdout@, exec.stderr@) {
            Err(e) => Err(FatalError::Classify(e)),
            Ok((body, tag, path)) => match spec_render_tool_report(
                spec_template_view(env.report),
                header,
                tag,
                body,
                path,
            ) {
                Err(e) => Err(FatalError::Report(e)),
                Ok(f) => Ok(Some((f, seq![header, path, tag]))),
            },
        }
    }
}

/// The side-output tool's pass at specification level.
pub open spec fn spec_powertop_step(
    config: Configurator,
    env: TemplateEnv,
    session: ToolSession,
) -> Result<Option<((Seq<char>, Seq<char>), Seq<Seq<char>>)>, FatalError> {
    if !(config.powertop.enable && session.available) {
        Ok(None)
    } else {
        let exec = session.execution->0;
        let csv = match session.side_output {
            Some(c) => Some(c@),
            None => None,
        };
        match spec_powertop_run(config.format, exec.code, exec.stdout@, exec.stderr@, csv) {
            Err(e) => Err(FatalError::Classify(e)),
            Ok((body, tag, path)) => match spec_render_tool_report(
                spec_template_view(env.report),
                "Powertop"@,
                tag,
                body,
                path,
            ) {
                Err(e) => Err(FatalError::Report(e)),
                Ok(f) => Ok(Some((f, seq!["Powertop"@, path, tag]))),
            },
        }
    }
}

/// A skipped tool's contribution to the aggregate rows: nothing; a run
/// tool's: its one row.
pub open spec fn opt_row(o: Option<((Seq<char>, Seq<char>), Seq<Seq<char>>)>) -> Seq<
    Seq<Seq<char>>,
> {
    match o {
        None => Seq::empty(),
        Some(x) => seq![x.1],
    }
}

/// A skipped tool's contribution to the report files: nothing; a run
/// tool's: its one file.
pub open spec fn opt_file(o: Option<((Seq<char>, Seq<char>), Seq<Seq<char>>)>) -> Seq<
    (Seq<char>, Seq<char>),
> {
    match o {
        None => Seq::empty(),
        Some(x) => seq![x.0],
    }
}

/// The memory-check step of this run.
pub open spec fn spec_valgrind_step(
    config: Configurator,
    env: TemplateEnv,
    session: ToolSession,
) -> Result<Option<((Seq<char>, Seq<char>), Seq<Seq<char>>)>, FatalError> {
    spec_tool_step(true, "valgrind"@, "Valgrind"@, config.valgrind.enable, config, env, session)
}

/// The CPU-profile step of this run.
pub open spec fn spec_perf_step(
    config: Configurator,
    env: TemplateEnv,
    session: ToolSession,
) -> Result<Option<((Seq<char>, Seq<char>), Seq<Seq<char>>)>, FatalError> {
    spec_tool_step(true, "perf"@, "Perf"@, config.perf.enable, config, env, session)
}

/// The first power-profile step of this run.
pub open spec fn spec_powerstat_step(
    config: Configurator,
    env: TemplateEnv,
    session: ToolSession,
) -> Result<Option<((Seq<char>, Seq<char>), Seq<Seq<char>>)>, FatalError> {
    spec_tool_step(
        false,
        "powerstat"@,
        "Powerstat"@,
        config.powerstat.enable,
        config,
        env,
        session,
    )
}

/// What a completed run's reports hold, step by step: the two groups of
/// aggregate rows list exactly the tools that ran, in invocation order; the
/// per-tool report files line up with them; and the aggregate report is
/// rendered from exactly those rows under the configured format.
pub open spec fn spec_pipeline_ok(
    config: Configurator,
    env: TemplateEnv,
    valgrind: ToolSession,
    perf: ToolSession,
    powerstat: ToolSession,
    powertop: ToolSession,
    rep: PipelineReports,
) -> bool {
    let sv = spec_valgrind_step(config, env, valgrind);
    let sp = spec_perf_step(config, env, perf);
    let ss = spec_powerstat_step(config, env, powerstat);
    let st = spec_powertop_step(config, env, powertop);
    &&& sv is Ok
    &&& sp is Ok
    &&& ss is Ok
    &&& st is Ok
    &&& spec_rows(rep.vulnerability_tools@) == opt_row(sv->Ok_0) + opt_row(sp->Ok_0)
    &&& spec_rows(rep.energy_tools@) == opt_row(ss->Ok_0) + opt_row(st->Ok_0)
    &&& files_view(rep.tool_reports@) == opt_file(sv->Ok_0) + opt_file(sp->Ok_0) + opt_file(
        ss->Ok_0,
    ) + opt_file(st->Ok_0)
    &&& match spec_produce_final_report(
        config.format,
        spec_template_view(env.final_report),
        spec_rows(rep.vulnerability_tools@),
        spec_rows(rep.energy_tools@),
    ) {
        Ok(f) => match (rep.final_report, f) {
            (Some(file), Some(s)) => file@ == s,
            (None, None) => true,
            _ => false,
        },
        Err(_) => false,
    }
}

/// Which fatal error a failed run reports: the first step that failed, in
/// invocation order, or the aggregate render when every step passed.
pub open spec fn spec_pipeline_err(
    config: Configurator,
    env: TemplateEnv,
    valgrind: ToolSession,
    perf: ToolSession,
    powerstat: ToolSession,
    powertop: ToolSession,
    e: FatalError,
) -> bool {
    let sv = spec_valgrind_step(config, env, valgrind);
    let sp = spec_perf_step(config, env, perf);
    let ss = spec_powerstat_step(config, env, powerstat);
    let st = spec_powertop_step(config, env, powertop);
    ||| (sv is Err && e == sv->Err_0)
    ||| (sv is Ok && sp is Err && e == sp->Err_0)
    ||| (sv is Ok && sp is Ok && ss is Err && e == ss->Err_0)
    ||| (sv is Ok && sp is Ok && ss is Ok && st is Err && e == st->Err_0)
    ||| (sv is Ok && sp is Ok && ss is Ok && st is Ok && {
        let final_rendered = spec_produce_final_report(
            config.format,
            spec_template_view(env.final_report),
            opt_row(sv->Ok_0) + opt_row(sp->Ok_0),
            opt_row(ss->Ok_0) + opt_row(st->Ok_0),
        );
        final_rendered is Err && e == FatalError::Report(final_rendered->Err_0)
    })
}

/// Runs the whole pipeline over what the application gathered: classifies
/// each tool that ran, renders its report, collects its aggregate entry,
/// and renders the aggregate report, all in the fixed invocation order. A
/// tool that is disabled or whose probe failed is skipped; the first
/// classification or rendering failure aborts the run.
pub fn run_pipeline(
    config: &Configurator,
    environment: &TemplateEnv,
    valgrind: &ToolSession,
    perf: &ToolSession,
    powerstat: &ToolSession,
    powertop: &ToolSession,
) -> (r: Result<PipelineReports, FatalError>)
    requires
        config.valgrind.enable && valgrind.available ==> valgrind.execution is Some,
        config.perf.enable && perf.available ==> perf.execution is Some,
        config.powerstat.enable && powerstat.available ==> powerstat.execution is Some,
        config.powertop.enable && powertop.available ==> powertop.execution is Some,
        config.powertop.enable && powertop.available && powertop.execution->0.spec_success()
            ==> powertop.side_output is Some,
    ensures
        match r {
            Ok(rep) => spec_pipeline_ok(
                *config,
                *environment,
                *valgrind,
                *perf,
                *powerstat,
                *powertop,
                rep,
            ),
            Err(e) => spec_pipeline_err(
                *config,
                *environment,
                *valgrind,
                *perf,
                *powerstat,
                *powertop,
                e,
            ),
        },
{
    let ghost sv = spec_valgrind_step(*config, *environment, *valgrind);
    let ghost sp = spec_perf_step(*config, *environment, *perf);
    let ghost ss = spec_powerstat_step(*config, *environment, *powerstat);
    let ghost st = spec_powertop_step(*config, *environment, *powertop);

    let mut tool_reports: Vec<ReportFile> = Vec::new();
    let mut vulnerability_tools: Vec<ToolOutput> = Vec::new();
    let mut energy_tools: Vec<ToolOutput> = Vec::new();

    if config.is_valgrind_enabled() && valgrind.available {
        let captured = match &valgrind.execution {
            Some(e) => e,
            None => {
                proof {
                    assert(false);
                }
                return Err(FatalError::Classify(ClassifyError::InvalidUtf8));
            },
        };
        let run = match Valgrind::run(config, captured) {
            Ok(v) => v,
            Err(e) => {
                return Err(FatalError::Classify(e));
            },
        };
        let file = match run.write_report(environment) {
            Ok(f) => f,
            Err(e) => {
                return Err(FatalError::Report(e));
            },
        };
        tool_reports.push(file);
        vulnerability_tools.push(run.final_report_data());
        proof {
            assert(files_view(tool_reports@) =~= opt_file(sv->Ok_0));
            assert(spec_rows(vulnerability_tools@) =~= opt_row(sv->Ok_0));
        }
    }
    proof {
        assert(sv is Ok);
        assert(files_view(tool_reports@) == opt_file(sv->Ok_0));
        assert(spec_rows(vulnerability_tools@) == opt_row(sv->Ok_0));
    }

    if config.is_perf_enabled() && perf.available {
        let captured = match &perf.execution {
            Some(e) => e,
            None => {
                proof {
                    assert(false);
                }
                return Err(FatalError::Classify(ClassifyError::InvalidUtf8));
            },
        };
        let run = match Perf::run(config, captured) {
            Ok(v) => v,
            Err(e) => {
                return Err(FatalError::Classify(e));
            },
        };
        let file = match run.write_report(environment) {
            Ok(f) => f,
            Err(e) => {
                return Err(FatalError::Report(e));
            },
        };
        tool_reports.push(file);
        vulnerability_tools.push(run.final_report_data());
        proof {
            assert(files_view(tool_reports@) =~= opt_file(sv->Ok_0) + opt_file(sp->Ok_0));
            assert(spec_rows(vulnerability_tools@) =~= opt_row(sv->Ok_0) + opt_row(sp->Ok_0));
        }
    }
    proof {
        assert(sp is Ok);
        assert(files_view(tool_reports@) =~= opt_file(sv->Ok_0) + opt_file(sp->Ok_0));
        assert(spec_rows(vulnerability_tools@) =~= opt_row(sv->Ok_0) + opt_row(sp->Ok_0));
    }

    if config.is_powerstat_enabled() && powerstat.available {
        let captured = match &powerstat.execution {
            Some(e) => e,
            None => {
                proof {
                    assert(false);
                }
                return Err(FatalError::Classify(ClassifyError::InvalidUtf8));
            },
        };
        let run = match Powerstat::run(config, captured) {
            Ok(v) => v,
            Err(e) => {
                return Err(FatalError::Classify(e));
            },
        };
        let file = match run.write_report(environment) {
            Ok(f) => f,
            Err(e) => {
                return Err(FatalError::Report(e));
            },
        };
        tool_reports.push(file);
        energy_tools.push(run.final_report_data());
        proof {
            assert(files_view(tool_reports@) =~= opt_file(sv->Ok_0) + opt_file(sp->Ok_0)
                + opt_file(ss->Ok_0));
            assert(spec_rows(energy_tools@) =~= opt_row(ss->Ok_0));
        }
    }
    proof {
        assert(ss is Ok);
        assert(files_view(tool_reports@) =~= opt_file(sv->Ok_0) + opt_file(sp->Ok_0) + opt_file(
            ss->Ok_0,
        ));
        assert(spec_rows(energy_tools@) =~= opt_row(ss->Ok_0));
    }

    if config.is_powertop_enabled() && powertop.available {
        let captured = match &powertop.execution {
            Some(e) => e,
            None => {
                proof {
                    assert(false);
                }
                return Err(FatalError::Classify(ClassifyError::InvalidUtf8));
            },
        };
        let csv_contents = match &powertop.side_output {
            Some(s) => Some(s.clone()),
            None => None,
        };
        let run = match Powertop::run(config, captured, csv_contents) {
            Ok(v) => v,
            Err(e) => {
                return Err(FatalError::Classify(e));
            },
        };
        let file = match run.write_report(environment) {
            Ok(f) => f,
            Err(e) => {
                return Err(FatalError::Report(e));
            },
        };
        tool_reports.push(file);
        energy_tools.push(run.final_report_data());
        proof {
            assert(files_view(tool_reports@) =~= opt_file(sv->Ok_0) + opt_file(sp->Ok_0)
                + opt_file(ss->Ok_0) + opt_file(st->Ok_0));
            assert(spec_rows(energy_tools@) =~= opt_row(ss->Ok_0) + opt_row(st->Ok_0));
        }
    }
    proof {
        assert(st is Ok);
        assert(files_view(tool_reports@) =~= opt_file(sv->Ok_0) + opt_file(sp->Ok_0) + opt_file(
            ss->Ok_0,
        ) + opt_file(st->Ok_0));
        assert(spec_rows(energy_tools@) =~= opt_row(ss->Ok_0) + opt_row(st->Ok_0));
    }

    match Output::produce_final_report(config, environment, &vulnerability_tools, &energy_tools) {
        Ok(final_report) => Ok(
            PipelineReports { tool_reports, vulnerability_tools, energy_tools, final_report },
        ),
        Err(e) => Err(FatalError::Report(e)),
    }
}

/// For every configuration and every gathering whose steps all pass,
/// exactly one aggregate entry exists per enabled tool whose probe
/// succeeded, and the aggregate groups list exactly those tools in the
/// fixed invocation order: the memory check then the CPU profile in the
/// first group, the two power profiles in the second. A tool that is
/// disabled, or whose availability probe failed, appears in neither group.
pub proof fn lemma_one_outcome_per_enabled_tool(
    config: Configurator,
    env: TemplateEnv,
    valgrind: ToolSession,
    perf: ToolSession,
    powerstat: ToolSession,
    powertop: ToolSession,
    rep: PipelineReports,
)
    requires
        spec_pipeline_ok(config, env, valgrind, perf, powerstat, powertop, rep),
    ensures
        rep.vulnerability_tools@.len() == (if config.valgrind.enable && valgrind.available {
            1int
        } else {
            0int
        }) + (if config.perf.enable && perf.available {
            1int
        } else {
            0int
        }),
        rep.energy_tools@.len() == (if config.powerstat.enable && powerstat.available {
            1int
        } else {
            0int
        }) + (if config.powertop.enable && powertop.available {
            1int
        } else {
            0int
        }),
        config.valgrind.enable && valgrind.available ==> rep.vulnerability_tools@[0].header@
            == "Valgrind"@,
        config.perf.enable && perf.available ==> rep.vulnerability_tools@[rep.vulnerability_tools@.len()
            - 1].header@ == "Perf"@,
        config.powerstat.enable && powerstat.available ==> rep.energy_tools@[0].header@
            == "Powerstat"@,
        config.powertop.enable && powertop.available ==> rep.energy_tools@[rep.energy_tools@.len()
            - 1].header@ == "Powertop"@,
{
    let sv = spec_valgrind_step(config, env, valgrind);
    let sp = spec_perf_step(config, env, perf);
    let ss = spec_powerstat_step(config, env, powerstat);
    let st = spec_powertop_step(config, env, powertop);
    assert(spec_rows(rep.vulnerability_tools@).len() == rep.vulnerability_tools@.len());
    assert(spec_rows(rep.energy_tools@).len() == rep.energy_tools@.len());
    if config.valgrind.enable && valgrind.available {
        assert(opt_row(sv->Ok_0)[0][0] == "Valgrind"@);
        assert(spec_rows(rep.vulnerability_tools@)[0] == rep.vulnerability_tools@[0].row_view());
    }
    if config.perf.enable && perf.available {
        let last = rep.vulnerability_tools@.len() - 1;
        assert(opt_row(sp->Ok_0)[0][0] == "Perf"@);
        assert(spec_rows(rep.vulnerability_tools@)[last]
            == rep.vulnerability_tools@[last].row_view());
    }
    if config.powerstat.enable && powerstat.available {
        assert(opt_row(ss->Ok_0)[0][0] == "Powerstat"@);
        assert(spec_rows(rep.energy_tools@)[0] == rep.energy_tools@[0].row_view());
    }
    if config.powertop.enable && powertop.available {
        let last = rep.energy_tools@.len() - 1;
        assert(opt_row(st->Ok_0)[0][0] == "Powertop"@);
        assert(spec_rows(rep.energy_tools@)[last] == rep.energy_tools@[last].row_view());
    }
}

/// Running the pipeline twice against the same immutable inputs produces
/// the same reports, byte for byte: the per-tool report files, the
/// aggregate entries and the aggregate report of the two runs all agree.
pub proof fn lemma_pipeline_idempotent(
    config: Configurator,
    env: TemplateEnv,
    valgrind: ToolSession,
    perf: ToolSession,
    powerstat: ToolSession,
    powertop: ToolSession,
    rep1: PipelineReports,
    rep2: PipelineReports,
)
    requires
        spec_pipeline_ok(config, env, valgrind, perf, powerstat, powertop, rep1),
        spec_pipeline_ok(config, env, valgrind, perf, powerstat, powertop, rep2),
    ensures
        files_view(rep1.tool_reports@) == files_view(rep2.tool_reports@),
        spec_rows(rep1.vulnerability_tools@) == spec_rows(rep2.vulnerability_tools@),
        spec_rows(rep1.energy_tools@) == spec_rows(rep2.energy_tools@),
        rep1.final_report is Some <==> rep2.final_report is Some,
        rep1.final_report is Some ==> rep1.final_report->0@ == rep2.final_report->0@,
{
}

} // verus!
