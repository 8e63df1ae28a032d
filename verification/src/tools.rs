//! The tool adapters: one per external diagnostic tool, each owning its
//! command name, display header, invocation shape and classification rule,
//! together with the per-tool configuration sections.

use vstd::prelude::*;

use crate::classify::{
    classify,
    spec_classify,
    stdout_result,
    success_tag,
    ClassifyError,
};
use crate::configurator::Configurator;
use crate::invoke::{
    build_command,
    existence_probe,
    lemma_vec_deep_view,
    spec_binary_input,
    spec_invocation,
    target_tail,
    ExecResult,
    ExecutionRequest,
};
use crate::output::{
    create_report_path,
    spec_ext,
    spec_render_tool_report,
    spec_report_path,
    spec_template_view,
    Output,
    ReportError,
    ReportFile,
    TemplateEnv,
    ToolOutput,
};
use crate::text::last_index_of;
use crate::text::rfind_char;

verus! {

/// A probe for an external tool found it missing from the system: fatal for
/// that tool's pipeline alone.
#[derive(Clone, Copy, Debug, PartialEq, Eq, Structural)]
pub enum ToolError {
    Unavailable,
}

/// The availability decision over a probe's outcome: the tool is available
/// exactly when its probe process could be spawned.
pub fn check_availability(probe_spawned: bool) -> (r: Result<(), ToolError>)
    ensures
        r is Ok <==> probe_spawned,
        r is Err ==> r->Err_0 == ToolError::Unavailable,
{
    if probe_spawned {
        Ok(())
    } else {
        Err(ToolError::Unavailable)
    }
}

/// What a stream-based adapter's run produces from a captured result: the
/// report body, the result marker and the report file name, or the decoding
/// failure that blocked classification.
pub open spec fn spec_tool_run(
    tolerant: bool,
    tool_name: Seq<char>,
    format: crate::output::ReportFormat,
    code: Option<i32>,
    stdout: Seq<u8>,
    stderr: Seq<u8>,
) -> Result<(Seq<char>, Seq<char>, Seq<char>), ClassifyError> {
    match spec_classify(code, stdout, stderr, tolerant) {
        Some(c) => Ok((c.0, c.1, spec_report_path(tool_name, spec_ext(format)))),
        None => Err(ClassifyError::InvalidUtf8),
    }
}

/// The extra command-line arguments a configuration section hands to its
/// tool.
pub trait Args {
    spec fn spec_args(&self) -> Seq<Seq<char>>;

    fn args(&self) -> (r: &Vec<String>)
        ensures
            r.deep_view() == self.spec_args(),
    ;
}

/// `[valgrind]` section options.
pub struct ValgrindConfig {
    pub enable: bool,
    pub args: Vec<String>,
    pub timeout: u16,
}

impl Default for ValgrindConfig {
    fn default() -> (r: Self)
        ensures
            r.enable,
            r.args@ == Seq::<String>::empty(),
            r.timeout == 0,
    {
        ValgrindConfig { enable: true, args: Vec::new(), timeout: 0 }
    }
}

impl Args for ValgrindConfig {
    open spec fn spec_args(&self) -> Seq<Seq<char>> {
        self.args.deep_view()
    }

    fn args(&self) -> (r: &Vec<String>) {
        &self.args
    }
}

/// `[perf]` section options.
pub struct PerfConfig {
    pub enable: bool,
    pub args: Vec<String>,
    pub timeout: u16,
}

impl Default for PerfConfig {
    fn default() -> (r: Self)
        ensures
            r.enable,
            r.args@ == Seq::<String>::empty(),
            r.timeout == 0,
    {
        PerfConfig { enable: true, args: Vec::new(), timeout: 0 }
    }
}

impl Args for PerfConfig {
    open spec fn spec_args(&self) -> Seq<Seq<char>> {
        self.args.deep_view()
    }

    fn args(&self) -> (r: &Vec<String>) {
        &self.args
    }
}

/// `[powerstat]` section options.
pub struct PowerstatConfig {
    pub enable: bool,
    pub args: Vec<String>,
}

impl Default for PowerstatConfig {
    fn default() -> (r: Self)
        ensures
            r.enable,
            r.args@ == Seq::<String>::empty(),
    {
        PowerstatConfig { enable: true, args: Vec::new() }
    }
}

impl Args for PowerstatConfig {
    open spec fn spec_args(&self) -> Seq<Seq<char>> {
        self.args.deep_view()
    }

    fn args(&self) -> (r: &Vec<String>) {
        &self.args
    }
}

/// The side-output file the power-profiling tool writes when no other path
/// is configured.
pub fn default_csv_output() -> (r: String)
    ensures
        r@ == "powertop.csv"@,
{
    "powertop.csv".to_owned()
}

/// The path names a file whose extension is `csv`. This models
/// `Path::extension`: the extension sits after the last dot of the last
/// path component, and a leading dot that is the component's only dot marks
/// a hidden file without an extension.
pub open spec fn spec_csv_path_ok(p: Seq<char>) -> bool {
    let name = p.skip(last_index_of(p, '/') + 1);
    let d = last_index_of(name, '.');
    d >= 1 && name.skip(d) == ".csv"@
}

/// `[powertop]` section options.
pub struct PowertopConfig {
    pub enable: bool,
    pub args: Vec<String>,
    pub csv_output: String,
}

impl PowertopConfig {
    /// The configured side-output path carries the extension the tool will
    /// write, checked before any process is spawned.
    pub fn check_csv_output_path(&self) -> (r: bool)
        ensures
            r == spec_csv_path_ok(self.csv_output@),
    {
        let s = self.csv_output.as_str();
        let n = s.unicode_len();
        let start = match rfind_char(s, '/') {
            Some(i) => i + 1,
            None => 0,
        };
        let name = s.substring_char(start, n);
        proof {
            lemma_last_index_of_bound();
            assert(name@ =~= s@.skip(last_index_of(s@, '/') + 1));
        }
        match rfind_char(name, '.') {
            Some(d) => {
                if d >= 1 {
                    let name_len = name.unicode_len();
                    let ext = name.substring_char(d, name_len);
                    proof {
                        assert(ext@ =~= name@.skip(last_index_of(name@, '.')));
                    }
                    let r = ext.to_owned() == ".csv".to_owned();
                    r
                } else {
                    false
                }
            },
            None => false,
        }
    }

    /// Appends the side-output path to the tool's arguments, the way the
    /// tool expects it.
    pub fn add_csv_output_to_args(&mut self)
        ensures
            final(self).enable == old(self).enable,
            final(self).csv_output == old(self).csv_output,
            final(self).args.deep_view() == old(self).args.deep_view().push(
                "--csv="@ + old(self).csv_output@,
            ),
    {
        let mut arg = "--csv=".to_owned();
        arg.append(self.csv_output.as_str());
        let ghost pre = self.args@;
        self.args.push(arg);
        proof {
            lemma_vec_deep_view(&self.args);
            lemma_vec_deep_view(&old(self).args);
            assert(self.args@ == pre.push(arg));
            assert(self.args.deep_view() =~= old(self).args.deep_view().push(
                "--csv="@ + old(self).csv_output@,
            ));
        }
    }
}

/// `last_index_of` never reaches the length of its sequence; stated once
/// here for the path scans above.
proof fn lemma_last_index_of_bound()
    ensures
        forall|s: Seq<char>, c: char| -1 <= #[trigger] last_index_of(s, c) < s.len(),
{
    assert forall|s: Seq<char>, c: char| -1 <= #[trigger] last_index_of(s, c) < s.len() by {
        crate::text::lemma_last_index_of(s, c);
    }
}

impl Default for PowertopConfig {
    fn default() -> (r: Self)
        ensures
            r.enable,
            r.args@ == Seq::<String>::empty(),
            r.csv_output@ == "powertop.csv"@,
    {
        PowertopConfig { enable: true, args: Vec::new(), csv_output: default_csv_output() }
    }
}

impl Args for PowertopConfig {
    open spec fn spec_args(&self) -> Seq<Seq<char>> {
        self.args.deep_view()
    }

    fn args(&self) -> (r: &Vec<String>) {
        &self.args
    }
}

/// The command line the memory-check adapter builds: never escalated, under
/// the timeout wrapper when a timeout is configured.
pub open spec fn spec_valgrind_cmd(config: Configurator) -> Seq<Seq<char>> {
    spec_invocation(
        Seq::empty(),
        config.valgrind.timeout as nat,
        "valgrind"@,
        config.valgrind.args.deep_view(),
        seq![config.binary_path@] + config.binary.args.deep_view(),
    )
}

/// The memory-check adapter's finished run: the report body, the result
/// marker, and the name of its report file.
pub struct Valgrind {
    pub output: String,
    pub result: &'static str,
    pub report_path: String,
}

impl Valgrind {
    /// The probe that checks the tool's presence on the system.
    pub fn existence_request() -> (r: ExecutionRequest)
        ensures
            r.cmd_view() == seq!["valgrind"@, "-v"@],
    {
        existence_probe("valgrind")
    }

    /// The availability decision over the probe's outcome.
    pub fn check_existence(probe_spawned: bool) -> (r: Result<(), ToolError>)
        ensures
            r is Ok <==> probe_spawned,
    {
        check_availability(probe_spawned)
    }

    /// The invocation of the tool on the configured target.
    pub fn request(config: &Configurator) -> (r: ExecutionRequest)
        ensures
            r.cmd_view() == spec_valgrind_cmd(*config),
    {
        let no_escalation = String::new();
        let tail = target_tail(&config.binary_path, &config.binary.args);
        build_command(
            "valgrind",
            config.valgrind.args(),
            &no_escalation,
            config.valgrind.timeout,
            tail,
        )
    }

    /// Classifies the captured result of the tool's run. The tolerant rule
    /// applies: the tool may be deliberately time-bounded, so a timeout or
    /// termination exit code still counts as a success.
    pub fn run(config: &Configurator, output: &ExecResult) -> (r: Result<Valgrind, ClassifyError>)
        ensures
            ({
                let s = spec_tool_run(
                    true,
                    "valgrind"@,
                    config.format,
                    output.code,
                    output.stdout@,
                    output.stderr@,
                );
                match r {
                    Ok(v) => s is Ok && (v.output@, v.result@, v.report_path@) == s->Ok_0,
                    Err(e) => s is Err && e == s->Err_0,
                }
            }),
    {
        match classify(output, true) {
            Ok((text, tag)) => Ok(
                Valgrind {
                    output: text,
                    result: tag,
                    report_path: create_report_path("valgrind", config.format.ext()),
                },
            ),
            Err(e) => Err(e),
        }
    }

    /// Renders this run's report file.
    pub fn write_report(&self, environment: &TemplateEnv) -> (r: Result<ReportFile, ReportError>)
        ensures
            ({
                let s = spec_render_tool_report(
                    spec_template_view(environment.report),
                    "Valgrind"@,
                    self.result@,
                    self.output@,
                    self.report_path@,
                );
                match r {
                    Ok(f) => s is Ok && f@ == s->Ok_0,
                    Err(e) => s is Err && e == s->Err_0,
                }
            }),
    {
        Output::write_report(
            environment,
            "Valgrind",
            self.result,
            self.output.as_str(),
            self.report_path.as_str(),
        )
    }

    /// This run's entry in the aggregate report.
    pub fn final_report_data(self) -> (r: ToolOutput)
        ensures
            r.header@ == "Valgrind"@,
            r.report_path == self.report_path,
            r.result@ == self.result@,
    {
        ToolOutput::new("Valgrind", self.report_path, self.result)
    }
}

/// The command line the CPU-profiling adapter builds: escalated when an
/// account is configured, under the timeout wrapper when a timeout is
/// configured.
pub open spec fn spec_perf_cmd(config: Configurator) -> Seq<Seq<char>> {
    spec_invocation(
        config.root@,
        config.perf.timeout as nat,
        "perf"@,
        config.perf.args.deep_view(),
        seq![config.binary_path@] + config.binary.args.deep_view(),
    )
}

/// The CPU-profiling adapter's finished run.
pub struct Perf {
    pub output: String,
    pub result: &'static str,
    pub report_path: String,
}

impl Perf {
    /// The probe that checks the tool's presence on the system.
    pub fn existence_request() -> (r: ExecutionRequest)
        ensures
            r.cmd_view() == seq!["perf"@, "-v"@],
    {
        existence_probe("perf")
    }

    /// The availability decision over the probe's outcome.
    pub fn check_existence(probe_spawned: bool) -> (r: Result<(), ToolError>)
        ensures
            r is Ok <==> probe_spawned,
    {
        check_availability(probe_spawned)
    }

    /// The invocation of the tool on the configured target.
    pub fn request(config: &Configurator) -> (r: ExecutionRequest)
        ensures
            r.cmd_view() == spec_perf_cmd(*config),
    {
        let tail = target_tail(&config.binary_path, &config.binary.args);
        build_command("perf", config.perf.args(), &config.root, config.perf.timeout, tail)
    }

    /// Classifies the captured result of the tool's run. The tolerant rule
    /// applies: the profiler may be deliberately time-bounded, so a timeout
    /// or termination exit code still counts as a success.
    pub fn run(config: &Configurator, output: &ExecResult) -> (r: Result<Perf, ClassifyError>)
        ensures
            ({
                let s = spec_tool_run(
                    true,
                    "perf"@,
                    config.format,
                    output.code,
                    output.stdout@,
                    output.stderr@,
                );
                match r {
                    Ok(v) => s is Ok && (v.output@, v.result@, v.report_path@) == s->Ok_0,
                    Err(e) => s is Err && e == s->Err_0,
                }
            }),
    {
        match classify(output, true) {
            Ok((text, tag)) => Ok(
                Perf {
                    output: text,
                    result: tag,
                    report_path: create_report_path("perf", config.format.ext()),
                },
            ),
            Err(e) => Err(e),
        }
    }

    /// Renders this run's report file.
    pub fn write_report(&self, environment: &TemplateEnv) -> (r: Result<ReportFile, ReportError>)
        ensures
            ({
                let s = spec_render_tool_report(
                    spec_template_view(environment.report),
                    "Perf"@,
                    self.result@,
                    self.output@,
                    self.report_path@,
                );
                match r {
                    Ok(f) => s is Ok && f@ == s->Ok_0,
                    Err(e) => s is Err && e == s->Err_0,
                }
            }),
    {
        Output::write_report(
            environment,
            "Perf",
            self.result,
            self.output.as_str(),
            self.report_path.as_str(),
        )
    }

    /// This run's entry in the aggregate report.
    pub fn final_report_data(self) -> (r: ToolOutput)
        ensures
            r.header@ == "Perf"@,
            r.report_path == self.report_path,
            r.result@ == self.result@,
    {
        ToolOutput::new("Perf", self.report_path, self.result)
    }
}

/// The command line the first power-profiling adapter builds: escalated
/// when an account is configured, never time-bounded.
pub open spec fn spec_powerstat_cmd(config: Configurator) -> Seq<Seq<char>> {
    spec_invocation(
        config.root@,
        0,
        "powerstat"@,
        config.powerstat.args.deep_view(),
        seq![config.binary_path@] + config.binary.args.deep_view(),
    )
}

/// The first power-profiling adapter's finished run.
pub struct Powerstat {
    pub output: String,
    pub result: &'static str,
    pub report_path: String,
}

impl Powerstat {
    /// The probe that checks the tool's presence on the system.
    pub fn existence_request() -> (r: ExecutionRequest)
        ensures
            r.cmd_view() == seq!["powerstat"@, "-v"@],
    {
        existence_probe("powerstat")
    }

    /// The availability decision over the probe's outcome.
    pub fn check_existence(probe_spawned: bool) -> (r: Result<(), ToolError>)
        ensures
            r is Ok <==> probe_spawned,
    {
        check_availability(probe_spawned)
    }

    /// The invocation of the tool on the configured target.
    pub fn request(config: &Configurator) -> (r: ExecutionRequest)
        ensures
            r.cmd_view() == spec_powerstat_cmd(*config),
    {
        let tail = target_tail(&config.binary_path, &config.binary.args);
        build_command("powerstat", config.powerstat.args(), &config.root, 0, tail)
    }

    /// Classifies the captured result of the tool's run under the default
    /// rule: only exit code zero counts as a success.
    pub fn run(config: &Configurator, output: &ExecResult) -> (r: Result<Powerstat, ClassifyError>)
        ensures
            ({
                let s = spec_tool_run(
                    false,
                    "powerstat"@,
                    config.format,
                    output.code,
                    output.stdout@,
                    output.stderr@,
                );
                match r {
                    Ok(v) => s is Ok && (v.output@, v.result@, v.report_path@) == s->Ok_0,
                    Err(e) => s is Err && e == s->Err_0,
                }
            }),
    {
        match classify(output, false) {
            Ok((text, tag)) => Ok(
                Powerstat {
                    output: text,
                    result: tag,
                    report_path: create_report_path("powerstat", config.format.ext()),
                },
            ),
            Err(e) => Err(e),
        }
    }

    /// Renders this run's report file.
    pub fn write_report(&self, environment: &TemplateEnv) -> (r: Result<ReportFile, ReportError>)
        ensures
            ({
                let s = spec_render_tool_report(
                    spec_template_view(environment.report),
                    "Powerstat"@,
                    self.result@,
                    self.output@,
                    self.report_path@,
                );
                match r {
                    Ok(f) => s is Ok && f@ == s->Ok_0,
                    Err(e) => s is Err && e == s->Err_0,
                }
            }),
    {
        Output::write_report(
            environment,
            "Powerstat",
            self.result,
            self.output.as_str(),
            self.report_path.as_str(),
        )
    }

    /// This run's entry in the aggregate report.
    pub fn final_report_data(self) -> (r: ToolOutput)
        ensures
            r.header@ == "Powerstat"@,
            r.report_path == self.report_path,
            r.result@ == self.result@,
    {
        ToolOutput::new("Powerstat", self.report_path, self.result)
    }
}

/// The command line the second power-profiling adapter builds: escalated
/// when an account is configured, handing the target over as one combined
/// input blob rather than as separate arguments.
pub open spec fn spec_powertop_cmd(config: Configurator) -> Seq<Seq<char>> {
    spec_invocation(
        config.root@,
        0,
        "powertop"@,
        config.powertop.args.deep_view(),
        seq![spec_binary_input(config.binary_path@, config.binary.args.deep_view())],
    )
}

/// What the side-output adapter's run produces: on success the side file's
/// contents verbatim under the success marker, on failure the formatted
/// stderr under the failure marker.
pub open spec fn spec_powertop_run(
    format: crate::output::ReportFormat,
    code: Option<i32>,
    stdout: Seq<u8>,
    stderr: Seq<u8>,
    csv_contents: Option<Seq<char>>,
) -> Result<(Seq<char>, Seq<char>, Seq<char>), ClassifyError> {
    if code == Some(0i32) {
        Ok((csv_contents->0, success_tag(), spec_report_path("powertop"@, spec_ext(format))))
    } else {
        spec_tool_run(false, "powertop"@, format, code, stdout, stderr)
    }
}

/// The second power-profiling adapter's finished run.
pub struct Powertop {
    pub output: String,
    pub result: &'static str,
    pub report_path: String,
}

impl Powertop {
    /// The probe that checks the tool's presence on the system.
    pub fn existence_request() -> (r: ExecutionRequest)
        ensures
            r.cmd_view() == seq!["powertop"@, "-v"@],
    {
        existence_probe("powertop")
    }

    /// The availability decision over the probe's outcome.
    pub fn check_existence(probe_spawned: bool) -> (r: Result<(), ToolError>)
        ensures
            r is Ok <==> probe_spawned,
    {
        check_availability(probe_spawned)
    }

    /// The one combined input blob the tool consumes in place of separate
    /// target arguments.
    pub fn create_binary_input(binary_path: &String, binary_arguments: &Vec<String>) -> (r: String)
        ensures
            r@ == spec_binary_input(binary_path@, binary_arguments.deep_view()),
    {
        crate::invoke::create_binary_input(binary_path, binary_arguments)
    }

    /// The invocation of the tool on the configured target.
    pub fn request(config: &Configurator) -> (r: ExecutionRequest)
        ensures
            r.cmd_view() == spec_powertop_cmd(*config),
    {
        let blob = Self::create_binary_input(&config.binary_path, &config.binary.args);
        let mut tail: Vec<String> = Vec::new();
        tail.push(blob);
        proof {
            lemma_vec_deep_view(&tail);
            assert(tail.deep_view() =~= seq![
                spec_binary_input(config.binary_path@, config.binary.args.deep_view()),
            ]);
        }
        build_command("powertop", config.powertop.args(), &config.root, 0, tail)
    }

    /// Classifies the captured result of the tool's run. On success the
    /// report body is the side-output file's contents, handed in by the
    /// caller who read and removed that file; on failure it is the
    /// formatted stderr.
    pub fn run(config: &Configurator, output: &ExecResult, csv_contents: Option<String>) -> (r:
        Result<Powertop, ClassifyError>)
        requires
            output.spec_success() ==> csv_contents is Some,
        ensures
            ({
                let s = spec_powertop_run(
                    config.format,
                    output.code,
                    output.stdout@,
                    output.stderr@,
                    match csv_contents {
                        Some(c) => Some(c@),
                        None => None,
                    },
                );
                match r {
                    Ok(v) => s is Ok && (v.output@, v.result@, v.report_path@) == s->Ok_0,
                    Err(e) => s is Err && e == s->Err_0,
                }
            }),
    {
        if output.success() {
            match csv_contents {
                Some(contents) => Ok(
                    Powertop {
                        output: contents,
                        result: stdout_result(),
                        report_path: create_report_path("powertop", config.format.ext()),
                    },
                ),
                None => {
                    proof {
                        assert(false);
                    }
                    Err(ClassifyError::InvalidUtf8)
                },
            }
        } else {
            match classify(output, false) {
                Ok((text, tag)) => Ok(
                    Powertop {
                        output: text,
                        result: tag,
                        report_path: create_report_path("powertop", config.format.ext()),
                    },
                ),
                Err(e) => Err(e),
            }
        }
    }

    /// Renders this run's report file.
    pub fn write_report(&self, environment: &TemplateEnv) -> (r: Result<ReportFile, ReportError>)
        ensures
            ({
                let s = spec_render_tool_report(
                    spec_template_view(environment.report),
                    "Powertop"@,
                    self.result@,
                    self.output@,
                    self.report_path@,
                );
                match r {
                    Ok(f) => s is Ok && f@ == s->Ok_0,
                    Err(e) => s is Err && e == s->Err_0,
                }
            }),
    {
        Output::write_report(
            environment,
            "Powertop",
            self.result,
            self.output.as_str(),
            self.report_path.as_str(),
        )
    }

    /// This run's entry in the aggregate report.
    pub fn final_report_data(self) -> (r: ToolOutput)
        ensures
            r.header@ == "Powertop"@,
            r.report_path == self.report_path,
            r.result@ == self.result@,
    {
        ToolOutput::new("Powertop", self.report_path, self.result)
    }
}

} // verus!
