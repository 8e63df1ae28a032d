//! The report renderer: one report file per tool and one aggregate report,
//! rendered from templates. Rendering goes through the template engine; the
//! files themselves are written by the embedding application.

use vstd::prelude::*;

use crate::configurator::Configurator;
use crate::invoke::lemma_vec_deep_view;

verus! {

/// One tool's entry in the aggregate report: its display header, the file
/// name of its own report, and its result marker.
#[derive(Debug)]
pub struct ToolOutput {
    pub header: &'static str,
    pub report_path: String,
    pub result: &'static str,
}

impl ToolOutput {
    pub fn new(header: &'static str, report_path: String, result: &'static str) -> (r: Self)
        ensures
            r.header@ == header@,
            r.report_path == report_path,
            r.result@ == result@,
    {
        ToolOutput { header, report_path, result }
    }

    /// This entry as the aggregate template sees it: header, report file
    /// name, result marker.
    pub open spec fn row_view(&self) -> Seq<Seq<char>> {
        seq![self.header@, self.report_path@, self.result@]
    }
}

/// The report formats a run can be configured to produce. HTML is declared
/// for forward compatibility and deliberately renders nothing yet.
#[derive(Clone, Copy, Debug, PartialEq, Eq, Structural)]
pub enum ReportFormat {
    Markdown,
    Html,
    All,
}

impl Default for ReportFormat {
    fn default() -> (r: Self)
        ensures
            r == ReportFormat::Markdown,
    {
        ReportFormat::Markdown
    }
}

/// The file extension of a report in `format`.
pub open spec fn spec_ext(format: ReportFormat) -> Seq<char> {
    if format == ReportFormat::Markdown {
        "md"@
    } else {
        "html"@
    }
}

impl ReportFormat {
    /// The file extension a report in this format carries.
    pub fn ext(&self) -> (r: &'static str)
        ensures
            r@ == spec_ext(*self),
    {
        match self {
            ReportFormat::Markdown => "md",
            _ => "html",
        }
    }
}

/// The file name of one tool's report: the tool's identifier with the
/// format's extension.
pub open spec fn spec_report_path(tool_name: Seq<char>, extension: Seq<char>) -> Seq<char> {
    tool_name + "."@ + extension
}

pub fn create_report_path(tool_name: &str, extension: &str) -> (r: String)
    ensures
        r@ == spec_report_path(tool_name@, extension@),
{
    let mut r = tool_name.to_owned();
    r.append(".");
    r.append(extension);
    r
}

/// A rendered report ready to be written: the file name inside the report
/// directory, and the full text.
#[derive(Debug)]
pub struct ReportFile {
    pub name: String,
    pub contents: String,
}

impl View for ReportFile {
    type V = (Seq<char>, Seq<char>);

    open spec fn view(&self) -> (Seq<char>, Seq<char>) {
        (self.name@, self.contents@)
    }
}

/// The names under which the two built-in templates are registered.
#[derive(Clone, Copy, Debug, PartialEq, Eq, Structural)]
pub enum TemplateName {
    Report,
    FinalReport,
}

/// The template environment the renderer draws from: the per-tool report
/// template and the aggregate report template, registered before the run.
/// A missing one indicates a packaging defect, not a user condition.
pub struct TemplateEnv {
    pub report: Option<String>,
    pub final_report: Option<String>,
}

/// The view of an optional template source.
pub open spec fn spec_template_view(t: Option<String>) -> Option<Seq<char>> {
    match t {
        None => None,
        Some(s) => Some(s@),
    }
}

impl TemplateEnv {
    pub fn new() -> (r: Self)
        ensures
            r.report is None,
            r.final_report is None,
    {
        TemplateEnv { report: None, final_report: None }
    }

    pub fn add_template(&mut self, name: TemplateName, source: String)
        ensures
            name == TemplateName::Report ==> final(self).report == Some(source)
                && final(self).final_report == old(self).final_report,
            name == TemplateName::FinalReport ==> final(self).final_report == Some(source)
                && final(self).report == old(self).report,
    {
        match name {
            TemplateName::Report => {
                self.report = Some(source);
            },
            TemplateName::FinalReport => {
                self.final_report = Some(source);
            },
        }
    }

    pub fn get_template(&self, name: TemplateName) -> (r: Option<&String>)
        ensures
            name == TemplateName::Report ==> (r is Some <==> self.report is Some) && (r is Some
                ==> *r->0 == self.report->0),
            name == TemplateName::FinalReport ==> (r is Some <==> self.final_report is Some) && (
            r is Some ==> *r->0 == self.final_report->0),
    {
        match name {
            TemplateName::Report => self.report.as_ref(),
            TemplateName::FinalReport => self.final_report.as_ref(),
        }
    }
}

/// Why a report could not be produced: the looked-up template was never
/// registered, or the template engine refused to render it.
#[derive(Clone, Copy, Debug, PartialEq, Eq, Structural)]
pub enum ReportError {
    MissingTemplate,
    RenderFailed,
}

/// What the template engine makes of the per-tool report template applied
/// to one tool's header, result marker and output text; `None` when the
/// template does not parse or render.
pub uninterp spec fn rendered_report(
    template: Seq<char>,
    header: Seq<char>,
    result: Seq<char>,
    output: Seq<char>,
) -> Option<Seq<char>>;

/// Relies on minijinja's `Environment::render_str`: with a fixed default
/// environment, rendering is a function of the template source and the
/// context values alone. The context binds `header`, `result` and `output`.
#[verifier::external_body]
fn render_report(template: &str, header: &str, result: &str, output: &str) -> (r: Option<String>)
    ensures
        r is Some <==> rendered_report(template@, header@, result@, output@) is Some,
        r is Some ==> r->0@ == rendered_report(template@, header@, result@, output@)->0,
{
    let mut ctx = std::collections::BTreeMap::new();
    ctx.insert("header", header);
    ctx.insert("result", result);
    ctx.insert("output", output);
    minijinja::Environment::new().render_str(template, ctx).ok()
}

/// What the template engine makes of the aggregate report template applied
/// to the two groups of tool rows; `None` when the template does not parse
/// or render.
pub uninterp spec fn rendered_final(
    template: Seq<char>,
    vulnerability: Seq<Seq<Seq<char>>>,
    energy: Seq<Seq<Seq<char>>>,
) -> Option<Seq<char>>;

/// Relies on minijinja's `Environment::render_str`: with a fixed default
/// environment, rendering is a function of the template source and the
/// context values alone. The context binds `vulnerability_tools` and
/// `energy_tools`, each a list of header / report file / result rows.
#[verifier::external_body]
fn render_final(template: &str, vulnerability: &Vec<Vec<String>>, energy: &Vec<Vec<String>>) -> (r:
    Option<String>)
    ensures
        r is Some <==> rendered_final(template@, vulnerability.deep_view(), energy.deep_view())
            is Some,
        r is Some ==> r->0@ == rendered_final(
            template@,
            vulnerability.deep_view(),
            energy.deep_view(),
        )->0,
{
    let mut ctx = std::collections::BTreeMap::new();
    ctx.insert("vulnerability_tools", vulnerability);
    ctx.insert("energy_tools", energy);
    minijinja::Environment::new().render_str(template, ctx).ok()
}

/// The aggregate rows of `outs`: one row per tool, in order.
pub open spec fn spec_rows(outs: Seq<ToolOutput>) -> Seq<Seq<Seq<char>>> {
    outs.map_values(|t: ToolOutput| t.row_view())
}

/// The rows handed to the aggregate template: header, report file name and
/// result marker of every tool, in order.
pub fn tool_output_rows(outs: &Vec<ToolOutput>) -> (r: Vec<Vec<String>>)
    ensures
        r.deep_view() == spec_rows(outs@),
{
    let mut rows: Vec<Vec<String>> = Vec::new();
    let mut i: usize = 0;
    proof {
        assert(rows.deep_view() =~= spec_rows(outs@.take(0)));
    }
    while i < outs.len()
        invariant
            i <= outs.len(),
            rows.deep_view() == spec_rows(outs@.take(i as int)),
        decreases outs.len() - i,
    {
        let t = &outs[i];
        let mut row: Vec<String> = Vec::new();
        row.push(t.header.to_owned());
        row.push(t.report_path.clone());
        row.push(t.result.to_owned());
        proof {
            lemma_vec_deep_view(&row);
            assert(row.deep_view() =~= t.row_view());
        }
        let ghost pre = rows.deep_view();
        let ghost prev = rows@;
        proof {
            lemma_vec_deep_view(&rows);
        }
        let ghost row_snapshot = row;
        rows.push(row);
        proof {
            lemma_vec_deep_view(&rows);
            assert(rows@ == prev.push(row_snapshot));
            assert forall|k: int| 0 <= k < rows@.len() implies #[trigger] rows.deep_view()[k]
                == spec_rows(outs@.take(i + 1))[k] by {
                if k < prev.len() {
                    assert(rows@[k] == prev[k]);
                    assert(pre[k] == prev[k].deep_view());
                    assert(pre[k] == spec_rows(outs@.take(i as int))[k]);
                } else {
                    assert(rows@[k] == row_snapshot);
                }
            }
            assert(rows.deep_view() =~= spec_rows(outs@.take(i + 1)));
        }
        i = i + 1;
    }
    proof {
        assert(outs@.take(outs@.len() as int) =~= outs@);
    }
    rows
}

/// What rendering one tool's report returns: the file name and contents on
/// success, the failure that blocked it otherwise.
pub open spec fn spec_render_tool_report(
    template: Option<Seq<char>>,
    header: Seq<char>,
    result: Seq<char>,
    output: Seq<char>,
    file_name: Seq<char>,
) -> Result<(Seq<char>, Seq<char>), ReportError> {
    match template {
        None => Err(ReportError::MissingTemplate),
        Some(t) => match rendered_report(t, header, result, output) {
            Some(contents) => Ok((file_name, contents)),
            None => Err(ReportError::RenderFailed),
        },
    }
}

/// The fixed file name of the aggregate Markdown report.
pub open spec fn spec_final_report_name() -> Seq<char> {
    "final_report.md"@
}

/// What rendering the aggregate report returns.
pub open spec fn spec_render_final_report(
    template: Option<Seq<char>>,
    vulnerability: Seq<Seq<Seq<char>>>,
    energy: Seq<Seq<Seq<char>>>,
) -> Result<(Seq<char>, Seq<char>), ReportError> {
    match template {
        None => Err(ReportError::MissingTemplate),
        Some(t) => match rendered_final(t, vulnerability, energy) {
            Some(contents) => Ok((spec_final_report_name(), contents)),
            None => Err(ReportError::RenderFailed),
        },
    }
}

/// What producing the aggregate report returns under each format: the
/// Markdown report for the Markdown and All formats, and deliberately
/// nothing for the HTML format, which is declared but not yet implemented.
pub open spec fn spec_produce_final_report(
    format: ReportFormat,
    template: Option<Seq<char>>,
    vulnerability: Seq<Seq<Seq<char>>>,
    energy: Seq<Seq<Seq<char>>>,
) -> Result<Option<(Seq<char>, Seq<char>)>, ReportError> {
    if format == ReportFormat::Html {
        Ok(None)
    } else {
        match spec_render_final_report(template, vulnerability, energy) {
            Ok(f) => Ok(Some(f)),
            Err(e) => Err(e),
        }
    }
}

pub struct Output;

impl Output {
    /// Renders one tool's outcome into its report file through the per-tool
    /// template. The caller writes the file into the report directory.
    pub fn write_report(
        environment: &TemplateEnv,
        header: &str,
        result: &str,
        output: &str,
        report_path_file: &str,
    ) -> (r: Result<ReportFile, ReportError>)
        ensures
            ({
                let s = spec_render_tool_report(
                    spec_template_view(environment.report),
                    header@,
                    result@,
                    output@,
                    report_path_file@,
                );
                match r {
                    Ok(f) => s is Ok && f@ == s->Ok_0,
                    Err(e) => s is Err && e == s->Err_0,
                }
            }),
    {
        match &environment.report {
            None => Err(ReportError::MissingTemplate),
            Some(t) => match render_report(t.as_str(), header, result, output) {
                Some(contents) => Ok(ReportFile { name: report_path_file.to_owned(), contents }),
                None => Err(ReportError::RenderFailed),
            },
        }
    }

    /// Renders the aggregate Markdown report listing every tool's header,
    /// result marker and report file, grouped and in invocation order.
    pub fn generate_markdown_report(
        environment: &TemplateEnv,
        vulnerability_tools: &Vec<ToolOutput>,
        energy_tools: &Vec<ToolOutput>,
    ) -> (r: Result<ReportFile, ReportError>)
        ensures
            ({
                let s = spec_render_final_report(
                    spec_template_view(environment.final_report),
                    spec_rows(vulnerability_tools@),
                    spec_rows(energy_tools@),
                );
                match r {
                    Ok(f) => s is Ok && f@ == s->Ok_0,
                    Err(e) => s is Err && e == s->Err_0,
                }
            }),
    {
        match &environment.final_report {
            None => Err(ReportError::MissingTemplate),
            Some(t) => {
                let vulnerability = tool_output_rows(vulnerability_tools);
                let energy = tool_output_rows(energy_tools);
                match render_final(t.as_str(), &vulnerability, &energy) {
                    Some(contents) => Ok(
                        ReportFile { name: "final_report.md".to_owned(), contents },
                    ),
                    None => Err(ReportError::RenderFailed),
                }
            },
        }
    }

    /// Produces the aggregate report in the configured format, dispatching
    /// on every declared format: Markdown and All render the Markdown
    /// report, HTML deliberately renders nothing yet.
    pub fn produce_final_report(
        config: &Configurator,
        environment: &TemplateEnv,
        vulnerability_tools: &Vec<ToolOutput>,
        energy_tools: &Vec<ToolOutput>,
    ) -> (r: Result<Option<ReportFile>, ReportError>)
        ensures
            ({
                let s = spec_produce_final_report(
                    config.format,
                    spec_template_view(environment.final_report),
                    spec_rows(vulnerability_tools@),
                    spec_rows(energy_tools@),
                );
                match r {
                    Ok(Some(f)) => s is Ok && s->Ok_0 is Some && f@ == s->Ok_0->0,
                    Ok(None) => s == Ok::<Option<(Seq<char>, Seq<char>)>, ReportError>(None),
                    Err(e) => s is Err && e == s->Err_0,
                }
            }),
    {
        match config.format {
            ReportFormat::Markdown | ReportFormat::All => {
                match Self::generate_markdown_report(
                    environment,
                    vulnerability_tools,
                    energy_tools,
                ) {
                    Ok(f) => Ok(Some(f)),
                    Err(e) => Err(e),
                }
            },
            ReportFormat::Html => Ok(None),
        }
    }
}

} // verus!
