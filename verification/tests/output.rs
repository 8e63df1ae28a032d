use lich::output::{
    create_report_path, Output, ReportError, ReportFormat, TemplateEnv, TemplateName, ToolOutput,
};

fn env_with(report: Option<&str>, final_report: Option<&str>) -> TemplateEnv {
    let mut env = TemplateEnv::new();
    if let Some(t) = report {
        env.add_template(TemplateName::Report, t.to_string());
    }
    if let Some(t) = final_report {
        env.add_template(TemplateName::FinalReport, t.to_string());
    }
    env
}

#[test]
fn report_format_extensions() {
    assert_eq!(ReportFormat::Markdown.ext(), "md");
    assert_eq!(ReportFormat::Html.ext(), "html");
    assert_eq!(ReportFormat::All.ext(), "html");
    assert_eq!(ReportFormat::default(), ReportFormat::Markdown);
}

#[test]
fn report_path_is_tool_dot_extension() {
    assert_eq!(create_report_path("valgrind", "md"), "valgrind.md");
    assert_eq!(create_report_path("powertop", "html"), "powertop.html");
}

#[test]
fn template_environment_lookup() {
    let env = env_with(Some("per-tool"), None);
    assert_eq!(env.get_template(TemplateName::Report), Some(&"per-tool".to_string()));
    assert_eq!(env.get_template(TemplateName::FinalReport), None);
}

#[test]
fn renders_tool_report_through_the_template() {
    let env = env_with(Some("# {{header}}\n{{result}}\n{{output}}"), None);
    let f = Output::write_report(&env, "Valgrind", "[Success 😁]", "no leaks", "valgrind.md")
        .expect("template renders");
    assert_eq!(f.name, "valgrind.md");
    assert_eq!(f.contents, "# Valgrind\n[Success 😁]\nno leaks");
}

#[test]
fn missing_tool_template_is_a_packaging_fault() {
    let env = TemplateEnv::new();
    let r = Output::write_report(&env, "Valgrind", "tag", "body", "valgrind.md");
    assert_eq!(r.unwrap_err(), ReportError::MissingTemplate);
}

#[test]
fn unparsable_template_fails_the_render() {
    let env = env_with(Some("{% broken"), None);
    let r = Output::write_report(&env, "Valgrind", "tag", "body", "valgrind.md");
    assert_eq!(r.unwrap_err(), ReportError::RenderFailed);
}

#[test]
fn aggregate_report_lists_every_row() {
    let template = "{% for t in vulnerability_tools %}V:{{ t[0] }}={{ t[2] }}@{{ t[1] }};{% endfor %}\
{% for t in energy_tools %}E:{{ t[0] }}={{ t[2] }}@{{ t[1] }};{% endfor %}";
    let env = env_with(None, Some(template));
    let vulnerability = vec![ToolOutput::new("Valgrind", "valgrind.md".to_string(), "ok")];
    let energy = vec![
        ToolOutput::new("Powerstat", "powerstat.md".to_string(), "ok"),
        ToolOutput::new("Powertop", "powertop.md".to_string(), "bad"),
    ];
    let f = Output::generate_markdown_report(&env, &vulnerability, &energy)
        .expect("template renders");
    assert_eq!(f.name, "final_report.md");
    assert_eq!(
        f.contents,
        "V:Valgrind=ok@valgrind.md;E:Powerstat=ok@powerstat.md;E:Powertop=bad@powertop.md;"
    );
}

#[test]
fn missing_final_template_is_a_packaging_fault() {
    let env = TemplateEnv::new();
    let r = Output::generate_markdown_report(&env, &Vec::new(), &Vec::new());
    assert_eq!(r.unwrap_err(), ReportError::MissingTemplate);
}

fn plain_config(format: ReportFormat) -> lich::configurator::Configurator {
    lich::configurator::Configurator {
        binary_path: "./target".to_string(),
        report_path: "reports".to_string(),
        root: String::new(),
        docker: false,
        format,
        binary: lich::configurator::BinaryConfig::default(),
        valgrind: lich::tools::ValgrindConfig::default(),
        perf: lich::tools::PerfConfig::default(),
        powerstat: lich::tools::PowerstatConfig::default(),
        powertop: lich::tools::PowertopConfig::default(),
    }
}

#[test]
fn markdown_and_all_formats_render_the_aggregate() {
    let env = env_with(None, Some("{{ vulnerability_tools | length }} tools"));
    let vulnerability = vec![ToolOutput::new("Valgrind", "valgrind.md".to_string(), "ok")];
    for format in [ReportFormat::Markdown, ReportFormat::All] {
        let r = Output::produce_final_report(&plain_config(format), &env, &vulnerability, &Vec::new())
            .expect("renders");
        let f = r.expect("a file is produced");
        assert_eq!(f.name, "final_report.md");
        assert_eq!(f.contents, "1 tools");
    }
}

#[test]
fn html_format_deliberately_renders_nothing() {
    let env = env_with(None, Some("{{ vulnerability_tools | length }} tools"));
    let r = Output::produce_final_report(&plain_config(ReportFormat::Html), &env, &Vec::new(), &Vec::new())
        .expect("no error");
    assert!(r.is_none());
}
