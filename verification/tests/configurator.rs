use lich::configuration::{Configuration, PowerStat, PowerTop, Valgrind};
use lich::configurator::{
    always_true, config_file_in_directory, create_docker_path, validate_configuration_file,
    BinaryConfig, ConfigPathError, Configurator,
};
use lich::output::ReportFormat;
use lich::tools::{
    default_csv_output, PerfConfig, PowerstatConfig, PowertopConfig, ValgrindConfig,
};

#[test]
fn sections_default_to_enabled() {
    assert!(always_true());
    assert!(ValgrindConfig::default().enable);
    assert!(PerfConfig::default().enable);
    assert!(PowerstatConfig::default().enable);
    assert!(PowertopConfig::default().enable);
    assert_eq!(ValgrindConfig::default().timeout, 0);
    assert_eq!(PerfConfig::default().timeout, 0);
    assert_eq!(PowertopConfig::default().csv_output, "powertop.csv");
    assert_eq!(default_csv_output(), "powertop.csv");
}

#[test]
fn docker_path_prefixes_relative_paths() {
    assert_eq!(create_docker_path("etc/app".to_string()), "/lich/etc/app");
    assert_eq!(create_docker_path("/abs/app".to_string()), "/abs/app");
    assert_eq!(create_docker_path(String::new()), "/lich/");
}

#[test]
fn configuration_file_joined_into_directory() {
    assert_eq!(config_file_in_directory(&"work".to_string()), "work/lich.toml");
    assert_eq!(config_file_in_directory(&"work/".to_string()), "work/lich.toml");
    assert_eq!(config_file_in_directory(&String::new()), "lich.toml");
}

#[test]
fn directory_with_configuration_file_passes() {
    let r = validate_configuration_file(&"work".to_string(), true, false, Some(true));
    assert_eq!(r, Ok("work/lich.toml".to_string()));
}

#[test]
fn directory_without_configuration_file_is_rejected() {
    let r = validate_configuration_file(&"work".to_string(), true, false, Some(false));
    assert_eq!(r, Err(ConfigPathError::MissingConfigurationFile));
    assert_eq!(
        ConfigPathError::MissingConfigurationFile.message(),
        "The configuration path is a directory, but it does not contain the `lich.toml` file."
    );
}

#[test]
fn failed_probe_is_reported() {
    let r = validate_configuration_file(&"work".to_string(), true, false, None);
    assert_eq!(r, Err(ConfigPathError::ProbeFailed));
    assert_eq!(
        ConfigPathError::ProbeFailed.message(),
        "Error checking the configuration path existence"
    );
}

#[test]
fn wrongly_named_file_is_rejected() {
    let r = validate_configuration_file(&"work/other.toml".to_string(), false, true, None);
    assert_eq!(r, Err(ConfigPathError::NotTheConfigurationFile));
    let msg = ConfigPathError::NotTheConfigurationFile.message();
    assert_eq!(
        msg,
        "The configuration file must be called `lich.toml`. Rename the file accordingly."
    );
}

#[test]
fn rightly_named_file_passes() {
    let r = validate_configuration_file(&"work/lich.toml".to_string(), false, true, None);
    assert_eq!(r, Ok("work/lich.toml".to_string()));
}

#[test]
fn nonexistent_path_passes_through() {
    let r = validate_configuration_file(&"nowhere".to_string(), false, false, None);
    assert_eq!(r, Ok("nowhere".to_string()));
}

#[test]
fn csv_output_path_extension_rule() {
    let section = |p: &str| PowertopConfig {
        enable: true,
        args: Vec::new(),
        csv_output: p.to_string(),
    };
    assert!(section("powertop.csv").check_csv_output_path());
    assert!(section("out/data.csv").check_csv_output_path());
    assert!(section("archive.tar.csv").check_csv_output_path());
    assert!(!section("powertop.txt").check_csv_output_path());
    assert!(!section(".csv").check_csv_output_path());
    assert!(!section("powertop").check_csv_output_path());
    assert!(!section("").check_csv_output_path());
}

#[test]
fn csv_output_appended_to_arguments() {
    let mut section = PowertopConfig {
        enable: true,
        args: vec!["--quiet".to_string()],
        csv_output: "out/data.csv".to_string(),
    };
    section.add_csv_output_to_args();
    assert_eq!(section.args, vec!["--quiet".to_string(), "--csv=out/data.csv".to_string()]);
}

fn config_with_csv(csv: &str) -> Configurator {
    Configurator {
        binary_path: "./target".to_string(),
        report_path: "reports".to_string(),
        root: String::new(),
        docker: false,
        format: ReportFormat::Markdown,
        binary: BinaryConfig::default(),
        valgrind: ValgrindConfig::default(),
        perf: PerfConfig::default(),
        powerstat: PowerstatConfig::default(),
        powertop: PowertopConfig {
            enable: true,
            args: Vec::new(),
            csv_output: csv.to_string(),
        },
    }
}

#[test]
fn powertop_section_validated_and_extended() {
    let mut config = config_with_csv("powertop.csv");
    assert!(Configurator::powertop(&mut config));
    assert_eq!(config.powertop.args, vec!["--csv=powertop.csv".to_string()]);
}

#[test]
fn normalize_applies_docker_paths() {
    let mut config = config_with_csv("powertop.csv");
    config.docker = true;
    assert!(config.normalize());
    assert_eq!(config.binary_path, "/lich/./target");
    assert_eq!(config.report_path, "/lich/reports");
}

#[test]
fn enabled_flags_are_read_from_the_sections() {
    let mut config = config_with_csv("powertop.csv");
    assert!(config.is_valgrind_enabled());
    assert!(config.is_perf_enabled());
    assert!(config.is_powerstat_enabled());
    assert!(config.is_powertop_enabled());
    config.valgrind.enable = false;
    assert!(!config.is_valgrind_enabled());
}

#[test]
fn reduced_configuration_flags() {
    let config = Configuration {
        report_path: "reports".to_string(),
        format: ReportFormat::default(),
        valgrind: Valgrind::default(),
        powerstat: PowerStat::default(),
        powertop: PowerTop::default(),
    };
    assert!(config.is_valgrind_enabled());
    assert!(config.is_powerstat_enabled());
    assert!(config.is_powertop_enabled());
}
