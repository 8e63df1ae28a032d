//! The run's configuration: the target binary, the report directory, the
//! per-tool sections, and the validation applied to a configuration before
//! any tool executes. Reading and parsing the configuration file is I/O
//! left to the embedding application; the rules it must apply stand here.

use vstd::prelude::*;

use crate::output::ReportFormat;
use crate::text::{last_index_of, lemma_last_index_of, rfind_char};
use crate::tools::{
    spec_csv_path_ok,
    Args,
    PerfConfig,
    PowerstatConfig,
    PowertopConfig,
    ValgrindConfig,
};

verus! {

/// Serde-style default helper: a section that is present but does not set
/// its flag keeps the tool enabled.
pub fn always_true() -> (b: bool)
    ensures
        b,
{
    true
}

/// The directory a containerised run mounts its volume under.
pub open spec fn spec_docker_volume() -> Seq<char> {
    "/lich"@
}

/// `path` moved under the container volume directory, as `Path::join`
/// moves it: an absolute path replaces the base, any other is appended.
pub open spec fn spec_docker_path(p: Seq<char>) -> Seq<char> {
    if p.len() > 0 && p.first() == '/' {
        p
    } else {
        "/lich/"@ + p
    }
}

pub fn create_docker_path(path: String) -> (r: String)
    ensures
        r@ == spec_docker_path(path@),
{
    if !path.as_str().is_empty() && path.as_str().get_char(0) == '/' {
        path
    } else {
        let mut r = "/lich/".to_owned();
        r.append(path.as_str());
        r
    }
}

/// `[binary]` section options.
pub struct BinaryConfig {
    pub args: Vec<String>,
}

impl Default for BinaryConfig {
    fn default() -> (r: Self)
        ensures
            r.args@ == Seq::<String>::empty(),
    {
        BinaryConfig { args: Vec::new() }
    }
}

impl Args for BinaryConfig {
    open spec fn spec_args(&self) -> Seq<Seq<char>> {
        self.args.deep_view()
    }

    fn args(&self) -> (r: &Vec<String>) {
        &self.args
    }
}

/// The whole configuration of one run, read-only after load: the target
/// binary and its arguments, the report directory, the escalation account
/// (empty for none), the report format, and one section per tool.
pub struct Configurator {
    pub binary_path: String,
    pub report_path: String,
    pub root: String,
    pub docker: bool,
    pub format: ReportFormat,
    pub binary: BinaryConfig,
    pub valgrind: ValgrindConfig,
    pub perf: PerfConfig,
    pub powerstat: PowerstatConfig,
    pub powertop: PowertopConfig,
}

impl Configurator {
    /// Whether the memory-check tool runs; a missing section enables it
    /// with default parameters.
    pub fn is_valgrind_enabled(&self) -> (r: bool)
        ensures
            r == self.valgrind.enable,
    {
        self.valgrind.enable
    }

    /// Whether the CPU-profiling tool runs; a missing section enables it
    /// with default parameters.
    pub fn is_perf_enabled(&self) -> (r: bool)
        ensures
            r == self.perf.enable,
    {
        self.perf.enable
    }

    /// Whether the first power-profiling tool runs; a missing section
    /// enables it with default parameters.
    pub fn is_powerstat_enabled(&self) -> (r: bool)
        ensures
            r == self.powerstat.enable,
    {
        self.powerstat.enable
    }

    /// Whether the second power-profiling tool runs; a missing section
    /// enables it with default parameters.
    pub fn is_powertop_enabled(&self) -> (r: bool)
        ensures
            r == self.powertop.enable,
    {
        self.powertop.enable
    }

    /// Validates the side-output path of the power-profiling tool and, when
    /// it is acceptable, appends it to that tool's arguments. `false` is a
    /// fatal configuration error, raised before any process is spawned.
    pub fn powertop(config: &mut Configurator) -> (ok: bool)
        ensures
            ok == spec_csv_path_ok(old(config).powertop.csv_output@),
            !ok ==> *final(config) == *old(config),
            final(config).binary_path == old(config).binary_path,
            final(config).report_path == old(config).report_path,
            final(config).root == old(config).root,
            final(config).docker == old(config).docker,
            final(config).format == old(config).format,
            final(config).binary == old(config).binary,
            final(config).valgrind == old(config).valgrind,
            final(config).perf == old(config).perf,
            final(config).powerstat == old(config).powerstat,
            final(config).powertop.enable == old(config).powertop.enable,
            final(config).powertop.csv_output == old(config).powertop.csv_output,
            ok ==> final(config).powertop.args.deep_view() == old(
                config,
            ).powertop.args.deep_view().push("--csv="@ + old(config).powertop.csv_output@),
    {
        if config.powertop.check_csv_output_path() {
            config.powertop.add_csv_output_to_args();
            true
        } else {
            false
        }
    }

    /// The adjustments applied once after the configuration is parsed: a
    /// containerised run's paths move under the volume directory, and the
    /// power-profiling tool's side-output path is validated and appended to
    /// its arguments. `false` is a fatal configuration error.
    pub fn normalize(&mut self) -> (ok: bool)
        ensures
            ok == spec_csv_path_ok(old(self).powertop.csv_output@),
            final(self).binary_path@ == if old(self).docker {
                spec_docker_path(old(self).binary_path@)
            } else {
                old(self).binary_path@
            },
            final(self).report_path@ == if old(self).docker {
                spec_docker_path(old(self).report_path@)
            } else {
                old(self).report_path@
            },
            final(self).root == old(self).root,
            final(self).docker == old(self).docker,
            final(self).format == old(self).format,
            final(self).binary == old(self).binary,
            final(self).valgrind == old(self).valgrind,
            final(self).perf == old(self).perf,
            final(self).powerstat == old(self).powerstat,
            final(self).powertop.enable == old(self).powertop.enable,
            final(self).powertop.csv_output == old(self).powertop.csv_output,
            ok ==> final(self).powertop.args.deep_view() == old(
                self,
            ).powertop.args.deep_view().push("--csv="@ + old(self).powertop.csv_output@),
            !ok ==> final(self).powertop.args == old(self).powertop.args,
    {
        if self.docker {
            let binary_path = create_docker_path(self.binary_path.clone());
            self.binary_path = binary_path;
            let report_path = create_docker_path(self.report_path.clone());
            self.report_path = report_path;
        }
        Configurator::powertop(self)
    }
}

/// The fixed name the configuration file must carry.
pub open spec fn spec_config_file_name() -> Seq<char> {
    "lich.toml"@
}

/// `file` placed inside `dir`, as `Path::join` places it.
pub open spec fn spec_join_path(dir: Seq<char>, file: Seq<char>) -> Seq<char> {
    if dir.len() == 0 {
        file
    } else if dir.last() == '/' {
        dir + file
    } else {
        dir + seq!['/'] + file
    }
}

/// The last component of `p`: everything after its last separator.
pub open spec fn spec_file_name_of(p: Seq<char>) -> Seq<char> {
    p.skip(last_index_of(p, '/') + 1)
}

/// The path's last component is the configuration file's fixed name.
pub open spec fn spec_is_config_file_name(p: Seq<char>) -> bool {
    spec_file_name_of(p) == spec_config_file_name()
}

/// The configuration file expected inside the directory `directory`.
pub fn config_file_in_directory(directory: &String) -> (r: String)
    ensures
        r@ == spec_join_path(directory@, spec_config_file_name()),
{
    if directory.as_str().is_empty() {
        return "lich.toml".to_owned();
    }
    let n = directory.as_str().unicode_len();
    let mut r = directory.clone();
    if directory.as_str().get_char(n - 1) != '/' {
        r.append("/");
        proof {
            assert("/"@ =~= seq!['/']) by {
                reveal_strlit("/");
            }
        }
    }
    r.append("lich.toml");
    r
}

fn is_config_file_name(path: &str) -> (r: bool)
    ensures
        r == spec_is_config_file_name(path@),
{
    let n = path.unicode_len();
    let start = match rfind_char(path, '/') {
        Some(i) => i + 1,
        None => 0,
    };
    proof {
        lemma_last_index_of(path@, '/');
    }
    let name = path.substring_char(start, n);
    proof {
        assert(name@ =~= spec_file_name_of(path@));
    }
    name.to_owned() == "lich.toml".to_owned()
}

/// Why a configuration path was rejected.
#[derive(Clone, Copy, Debug, PartialEq, Eq, Structural)]
pub enum ConfigPathError {
    /// The path is a directory, and the configuration file is not inside
    /// it.
    MissingConfigurationFile,
    /// Probing for the configuration file inside the directory failed.
    ProbeFailed,
    /// The path names an existing file that is not called as the
    /// configuration file must be.
    NotTheConfigurationFile,
}

impl ConfigPathError {
    /// The message reported for this rejection.
    pub fn message(&self) -> (r: &'static str)
        ensures
            *self == ConfigPathError::MissingConfigurationFile ==> r@
                == "The configuration path is a directory, but it does not contain the `lich.toml` file."@,
            *self == ConfigPathError::ProbeFailed ==> r@
                == "Error checking the configuration path existence"@,
            *self == ConfigPathError::NotTheConfigurationFile ==> r@
                == "The configuration file must be called `lich.toml`. Rename the file accordingly."@,
    {
        match self {
            ConfigPathError::MissingConfigurationFile => "The configuration path is a directory, but it does not contain the `lich.toml` file.",
            ConfigPathError::ProbeFailed => "Error checking the configuration path existence",
            ConfigPathError::NotTheConfigurationFile => "The configuration file must be called `lich.toml`. Rename the file accordingly.",
        }
    }
}

/// What validating the configuration path returns, given what the file
/// system said of it: for a directory, the file inside it when the probe
/// found it, else the probe's failure; for an existing file under another
/// name than the fixed one, a rejection; anything else passes through.
pub open spec fn spec_validate_configuration_file(
    path: Seq<char>,
    is_dir: bool,
    is_file: bool,
    joined_exists: Option<bool>,
) -> Result<Seq<char>, ConfigPathError> {
    if is_dir {
        match joined_exists {
            Some(true) => Ok(spec_join_path(path, spec_config_file_name())),
            Some(false) => Err(ConfigPathError::MissingConfigurationFile),
            None => Err(ConfigPathError::ProbeFailed),
        }
    } else if is_file && !spec_is_config_file_name(path) {
        Err(ConfigPathError::NotTheConfigurationFile)
    } else {
        Ok(path)
    }
}

/// Validates the configuration path before anything is read from it.
/// `is_dir` and `is_file` are the file system's answers about the path
/// itself; `joined_exists` is its answer about the configuration file
/// inside the directory (`None` when that probe itself failed), consulted
/// only when the path is a directory.
pub fn validate_configuration_file(
    configuration_path: &String,
    is_dir: bool,
    is_file: bool,
    joined_exists: Option<bool>,
) -> (r: Result<String, ConfigPathError>)
    ensures
        ({
            let s = spec_validate_configuration_file(
                configuration_path@,
                is_dir,
                is_file,
                joined_exists,
            );
            match r {
                Ok(p) => s is Ok && p@ == s->Ok_0,
                Err(e) => s is Err && e == s->Err_0,
            }
        }),
{
    if is_dir {
        match joined_exists {
            Some(true) => Ok(config_file_in_directory(configuration_path)),
            Some(false) => Err(ConfigPathError::MissingConfigurationFile),
            None => Err(ConfigPathError::ProbeFailed),
        }
    } else if is_file && !is_config_file_name(configuration_path.as_str()) {
        Err(ConfigPathError::NotTheConfigurationFile)
    } else {
        Ok(configuration_path.clone())
    }
}

} // verus!
