use vstd::prelude::*;
use vstd::string::StringExecFns;

verus! {

/// Relies on directories::ProjectDirs::from and ProjectDirs::config_local_dir:
/// the per-user configuration directory of the named project, when the
/// platform has a home directory. What it returns depends on the machine.
#[verifier::external_body]
fn project_config_dir(qualifier: &str, organization: &str, application: &str) -> Option<String> {
    directories::ProjectDirs::from(qualifier, organization, application).map(
        |d| d.config_local_dir().to_string_lossy().into_owned(),
    )
}

/// Relies on directories::ProjectDirs::from and ProjectDirs::data_local_dir:
/// the per-user data directory of the named project, when the platform has a
/// home directory. What it returns depends on the machine.
#[verifier::external_body]
fn project_data_dir(qualifier: &str, organization: &str, application: &str) -> Option<String> {
    directories::ProjectDirs::from(qualifier, organization, application).map(
        |d| d.data_local_dir().to_string_lossy().into_owned(),
    )
}

/// `dir` and `name` joined by a `/`.
pub open spec fn joined(dir: Seq<char>, name: Seq<char>) -> Seq<char> {
    dir + "/"@ + name
}

/// The directory chosen from an override, the platform's project directory
/// and a fallback, in that order of preference.
pub open spec fn chosen_dir(
    overriding: Option<String>,
    project: Option<String>,
    fallback: Seq<char>,
) -> Seq<char> {
    match overriding {
        Some(d) => d@,
        None => match project {
            Some(d) => d@,
            None => fallback,
        },
    }
}

/// Joins a directory and a relative name with a `/`.
pub fn join_path(dir: &str, name: &str) -> (r: String)
    ensures
        r@ == joined(dir@, name@),
{
    <String as StringExecFns>::from_str(dir).concat("/").concat(name)
}

/// Picks the override if given, else the project directory, else the fallback.
pub fn choose_dir(overriding: Option<String>, project: Option<String>, fallback: &str) -> (r: String)
    ensures
        r@ == chosen_dir(overriding, project, fallback@),
{
    match overriding {
        Some(d) => d,
        None => match project {
            Some(d) => d,
            None => <String as StringExecFns>::from_str(fallback),
        },
    }
}

/// The directory for configuration files: `config_home` (the value of
/// `CRATES_TUI_CONFIG_HOME`, if set), else the platform's configuration
/// directory for the project, else `./.config`.
pub fn default_config_dir(config_home: Option<String>) -> (r: String)
    ensures
        exists|p: Option<String>| r@ == chosen_dir(config_home, p, "./.config"@),
{
    let project = if config_home.is_some() {
        None
    } else {
        project_config_dir("rs", "ratatui", "crates-tui")
    };
    choose_dir(config_home, project, "./.config")
}

/// The directory for data files: `data_home` (the value of
/// `CRATES_TUI_DATA_HOME`, if set), else the platform's data directory for the
/// project, else `./.data`.
pub fn default_data_dir(data_home: Option<String>) -> (r: String)
    ensures
        exists|p: Option<String>| r@ == chosen_dir(data_home, p, "./.data"@),
{
    let project = if data_home.is_some() {
        None
    } else {
        project_data_dir("rs", "ratatui", "crates-tui")
    };
    choose_dir(data_home, project, "./.data")
}

/// The default configuration file, `config.toml` in the configuration directory.
pub fn default_config_file(config_home: Option<String>) -> (r: String)
    ensures
        exists|p: Option<String>|
            r@ == joined(chosen_dir(config_home, p, "./.config"@), "config.toml"@),
{
    let dir = default_config_dir(config_home);
    join_path(dir.as_str(), "config.toml")
}

/// The default color file, `color.yaml` in the configuration directory.
pub fn default_color_file(config_home: Option<String>) -> (r: String)
    ensures
        exists|p: Option<String>|
            r@ == joined(chosen_dir(config_home, p, "./.config"@), "color.yaml"@),
{
    let dir = default_config_dir(config_home);
    join_path(dir.as_str(), "color.yaml")
}

/// The default configuration file, as the command line shows it.
pub fn get_default_config_path(config_home: Option<String>) -> (r: String)
    ensures
        exists|p: Option<String>|
            r@ == joined(chosen_dir(config_home, p, "./.config"@), "config.toml"@),
{
    default_config_file(config_home)
}

/// The default color file, as the command line shows it.
pub fn get_default_color_file(config_home: Option<String>) -> (r: String)
    ensures
        exists|p: Option<String>|
            r@ == joined(chosen_dir(config_home, p, "./.config"@), "color.yaml"@),
{
    default_color_file(config_home)
}

/// The default data directory, as the command line shows it.
pub fn get_default_data_dir(data_home: Option<String>) -> (r: String)
    ensures
        exists|p: Option<String>| r@ == chosen_dir(data_home, p, "./.data"@),
{
    default_data_dir(data_home)
}

} // verus!
