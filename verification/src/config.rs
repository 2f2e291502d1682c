//! The language settings of the configuration and the checks made before
//! the configuration file is read or written.

use vstd::prelude::*;

verus! {

/// The `[locales]` table of the configuration file.
#[derive(Debug, PartialEq, Eq)]
pub struct LocalesConfig {
    /// A language tag to use instead of the system's language.
    pub force_locale: Option<String>,
}

impl Default for LocalesConfig {
    /// No forced language: the system's language is used.
    fn default() -> (config: Self)
        ensures
            config.force_locale is None,
    {
        LocalesConfig { force_locale: None }
    }
}

/// The language used when neither the configuration nor the system names one.
pub open spec fn fallback_locale() -> Seq<char> {
    "en-US"@
}

/// The language chosen from the forced one and the system's one.
pub open spec fn chosen_locale(forced: Option<Seq<char>>, system: Option<Seq<char>>) -> Seq<char> {
    match forced {
        Some(f) => f,
        None => match system {
            Some(s) => s,
            None => fallback_locale(),
        },
    }
}

/// The view of an optional string.
pub open spec fn opt_view(s: Option<String>) -> Option<Seq<char>> {
    match s {
        Some(v) => Some(v@),
        None => None,
    }
}

/// Chooses the interface language: the one the configuration forces, else
/// the system's, else `en-US`.
pub fn choose_locale(forced: Option<String>, system: Option<String>) -> (locale: String)
    ensures
        locale@ == chosen_locale(opt_view(forced), opt_view(system)),
        forced is Some ==> locale@ == forced->0@,
        forced is None && system is Some ==> locale@ == system->0@,
        forced is None && system is None ==> locale@ == "en-US"@,
{
    match forced {
        Some(f) => f,
        None => match system {
            Some(s) => s,
            None => String::from_str("en-US"),
        },
    }
}

/// A forced language always wins, whatever the system reports (a language
/// or none); without one, the system's language is used when it reports
/// one, and `en-US` otherwise.
pub proof fn forced_locale_always_wins(forced: Option<Seq<char>>, system: Option<Seq<char>>)
    ensures
        forced is Some ==> chosen_locale(forced, system) == forced->0,
        forced is None && system is Some ==> chosen_locale(forced, system) == system->0,
        forced is None && system is None ==> chosen_locale(forced, system) == "en-US"@,
{
}

/// Asks `sys_locale::get_locale` for the system's preferred language tag.
/// It reads the environment, so nothing is claimed of its result.
#[verifier::external_body]
fn system_locale() -> (locale: Option<String>) {
    sys_locale::get_locale()
}

/// The interface language for this configuration: the forced one when the
/// configuration names one; otherwise the system's language as reported at
/// the time of the call, or `en-US` when the system reports none.
pub fn preferred_locale(config: &LocalesConfig) -> (locale: String)
    ensures
        config.force_locale is Some ==> locale@ == config.force_locale->0@,
{
    let system = system_locale();
    choose_locale(config.force_locale.clone(), system)
}

/// Why the configuration's directory cannot be used.
#[derive(Debug, PartialEq, Eq, Clone, Copy)]
pub enum ConfigDirError {
    /// The system names no directory for configuration files.
    ConfigDirNotFound,
    /// Something that is not a directory stands where the application's
    /// configuration directory belongs.
    NotADirectory,
}

/// What to do with the application's configuration directory before the
/// configuration file in it is used.
#[derive(Debug, PartialEq, Eq, Clone, Copy)]
pub enum ConfigDirPlan {
    /// The directory exists: use it.
    UseExisting,
    /// The directory does not exist yet: create it (with its parents).
    Create,
}

/// The outcome of the directory checks.
pub open spec fn config_dir_outcome(
    config_dir_found: bool,
    app_dir_exists: bool,
    app_dir_is_dir: bool,
) -> Result<ConfigDirPlan, ConfigDirError> {
    if !config_dir_found {
        Err(ConfigDirError::ConfigDirNotFound)
    } else if app_dir_exists && !app_dir_is_dir {
        Err(ConfigDirError::NotADirectory)
    } else if !app_dir_exists {
        Ok(ConfigDirPlan::Create)
    } else {
        Ok(ConfigDirPlan::UseExisting)
    }
}

/// Decides what to do with the application's configuration directory, given
/// whether the system names a configuration directory at all, and whether
/// the application's directory inside it exists and is a directory.
pub fn plan_config_dir(config_dir_found: bool, app_dir_exists: bool, app_dir_is_dir: bool) -> (r:
    Result<ConfigDirPlan, ConfigDirError>)
    ensures
        r == config_dir_outcome(config_dir_found, app_dir_exists, app_dir_is_dir),
{
    if !config_dir_found {
        Err(ConfigDirError::ConfigDirNotFound)
    } else if app_dir_exists && !app_dir_is_dir {
        Err(ConfigDirError::NotADirectory)
    } else if !app_dir_exists {
        Ok(ConfigDirPlan::Create)
    } else {
        Ok(ConfigDirPlan::UseExisting)
    }
}

/// The checks settle: once a first check has passed and the directory it
/// planned for exists as a directory (as it does after creating it), the
/// same checks plan to use it as it is, creating nothing.
pub proof fn config_dir_plan_settles(
    config_dir_found: bool,
    app_dir_exists: bool,
    app_dir_is_dir: bool,
)
    requires
        config_dir_outcome(config_dir_found, app_dir_exists, app_dir_is_dir) is Ok,
    ensures
        config_dir_outcome(config_dir_found, true, true) == Ok::<ConfigDirPlan, ConfigDirError>(
            ConfigDirPlan::UseExisting,
        ),
{
}

impl ConfigDirError {
    /// The error's text; `dir` is the application's configuration directory
    /// as displayed.
    pub fn message(&self, dir: &str) -> (text: String)
        ensures
            text@ == match self {
                ConfigDirError::ConfigDirNotFound => "Config directory not found"@,
                ConfigDirError::NotADirectory => dir@ + " is not a directory"@,
            },
    {
        match self {
            ConfigDirError::ConfigDirNotFound => String::from_str("Config directory not found"),
            ConfigDirError::NotADirectory => {
                let mut text = String::from_str(dir);
                text.append(" is not a directory");
                text
            },
        }
    }
}

} // verus!
