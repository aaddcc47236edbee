//! Names and locations of the application's files.

use vstd::prelude::*;

verus! {

/// Name of the application; also the name of its folder under the user's
/// configuration directory.
pub const APP_NAME: &'static str = "dotupdater";

/// Name of the configuration file inside the application's folder.
pub const CONFIG_FILE: &'static str = "config.toml";

/// Folder that holds the log file, with its trailing separator.
pub const LOGDIR: &'static str = "/var/tmp/dotupdater_logs/";

/// Name of the log file inside `LOGDIR`.
pub const LOGFILE: &'static str = "dotupdater.log";

/// `base`, a separator, then `name`.
pub open spec fn joined(base: Seq<char>, name: Seq<char>) -> Seq<char> {
    base + "/"@ + name
}

/// Joins `name` under the folder `base` with one separator between them.
pub fn join_dir(base: &str, name: &str) -> (r: String)
    ensures
        r@ == joined(base@, name@),
{
    let mut s = base.to_owned();
    s.append("/");
    s.append(name);
    s
}

/// Relies on dirs::config_dir: the user's configuration directory, when the
/// platform and the environment name one, rendered as text when it is valid
/// Unicode. What it returns depends on the environment.
#[verifier::external_body]
pub(crate) fn get_config_dir() -> (r: Option<String>) {
    dirs::config_dir().and_then(|p| p.to_str().map(|s| s.to_owned()))
}

/// The folder that holds the log file.
pub fn get_complete_log_file_path() -> (r: String)
    ensures
        r@ == LOGDIR@,
{
    LOGDIR.to_owned()
}

/// Path of the log file: `LOGDIR` followed by `LOGFILE`.
pub fn get_logfile_path() -> (r: String)
    ensures
        r@ == LOGDIR@ + LOGFILE@,
{
    let mut s = LOGDIR.to_owned();
    s.append(LOGFILE);
    s
}

/// The application's folder under the configuration directory `base`.
pub fn config_folder_in(base: &str) -> (r: String)
    ensures
        r@ == joined(base@, APP_NAME@),
{
    join_dir(base, APP_NAME)
}

/// The application's folder under the user's configuration directory, or
/// `None` when that directory cannot be determined.
pub fn get_complete_config_file_path() -> (r: Option<String>)
    ensures
        r matches Some(p) ==> exists|b: Seq<char>| p@ == #[trigger] joined(b, APP_NAME@),
{
    match get_config_dir() {
        Some(base) => Some(config_folder_in(base.as_str())),
        None => None,
    }
}

/// Resolves a configured folder `dir` to a path under the user's configuration
/// directory, or `None` when that directory cannot be determined.
pub fn prepend_dir(dir: String) -> (r: Option<String>)
    ensures
        r matches Some(p) ==> exists|b: Seq<char>| p@ == #[trigger] joined(b, dir@),
{
    match get_config_dir() {
        Some(base) => Some(join_dir(base.as_str(), dir.as_str())),
        None => None,
    }
}

/// Path of the configuration file inside the application's folder `folder`.
pub fn config_file_in(folder: &str) -> (r: String)
    ensures
        r@ == joined(folder@, CONFIG_FILE@),
{
    join_dir(folder, CONFIG_FILE)
}

} // verus!
