//! The start-up sequence: log folder and file, configuration folder and a
//! configuration file to begin from, and what is logged about each.

use vstd::prelude::*;
use crate::logger::{message_of, EventType};

verus! {

/// One step of start-up, performed in the order that `initialize` gives.
#[derive(Clone, Copy, Debug, PartialEq, Eq, Structural)]
pub enum SetupStep {
    /// Create the log folder if it is missing; the result is not logged.
    CreateLogFolder,
    /// Create the log file if it is missing; the result is not logged.
    CreateLogFile,
    /// Log that the application is starting.
    AnnounceStart,
    /// Create the application's configuration folder; the result is logged.
    CreateConfigFolder,
    /// Write a starting configuration file if there is none; the result is logged.
    CreateConfigFile,
}

/// The start-up steps, in order.
pub open spec fn setup_steps() -> Seq<SetupStep> {
    seq![
        SetupStep::CreateLogFolder,
        SetupStep::CreateLogFile,
        SetupStep::AnnounceStart,
        SetupStep::CreateConfigFolder,
        SetupStep::CreateConfigFile,
    ]
}

/// The start-up sequence, in the order in which its steps are performed.
pub fn initialize() -> (r: Vec<SetupStep>)
    ensures
        r@ == setup_steps(),
{
    let r = vec![
        SetupStep::CreateLogFolder,
        SetupStep::CreateLogFile,
        SetupStep::AnnounceStart,
        SetupStep::CreateConfigFolder,
        SetupStep::CreateConfigFile,
    ];
    assert(r@ =~= setup_steps());
    r
}

/// The message logged when the application starts.
pub fn start_message() -> (r: String)
    ensures
        r@ == "Starting app..."@,
{
    "Starting app...".to_owned()
}

/// A result with its texts taken as character sequences.
pub open spec fn text_result(r: Result<String, String>) -> Result<Seq<char>, Seq<char>> {
    match r {
        Ok(m) => Ok(m@),
        Err(m) => Err(m@),
    }
}

/// What creating the configuration folder reports: the folder `existed`
/// already, or creating it gave `created`.
pub open spec fn config_folder_report(existed: bool, created: Result<(), Seq<char>>) -> Result<
    Seq<char>,
    Seq<char>,
> {
    if existed {
        Err("Config folder is already in the right place."@)
    } else {
        match created {
            Ok(_) => Ok("Config folder created successfully"@),
            Err(reason) => Err("Config folder can't be created. Reason: "@ + reason),
        }
    }
}

/// Reports on creating the configuration folder, which `existed` already or
/// was created with result `created` (its error being the reason).
pub fn config_folder_result(existed: bool, created: Result<(), String>) -> (r: Result<
    String,
    String,
>)
    ensures
        text_result(r) == config_folder_report(
            existed,
            match created {
                Ok(u) => Ok(u),
                Err(m) => Err(m@),
            },
        ),
{
    if existed {
        Err("Config folder is already in the right place.".to_owned())
    } else {
        match created {
            Ok(_) => Ok("Config folder created successfully".to_owned()),
            Err(reason) => {
                let mut s = "Config folder can't be created. Reason: ".to_owned();
                s.append(reason.as_str());
                Err(s)
            },
        }
    }
}

/// What to do to provide a configuration file.
#[derive(Clone, Copy, Debug, PartialEq, Eq, Structural)]
pub struct ConfigFilePlan {
    /// Create the configuration folder first.
    pub create_folder: bool,
    /// Write the starting configuration into a new file.
    pub write_file: bool,
}

/// Plans the configuration file: a missing folder is created, and a file is
/// written wherever there is none.
pub fn config_file_plan(folder_exists: bool, file_exists: bool) -> (r: ConfigFilePlan)
    ensures
        r.create_folder == !folder_exists,
        r.write_file == (!folder_exists || !file_exists),
{
    ConfigFilePlan { create_folder: !folder_exists, write_file: !folder_exists || !file_exists }
}

/// What providing the configuration file reports, given the plan and, where
/// a file was written, the result of writing it.
pub open spec fn config_file_report(plan: ConfigFilePlan, written: Result<(), Seq<char>>) -> Result<
    Seq<char>,
    Seq<char>,
> {
    if !plan.write_file {
        Ok("Config file already created."@)
    } else {
        match written {
            Ok(_) => Ok("config.toml file created correctly"@),
            Err(reason) => Err(reason),
        }
    }
}

/// Reports on providing the configuration file; `written` is ignored when
/// the plan writes nothing.
pub fn config_file_result(plan: ConfigFilePlan, written: Result<(), String>) -> (r: Result<
    String,
    String,
>)
    ensures
        text_result(r) == config_file_report(
            plan,
            match written {
                Ok(u) => Ok(u),
                Err(m) => Err(m@),
            },
        ),
{
    if !plan.write_file {
        Ok("Config file already created.".to_owned())
    } else {
        match written {
            Ok(_) => Ok("config.toml file created correctly".to_owned()),
            Err(reason) => Err(reason),
        }
    }
}

/// The record logged for the report of a start-up step: information on
/// success, an error otherwise, with the report's text as message.
pub fn setup_record(report: Result<String, String>) -> (r: EventType)
    ensures
        report is Ok ==> r is I,
        report is Err ==> r is E,
        message_of(r) == match text_result(report) {
            Ok(m) => m,
            Err(m) => m,
        },
{
    match report {
        Ok(m) => EventType::I(m),
        Err(m) => EventType::E(m),
    }
}

} // verus!
