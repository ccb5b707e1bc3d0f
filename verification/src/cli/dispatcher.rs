//! Where each command is routed, and how the failure of each step of it is
//! reported.

use vstd::prelude::*;
use vstd::string::StringExecFns;
use crate::cli::app::Command;
use crate::cli::commands::completion::ShellType;
use crate::cli::commands::{
    CompletionCommand, ConfigCommand, DaemonCommand, PackCommand, ThemeCommand,
};

verus! {

/// Exit codes of the program.
#[derive(Debug, Clone, Copy, PartialEq, Eq, Structural)]
pub enum ExitCode {
    Success,
    Error,
    InvalidConfig,
    PackError,
    DaemonError,
}

impl ExitCode {
    /// The number that the process exits with.
    pub open spec fn spec_code(self) -> i32 {
        match self {
            ExitCode::Success => 0,
            ExitCode::Error => 1,
            ExitCode::InvalidConfig => 2,
            ExitCode::PackError => 3,
            ExitCode::DaemonError => 4,
        }
    }

    /// The number that the process exits with.
    pub fn code(self) -> (code: i32)
        ensures
            code == self.spec_code(),
    {
        match self {
            ExitCode::Success => 0,
            ExitCode::Error => 1,
            ExitCode::InvalidConfig => 2,
            ExitCode::PackError => 3,
            ExitCode::DaemonError => 4,
        }
    }
}

/// What a command asks the program to do.
#[derive(Debug, Clone)]
pub enum Operation {
    ThemeCreate { path: String, name: Option<String> },
    ThemePack { path: String, output: Option<String> },
    ThemeInstall { file: String },
    ThemeList,
    ThemeSet { name: String },
    ThemeRemove { name: String },
    DaemonStart { foreground: bool },
    DaemonStop,
    DaemonRestart,
    DaemonStatus,
    ConfigInit,
    ConfigEdit,
    ConfigValidate,
    ConfigPath,
    PackInspect { file: String },
    CompletionGenerate { shell: ShellType },
    CompletionInstall { force: bool },
    CompletionUninstall,
}

/// The operation that a command is routed to. Building a pack is the same
/// operation whether it is asked for as a theme or as a pack command.
pub open spec fn routed(command: Command) -> Operation {
    match command {
        Command::Theme { sub } => match sub {
            ThemeCommand::Create { path, name } => Operation::ThemeCreate { path, name },
            ThemeCommand::Pack { path, output } => Operation::ThemePack { path, output },
            ThemeCommand::Install { file } => Operation::ThemeInstall { file },
            ThemeCommand::List => Operation::ThemeList,
            ThemeCommand::Activate { name } => Operation::ThemeSet { name },
            ThemeCommand::Remove { name } => Operation::ThemeRemove { name },
        },
        Command::Daemon { sub } => match sub {
            DaemonCommand::Start { foreground } => Operation::DaemonStart { foreground },
            DaemonCommand::Stop => Operation::DaemonStop,
            DaemonCommand::Restart => Operation::DaemonRestart,
            DaemonCommand::Status => Operation::DaemonStatus,
        },
        Command::Config { sub } => match sub {
            ConfigCommand::Init => Operation::ConfigInit,
            ConfigCommand::Edit => Operation::ConfigEdit,
            ConfigCommand::Validate => Operation::ConfigValidate,
            ConfigCommand::Path => Operation::ConfigPath,
        },
        Command::Pack { sub } => match sub {
            PackCommand::Build { path, output } => Operation::ThemePack { path, output },
            PackCommand::Inspect { file } => Operation::PackInspect { file },
        },
        Command::Completion { sub } => match sub {
            CompletionCommand::Generate { shell } => Operation::CompletionGenerate { shell },
            CompletionCommand::Install { force } => Operation::CompletionInstall { force },
            CompletionCommand::Uninstall => Operation::CompletionUninstall,
        },
    }
}

/// Routes a parsed command to the operation that serves it.
pub fn dispatch(command: Command) -> (operation: Operation)
    ensures
        operation == routed(command),
{
    match command {
        Command::Theme { sub } => dispatch_theme(sub),
        Command::Daemon { sub } => dispatch_daemon(sub),
        Command::Config { sub } => dispatch_config(sub),
        Command::Pack { sub } => dispatch_pack(sub),
        Command::Completion { sub } => dispatch_completion(sub),
    }
}

/// Routes a theme command.
pub fn dispatch_theme(cmd: ThemeCommand) -> (operation: Operation)
    ensures
        operation == routed(Command::Theme { sub: cmd }),
{
    match cmd {
        ThemeCommand::Create { path, name } => Operation::ThemeCreate { path, name },
        ThemeCommand::Pack { path, output } => Operation::ThemePack { path, output },
        ThemeCommand::Install { file } => Operation::ThemeInstall { file },
        ThemeCommand::List => Operation::ThemeList,
        ThemeCommand::Activate { name } => Operation::ThemeSet { name },
        ThemeCommand::Remove { name } => Operation::ThemeRemove { name },
    }
}

/// Routes a daemon command.
pub fn dispatch_daemon(cmd: DaemonCommand) -> (operation: Operation)
    ensures
        operation == routed(Command::Daemon { sub: cmd }),
{
    match cmd {
        DaemonCommand::Start { foreground } => Operation::DaemonStart { foreground },
        DaemonCommand::Stop => Operation::DaemonStop,
        DaemonCommand::Restart => Operation::DaemonRestart,
        DaemonCommand::Status => Operation::DaemonStatus,
    }
}

/// Routes a configuration command.
pub fn dispatch_config(cmd: ConfigCommand) -> (operation: Operation)
    ensures
        operation == routed(Command::Config { sub: cmd }),
{
    match cmd {
        ConfigCommand::Init => Operation::ConfigInit,
        ConfigCommand::Edit => Operation::ConfigEdit,
        ConfigCommand::Validate => Operation::ConfigValidate,
        ConfigCommand::Path => Operation::ConfigPath,
    }
}

/// Routes a pack command.
pub fn dispatch_pack(cmd: PackCommand) -> (operation: Operation)
    ensures
        operation == routed(Command::Pack { sub: cmd }),
{
    match cmd {
        PackCommand::Build { path, output } => Operation::ThemePack { path, output },
        PackCommand::Inspect { file } => Operation::PackInspect { file },
    }
}

/// Routes a completion command.
pub fn dispatch_completion(cmd: CompletionCommand) -> (operation: Operation)
    ensures
        operation == routed(Command::Completion { sub: cmd }),
{
    match cmd {
        CompletionCommand::Generate { shell } => Operation::CompletionGenerate { shell },
        CompletionCommand::Install { force } => Operation::CompletionInstall { force },
        CompletionCommand::Uninstall => Operation::CompletionUninstall,
    }
}

/// The line that lists an installed theme: its name, and its description
/// where it has one.
pub open spec fn theme_line(name: Seq<char>, description: Seq<char>) -> Seq<char> {
    if description.len() == 0 {
        "  "@ + name
    } else {
        "  "@ + name + "  —  "@ + description
    }
}

/// The line that lists an installed theme.
pub fn theme_list_line(name: &str, description: &str) -> (line: String)
    ensures
        line@ == theme_line(name@, description@),
{
    if description.is_empty() {
        String::from_str("  ").concat(name)
    } else {
        String::from_str("  ").concat(name).concat("  —  ").concat(description)
    }
}

/// The step of an operation that failed.
#[derive(Debug, Clone)]
pub enum Failure {
    /// The folder of a new theme could not be created.
    ThemeDirCreate,
    /// The manifest of a new theme could not be written.
    ManifestWrite,
    /// The manifest of a theme to pack is missing or invalid.
    ManifestLoad,
    /// The pack could not be built.
    Pack,
    /// The pack could not be installed.
    Install,
    /// The themes folder could not be read.
    ThemesDirRead,
    /// An entry of the themes folder could not be read.
    ThemeEntry,
    /// The theme to set is not installed.
    SetNotInstalled { name: String },
    /// The configuration could not be saved.
    ConfigSave,
    /// The theme to remove is not installed.
    RemoveNotInstalled { name: String },
    /// The theme could not be removed.
    ThemeRemove { name: String },
    /// A daemon command failed.
    Daemon,
    /// The configuration could not be written.
    ConfigWrite,
    /// The editor could not be launched.
    EditorLaunch { editor: String },
    /// The editor reported failure.
    EditorStatus { editor: String },
    /// No configuration is found at the path.
    ConfigMissing { path: String },
    /// The configuration is invalid.
    ConfigInvalid,
    /// The pack file could not be opened.
    PackOpen { file: String },
    /// The pack could not be decompressed.
    PackDecode,
    /// The entries of the pack could not be listed.
    PackRead,
    /// An entry of the pack could not be read.
    PackEntry,
    /// The completion script could not be generated.
    CompletionGenerate,
    /// The completion script could not be installed.
    CompletionInstall,
    /// The completion script could not be uninstalled.
    CompletionUninstall,
}

impl Failure {
    /// The exit code that the failure ends the program with.
    pub open spec fn spec_exit_code(self) -> ExitCode {
        match self {
            Failure::ManifestLoad => ExitCode::PackError,
            Failure::Pack => ExitCode::PackError,
            Failure::Install => ExitCode::PackError,
            Failure::PackOpen { .. } => ExitCode::PackError,
            Failure::PackDecode => ExitCode::PackError,
            Failure::PackRead => ExitCode::PackError,
            Failure::PackEntry => ExitCode::PackError,
            Failure::ConfigSave => ExitCode::InvalidConfig,
            Failure::ConfigMissing { .. } => ExitCode::InvalidConfig,
            Failure::ConfigInvalid => ExitCode::InvalidConfig,
            Failure::Daemon => ExitCode::DaemonError,
            _ => ExitCode::Error,
        }
    }

    /// The text that reports the failure, with `detail` as the message of
    /// what went wrong underneath.
    pub open spec fn spec_message(self, detail: Seq<char>) -> Seq<char> {
        match self {
            Failure::ThemeDirCreate => "Failed to create theme directory: "@ + detail,
            Failure::ManifestWrite => "Failed to write manifest.toml: "@ + detail,
            Failure::ManifestLoad => "Error: manifest.toml not found or invalid: "@ + detail,
            Failure::Pack => "Pack error: "@ + detail,
            Failure::Install => "Error: "@ + detail,
            Failure::ThemesDirRead => "Cannot read themes directory: "@ + detail,
            Failure::ThemeEntry => detail,
            Failure::SetNotInstalled { name } => "Error: theme '"@ + name@
                + "' is not installed. Run `wallman theme list` to see available themes."@,
            Failure::ConfigSave => "Error: could not save config: "@ + detail,
            Failure::RemoveNotInstalled { name } => "Error: theme '"@ + name@
                + "' is not installed."@,
            Failure::ThemeRemove { name } => "Error removing theme '"@ + name@ + "': "@ + detail,
            Failure::Daemon => "Error: "@ + detail,
            Failure::ConfigWrite => "Error: could not write config: "@ + detail,
            Failure::EditorLaunch { editor } => "Error: could not launch editor '"@ + editor@
                + "': "@ + detail,
            Failure::EditorStatus { editor } => "Editor '"@ + editor@
                + "' exited with non-zero status."@,
            Failure::ConfigMissing { path } => "Error: config not found at "@ + path@
                + ". Run `wallman config init` to create one."@,
            Failure::ConfigInvalid => "Error: invalid config — "@ + detail,
            Failure::PackOpen { file } => "Error: cannot open '"@ + file@ + "': "@ + detail,
            Failure::PackDecode => "Error: "@ + detail,
            Failure::PackRead => "Error reading pack: "@ + detail,
            Failure::PackEntry => detail,
            Failure::CompletionGenerate => "Error generating completion: "@ + detail,
            Failure::CompletionInstall => "Error installing completion: "@ + detail,
            Failure::CompletionUninstall => "Error uninstalling completion: "@ + detail,
        }
    }

    /// The exit code that the failure ends the program with.
    pub fn exit_code(&self) -> (code: ExitCode)
        ensures
            code == self.spec_exit_code(),
    {
        match self {
            Failure::ManifestLoad => ExitCode::PackError,
            Failure::Pack => ExitCode::PackError,
            Failure::Install => ExitCode::PackError,
            Failure::PackOpen { .. } => ExitCode::PackError,
            Failure::PackDecode => ExitCode::PackError,
            Failure::PackRead => ExitCode::PackError,
            Failure::PackEntry => ExitCode::PackError,
            Failure::ConfigSave => ExitCode::InvalidConfig,
            Failure::ConfigMissing { .. } => ExitCode::InvalidConfig,
            Failure::ConfigInvalid => ExitCode::InvalidConfig,
            Failure::Daemon => ExitCode::DaemonError,
            _ => ExitCode::Error,
        }
    }

    /// The text that reports the failure.
    pub fn message(&self, detail: &str) -> (text: String)
        ensures
            text@ == self.spec_message(detail@),
    {
        match self {
            Failure::ThemeDirCreate => String::from_str(
                "Failed to create theme directory: ",
            ).concat(detail),
            Failure::ManifestWrite => String::from_str("Failed to write manifest.toml: ").concat(
                detail,
            ),
            Failure::ManifestLoad => String::from_str(
                "Error: manifest.toml not found or invalid: ",
            ).concat(detail),
            Failure::Pack => String::from_str("Pack error: ").concat(detail),
            Failure::Install => String::from_str("Error: ").concat(detail),
            Failure::ThemesDirRead => String::from_str("Cannot read themes directory: ").concat(
                detail,
            ),
            Failure::ThemeEntry => String::from_str(detail),
            Failure::SetNotInstalled { name } => String::from_str("Error: theme '").concat(
                name.as_str(),
            ).concat("' is not installed. Run `wallman theme list` to see available themes."),
            Failure::ConfigSave => String::from_str("Error: could not save config: ").concat(
                detail,
            ),
            Failure::RemoveNotInstalled { name } => String::from_str("Error: theme '").concat(
                name.as_str(),
            ).concat("' is not installed."),
            Failure::ThemeRemove { name } => String::from_str("Error removing theme '").concat(
                name.as_str(),
            ).concat("': ").concat(detail),
            Failure::Daemon => String::from_str("Error: ").concat(detail),
            Failure::ConfigWrite => String::from_str("Error: could not write config: ").concat(
                detail,
            ),
            Failure::EditorLaunch { editor } => String::from_str(
                "Error: could not launch editor '",
            ).concat(editor.as_str()).concat("': ").concat(detail),
            Failure::EditorStatus { editor } => String::from_str("Editor '").concat(
                editor.as_str(),
            ).concat("' exited with non-zero status."),
            Failure::ConfigMissing { path } => String::from_str(
                "Error: config not found at ",
            ).concat(path.as_str()).concat(". Run `wallman config init` to create one."),
            Failure::ConfigInvalid => String::from_str("Error: invalid config — ").concat(detail),
            Failure::PackOpen { file } => String::from_str("Error: cannot open '").concat(
                file.as_str(),
            ).concat("': ").concat(detail),
            Failure::PackDecode => String::from_str("Error: ").concat(detail),
            Failure::PackRead => String::from_str("Error reading pack: ").concat(detail),
            Failure::PackEntry => String::from_str(detail),
            Failure::CompletionGenerate => String::from_str(
                "Error generating completion: ",
            ).concat(detail),
            Failure::CompletionInstall => String::from_str(
                "Error installing completion: ",
            ).concat(detail),
            Failure::CompletionUninstall => String::from_str(
                "Error uninstalling completion: ",
            ).concat(detail),
        }
    }
}

} // verus!
