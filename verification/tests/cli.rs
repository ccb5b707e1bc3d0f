use wallman::cli::app::{Cli, Command};
use wallman::cli::commands::completion::{
    completion_dir_from, contains_str, detect_shell, get_completion_dir,
    get_completion_filename, install_writes, shell_for_name, user_completion_dir_of, ShellType,
};
use wallman::cli::commands::{
    CompletionCommand, ConfigCommand, DaemonCommand, PackCommand, ThemeCommand,
};
use wallman::cli::dispatch;
use wallman::cli::dispatcher::{theme_list_line, ExitCode, Failure, Operation};

#[test]
fn pack_build_and_theme_pack_are_the_same_operation() {
    let as_theme = dispatch(Command::Theme {
        sub: ThemeCommand::Pack { path: "t".to_string(), output: Some("o".to_string()) },
    });
    let as_pack = dispatch(Command::Pack {
        sub: PackCommand::Build { path: "t".to_string(), output: Some("o".to_string()) },
    });
    for op in [as_theme, as_pack] {
        match op {
            Operation::ThemePack { path, output } => {
                assert_eq!(path, "t");
                assert_eq!(output, Some("o".to_string()));
            }
            _ => panic!("both build a pack"),
        }
    }
}

#[test]
fn every_command_is_routed_to_its_operation() {
    assert!(matches!(
        dispatch(Command::Theme { sub: ThemeCommand::Create { path: "p".to_string(), name: None } }),
        Operation::ThemeCreate { path, name: None } if path == "p"
    ));
    assert!(matches!(
        dispatch(Command::Theme { sub: ThemeCommand::Install { file: "f".to_string() } }),
        Operation::ThemeInstall { file } if file == "f"
    ));
    assert!(matches!(dispatch(Command::Theme { sub: ThemeCommand::List }), Operation::ThemeList));
    assert!(matches!(
        dispatch(Command::Theme { sub: ThemeCommand::Activate { name: "n".to_string() } }),
        Operation::ThemeSet { name } if name == "n"
    ));
    assert!(matches!(
        dispatch(Command::Theme { sub: ThemeCommand::Remove { name: "n".to_string() } }),
        Operation::ThemeRemove { name } if name == "n"
    ));
    assert!(matches!(
        dispatch(Command::Daemon { sub: DaemonCommand::Start { foreground: true } }),
        Operation::DaemonStart { foreground: true }
    ));
    assert!(matches!(dispatch(Command::Daemon { sub: DaemonCommand::Stop }), Operation::DaemonStop));
    assert!(matches!(dispatch(Command::Daemon { sub: DaemonCommand::Restart }), Operation::DaemonRestart));
    assert!(matches!(dispatch(Command::Daemon { sub: DaemonCommand::Status }), Operation::DaemonStatus));
    assert!(matches!(dispatch(Command::Config { sub: ConfigCommand::Init }), Operation::ConfigInit));
    assert!(matches!(dispatch(Command::Config { sub: ConfigCommand::Edit }), Operation::ConfigEdit));
    assert!(matches!(dispatch(Command::Config { sub: ConfigCommand::Validate }), Operation::ConfigValidate));
    assert!(matches!(dispatch(Command::Config { sub: ConfigCommand::Path }), Operation::ConfigPath));
    assert!(matches!(
        dispatch(Command::Pack { sub: PackCommand::Inspect { file: "f".to_string() } }),
        Operation::PackInspect { file } if file == "f"
    ));
    assert!(matches!(
        dispatch(Command::Completion { sub: CompletionCommand::Generate { shell: ShellType::Fish } }),
        Operation::CompletionGenerate { shell: ShellType::Fish }
    ));
    assert!(matches!(
        dispatch(Command::Completion { sub: CompletionCommand::Install { force: true } }),
        Operation::CompletionInstall { force: true }
    ));
    assert!(matches!(
        dispatch(Command::Completion { sub: CompletionCommand::Uninstall }),
        Operation::CompletionUninstall
    ));
}

#[test]
fn exit_codes_have_their_numbers() {
    assert_eq!(ExitCode::Success.code(), 0);
    assert_eq!(ExitCode::Error.code(), 1);
    assert_eq!(ExitCode::InvalidConfig.code(), 2);
    assert_eq!(ExitCode::PackError.code(), 3);
    assert_eq!(ExitCode::DaemonError.code(), 4);
}

#[test]
fn failures_have_their_exit_codes_and_words() {
    let e = "boom";
    let cases: Vec<(Failure, ExitCode, String)> = vec![
        (Failure::ThemeDirCreate, ExitCode::Error, format!("Failed to create theme directory: {e}")),
        (Failure::ManifestWrite, ExitCode::Error, format!("Failed to write manifest.toml: {e}")),
        (Failure::ManifestLoad, ExitCode::PackError, format!("Error: manifest.toml not found or invalid: {e}")),
        (Failure::Pack, ExitCode::PackError, format!("Pack error: {e}")),
        (Failure::Install, ExitCode::PackError, format!("Error: {e}")),
        (Failure::ThemesDirRead, ExitCode::Error, format!("Cannot read themes directory: {e}")),
        (Failure::ThemeEntry, ExitCode::Error, format!("{e}")),
        (
            Failure::SetNotInstalled { name: "x".to_string() },
            ExitCode::Error,
            format!("Error: theme '{}' is not installed. Run `wallman theme list` to see available themes.", "x"),
        ),
        (Failure::ConfigSave, ExitCode::InvalidConfig, format!("Error: could not save config: {e}")),
        (Failure::RemoveNotInstalled { name: "x".to_string() }, ExitCode::Error, format!("Error: theme '{}' is not installed.", "x")),
        (Failure::ThemeRemove { name: "x".to_string() }, ExitCode::Error, format!("Error removing theme '{}': {e}", "x")),
        (Failure::Daemon, ExitCode::DaemonError, format!("Error: {e}")),
        (Failure::ConfigWrite, ExitCode::Error, format!("Error: could not write config: {e}")),
        (Failure::EditorLaunch { editor: "vi".to_string() }, ExitCode::Error, format!("Error: could not launch editor '{}': {e}", "vi")),
        (Failure::EditorStatus { editor: "vi".to_string() }, ExitCode::Error, format!("Editor '{}' exited with non-zero status.", "vi")),
        (
            Failure::ConfigMissing { path: "/c.toml".to_string() },
            ExitCode::InvalidConfig,
            format!("Error: config not found at {}. Run `wallman config init` to create one.", "/c.toml"),
        ),
        (Failure::ConfigInvalid, ExitCode::InvalidConfig, format!("Error: invalid config — {e}")),
        (Failure::PackOpen { file: "p".to_string() }, ExitCode::PackError, format!("Error: cannot open '{}': {e}", "p")),
        (Failure::PackDecode, ExitCode::PackError, format!("Error: {e}")),
        (Failure::PackRead, ExitCode::PackError, format!("Error reading pack: {e}")),
        (Failure::PackEntry, ExitCode::PackError, format!("{e}")),
        (Failure::CompletionGenerate, ExitCode::Error, format!("Error generating completion: {e}")),
        (Failure::CompletionInstall, ExitCode::Error, format!("Error installing completion: {e}")),
        (Failure::CompletionUninstall, ExitCode::Error, format!("Error uninstalling completion: {e}")),
    ];
    for (failure, code, text) in cases {
        assert_eq!(failure.exit_code(), code, "{failure:?}");
        assert_eq!(failure.message(e), text, "{failure:?}");
    }
}

#[test]
fn themes_are_listed_with_their_description() {
    assert_eq!(theme_list_line("forest", ""), "  forest");
    assert_eq!(theme_list_line("forest", "Green"), format!("  {}  —  {}", "forest", "Green"));
}

#[test]
fn the_log_filter_follows_the_verbosity() {
    let cli = |verbose, debug| Cli { command: Command::Config { sub: ConfigCommand::Path }, verbose, debug };
    assert_eq!(cli(false, false).log_filter(), "warn");
    assert_eq!(cli(true, false).log_filter(), "wallman=info,warn");
    assert_eq!(cli(false, true).log_filter(), "wallman=debug,warn");
    assert_eq!(cli(true, true).log_filter(), "wallman=debug,warn");
}

#[test]
fn shells_are_told_by_their_name() {
    assert_eq!(detect_shell("/bin/bash"), ShellType::Bash);
    assert_eq!(detect_shell("/usr/bin/zsh"), ShellType::Zsh);
    assert_eq!(detect_shell("/usr/local/bin/fish"), ShellType::Fish);
    assert_eq!(detect_shell("C:/Program Files/PowerShell/7/PWSH.EXE"), ShellType::PowerShell);
    assert_eq!(detect_shell("/opt/powershell"), ShellType::PowerShell);
    assert_eq!(detect_shell("/bin/elvish"), ShellType::Bash);
    assert_eq!(detect_shell(""), ShellType::Bash);
    assert_eq!(detect_shell("/zsh/bin/sh"), ShellType::Bash);
    assert_eq!(detect_shell("/bin/rbash"), ShellType::Bash);
    assert_eq!(shell_for_name("zsh-bash"), ShellType::Bash);
    assert_eq!(shell_for_name("fishzsh"), ShellType::Zsh);
    assert_eq!(shell_for_name("ZSH"), ShellType::Bash);
}

#[test]
fn substring_search_agrees_with_the_standard_one() {
    let hays = ["", "a", "bash", "rbash5", "bas", "abash", "babash", "zzz", "pwsh"];
    let needles = ["", "a", "bash", "sh", "b", "zz", "zzzz", "ba"];
    for hay in hays {
        for needle in needles {
            let h: Vec<char> = hay.chars().collect();
            let n: Vec<char> = needle.chars().collect();
            assert_eq!(contains_str(&h, &n), hay.contains(needle), "{hay:?} {needle:?}");
        }
    }
}

#[test]
fn completion_files_have_their_names_and_folders() {
    assert_eq!(get_completion_filename(ShellType::Bash), "wallman");
    assert_eq!(get_completion_filename(ShellType::Zsh), "_wallman");
    assert_eq!(get_completion_filename(ShellType::Fish), "wallman.fish");
    assert_eq!(get_completion_filename(ShellType::PowerShell), "wallman.ps1");
    assert_eq!(get_completion_filename(ShellType::Elvish), "wallman.elv");

    let home = Some("/home/u");
    assert_eq!(get_completion_dir(ShellType::Bash, home, true), "/home/u/.local/share/bash-completion/completions");
    assert_eq!(get_completion_dir(ShellType::Bash, home, false), "/etc/bash_completion.d");
    assert_eq!(get_completion_dir(ShellType::Zsh, home, true), "/home/u/.zsh/completions");
    assert_eq!(get_completion_dir(ShellType::Zsh, home, false), "/usr/local/share/zsh/site-functions");
    assert_eq!(get_completion_dir(ShellType::Fish, home, false), "/home/u/.config/fish/completions");
    assert_eq!(get_completion_dir(ShellType::PowerShell, home, false), "/home/u/Documents/PowerShell/Completion");
    assert_eq!(get_completion_dir(ShellType::Elvish, home, true), "/home/u/.config/elvish/lib");
    assert_eq!(get_completion_dir(ShellType::Fish, None, false), "");
    assert_eq!(get_completion_dir(ShellType::Bash, None, false), "/etc/bash_completion.d");
}

#[test]
fn an_existing_completion_file_is_overwritten_only_when_forced() {
    assert!(install_writes(false, false));
    assert!(install_writes(false, true));
    assert!(install_writes(true, true));
    assert!(!install_writes(true, false));
}

#[test]
fn the_users_folder_is_used_where_it_exists() {
    assert_eq!(completion_dir_from(ShellType::Bash, "/u/b".to_string(), true), "/u/b");
    assert_eq!(completion_dir_from(ShellType::Bash, "/u/b".to_string(), false), "/etc/bash_completion.d");
    assert_eq!(completion_dir_from(ShellType::Zsh, "/u/z".to_string(), true), "/u/z");
    assert_eq!(
        completion_dir_from(ShellType::Zsh, "/u/z".to_string(), false),
        "/usr/local/share/zsh/site-functions"
    );
    assert_eq!(completion_dir_from(ShellType::Fish, "/u/f".to_string(), false), "/u/f");
    assert_eq!(completion_dir_from(ShellType::Elvish, "".to_string(), false), "");
    let folder = user_completion_dir_of(ShellType::Fish);
    assert!(folder.is_empty() || folder.ends_with(".config/fish/completions"));
}
