//! Shell completion: which shell, which file, which folder.

use vstd::prelude::*;
use vstd::string::StringExecFns;
use crate::paths::{file_name, file_name_of, join, join_paths};
use crate::text::{chars_of, lowercase_of, to_lowercase};

verus! {

/// Supported shell types for completion generation.
#[derive(Debug, Clone, Copy, PartialEq, Eq, Structural)]
pub enum ShellType {
    Bash,
    Zsh,
    Fish,
    PowerShell,
    Elvish,
}

/// Subcommands for `wallman completion`.
#[derive(Debug, Clone, Copy, PartialEq, Eq, Structural)]
pub enum CompletionCommand {
    /// Generate the completion script for the given shell.
    Generate {
        /// Shell to generate completion for.
        shell: ShellType,
    },
    /// Install completion for the current shell.
    Install {
        /// Overwrite an existing completion file.
        force: bool,
    },
    /// Uninstall completion for the current shell.
    Uninstall,
}

/// Whether `needle` occurs in `hay` as a run of characters.
pub open spec fn occurs_in(needle: Seq<char>, hay: Seq<char>) -> bool {
    exists|i: int|
        0 <= i && i + needle.len() <= hay.len() && #[trigger] hay.subrange(i, i + needle.len())
            == needle
}

/// The shell that a program named `name`, in lower case, is taken for.
/// A name that tells nothing is taken for bash.
pub open spec fn shell_named(name: Seq<char>) -> ShellType {
    if occurs_in("bash"@, name) {
        ShellType::Bash
    } else if occurs_in("zsh"@, name) {
        ShellType::Zsh
    } else if occurs_in("fish"@, name) {
        ShellType::Fish
    } else if occurs_in("powershell"@, name) || occurs_in("pwsh"@, name) {
        ShellType::PowerShell
    } else {
        ShellType::Bash
    }
}

/// The shell that the program at `shell_path` is taken for.
pub open spec fn shell_at(shell_path: Seq<char>) -> ShellType {
    shell_named(
        lowercase_of(
            match file_name_of(shell_path) {
                Some(name) => name,
                None => Seq::empty(),
            },
        ),
    )
}

/// The name of the completion file of a shell.
pub open spec fn completion_filename(shell: ShellType) -> Seq<char> {
    match shell {
        ShellType::Bash => "wallman"@,
        ShellType::Zsh => "_wallman"@,
        ShellType::Fish => "wallman.fish"@,
        ShellType::PowerShell => "wallman.ps1"@,
        ShellType::Elvish => "wallman.elv"@,
    }
}

/// The folder under the user's home that holds the completions of a shell.
pub open spec fn user_completion_folder(shell: ShellType) -> Seq<char> {
    match shell {
        ShellType::Bash => ".local/share/bash-completion/completions"@,
        ShellType::Zsh => ".zsh/completions"@,
        ShellType::Fish => ".config/fish/completions"@,
        ShellType::PowerShell => "Documents/PowerShell/Completion"@,
        ShellType::Elvish => ".config/elvish/lib"@,
    }
}

/// The user's completion folder of a shell, empty where the user has no
/// home.
pub open spec fn user_completion_dir(shell: ShellType, home: Option<Seq<char>>) -> Seq<char> {
    match home {
        Some(h) => join_paths(h, user_completion_folder(shell)),
        None => Seq::empty(),
    }
}

/// The folder that the completion file of a shell goes to. For bash and
/// zsh it is the user's folder only where that exists, and else the
/// system's.
pub open spec fn completion_dir(shell: ShellType, home: Option<Seq<char>>, user_dir_exists: bool) -> Seq<
    char,
> {
    match shell {
        ShellType::Bash => if user_dir_exists {
            user_completion_dir(shell, home)
        } else {
            "/etc/bash_completion.d"@
        },
        ShellType::Zsh => if user_dir_exists {
            user_completion_dir(shell, home)
        } else {
            "/usr/local/share/zsh/site-functions"@
        },
        _ => user_completion_dir(shell, home),
    }
}

/// `dirs::home_dir`: the user's home directory, where the platform and
/// the environment name one. The answer depends on the environment, so
/// nothing is claimed of it.
#[verifier::external_body]
fn user_home_dir() -> Option<String> {
    match dirs::home_dir() {
        Some(path) => Some(path.to_string_lossy().into_owned()),
        None => None,
    }
}

/// Whether `needle` occurs in `hay`.
pub fn contains_str(hay: &Vec<char>, needle: &Vec<char>) -> (found: bool)
    ensures
        found == occurs_in(needle@, hay@),
{
    let h = hay.len();
    let n = needle.len();
    if n > h {
        return false;
    }
    let mut i: usize = 0;
    while i <= h - n
        invariant
            n <= h,
            h == hay@.len(),
            n == needle@.len(),
            i <= h - n + 1,
            forall|k: int| 0 <= k < i ==> #[trigger] hay@.subrange(k, k + n) != needle@,
        decreases h - n + 1 - i,
    {
        let mut j: usize = 0;
        while j < n && hay[i + j] == needle[j]
            invariant
                n <= h,
                h == hay@.len(),
                n == needle@.len(),
                i <= h - n,
                j <= n,
                forall|k: int| 0 <= k < j ==> hay@[i + k] == needle@[k],
            decreases n - j,
        {
            j = j + 1;
        }
        if j == n {
            assert(hay@.subrange(i as int, i + n) =~= needle@);
            return true;
        }
        assert(hay@.subrange(i as int, i + n)[j as int] != needle@[j as int]);
        i = i + 1;
    }
    assert forall|k: int| 0 <= k && k + n <= h implies #[trigger] hay@.subrange(k, k + n)
        != needle@ by {}
    false
}

/// Whether `word` occurs in `name`.
fn names(name: &Vec<char>, word: &str) -> (found: bool)
    ensures
        found == occurs_in(word@, name@),
{
    let needle = chars_of(word);
    contains_str(name, &needle)
}

/// The shell that a program named `name`, in lower case, is taken for.
pub fn shell_for_name(name: &str) -> (shell: ShellType)
    ensures
        shell == shell_named(name@),
{
    let chars = chars_of(name);
    if names(&chars, "bash") {
        ShellType::Bash
    } else if names(&chars, "zsh") {
        ShellType::Zsh
    } else if names(&chars, "fish") {
        ShellType::Fish
    } else if names(&chars, "powershell") || names(&chars, "pwsh") {
        ShellType::PowerShell
    } else {
        ShellType::Bash
    }
}

/// The shell that the program at `shell_path` is taken for.
pub fn detect_shell(shell_path: &str) -> (shell: ShellType)
    ensures
        shell == shell_at(shell_path@),
{
    let name = match file_name(shell_path) {
        Some(name) => name,
        None => String::new(),
    };
    let lower = to_lowercase(name.as_str());
    shell_for_name(lower.as_str())
}

/// The folder that the completion file of `shell` goes to, given the
/// user's home and whether the user's folder for the shell exists.
pub fn get_completion_dir(shell: ShellType, home: Option<&str>, user_dir_exists: bool) -> (folder:
    String)
    ensures
        folder@ == completion_dir(
            shell,
            match home {
                Some(h) => Some(h@),
                None => None,
            },
            user_dir_exists,
        ),
{
    let below = match shell {
        ShellType::Bash => ".local/share/bash-completion/completions",
        ShellType::Zsh => ".zsh/completions",
        ShellType::Fish => ".config/fish/completions",
        ShellType::PowerShell => "Documents/PowerShell/Completion",
        ShellType::Elvish => ".config/elvish/lib",
    };
    let user_dir = match home {
        Some(h) => join(h, below),
        None => String::new(),
    };
    match shell {
        ShellType::Bash => if user_dir_exists {
            user_dir
        } else {
            String::from_str("/etc/bash_completion.d")
        },
        ShellType::Zsh => if user_dir_exists {
            user_dir
        } else {
            String::from_str("/usr/local/share/zsh/site-functions")
        },
        _ => user_dir,
    }
}

/// The user's own folder for the completions of `shell`, empty where the
/// user has no home. Whether it exists decides, for some shells, where the
/// completion file goes.
pub fn user_completion_dir_of(shell: ShellType) -> (folder: String)
    ensures
        exists|home: Option<Seq<char>>| folder@ == user_completion_dir(shell, home),
{
    let home = user_home_dir();
    let folder = match &home {
        Some(h) => get_completion_dir(shell, Some(h.as_str()), true),
        None => get_completion_dir(shell, None, true),
    };
    proof {
        let h = match home {
            Some(h) => Some(h@),
            None => None,
        };
        assert(folder@ == user_completion_dir(shell, h));
    }
    folder
}

/// The folder that the completion file of `shell` goes to, given the
/// user's own folder for it and whether that exists.
pub fn completion_dir_from(shell: ShellType, user_dir: String, user_dir_exists: bool) -> (folder:
    String)
    ensures
        folder@ == match shell {
            ShellType::Bash => if user_dir_exists {
                user_dir@
            } else {
                "/etc/bash_completion.d"@
            },
            ShellType::Zsh => if user_dir_exists {
                user_dir@
            } else {
                "/usr/local/share/zsh/site-functions"@
            },
            _ => user_dir@,
        },
{
    match shell {
        ShellType::Bash => if user_dir_exists {
            user_dir
        } else {
            String::from_str("/etc/bash_completion.d")
        },
        ShellType::Zsh => if user_dir_exists {
            user_dir
        } else {
            String::from_str("/usr/local/share/zsh/site-functions")
        },
        _ => user_dir,
    }
}

/// The name of the completion file of `shell`.
pub fn get_completion_filename(shell: ShellType) -> (name: &'static str)
    ensures
        name@ == completion_filename(shell),
{
    match shell {
        ShellType::Bash => "wallman",
        ShellType::Zsh => "_wallman",
        ShellType::Fish => "wallman.fish",
        ShellType::PowerShell => "wallman.ps1",
        ShellType::Elvish => "wallman.elv",
    }
}

/// Whether installing a completion file writes it: always where none is
/// there, and over one that is there only when forced.
pub fn install_writes(file_exists: bool, force: bool) -> (writes: bool)
    ensures
        writes == (!file_exists || force),
{
    !file_exists || force
}

} // verus!
