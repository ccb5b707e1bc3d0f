//! What the daemon's control commands decide. Each command looks at what
//! the PID file records and hands back the steps to perform.

use vstd::prelude::*;
use crate::config::Config;
use crate::constants::{data_folder, data_folder_under};
use crate::paths::{join, join_paths};
use crate::text::{chars_of, decimal_text, parse_u32_in, parsed_u32, u32_to_string};
use vstd::string::StringExecFns;
use crate::triggers::daytime_trigger::DayTimeTrigger;
use crate::triggers::manager::{ActiveTrigger, TriggerManager};
use crate::triggers::static_trigger::StaticTrigger;
use crate::triggers::weather_trigger::{WeatherState, WeatherTrigger};

verus! {

/// Milliseconds that a restart leaves the old process to exit.
pub const RESTART_GRACE_MS: u64 = 500;

/// Exit codes of daemon operations.
#[derive(Debug, Clone, Copy, PartialEq, Eq, Structural)]
pub enum DaemonExitCode {
    Success,
    AlreadyRunning,
    NotRunning,
    Error,
}

impl DaemonExitCode {
    /// The number that the process exits with.
    pub open spec fn spec_code(self) -> i32 {
        match self {
            DaemonExitCode::Success => 0,
            DaemonExitCode::AlreadyRunning => 1,
            DaemonExitCode::NotRunning => 2,
            DaemonExitCode::Error => 3,
        }
    }

    /// The number that the process exits with.
    pub fn code(self) -> (code: i32)
        ensures
            code == self.spec_code(),
    {
        match self {
            DaemonExitCode::Success => 0,
            DaemonExitCode::AlreadyRunning => 1,
            DaemonExitCode::NotRunning => 2,
            DaemonExitCode::Error => 3,
        }
    }
}

/// What the PID file records, and whether the process it names is alive.
#[derive(Debug, Clone, Copy, PartialEq, Eq, Structural)]
pub enum PidRecord {
    /// There is no PID file.
    Absent,
    /// The file names a process that is alive.
    Alive(u32),
    /// The file names a process that is not alive: the file is stale.
    Dead(u32),
}

/// The state of the daemon as its status reports it.
#[derive(Debug, Clone, Copy, PartialEq, Eq, Structural)]
pub enum DaemonStatus {
    Stopped,
    Running(u32),
    /// Stopped, with a stale PID file left behind for this process.
    Stale(u32),
}

/// Why a control command failed.
#[derive(Debug)]
pub enum DaemonError {
    /// The daemon runs already, as this process.
    AlreadyRunning(u32),
    /// No PID file was found.
    NotRunning,
    /// The PID file named this process, which is not alive.
    StalePid(u32),
    /// The PID file does not hold a process number.
    InvalidPidFile,
    /// The PID file could not be written.
    PidFile(String),
    /// The termination signal could not be sent.
    Signal(String),
    /// The detached daemon could not be started.
    Spawn(String),
}

/// A command's failure without the message of the step that failed.
#[derive(PartialEq, Eq, Structural)]
pub enum DaemonErrorKind {
    AlreadyRunning(u32),
    NotRunning,
    StalePid(u32),
    InvalidPidFile,
    PidFile,
    Signal,
    Spawn,
}

impl DaemonError {
    /// The kind of the failure.
    pub open spec fn kind(self) -> DaemonErrorKind {
        match self {
            DaemonError::AlreadyRunning(pid) => DaemonErrorKind::AlreadyRunning(pid),
            DaemonError::NotRunning => DaemonErrorKind::NotRunning,
            DaemonError::StalePid(pid) => DaemonErrorKind::StalePid(pid),
            DaemonError::InvalidPidFile => DaemonErrorKind::InvalidPidFile,
            DaemonError::PidFile(_) => DaemonErrorKind::PidFile,
            DaemonError::Signal(_) => DaemonErrorKind::Signal,
            DaemonError::Spawn(_) => DaemonErrorKind::Spawn,
        }
    }
}

impl DaemonError {
    /// The failure in words.
    pub open spec fn spec_message(self) -> Seq<char> {
        match self {
            DaemonError::AlreadyRunning(pid) => "Daemon is already running (PID "@ + decimal_text(
                pid as nat,
            ) + "). Use `wallman daemon restart` to restart it."@,
            DaemonError::NotRunning => "Daemon is not running (no PID file found)"@,
            DaemonError::StalePid(pid) => "No process found with PID "@ + decimal_text(pid as nat)
                + ". Cleaned up stale PID file."@,
            DaemonError::InvalidPidFile => "PID file does not hold a process number"@,
            DaemonError::PidFile(text) => text@,
            DaemonError::Signal(text) => text@,
            DaemonError::Spawn(text) => text@,
        }
    }

    /// The failure in words.
    pub fn message(&self) -> (text: String)
        ensures
            text@ == self.spec_message(),
    {
        match self {
            DaemonError::AlreadyRunning(pid) => String::from_str(
                "Daemon is already running (PID ",
            ).concat(u32_to_string(*pid).as_str()).concat(
                "). Use `wallman daemon restart` to restart it.",
            ),
            DaemonError::NotRunning => String::from_str(
                "Daemon is not running (no PID file found)",
            ),
            DaemonError::StalePid(pid) => String::from_str("No process found with PID ").concat(
                u32_to_string(*pid).as_str(),
            ).concat(". Cleaned up stale PID file."),
            DaemonError::InvalidPidFile => String::from_str(
                "PID file does not hold a process number",
            ),
            DaemonError::PidFile(text) => text.clone(),
            DaemonError::Signal(text) => text.clone(),
            DaemonError::Spawn(text) => text.clone(),
        }
    }
}

impl DaemonStatus {
    /// The line that reports the status.
    pub open spec fn spec_line(self) -> Seq<char> {
        match self {
            DaemonStatus::Stopped => "wallman daemon: stopped (no PID file)"@,
            DaemonStatus::Running(pid) => "wallman daemon: running  (PID "@ + decimal_text(
                pid as nat,
            ) + ")"@,
            DaemonStatus::Stale(pid) => "wallman daemon: stopped  (stale PID file for "@
                + decimal_text(pid as nat) + ")"@,
        }
    }

    /// The line that reports the status.
    pub fn line(&self) -> (text: String)
        ensures
            text@ == self.spec_line(),
    {
        match self {
            DaemonStatus::Stopped => String::from_str("wallman daemon: stopped (no PID file)"),
            DaemonStatus::Running(pid) => String::from_str("wallman daemon: running  (PID ").concat(
                u32_to_string(*pid).as_str(),
            ).concat(")"),
            DaemonStatus::Stale(pid) => String::from_str(
                "wallman daemon: stopped  (stale PID file for ",
            ).concat(u32_to_string(*pid).as_str()).concat(")"),
        }
    }
}

/// One step of a control command.
#[derive(Debug, Clone, Copy, PartialEq, Eq, Structural)]
pub enum DaemonAction {
    /// Write the number of this process to the PID file.
    WritePid,
    /// Have a termination signal delete the PID file and end the process.
    InstallTermHandler,
    /// Run the trigger manager until the process ends.
    RunTriggers,
    /// Delete the PID file.
    RemovePidFile,
    /// Send a termination signal to this process.
    SendTerm(u32),
    /// Wait for this many milliseconds.
    Pause(u64),
    /// Start the daemon in the foreground as a detached process.
    SpawnDetached,
}

impl DaemonAction {
    /// Whether a command goes on when the step fails.
    pub open spec fn best_effort(self) -> bool {
        self is RemovePidFile || self is InstallTermHandler
    }

    /// Whether a command goes on when the step fails.
    pub fn is_best_effort(self) -> (lenient: bool)
        ensures
            lenient == self.best_effort(),
    {
        match self {
            DaemonAction::RemovePidFile => true,
            DaemonAction::InstallTermHandler => true,
            _ => false,
        }
    }

    /// The failure of a command whose step failed with `message`, or `None`
    /// where the command goes on.
    pub fn failure(self, message: String) -> (error: Option<DaemonError>)
        ensures
            match error {
                None => self.best_effort() || self is RunTriggers || self is Pause,
                Some(DaemonError::PidFile(m)) => self is WritePid && m == message,
                Some(DaemonError::Signal(m)) => self is SendTerm && m == message,
                Some(DaemonError::Spawn(m)) => self is SpawnDetached && m == message,
                Some(_) => false,
            },
    {
        match self {
            DaemonAction::WritePid => Some(DaemonError::PidFile(message)),
            DaemonAction::SendTerm(_) => Some(DaemonError::Signal(message)),
            DaemonAction::SpawnDetached => Some(DaemonError::Spawn(message)),
            _ => None,
        }
    }
}

/// What a control command decided: the steps to perform, in order, and how
/// the command ends when they are done. A step that is not best effort and
/// fails ends the command with that failure, and the steps after it are
/// left out.
pub struct DaemonPlan {
    pub actions: Vec<DaemonAction>,
    pub verdict: Result<(), DaemonError>,
}

/// The verdict of a plan without its messages.
pub open spec fn verdict_kind(verdict: Result<(), DaemonError>) -> Option<DaemonErrorKind> {
    match verdict {
        Ok(_) => None,
        Err(e) => Some(e.kind()),
    }
}

/// The steps of `start`. In the foreground the process records itself and
/// runs the triggers. Otherwise a daemon that is alive is left alone, and
/// else a detached one is started, after a stale PID file is cleared.
pub open spec fn start_actions(foreground: bool, record: PidRecord) -> Seq<DaemonAction> {
    if foreground {
        seq![DaemonAction::WritePid, DaemonAction::InstallTermHandler, DaemonAction::RunTriggers]
    } else {
        match record {
            PidRecord::Alive(_) => seq![],
            PidRecord::Dead(_) => seq![DaemonAction::RemovePidFile, DaemonAction::SpawnDetached],
            PidRecord::Absent => seq![DaemonAction::SpawnDetached],
        }
    }
}

/// How `start` ends: it fails only where a daemon is to be started in the
/// background while one is alive.
pub open spec fn start_verdict(foreground: bool, record: PidRecord) -> Option<DaemonErrorKind> {
    match record {
        PidRecord::Alive(pid) => if foreground {
            None
        } else {
            Some(DaemonErrorKind::AlreadyRunning(pid))
        },
        _ => None,
    }
}

/// The steps of `stop`: a daemon that is alive is sent the termination
/// signal and its PID file is deleted; a stale PID file is deleted.
pub open spec fn stop_actions(record: PidRecord) -> Seq<DaemonAction> {
    match record {
        PidRecord::Absent => seq![],
        PidRecord::Dead(_) => seq![DaemonAction::RemovePidFile],
        PidRecord::Alive(pid) => seq![DaemonAction::SendTerm(pid), DaemonAction::RemovePidFile],
    }
}

/// How `stop` ends: it succeeds only where the daemon was alive.
pub open spec fn stop_verdict(record: PidRecord) -> Option<DaemonErrorKind> {
    match record {
        PidRecord::Absent => Some(DaemonErrorKind::NotRunning),
        PidRecord::Dead(pid) => Some(DaemonErrorKind::StalePid(pid)),
        PidRecord::Alive(_) => None,
    }
}

/// The steps of `restart`: a daemon that is alive is sent the termination
/// signal and given a moment to exit; any PID file is deleted; a detached
/// daemon is started.
pub open spec fn restart_actions(record: PidRecord) -> Seq<DaemonAction> {
    match record {
        PidRecord::Absent => seq![DaemonAction::SpawnDetached],
        PidRecord::Dead(_) => seq![DaemonAction::RemovePidFile, DaemonAction::SpawnDetached],
        PidRecord::Alive(pid) => seq![
            DaemonAction::SendTerm(pid),
            DaemonAction::Pause(RESTART_GRACE_MS),
            DaemonAction::RemovePidFile,
            DaemonAction::SpawnDetached,
        ],
    }
}

/// The status that a PID record amounts to.
pub open spec fn status_of(record: PidRecord) -> DaemonStatus {
    match record {
        PidRecord::Absent => DaemonStatus::Stopped,
        PidRecord::Alive(pid) => DaemonStatus::Running(pid),
        PidRecord::Dead(pid) => DaemonStatus::Stale(pid),
    }
}

/// Whether `c` is white space.
pub open spec fn is_white_space(c: char) -> bool {
    let n = c as u32;
    (0x09 <= n <= 0x0d) || n == 0x20 || n == 0x85 || n == 0xa0 || n == 0x1680 || (0x2000 <= n
        <= 0x200a) || n == 0x2028 || n == 0x2029 || n == 0x202f || n == 0x205f || n == 0x3000
}

/// `text` without the white space at its start.
pub open spec fn trim_start(text: Seq<char>) -> Seq<char>
    decreases text.len(),
{
    if text.len() > 0 && is_white_space(text[0]) {
        trim_start(text.drop_first())
    } else {
        text
    }
}

/// `text` without the white space at its end.
pub open spec fn trim_end(text: Seq<char>) -> Seq<char>
    decreases text.len(),
{
    if text.len() > 0 && is_white_space(text.last()) {
        trim_end(text.drop_last())
    } else {
        text
    }
}

/// The process number that the contents of a PID file write: a number with
/// white space around it.
pub open spec fn pid_in(contents: Seq<char>) -> Option<u32> {
    parsed_u32(trim_end(trim_start(contents)))
}

/// Whether `c` is white space.
pub fn white_space(c: char) -> (white: bool)
    ensures
        white == is_white_space(c),
{
    let n = c as u32;
    (0x09 <= n && n <= 0x0d) || n == 0x20 || n == 0x85 || n == 0xa0 || n == 0x1680 || (0x2000 <= n
        && n <= 0x200a) || n == 0x2028 || n == 0x2029 || n == 0x202f || n == 0x205f || n == 0x3000
}

/// Reads the process number from the contents of a PID file.
pub fn parse_pid(contents: &str) -> (pid: Option<u32>)
    ensures
        pid == pid_in(contents@),
{
    let chars = chars_of(contents);
    let n = chars.len();
    let ghost t = chars@;
    let mut from: usize = 0;
    assert(t.skip(0) =~= t);
    while from < n && white_space(chars[from])
        invariant
            from <= n,
            n == chars@.len(),
            t == chars@,
            trim_start(t) == trim_start(t.skip(from as int)),
        decreases n - from,
    {
        assert(t.skip(from as int).drop_first() =~= t.skip(from as int + 1));
        from = from + 1;
    }
    assert(t.skip(from as int) =~= t.subrange(from as int, n as int));
    let mut to: usize = n;
    while to > from && white_space(chars[to - 1])
        invariant
            from <= to <= n,
            n == chars@.len(),
            t == chars@,
            trim_end(trim_start(t)) == trim_end(t.subrange(from as int, to as int)),
        decreases to - from,
    {
        assert(t.subrange(from as int, to as int).drop_last() =~= t.subrange(
            from as int,
            to as int - 1,
        ));
        to = to - 1;
    }
    parse_u32_in(&chars, from, to)
}

/// The largest number that the system gives a process.
pub const MAX_PID: u32 = 0x7fff_ffff;

/// Whether `pid` is a number that a process can have: not 0, which stands
/// for a group of processes, and not above `MAX_PID`.
pub open spec fn names_a_process(pid: u32) -> bool {
    0 < pid <= MAX_PID
}

/// `nix::sys::signal::kill` with no signal: whether the system finds,
/// under the number `pid`, a process that this process may signal. No
/// signal is sent. The number 0 would stand for the caller's own process
/// group and a number above `MAX_PID` for a group too, so both are left
/// out. The answer depends on the system at the moment of the call, so
/// nothing is claimed of it.
#[verifier::external_body]
fn signal_reaches(pid: u32) -> bool
    requires
        0 < pid <= MAX_PID,
{
    nix::sys::signal::kill(nix::unistd::Pid::from_raw(pid as i32), None).is_ok()
}

/// The record that a PID file amounts to, given the process it names and
/// whether that process is alive.
pub open spec fn record_for(pid: Option<u32>, alive: bool) -> PidRecord {
    match pid {
        None => PidRecord::Absent,
        Some(p) => if alive {
            PidRecord::Alive(p)
        } else {
            PidRecord::Dead(p)
        },
    }
}

/// Manages the daemon process through a PID file.
pub struct DaemonManager {
    pid_file: String,
}

impl DaemonManager {
    /// The path of the PID file.
    pub closed spec fn pid_path(&self) -> Seq<char> {
        self.pid_file@
    }

    /// A manager whose PID file lies in the daemon's data folder, or `None`
    /// where the user has no local data directory.
    pub fn new() -> (manager: Option<Self>)
        ensures
            manager matches Some(m) ==> exists|base: Seq<char>|
                m.pid_path() == join_paths(data_folder_under(base), "daemon.pid"@),
    {
        let folder = data_folder();
        let manager = DaemonManager::for_data_folder(&folder);
        assert(manager matches Some(m) ==> m.pid_path() == join_paths(folder->0@, "daemon.pid"@));
        manager
    }

    /// A manager whose PID file lies in `data_folder`.
    pub fn in_folder(data_folder: &str) -> (manager: Self)
        ensures
            manager.pid_path() == join_paths(data_folder@, "daemon.pid"@),
    {
        DaemonManager { pid_file: join(data_folder, "daemon.pid") }
    }

    /// The path of the PID file.
    pub fn pid_file(&self) -> (path: &str)
        ensures
            path@ == self.pid_path(),
    {
        self.pid_file.as_str()
    }

    /// The process that a PID file with `contents` names: none where there
    /// is no file, an error where the file holds no process number.
    pub fn read_pid(&self, contents: Option<&str>) -> (pid: Result<Option<u32>, DaemonError>)
        ensures
            match contents {
                None => pid matches Ok(None),
                Some(text) => match pid_in(text@) {
                    Some(n) => pid matches Ok(Some(m)) && m == n,
                    None => pid matches Err(DaemonError::InvalidPidFile),
                },
            },
    {
        match contents {
            None => Ok(None),
            Some(text) => match parse_pid(text) {
                Some(pid) => Ok(Some(pid)),
                None => Err(DaemonError::InvalidPidFile),
            },
        }
    }

    /// Whether a process with the number `pid` exists at the moment. A
    /// number that the system gives to no process names none.
    fn is_process_running(&self, pid: u32) -> (alive: bool)
        ensures
            !names_a_process(pid) ==> !alive,
    {
        0 < pid && pid <= MAX_PID && signal_reaches(pid)
    }

    /// The record that a PID file amounts to, given the process it names and
    /// whether that process is alive.
    pub fn record(pid: Option<u32>, alive: bool) -> (record: PidRecord)
        ensures
            record == record_for(pid, alive),
    {
        match pid {
            None => PidRecord::Absent,
            Some(p) => if alive {
                PidRecord::Alive(p)
            } else {
                PidRecord::Dead(p)
            },
        }
    }

    /// The record that a PID file amounts to at the moment, given the
    /// process it names: whether the process is alive is looked up. A
    /// number that the system gives to no process names a dead one.
    pub fn observe(&self, pid: Option<u32>) -> (record: PidRecord)
        ensures
            exists|alive: bool| record == record_for(pid, alive),
            pid is Some && !names_a_process(pid->0) ==> record == PidRecord::Dead(pid->0),
    {
        match pid {
            None => {
                assert(PidRecord::Absent == record_for(pid, false));
                PidRecord::Absent
            },
            Some(p) => {
                let alive = self.is_process_running(p);
                let record = DaemonManager::record(pid, alive);
                assert(record == record_for(pid, alive));
                record
            },
        }
    }

    /// A manager whose PID file lies in the data folder `data_folder`, or
    /// `None` where there is no data folder.
    pub fn for_data_folder(data_folder: &Option<String>) -> (manager: Option<Self>)
        ensures
            match *data_folder {
                Some(folder) => manager matches Some(m) && m.pid_path() == join_paths(
                    folder@,
                    "daemon.pid"@,
                ),
                None => manager is None,
            },
    {
        match data_folder {
            Some(folder) => Some(DaemonManager::in_folder(folder.as_str())),
            None => None,
        }
    }

    /// Whether `start` looks at the PID file: a start in the foreground
    /// does not, and goes by no record.
    pub fn start_reads_record(&self, foreground: bool) -> (reads: bool)
        ensures
            reads == !foreground,
            !reads ==> forall|a: PidRecord, b: PidRecord|
                start_actions(foreground, a) == start_actions(foreground, b) && start_verdict(
                    foreground,
                    a,
                ) == start_verdict(foreground, b),
    {
        !foreground
    }

    /// Starts the daemon: in this process if `foreground`, else as a
    /// detached process.
    pub fn start(&self, foreground: bool, record: PidRecord) -> (plan: DaemonPlan)
        ensures
            plan.actions@ == start_actions(foreground, record),
            verdict_kind(plan.verdict) == start_verdict(foreground, record),
    {
        let mut actions: Vec<DaemonAction> = Vec::new();
        if foreground {
            actions.push(DaemonAction::WritePid);
            actions.push(DaemonAction::InstallTermHandler);
            actions.push(DaemonAction::RunTriggers);
            assert(actions@ =~= start_actions(foreground, record));
            return DaemonPlan { actions, verdict: Ok(()) };
        }
        match record {
            PidRecord::Alive(pid) => {
                assert(actions@ =~= start_actions(foreground, record));
                DaemonPlan { actions, verdict: Err(DaemonError::AlreadyRunning(pid)) }
            },
            PidRecord::Dead(_) => {
                actions.push(DaemonAction::RemovePidFile);
                actions.push(DaemonAction::SpawnDetached);
                assert(actions@ =~= start_actions(foreground, record));
                DaemonPlan { actions, verdict: Ok(()) }
            },
            PidRecord::Absent => {
                actions.push(DaemonAction::SpawnDetached);
                assert(actions@ =~= start_actions(foreground, record));
                DaemonPlan { actions, verdict: Ok(()) }
            },
        }
    }

    /// Stops the daemon. Does not wait for the process to exit.
    pub fn stop(&self, record: PidRecord) -> (plan: DaemonPlan)
        ensures
            plan.actions@ == stop_actions(record),
            verdict_kind(plan.verdict) == stop_verdict(record),
    {
        let mut actions: Vec<DaemonAction> = Vec::new();
        match record {
            PidRecord::Absent => {
                assert(actions@ =~= stop_actions(record));
                DaemonPlan { actions, verdict: Err(DaemonError::NotRunning) }
            },
            PidRecord::Dead(pid) => {
                actions.push(DaemonAction::RemovePidFile);
                assert(actions@ =~= stop_actions(record));
                DaemonPlan { actions, verdict: Err(DaemonError::StalePid(pid)) }
            },
            PidRecord::Alive(pid) => {
                actions.push(DaemonAction::SendTerm(pid));
                actions.push(DaemonAction::RemovePidFile);
                assert(actions@ =~= stop_actions(record));
                DaemonPlan { actions, verdict: Ok(()) }
            },
        }
    }

    /// Restarts the daemon: stops it if it runs, then starts it detached.
    pub fn restart(&self, record: PidRecord) -> (plan: DaemonPlan)
        ensures
            plan.actions@ == restart_actions(record),
            plan.verdict is Ok,
    {
        let mut actions: Vec<DaemonAction> = Vec::new();
        match record {
            PidRecord::Absent => {},
            PidRecord::Dead(_) => {
                actions.push(DaemonAction::RemovePidFile);
            },
            PidRecord::Alive(pid) => {
                actions.push(DaemonAction::SendTerm(pid));
                actions.push(DaemonAction::Pause(RESTART_GRACE_MS));
                actions.push(DaemonAction::RemovePidFile);
            },
        }
        actions.push(DaemonAction::SpawnDetached);
        assert(actions@ =~= restart_actions(record));
        DaemonPlan { actions, verdict: Ok(()) }
    }

    /// The daemon's status. Changes nothing.
    pub fn status(&self, record: PidRecord) -> (status: DaemonStatus)
        ensures
            status == status_of(record),
    {
        match record {
            PidRecord::Absent => DaemonStatus::Stopped,
            PidRecord::Alive(pid) => DaemonStatus::Running(pid),
            PidRecord::Dead(pid) => DaemonStatus::Stale(pid),
        }
    }
}

/// Stopping against a stale PID file deletes the file and fails with the
/// stale process; it does not succeed, and it signals no process.
pub proof fn lemma_stop_on_stale_pid(pid: u32)
    ensures
        stop_actions(PidRecord::Dead(pid)) == seq![DaemonAction::RemovePidFile],
        stop_verdict(PidRecord::Dead(pid)) == Some(DaemonErrorKind::StalePid(pid)),
{
}

/// A restart deletes the PID file of a live daemon only after it has sent
/// the daemon the termination signal.
pub proof fn lemma_live_daemon_is_signalled_first(record: PidRecord, i: int)
    requires
        record is Alive,
        0 <= i < restart_actions(record).len(),
        restart_actions(record)[i] is RemovePidFile,
    ensures
        exists|j: int| 0 <= j < i && restart_actions(record)[j] is SendTerm,
{
    assert(restart_actions(record)[0] is SendTerm);
}

/// The kind of the one trigger that a configuration selects: weather
/// before day and night, day and night before static.
pub enum TriggerChoice {
    Weather,
    DayTime,
    Static,
}

/// The trigger that `config` selects.
pub open spec fn chosen_trigger(config: Config) -> TriggerChoice {
    if config.weather is Some {
        TriggerChoice::Weather
    } else if config.time_config is Some {
        TriggerChoice::DayTime
    } else {
        TriggerChoice::Static
    }
}

/// A manager with the one trigger that `config` selects, due from `now`
/// on, in milliseconds, and with nothing on record.
pub fn build_trigger_manager(config: &Config, now: u64) -> (manager: TriggerManager)
    ensures
        manager.scheduled().len() == 1,
        manager.scheduled()[0].next_run == now,
        match chosen_trigger(*config) {
            TriggerChoice::Weather => manager.scheduled()[0].trigger matches ActiveTrigger::Weather(
                t,
            ) && t.states() == Map::<Seq<char>, WeatherState>::empty()
                && t.last_fetch() is None && t.cached() is None,
            TriggerChoice::DayTime => manager.scheduled()[0].trigger matches ActiveTrigger::DayTime(
                t,
            ) && t.flags() == Map::<Seq<char>, bool>::empty(),
            TriggerChoice::Static => manager.scheduled()[0].trigger matches ActiveTrigger::Static(
                t,
            ) && !t.has_run(),
        },
{
    let mut manager = TriggerManager::new();
    if config.weather.is_some() {
        manager.add(ActiveTrigger::Weather(WeatherTrigger::new()), now);
    } else if config.time_config.is_some() {
        manager.add(ActiveTrigger::DayTime(DayTimeTrigger::new()), now);
    } else {
        manager.add(ActiveTrigger::Static(StaticTrigger::new()), now);
    }
    manager
}

} // verus!
