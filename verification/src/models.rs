//! The data model: groups of command sets, each a list of shell commands with
//! template variables.

pub mod edit;
pub mod queries;

use vstd::prelude::*;
use crate::lowercase::{str_lower, str_to_lowercase};
use crate::text::{contains, copy_str, push_str, str_contains};

verus! {

/// A point in time: seconds since the Unix epoch and the nanoseconds past them.
#[derive(Debug, Clone, Copy, PartialEq, Eq, PartialOrd, Ord, Hash, Structural)]
pub struct Timestamp {
    pub secs: i64,
    pub nanos: u32,
}

/// A fresh random (version 4) UUID, as its 128-bit value (`uuid::Uuid::new_v4`).
#[verifier::external_body]
pub(crate) fn new_uuid() -> (id: u128)
{
    uuid::Uuid::new_v4().as_u128()
}

/// The current UTC time (`chrono::Utc::now`).
#[verifier::external_body]
pub(crate) fn now_utc() -> (t: Timestamp)
    ensures
        t.nanos < 2_000_000_000,
{
    let now = chrono::Utc::now();
    Timestamp { secs: now.timestamp(), nanos: now.timestamp_subsec_nanos() }
}

/// A resolved shell executable and the flag used to pass a command string.
#[derive(Debug, Clone, PartialEq, Eq)]
pub struct ShellCommand {
    pub program: String,
    pub flag: String,
}

/// Supported shell types for executing commands.
#[derive(Debug, PartialEq, Eq)]
pub enum ShellType {
    SystemDefault,
    Bash,
    Zsh,
    Fish,
    PowerShell,
    Custom(String),
}

/// Execution mode for a command set.
#[derive(Debug, Clone, Copy, PartialEq, Eq, Structural)]
pub enum ExecMode {
    StopOnError,
    ContinueOnError,
}

/// A template variable with a default value.
#[derive(Debug, PartialEq, Eq)]
pub struct Variable {
    pub name: String,
    pub default_value: String,
}

/// A single shell command within a command set.
#[derive(Debug, PartialEq, Eq)]
pub struct Command {
    /// Execution order (0-based).
    pub position: usize,
    /// Raw command string, may contain `{{var}}` placeholders.
    pub command: String,
}

/// A named collection of commands to execute.
#[derive(Debug, PartialEq, Eq)]
pub struct CommandSet {
    pub id: u128,
    pub name: String,
    pub group_id: u128,
    pub shell: ShellType,
    pub exec_mode: ExecMode,
    pub variables: Vec<Variable>,
    pub commands: Vec<Command>,
    /// Commands that always run after the others, even after an abort.
    pub defer_commands: Vec<Command>,
    /// Directory the commands run in; the current directory when `None`.
    pub working_dir: Option<String>,
    pub created_at: Timestamp,
    pub updated_at: Timestamp,
}

/// A group (folder) that organises command sets.
#[derive(Debug, PartialEq, Eq)]
pub struct Group {
    pub id: u128,
    pub name: String,
    pub sets: Vec<CommandSet>,
}

/// Root data structure for the entire application.
#[derive(Debug, PartialEq, Eq)]
pub struct AppData {
    pub groups: Vec<Group>,
}

/// A command set as a value: its lists as sequences.
pub struct CommandSetView {
    pub id: u128,
    pub name: String,
    pub group_id: u128,
    pub shell: ShellType,
    pub exec_mode: ExecMode,
    pub variables: Seq<Variable>,
    pub commands: Seq<Command>,
    pub defer_commands: Seq<Command>,
    pub working_dir: Option<String>,
    pub created_at: Timestamp,
    pub updated_at: Timestamp,
}

/// A group as a value: its sets as a sequence of set values.
pub struct GroupView {
    pub id: u128,
    pub name: String,
    pub sets: Seq<CommandSetView>,
}

impl View for CommandSet {
    type V = CommandSetView;

    open spec fn view(&self) -> CommandSetView {
        CommandSetView {
            id: self.id,
            name: self.name,
            group_id: self.group_id,
            shell: self.shell,
            exec_mode: self.exec_mode,
            variables: self.variables@,
            commands: self.commands@,
            defer_commands: self.defer_commands@,
            working_dir: self.working_dir,
            created_at: self.created_at,
            updated_at: self.updated_at,
        }
    }
}

/// The values of a sequence of command sets.
pub open spec fn sets_view(sets: Seq<CommandSet>) -> Seq<CommandSetView> {
    sets.map_values(|s: CommandSet| s@)
}

impl View for Group {
    type V = GroupView;

    open spec fn view(&self) -> GroupView {
        GroupView { id: self.id, name: self.name, sets: sets_view(self.sets@) }
    }
}

/// The values of a sequence of groups.
pub open spec fn groups_view(groups: Seq<Group>) -> Seq<GroupView> {
    groups.map_values(|g: Group| g@)
}

impl View for AppData {
    type V = Seq<GroupView>;

    open spec fn view(&self) -> Seq<GroupView> {
        groups_view(self.groups@)
    }
}

impl Clone for ShellType {
    fn clone(&self) -> (res: Self)
        ensures
            res == *self,
    {
        match self {
            ShellType::SystemDefault => ShellType::SystemDefault,
            ShellType::Bash => ShellType::Bash,
            ShellType::Zsh => ShellType::Zsh,
            ShellType::Fish => ShellType::Fish,
            ShellType::PowerShell => ShellType::PowerShell,
            ShellType::Custom(p) => ShellType::Custom(p.clone()),
        }
    }
}

impl Clone for Variable {
    fn clone(&self) -> (res: Self)
        ensures
            res == *self,
    {
        Variable { name: self.name.clone(), default_value: self.default_value.clone() }
    }
}

impl Clone for Command {
    fn clone(&self) -> (res: Self)
        ensures
            res == *self,
    {
        Command { position: self.position, command: self.command.clone() }
    }
}

/// A copy of a vector of items that clone exactly.
pub fn clone_vec<T: Clone>(v: &Vec<T>) -> (res: Vec<T>)
    requires
        forall|a: T, b: T| #[trigger] call_ensures(T::clone, (&a,), b) ==> a == b,
    ensures
        res@ == v@,
{
    let mut res: Vec<T> = Vec::new();
    let mut i: usize = 0;
    while i < v.len()
        invariant
            i <= v.len(),
            res@ == v@.take(i as int),
            forall|a: T, b: T| #[trigger] call_ensures(T::clone, (&a,), b) ==> a == b,
        decreases v.len() - i,
    {
        let x = v[i].clone();
        res.push(x);
        assert(res@ =~= v@.take(i + 1));
        i = i + 1;
    }
    assert(res@ =~= v@);
    res
}

impl Clone for CommandSet {
    fn clone(&self) -> (res: Self)
        ensures
            res@ == self@,
    {
        CommandSet {
            id: self.id,
            name: self.name.clone(),
            group_id: self.group_id,
            shell: self.shell.clone(),
            exec_mode: self.exec_mode,
            variables: clone_vec(&self.variables),
            commands: clone_vec(&self.commands),
            defer_commands: clone_vec(&self.defer_commands),
            working_dir: match &self.working_dir {
                Some(d) => Some(d.clone()),
                None => None,
            },
            created_at: self.created_at,
            updated_at: self.updated_at,
        }
    }
}

/// A copy of a vector of command sets.
pub fn clone_sets(v: &Vec<CommandSet>) -> (res: Vec<CommandSet>)
    ensures
        sets_view(res@) == sets_view(v@),
{
    let mut res: Vec<CommandSet> = Vec::new();
    let mut i: usize = 0;
    while i < v.len()
        invariant
            i <= v.len(),
            res@.len() == i,
            sets_view(res@) == sets_view(v@.take(i as int)),
        decreases v.len() - i,
    {
        let ghost before = res@;
        let x = v[i].clone();
        res.push(x);
        assert forall|j: int| 0 <= j < i implies #[trigger] res@[j]@ == v@[j]@ by {
            assert(before.len() == i);
            assert(res@[j] == before[j]);
            assert(sets_view(before)[j] == before[j]@);
            assert(sets_view(v@.take(i as int))[j] == v@.take(i as int)[j]@);
            assert(sets_view(before)[j] == sets_view(v@.take(i as int))[j]);
        }
        assert(sets_view(res@) =~= sets_view(v@.take(i + 1)));
        i = i + 1;
    }
    assert(v@.take(v@.len() as int) =~= v@);
    res
}

impl Clone for Group {
    fn clone(&self) -> (res: Self)
        ensures
            res@ == self@,
    {
        Group { id: self.id, name: self.name.clone(), sets: clone_sets(&self.sets) }
    }
}

/// A copy of a vector of groups.
pub fn clone_groups(v: &Vec<Group>) -> (res: Vec<Group>)
    ensures
        groups_view(res@) == groups_view(v@),
{
    let mut res: Vec<Group> = Vec::new();
    let mut i: usize = 0;
    while i < v.len()
        invariant
            i <= v.len(),
            res@.len() == i,
            groups_view(res@) == groups_view(v@.take(i as int)),
        decreases v.len() - i,
    {
        let ghost before = res@;
        let x = v[i].clone();
        res.push(x);
        assert forall|j: int| 0 <= j < i implies #[trigger] res@[j]@ == v@[j]@ by {
            assert(before.len() == i);
            assert(res@[j] == before[j]);
            assert(groups_view(before)[j] == before[j]@);
            assert(groups_view(v@.take(i as int))[j] == v@.take(i as int)[j]@);
            assert(groups_view(before)[j] == groups_view(v@.take(i as int))[j]);
        }
        assert(groups_view(res@) =~= groups_view(v@.take(i + 1)));
        i = i + 1;
    }
    assert(v@.take(v@.len() as int) =~= v@);
    res
}

impl Clone for AppData {
    fn clone(&self) -> (res: Self)
        ensures
            res@ == self@,
    {
        AppData { groups: clone_groups(&self.groups) }
    }
}

/// The program that runs commands for `shell`; `env_shell` is the `$SHELL`
/// of the environment, used by the system default.
pub open spec fn shell_program(shell: ShellType, env_shell: Option<String>) -> Seq<char> {
    match shell {
        ShellType::SystemDefault => match env_shell {
            Some(e) => e@,
            None => "sh"@,
        },
        ShellType::Bash => "bash"@,
        ShellType::Zsh => "zsh"@,
        ShellType::Fish => "fish"@,
        ShellType::PowerShell => "pwsh"@,
        ShellType::Custom(p) => p@,
    }
}

/// The name shown for `shell`.
pub open spec fn shell_label(shell: ShellType) -> Seq<char> {
    match shell {
        ShellType::SystemDefault => "System Default"@,
        ShellType::Bash => "bash"@,
        ShellType::Zsh => "zsh"@,
        ShellType::Fish => "fish"@,
        ShellType::PowerShell => "PowerShell"@,
        ShellType::Custom(p) => "custom: "@ + p@,
    }
}

/// The flag that hands `shell` a command string.
pub open spec fn shell_flag(shell: ShellType) -> Seq<char> {
    match shell {
        ShellType::PowerShell => "-Command"@,
        ShellType::Custom(p) => custom_shell_flag(p@),
        _ => "-c"@,
    }
}

impl ShellType {
    /// The executable a shell names; `None` only for the system default,
    /// which is found at run time.
    pub fn executable(&self) -> (res: Option<&str>)
        ensures
            match self {
                ShellType::SystemDefault => res is None,
                ShellType::Bash => res matches Some(e) && e@ == "bash"@,
                ShellType::Zsh => res matches Some(e) && e@ == "zsh"@,
                ShellType::Fish => res matches Some(e) && e@ == "fish"@,
                ShellType::PowerShell => res matches Some(e) && e@ == "pwsh"@,
                ShellType::Custom(p) => res matches Some(e) && e@ == p@,
            },
    {
        match self {
            ShellType::SystemDefault => None,
            ShellType::Bash => Some("bash"),
            ShellType::Zsh => Some("zsh"),
            ShellType::Fish => Some("fish"),
            ShellType::PowerShell => Some("pwsh"),
            ShellType::Custom(path) => Some(path.as_str()),
        }
    }

    /// The shell executable to run: `env_shell` (the `$SHELL` of the
    /// environment) or `sh` for the system default, `pwsh` for PowerShell.
    pub fn resolve_executable(&self, env_shell: Option<String>) -> (res: String)
        ensures
            res@ == shell_program(*self, env_shell),
    {
        match self {
            ShellType::SystemDefault => match env_shell {
                Some(e) => e,
                None => copy_str("sh"),
            },
            ShellType::Bash => copy_str("bash"),
            ShellType::Zsh => copy_str("zsh"),
            ShellType::Fish => copy_str("fish"),
            ShellType::PowerShell => copy_str("pwsh"),
            ShellType::Custom(path) => path.clone(),
        }
    }

    /// The program and command flag to run commands with. `env_shell` is the
    /// `$SHELL` of the environment, used by the system default. A custom
    /// shell gets `/C` when its lower-cased path mentions `cmd.exe` or `cmd `,
    /// `-Command` when it mentions `powershell`, and `-c` otherwise.
    pub fn resolve_command(&self, env_shell: Option<String>) -> (res: ShellCommand)
        ensures
            res.program@ == shell_program(*self, env_shell),
            res.flag@ == shell_flag(*self),
    {
        match self {
            ShellType::SystemDefault => {
                let program = match env_shell {
                    Some(e) => e,
                    None => copy_str("sh"),
                };
                ShellCommand { program, flag: copy_str("-c") }
            },
            ShellType::Bash => ShellCommand { program: copy_str("bash"), flag: copy_str("-c") },
            ShellType::Zsh => ShellCommand { program: copy_str("zsh"), flag: copy_str("-c") },
            ShellType::Fish => ShellCommand { program: copy_str("fish"), flag: copy_str("-c") },
            ShellType::PowerShell => ShellCommand { program: copy_str("pwsh"), flag: copy_str("-Command") },
            ShellType::Custom(path) => {
                let lower = str_to_lowercase(path.as_str());
                let flag = if str_contains(lower.as_str(), "cmd.exe") || str_contains(lower.as_str(), "cmd ") {
                    "/C"
                } else if str_contains(lower.as_str(), "powershell") {
                    "-Command"
                } else {
                    "-c"
                };
                ShellCommand { program: path.clone(), flag: copy_str(flag) }
            },
        }
    }

    /// The name shown for the shell.
    pub fn label(&self) -> (res: String)
        ensures
            res@ == shell_label(*self),
    {
        match self {
            ShellType::SystemDefault => copy_str("System Default"),
            ShellType::Bash => copy_str("bash"),
            ShellType::Zsh => copy_str("zsh"),
            ShellType::Fish => copy_str("fish"),
            ShellType::PowerShell => copy_str("PowerShell"),
            ShellType::Custom(path) => {
                let mut s = copy_str("custom: ");
                push_str(&mut s, path.as_str());
                s
            },
        }
    }

    /// The built-in shells (all but `Custom`), in menu order.
    pub fn builtin_variants() -> (res: Vec<ShellType>)
        ensures
            res@ == seq![
                ShellType::SystemDefault,
                ShellType::Bash,
                ShellType::Zsh,
                ShellType::Fish,
                ShellType::PowerShell,
            ],
    {
        let mut v = Vec::new();
        v.push(ShellType::SystemDefault);
        v.push(ShellType::Bash);
        v.push(ShellType::Zsh);
        v.push(ShellType::Fish);
        v.push(ShellType::PowerShell);
        v
    }
}

/// The command flag for a custom shell at `path`.
pub open spec fn custom_shell_flag(path: Seq<char>) -> Seq<char> {
    let lower = str_lower(path);
    if contains(lower, "cmd.exe"@) || contains(lower, "cmd "@) {
        "/C"@
    } else if contains(lower, "powershell"@) {
        "-Command"@
    } else {
        "-c"@
    }
}

impl ExecMode {
    /// The name shown for the mode.
    pub fn label(&self) -> (res: &str)
        ensures
            res@ == match self {
                ExecMode::StopOnError => "Stop on Error"@,
                ExecMode::ContinueOnError => "Continue on Error"@,
            },
    {
        match self {
            ExecMode::StopOnError => "Stop on Error",
            ExecMode::ContinueOnError => "Continue on Error",
        }
    }
}

impl CommandSet {
    /// A new, empty command set named `name` in group `group_id`, with a fresh
    /// id, the system shell, stop-on-error mode, and both timestamps set to now.
    pub fn new(name: String, group_id: u128) -> (res: Self)
        ensures
            res.name@ == name@,
            res.group_id == group_id,
            res.shell == ShellType::SystemDefault,
            res.exec_mode == ExecMode::StopOnError,
            res.variables@.len() == 0,
            res.commands@.len() == 0,
            res.defer_commands@.len() == 0,
            res.working_dir is None,
            res.created_at == res.updated_at,
    {
        let now = now_utc();
        CommandSet {
            id: new_uuid(),
            name,
            group_id,
            shell: ShellType::SystemDefault,
            exec_mode: ExecMode::StopOnError,
            variables: Vec::new(),
            commands: Vec::new(),
            defer_commands: Vec::new(),
            working_dir: None,
            created_at: now,
            updated_at: now,
        }
    }
}

impl Group {
    /// A new, empty group named `name` with a fresh id.
    pub fn new(name: String) -> (res: Self)
        ensures
            res.name@ == name@,
            res.sets@.len() == 0,
    {
        Group { id: new_uuid(), name, sets: Vec::new() }
    }
}

impl AppData {
    /// No groups.
    pub fn empty() -> (res: Self)
        ensures
            res@.len() == 0,
    {
        AppData { groups: Vec::new() }
    }
}

} // verus!
