//! The command registry: which command asks a package manager for its
//! pending updates or for its installed packages, and how many lines at the
//! top of that command's output are headers.

use crate::failure::Failure;
use crate::text::{same_text, text_views, trim_char, without_surrounding};
use vstd::prelude::*;
use vstd::string::*;

verus! {

/// The package managers that the registry knows.
#[derive(Clone, Copy, Debug, PartialEq, Eq, Structural)]
pub enum CommandKind {
    Pacman,
    Apt,
    Xbps,
    Portage,
    Apk,
    Dnf,
}

/// What a package manager is asked for.
#[derive(Clone, Copy, Debug, PartialEq, Eq, Structural)]
pub enum Intent {
    CountUpdates,
    CountInstalled,
}

/// A command to run: the program and its arguments, in order, and the
/// number of header lines at the top of what it prints.
#[derive(Clone, Debug)]
pub struct CommandSpec {
    pub program: String,
    pub args: Vec<String>,
    pub header_lines: usize,
}

impl CommandSpec {
    /// The arguments as texts.
    pub open spec fn arg_texts(&self) -> Seq<Seq<char>> {
        text_views(self.args@)
    }
}

/// The package manager that a name stands for, if it is a known one.
pub open spec fn kind_named(name: Seq<char>) -> Option<CommandKind> {
    if name == "pacman"@ {
        Some(CommandKind::Pacman)
    } else if name == "apt"@ {
        Some(CommandKind::Apt)
    } else if name == "xbps"@ {
        Some(CommandKind::Xbps)
    } else if name == "portage"@ {
        Some(CommandKind::Portage)
    } else if name == "apk"@ {
        Some(CommandKind::Apk)
    } else if name == "dnf"@ {
        Some(CommandKind::Dnf)
    } else {
        None
    }
}

/// The package manager that a configured identifier stands for. Double
/// quotes around the identifier do not count.
pub open spec fn kind_of(identifier: Seq<char>) -> Option<CommandKind> {
    kind_named(without_surrounding(identifier, '"'))
}

/// The program that answers `intent` for `kind`.
pub open spec fn program_of(kind: CommandKind, intent: Intent) -> Seq<char> {
    match intent {
        Intent::CountUpdates => match kind {
            CommandKind::Pacman => "checkupdates"@,
            CommandKind::Apt => "apt"@,
            CommandKind::Xbps => "xbps-install"@,
            CommandKind::Portage => "eix"@,
            CommandKind::Apk => "apk"@,
            CommandKind::Dnf => "dnf"@,
        },
        Intent::CountInstalled => match kind {
            CommandKind::Pacman => "pacman"@,
            CommandKind::Apt => "apt"@,
            CommandKind::Xbps => "xbps-query"@,
            CommandKind::Portage => "eix-installed"@,
            CommandKind::Apk => "apk"@,
            CommandKind::Dnf => "dnf"@,
        },
    }
}

/// The arguments with which the program answers `intent` for `kind`.
pub open spec fn args_of(kind: CommandKind, intent: Intent) -> Seq<Seq<char>> {
    match intent {
        Intent::CountUpdates => match kind {
            CommandKind::Pacman => seq![],
            CommandKind::Apt => seq!["list"@, "-u"@],
            CommandKind::Xbps => seq!["-Sun"@],
            CommandKind::Portage => seq![
                "-u"@,
                "--format"@,
                "'<installedversions:nameversion>'"@,
            ],
            CommandKind::Apk => seq!["-u"@, "list"@],
            CommandKind::Dnf => seq!["check-update"@],
        },
        Intent::CountInstalled => match kind {
            CommandKind::Pacman => seq!["-Q"@],
            CommandKind::Apt => seq!["list"@, "-i"@],
            CommandKind::Xbps => seq!["-l"@],
            CommandKind::Portage => seq!["-a"@],
            CommandKind::Apk => seq!["info"@],
            CommandKind::Dnf => seq!["list"@, "installed"@],
        },
    }
}

/// How many lines at the top of the command's output are headers, not items.
pub open spec fn header_lines_of(kind: CommandKind, intent: Intent) -> nat {
    match kind {
        CommandKind::Apt => 2,
        CommandKind::Dnf => match intent {
            Intent::CountUpdates => 3,
            Intent::CountInstalled => 0,
        },
        _ => 0,
    }
}

/// How many lines at the top of the command's output are headers, not items.
pub fn header_lines(kind: CommandKind, intent: Intent) -> (n: usize)
    ensures
        n == header_lines_of(kind, intent),
{
    match kind {
        CommandKind::Apt => 2,
        CommandKind::Dnf => match intent {
            Intent::CountUpdates => 3,
            Intent::CountInstalled => 0,
        },
        _ => 0,
    }
}

/// The package manager that `identifier` stands for, or `None` for an
/// identifier outside the known set.
pub fn lookup(identifier: &str) -> (r: Option<CommandKind>)
    ensures
        r == kind_of(identifier@),
{
    let name = trim_char(identifier, '"');
    if same_text(name, "pacman") {
        Some(CommandKind::Pacman)
    } else if same_text(name, "apt") {
        Some(CommandKind::Apt)
    } else if same_text(name, "xbps") {
        Some(CommandKind::Xbps)
    } else if same_text(name, "portage") {
        Some(CommandKind::Portage)
    } else if same_text(name, "apk") {
        Some(CommandKind::Apk)
    } else if same_text(name, "dnf") {
        Some(CommandKind::Dnf)
    } else {
        None
    }
}

fn command(program: &str) -> (c: CommandSpec)
    ensures
        c.program@ == program@,
        c.arg_texts() == Seq::<Seq<char>>::empty(),
        c.header_lines == 0,
{
    let c = CommandSpec { program: String::from_str(program), args: Vec::new(), header_lines: 0 };
    assert(c.arg_texts() =~= Seq::<Seq<char>>::empty());
    c
}

fn with_arg(c: CommandSpec, arg: &str) -> (d: CommandSpec)
    ensures
        d.program@ == c.program@,
        d.arg_texts() == c.arg_texts().push(arg@),
        d.header_lines == c.header_lines,
{
    let mut d = c;
    d.args.push(String::from_str(arg));
    assert(d.arg_texts() =~= c.arg_texts().push(arg@));
    d
}

/// Whether `c` is the registry's entry for `kind` and `intent`.
pub open spec fn is_entry(c: CommandSpec, kind: CommandKind, intent: Intent) -> bool {
    &&& c.program@ == program_of(kind, intent)
    &&& c.arg_texts() == args_of(kind, intent)
    &&& c.header_lines == header_lines_of(kind, intent)
}

/// The command that answers `intent` for `kind`: a fixed entry for each of
/// the pairs.
pub fn command_for(kind: CommandKind, intent: Intent) -> (c: CommandSpec)
    ensures
        is_entry(c, kind, intent),
{
    let mut c = match intent {
        Intent::CountUpdates => match kind {
            CommandKind::Pacman => command("checkupdates"),
            CommandKind::Apt => with_arg(with_arg(command("apt"), "list"), "-u"),
            CommandKind::Xbps => with_arg(command("xbps-install"), "-Sun"),
            CommandKind::Portage => with_arg(
                with_arg(with_arg(command("eix"), "-u"), "--format"),
                "'<installedversions:nameversion>'",
            ),
            CommandKind::Apk => with_arg(with_arg(command("apk"), "-u"), "list"),
            CommandKind::Dnf => with_arg(command("dnf"), "check-update"),
        },
        Intent::CountInstalled => match kind {
            CommandKind::Pacman => with_arg(command("pacman"), "-Q"),
            CommandKind::Apt => with_arg(with_arg(command("apt"), "list"), "-i"),
            CommandKind::Xbps => with_arg(command("xbps-query"), "-l"),
            CommandKind::Portage => with_arg(command("eix-installed"), "-a"),
            CommandKind::Apk => with_arg(command("apk"), "info"),
            CommandKind::Dnf => with_arg(with_arg(command("dnf"), "list"), "installed"),
        },
    };
    assert(c.arg_texts() =~= args_of(kind, intent));
    c.header_lines = header_lines(kind, intent);
    c
}

/// The command that counts the pending updates of the package manager that
/// `command` names, with the manager's kind. A name outside the known set
/// is refused with `UnsupportedManager`.
pub fn check_update_commmand(command: &str) -> (r: Result<(CommandKind, CommandSpec), Failure>)
    ensures
        match r {
            Ok((kind, c)) => kind_of(command@) == Some(kind) && is_entry(
                c,
                kind,
                Intent::CountUpdates,
            ),
            Err(e) => kind_of(command@) is None && e == Failure::UnsupportedManager,
        },
{
    match lookup(command) {
        Some(kind) => Ok((kind, command_for(kind, Intent::CountUpdates))),
        None => Err(Failure::UnsupportedManager),
    }
}

/// The command that counts the installed packages of the package manager
/// that `command` names, with the manager's kind. A name outside the known
/// set is refused with `UnsupportedManager`.
pub fn check_installed_command(command: &str) -> (r: Result<(CommandKind, CommandSpec), Failure>)
    ensures
        match r {
            Ok((kind, c)) => kind_of(command@) == Some(kind) && is_entry(
                c,
                kind,
                Intent::CountInstalled,
            ),
            Err(e) => kind_of(command@) is None && e == Failure::UnsupportedManager,
        },
{
    match lookup(command) {
        Some(kind) => Ok((kind, command_for(kind, Intent::CountInstalled))),
        None => Err(Failure::UnsupportedManager),
    }
}

} // verus!
