//! The command-line front-end's model: the parsed arguments, the
//! dispatch decision, and the conservative mount-path check applied on
//! the host side of mount computation.
//!
//! Argument parsing itself and the dispatch's filesystem work happen
//! outside the library.

use vstd::prelude::*;

use crate::entrypoint::mount_path_ok;
use crate::error::Error;

verus! {

/// The lifecycle subcommands the front-end accepts.
#[derive(Debug)]
pub enum Commands {
    Deploy,
    Start,
    Run { entrypoint: String, args: Vec<String> },
    Test,
}

/// The parsed command line: the workspace, the package, the debug flag
/// and the subcommand.
#[derive(Debug)]
pub struct CmdArgs {
    pub workdir: Option<String>,
    pub task_package: Option<String>,
    pub debug: bool,
    pub command: Commands,
}

impl CmdArgs {
    /// The workspace directory; an error when the argument is missing.
    pub fn workdir(&self) -> (r: Result<String, Error>)
        ensures
            r is Ok <==> self.workdir is Some,
            r matches Ok(p) ==> (self.workdir matches Some(w) && p@ == w@),
            r matches Err(e) ==> e is ConfigInvalid,
    {
        match &self.workdir {
            Some(w) => Ok(String::from_str(w.as_str())),
            None => Err(Error::ConfigInvalid(String::from_str("No workdir arg"))),
        }
    }

    /// The package path; an error when the argument is missing.
    pub fn task_package(&self) -> (r: Result<String, Error>)
        ensures
            r is Ok <==> self.task_package is Some,
            r matches Ok(p) ==> (self.task_package matches Some(t) && p@ == t@),
            r matches Err(e) ==> e is ConfigInvalid,
    {
        match &self.task_package {
            Some(t) => Ok(String::from_str(t.as_str())),
            None => Err(Error::ConfigInvalid(String::from_str("No task_package arg"))),
        }
    }
}

/// Which engine a package's manifest selects.
#[derive(Debug, Clone, Copy, PartialEq, Eq, Structural)]
pub enum RuntimeKind {
    Wasi,
    Aswasm,
}

/// What the front-end must do for a parsed command line and the
/// manifest's runtime kind.
#[derive(Debug)]
pub enum Action {
    Deploy { workdir: String, task_package: String, kind: RuntimeKind },
    Start { workdir: String, kind: RuntimeKind },
    Run { workdir: String, entrypoint: String, args: Vec<String> },
    Test,
}

/// Decides the front-end's action. `test` succeeds without arguments;
/// the lifecycle commands need their workspace (and, to deploy, the
/// package); `run` is refused for the host-ABI engine, which is driven
/// over its own service instead.
pub fn entrypoint(cmdline: &CmdArgs, kind: RuntimeKind) -> (r: Result<Action, Error>)
    ensures
        cmdline.command is Test ==> (r matches Ok(a) && a is Test),
        cmdline.command is Deploy ==> (r is Ok <==> (cmdline.workdir is Some
            && cmdline.task_package is Some)),
        cmdline.command is Start ==> (r is Ok <==> cmdline.workdir is Some),
        cmdline.command is Run ==> (r is Ok <==> (cmdline.workdir is Some && kind
            == RuntimeKind::Wasi)),
        r matches Ok(a) ==> (match &cmdline.command {
            Commands::Deploy => (a matches Action::Deploy { workdir, task_package, kind: k } && (
            cmdline.workdir matches Some(w) && workdir@ == w@) && (cmdline.task_package
                matches Some(t) && task_package@ == t@) && k == kind),
            Commands::Start => (a matches Action::Start { workdir, kind: k } && (cmdline.workdir
                matches Some(w) && workdir@ == w@) && k == kind),
            Commands::Run { entrypoint: e, args } => (a matches Action::Run {
                workdir,
                entrypoint: ae,
                args: aa,
            } && (cmdline.workdir matches Some(w) && workdir@ == w@) && ae@ == e@ && aa@.len()
                == args@.len() && (forall|i: int|
                0 <= i < aa@.len() ==> (#[trigger] aa@[i])@ == args@[i]@)),
            Commands::Test => a is Test,
        }),
{
    match &cmdline.command {
        Commands::Test => Ok(Action::Test),
        Commands::Deploy => {
            let workdir = match cmdline.workdir() {
                Ok(w) => w,
                Err(e) => {
                    return Err(e);
                },
            };
            let task_package = match cmdline.task_package() {
                Ok(t) => t,
                Err(e) => {
                    return Err(e);
                },
            };
            Ok(Action::Deploy { workdir, task_package, kind })
        },
        Commands::Start => {
            let workdir = match cmdline.workdir() {
                Ok(w) => w,
                Err(e) => {
                    return Err(e);
                },
            };
            Ok(Action::Start { workdir, kind })
        },
        Commands::Run { entrypoint, args } => {
            let workdir = match cmdline.workdir() {
                Ok(w) => w,
                Err(e) => {
                    return Err(e);
                },
            };
            match kind {
                RuntimeKind::Aswasm => Err(Error::ConfigInvalid(String::from_str(
                    "blocking engine, run is not supported over the command line",
                ))),
                RuntimeKind::Wasi => {
                    let mut args_copy: Vec<String> = Vec::new();
                    let mut i: usize = 0;
                    while i < args.len()
                        invariant
                            i <= args@.len(),
                            args_copy@.len() == i,
                            forall|j: int|
                                0 <= j < i ==> (#[trigger] args_copy@[j])@ == args@[j]@,
                        decreases args@.len() - i,
                    {
                        args_copy.push(String::from_str(args[i].as_str()));
                        i = i + 1;
                    }
                    Ok(Action::Run {
                        workdir,
                        entrypoint: String::from_str(entrypoint.as_str()),
                        args: args_copy,
                    })
                },
            }
        },
    }
}

/// The conservative check for mount paths on the host side of mount
/// computation: beyond the guest-path checks it rejects absolute paths,
/// which name host locations rather than workspace-relative ones.
pub open spec fn host_mount_path_ok(s: Seq<char>) -> bool {
    mount_path_ok(s) && !(s.len() > 0 && s[0] == '/')
}

/// Rejects mount paths that could escape or rename the workspace: any
/// path with a `.` or `..` segment or a drive-like character, and any
/// absolute path.
pub fn validate_mount_path(path: &str) -> (r: Result<(), Error>)
    ensures
        r is Ok <==> host_mount_path_ok(path@),
        r matches Err(e) ==> e is PathUnsafe,
{
    if path.unicode_len() > 0 && path.get_char(0) == '/' {
        return Err(Error::PathUnsafe(String::from_str("expected a relative unix path")));
    }
    crate::entrypoint::validate_mount_path(path)
}

} // verus!
