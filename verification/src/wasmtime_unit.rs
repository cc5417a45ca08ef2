//! The WASI executor's decisions: the sandbox's mounts and argv, the
//! registry of loaded modules, and the mapping from a guest's trap to
//! the process exit code.
//!
//! Compiling and instantiating modules, preopening directories and
//! invoking `_start` happen outside the library against these values.

use vstd::prelude::*;

use crate::deploy::ContainerVolume;
use crate::entrypoint::{mount_path_ok, validate_mount_path};
use crate::error::Error;
use crate::manifest::{str_eq, EntryPoint};

verus! {

/// The exit status the platform reports for an abort.
pub const SIGABRT: i32 = 6;

/// A directory the sandbox exposes to the guest: the host directory and
/// the guest-visible path.
#[derive(Debug)]
pub struct DirectoryMount {
    pub host: String,
    pub guest: String,
}

/// Computes the sandbox mounts of a deployment: each volume's host
/// directory under the workspace, at its guest path. Fails exactly when
/// some guest path does not pass the validator.
pub fn compute_mounts(workdir: &str, vols: &Vec<ContainerVolume>) -> (r: Result<
    Vec<DirectoryMount>,
    Error,
>)
    ensures
        r is Ok <==> (forall|i: int|
            0 <= i < vols@.len() ==> mount_path_ok((#[trigger] vols@[i])@.1)),
        r matches Err(e) ==> e is PathUnsafe,
        r matches Ok(ms) ==> {
            &&& ms@.len() == vols@.len()
            &&& (forall|i: int|
                0 <= i < ms@.len() ==> (#[trigger] ms@[i]).guest@ == vols@[i]@.1 && ms@[i].host@
                    == workdir@ + seq!['/'] + vols@[i]@.0)
        },
{
    let mut out: Vec<DirectoryMount> = Vec::new();
    let mut i: usize = 0;
    while i < vols.len()
        invariant
            i <= vols@.len(),
            out@.len() == i,
            forall|j: int| 0 <= j < i ==> mount_path_ok((#[trigger] vols@[j])@.1),
            forall|j: int|
                0 <= j < i ==> (#[trigger] out@[j]).guest@ == vols@[j]@.1 && out@[j].host@
                    == workdir@ + seq!['/'] + vols@[j]@.0,
        decreases vols@.len() - i,
    {
        let vol = &vols[i];
        match validate_mount_path(vol.path.as_str()) {
            Ok(_) => {},
            Err(e) => {
                return Err(e);
            },
        }
        let mut host = String::from_str(workdir);
        crate::strutil::push_char(&mut host, '/');
        host.append(vol.name.as_str());
        let guest = String::from_str(vol.path.as_str());
        proof {
            assert(host@ =~= workdir@ + seq!['/'] + vols@[i as int]@.0);
        }
        out.push(DirectoryMount { host, guest });
        i = i + 1;
    }
    Ok(out)
}

/// Computes the sandbox's argv: the entrypoint's archive-relative module
/// path, then the caller's arguments.
pub fn compute_args(args: &Vec<String>, entrypoint: &EntryPoint) -> (r: Vec<String>)
    ensures
        r@.len() == args@.len() + 1,
        r@[0]@ == entrypoint.wasm_path@,
        forall|i: int| 0 <= i < args@.len() ==> (#[trigger] r@[i + 1])@ == args@[i]@,
{
    let mut out: Vec<String> = Vec::new();
    out.push(String::from_str(entrypoint.wasm_path.as_str()));
    let mut i: usize = 0;
    while i < args.len()
        invariant
            i <= args@.len(),
            out@.len() == i + 1,
            out@[0]@ == entrypoint.wasm_path@,
            forall|j: int| 0 <= j < i ==> (#[trigger] out@[j + 1])@ == args@[j]@,
        decreases args@.len() - i,
    {
        out.push(String::from_str(args[i].as_str()));
        i = i + 1;
    }
    out
}

/// The ids of the modules loaded so far, each at most once.
#[derive(Debug)]
pub struct ModuleRegistry {
    pub ids: Vec<String>,
}

/// Whether some registered id reads the same as the given one.
pub open spec fn has_id(ids: Seq<String>, id: Seq<char>) -> bool {
    exists|i: int| 0 <= i < ids.len() && (#[trigger] ids[i])@ == id
}

impl ModuleRegistry {
    /// An empty registry.
    pub fn new() -> (r: Self)
        ensures
            r.ids@.len() == 0,
    {
        ModuleRegistry { ids: Vec::new() }
    }

    /// Registers a module id; fails exactly when the id was registered
    /// before, as a duplicate entrypoint id is fatal.
    pub fn register(&mut self, id: &str) -> (r: Result<(), Error>)
        ensures
            r is Ok <==> !has_id(old(self).ids@, id@),
            r matches Err(e) ==> e is ModuleInvalid,
            r is Ok ==> final(self).ids@.len() == old(self).ids@.len() + 1 && final(self).ids@[
                final(self).ids@.len() - 1
            ]@ == id@ && (forall|j: int|
                0 <= j < old(self).ids@.len() ==> final(self).ids@[j] == old(self).ids@[j]),
            r is Err ==> final(self).ids@ == old(self).ids@,
    {
        let mut i: usize = 0;
        while i < self.ids.len()
            invariant
                i <= self.ids@.len(),
                self.ids@ == old(self).ids@,
                forall|j: int| 0 <= j < i ==> (#[trigger] self.ids@[j])@ != id@,
            decreases self.ids@.len() - i,
        {
            if str_eq(self.ids[i].as_str(), id) {
                return Err(Error::ModuleInvalid(String::from_str("module already defined")));
            }
            i = i + 1;
        }
        self.ids.push(String::from_str(id));
        Ok(())
    }
}

/// Maps what a trapped guest left behind onto the process exit code.
/// A trap carrying an exit status keeps it, except that the platform
/// reserving status 3 for abort remaps 3 and above to 1; a trap without
/// one is an abort: 3 on that platform, `128 + SIGABRT` elsewhere.
pub fn exit_code_for_trap(exit_status: Option<i32>, abort_reserves_3: bool) -> (r: i32)
    ensures
        r == (match exit_status {
            Some(st) => if abort_reserves_3 && st >= 3 {
                1i32
            } else {
                st
            },
            None => if abort_reserves_3 {
                3i32
            } else {
                (128 + SIGABRT) as i32
            },
        }),
{
    match exit_status {
        Some(st) => {
            if abort_reserves_3 && st >= 3 {
                1
            } else {
                st
            }
        },
        None => {
            if abort_reserves_3 {
                3
            } else {
                (128 + SIGABRT) as i32
            }
        },
    }
}

} // verus!
