//! The package manifest model of the WASI flavour: entrypoints by id and
//! declared mount points.

use vstd::prelude::*;

use crate::error::Error;

verus! {

/// A named WASI entrypoint: an id callers select with `-e`, and the
/// archive-relative path of its module.
#[derive(Debug)]
pub struct EntryPoint {
    pub id: String,
    pub wasm_path: String,
}

impl Clone for EntryPoint {
    fn clone(&self) -> (r: Self)
        ensures
            r.id@ == self.id@,
            r.wasm_path@ == self.wasm_path@,
    {
        EntryPoint { id: self.id.clone(), wasm_path: self.wasm_path.clone() }
    }
}

/// A declared mount point: a guest path tagged with its permission kind.
/// `Private` mounts are materialised but not reported back to the caller.
#[derive(Debug)]
pub enum MountPoint {
    Ro(String),
    Rw(String),
    Wo(String),
    Private(String),
}

impl Clone for MountPoint {
    fn clone(&self) -> (r: Self)
        ensures
            r.spec_path() == self.spec_path(),
            r.spec_is_private() == self.spec_is_private(),
    {
        match self {
            MountPoint::Ro(p) => MountPoint::Ro(p.clone()),
            MountPoint::Rw(p) => MountPoint::Rw(p.clone()),
            MountPoint::Wo(p) => MountPoint::Wo(p.clone()),
            MountPoint::Private(p) => MountPoint::Private(p.clone()),
        }
    }
}

impl MountPoint {
    /// The declared guest path, whatever the permission kind.
    pub open spec fn spec_path(&self) -> Seq<char> {
        match self {
            MountPoint::Ro(p) => p@,
            MountPoint::Rw(p) => p@,
            MountPoint::Wo(p) => p@,
            MountPoint::Private(p) => p@,
        }
    }

    /// Whether the mount is kept out of the deploy result.
    pub open spec fn spec_is_private(&self) -> bool {
        self is Private
    }

    pub fn path(&self) -> (r: &String)
        ensures
            r@ == self.spec_path(),
    {
        match self {
            MountPoint::Ro(p) => p,
            MountPoint::Rw(p) => p,
            MountPoint::Wo(p) => p,
            MountPoint::Private(p) => p,
        }
    }

    pub fn is_private(&self) -> (r: bool)
        ensures
            r == self.spec_is_private(),
    {
        match self {
            MountPoint::Private(_) => true,
            _ => false,
        }
    }
}

/// What a WASI package declares in its manifest entry.
#[derive(Debug)]
pub struct Manifest {
    /// Deployment id, an opaque stable identifier.
    pub id: String,
    pub name: String,
    pub entry_points: Vec<EntryPoint>,
    pub mount_points: Vec<MountPoint>,
}

/// Whether some declared entrypoint carries the given id.
pub open spec fn has_entrypoint(eps: Seq<EntryPoint>, id: Seq<char>) -> bool {
    exists|i: int| 0 <= i < eps.len() && (#[trigger] eps[i]).id@ == id
}

impl Manifest {
    /// All declared entrypoints, in declaration order.
    pub fn list_entrypoints(&self) -> (r: Vec<EntryPoint>)
        ensures
            r@.len() == self.entry_points@.len(),
            forall|i: int|
                0 <= i < r@.len() ==> (#[trigger] r@[i]).id@ == self.entry_points@[i].id@
                    && r@[i].wasm_path@ == self.entry_points@[i].wasm_path@,
    {
        let mut out: Vec<EntryPoint> = Vec::new();
        let mut i: usize = 0;
        while i < self.entry_points.len()
            invariant
                i <= self.entry_points@.len(),
                out@.len() == i,
                forall|j: int|
                    0 <= j < i ==> (#[trigger] out@[j]).id@ == self.entry_points@[j].id@
                        && out@[j].wasm_path@ == self.entry_points@[j].wasm_path@,
            decreases self.entry_points@.len() - i,
        {
            out.push(self.entry_points[i].clone());
            i = i + 1;
        }
        out
    }

    /// Looks up the entrypoint with the given id; the error names the id
    /// that was not found.
    pub fn find_entrypoint(&self, entrypoint_id: &str) -> (r: Result<EntryPoint, Error>)
        ensures
            r is Ok <==> has_entrypoint(self.entry_points@, entrypoint_id@),
            r matches Ok(ep) ==> exists|i: int|
                0 <= i < self.entry_points@.len() && (#[trigger] self.entry_points@[i]).id@
                    == entrypoint_id@ && ep.id@ == entrypoint_id@ && ep.wasm_path@
                    == self.entry_points@[i].wasm_path@,
            r matches Err(e) ==> (e matches Error::ModuleInvalid(m) && m@ == "Entrypoint "@
                + entrypoint_id@ + " not found."@),
    {
        let mut i: usize = 0;
        while i < self.entry_points.len()
            invariant
                i <= self.entry_points@.len(),
                forall|j: int| 0 <= j < i ==> (#[trigger] self.entry_points@[j]).id@ != entrypoint_id@,
            decreases self.entry_points@.len() - i,
        {
            if str_eq(self.entry_points[i].id.as_str(), entrypoint_id) {
                return Ok(self.entry_points[i].clone());
            }
            i = i + 1;
        }
        let mut msg = String::from_str("Entrypoint ");
        msg.append(entrypoint_id);
        msg.append(" not found.");
        Err(Error::ModuleInvalid(msg))
    }
}

/// Character-by-character string equality; `==` on `str` views.
pub fn str_eq(a: &str, b: &str) -> (r: bool)
    ensures
        r == (a@ == b@),
{
    let na = a.unicode_len();
    let nb = b.unicode_len();
    if na != nb {
        assert(a@.len() != b@.len());
        return false;
    }
    let mut i: usize = 0;
    while i < na
        invariant
            na == a@.len(),
            na == b@.len(),
            i <= na,
            forall|j: int| 0 <= j < i ==> a@[j] == b@[j],
        decreases na - i,
    {
        if a.get_char(i) != b.get_char(i) {
            return false;
        }
        i = i + 1;
    }
    proof {
        assert(a@ =~= b@);
    }
    true
}

} // verus!
