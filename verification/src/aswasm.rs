//! The package and deployment model of the host-ABI flavour: a single
//! linked module, typed entrypoint descriptors, and volumes whose guest
//! paths are normalised for the virtual-filesystem mediator.

use vstd::prelude::*;

use crate::deploy::{cv_views, ContainerVolume, DeployResult, StartMode};
use crate::entrypoint::{mount_path_ok, validate_mount_path};
use crate::error::Error;
use crate::manifest::str_eq;

verus! {

/// A declared mount point: a guest path tagged with its permission kind.
#[derive(Debug)]
pub enum MountPoint {
    Ro(String),
    Rw(String),
    Wo(String),
    Private(String),
}

impl MountPoint {
    /// The declared guest path, whatever the permission kind.
    pub open spec fn spec_path(&self) -> Seq<char> {
        match self {
            MountPoint::Ro(p) => p@,
            MountPoint::Rw(p) => p@,
            MountPoint::Wo(p) => p@,
            MountPoint::Private(p) => p@,
        }
    }

    /// Whether the mount appears in the deploy result.
    pub open spec fn spec_is_public(&self) -> bool {
        !(self is Private)
    }

    pub fn path(&self) -> (r: &String)
        ensures
            r@ == self.spec_path(),
    {
        match self {
            MountPoint::Ro(p) => p,
            MountPoint::Rw(p) => p,
            MountPoint::Wo(p) => p,
            MountPoint::Private(p) => p,
        }
    }

    pub fn is_public(&self) -> (r: bool)
        ensures
            r == self.spec_is_public(),
    {
        match self {
            MountPoint::Private(_) => false,
            _ => true,
        }
    }
}

/// The single linked module of a host-ABI package.
#[derive(Debug)]
pub struct MainEntry {
    pub wasm_path: String,
}

/// The type of one entrypoint argument.
#[derive(Debug, Clone, Copy, PartialEq, Eq, Structural)]
pub enum ArgType {
    Text,
    Bytes,
    I32,
}

/// One typed argument of an entrypoint.
#[derive(Debug)]
pub struct ArgDesc {
    pub name: Option<String>,
    pub arg_type: ArgType,
}

/// How an entrypoint's return value is reported.
#[derive(Debug, Clone, Copy, PartialEq, Eq, Structural)]
pub enum Output {
    ExitCode,
    Bytes,
    Text,
    Void,
}

impl Default for Output {
    fn default() -> (r: Self)
        ensures
            r == Output::ExitCode,
    {
        Output::ExitCode
    }
}

/// One callable entrypoint of the linked module: an optional
/// description, the ordered typed arguments, and the output kind.
#[derive(Debug)]
pub struct EntryPoint {
    pub desc: Option<String>,
    pub args: Vec<ArgDesc>,
    pub output: Output,
}

/// What a host-ABI package declares in its manifest entry.
#[derive(Debug)]
pub struct Manifest {
    pub id: String,
    pub name: String,
    pub runtime: String,
    pub entry_points: Vec<(String, EntryPoint)>,
    pub main: MainEntry,
    pub mount_points: Vec<MountPoint>,
}

/// The deployment descriptor of a host-ABI workspace: the entrypoint
/// table, the image path, the linked module, and the volumes.
#[derive(Debug)]
pub struct Deployment {
    pub entry_points: Vec<(String, EntryPoint)>,
    pub image_path: String,
    pub main: MainEntry,
    pub vols: Vec<ContainerVolume>,
}

/// Whether some entry of the table carries the given name.
pub open spec fn has_entry(eps: Seq<(String, EntryPoint)>, name: Seq<char>) -> bool {
    exists|i: int| 0 <= i < eps.len() && (#[trigger] eps[i]).0@ == name
}

impl Deployment {
    /// The linked module's archive path.
    pub fn main_entry(&self) -> (r: &MainEntry)
        ensures
            r == &self.main,
    {
        &self.main
    }

    /// Looks up an entrypoint descriptor by name; `None` exactly when no
    /// entry carries it.
    pub fn entry_point(&self, name: &str) -> (r: Option<&EntryPoint>)
        ensures
            r is Some <==> has_entry(self.entry_points@, name@),
            r matches Some(ep) ==> exists|i: int|
                {
                    &&& 0 <= i < self.entry_points@.len()
                    &&& (#[trigger] self.entry_points@[i]).0@ == name@
                    &&& (forall|j: int| 0 <= j < i ==> (#[trigger] self.entry_points@[j]).0@ != name@)
                    &&& ep == &self.entry_points@[i].1
                },
    {
        let mut i: usize = 0;
        while i < self.entry_points.len()
            invariant
                i <= self.entry_points@.len(),
                forall|j: int| 0 <= j < i ==> (#[trigger] self.entry_points@[j]).0@ != name@,
            decreases self.entry_points@.len() - i,
        {
            if str_eq(self.entry_points[i].0.as_str(), name) {
                return Some(&self.entry_points[i].1);
            }
            i = i + 1;
        }
        None
    }

    /// Every volume of the deployment, in declaration order.
    pub fn vols(&self) -> (r: Vec<ContainerVolume>)
        ensures
            cv_views(r@) == cv_views(self.vols@),
    {
        let mut out: Vec<ContainerVolume> = Vec::new();
        let mut i: usize = 0;
        while i < self.vols.len()
            invariant
                i <= self.vols@.len(),
                out@.len() == i,
                forall|j: int| 0 <= j < i ==> (#[trigger] out@[j])@ == self.vols@[j]@,
            decreases self.vols@.len() - i,
        {
            out.push(self.vols[i].clone());
            i = i + 1;
        }
        proof {
            assert forall|j: int| 0 <= j < out@.len() implies #[trigger] cv_views(out@)[j]
                == cv_views(self.vols@)[j] by {
                assert(out@[j]@ == self.vols@[j]@);
            }
            assert(cv_views(out@) =~= cv_views(self.vols@));
        }
        out
    }
}

/// The declared guest path normalised for the mediator: a leading `/`
/// and a trailing `/`, which path resolution relies on.
pub open spec fn dir_path_of(p: Seq<char>) -> Seq<char> {
    let a = crate::deploy::abs_path_of(p);
    if a[a.len() - 1] == '/' {
        a
    } else {
        a.push('/')
    }
}

/// Normalises a declared guest path to start and end with `/`.
pub fn dir_path(path: &str) -> (r: String)
    ensures
        r@ == dir_path_of(path@),
        r@.len() > 0 && r@[r@.len() - 1] == '/',
{
    let mut a = crate::deploy::absolute_path(path);
    let n = a.as_str().unicode_len();
    proof {
        assert(n >= 1);
    }
    if a.as_str().get_char(n - 1) != '/' {
        crate::strutil::push_char(&mut a, '/');
    }
    a
}

/// The views of the public volumes a mount list yields, with fresh
/// names left abstract: only the paths are determined.
pub open spec fn public_mount_paths(mps: Seq<MountPoint>) -> Seq<Seq<char>>
    decreases mps.len(),
{
    if mps.len() == 0 {
        Seq::empty()
    } else {
        public_mount_paths(mps.drop_last()) + if mps.last().spec_is_public() {
            seq![dir_path_of(mps.last().spec_path())]
        } else {
            Seq::empty()
        }
    }
}

/// Plans a host-ABI deployment. Succeeds exactly when no descriptor
/// exists yet and every declared mount path is safe; the descriptor
/// takes over the manifest's entrypoint table and main module, lists one
/// fresh volume per mount point with its guest path normalised to start
/// and end with `/`, and the result reports the public volumes, an empty
/// validity message and the blocking start mode.
pub fn deploy(manifest: Manifest, image_path: &str, descriptor_exists: bool) -> (r: Result<
    (Deployment, DeployResult),
    Error,
>)
    ensures
        r is Ok <==> (!descriptor_exists && (forall|i: int|
            0 <= i < manifest.mount_points@.len() ==> mount_path_ok(
                (#[trigger] manifest.mount_points@[i]).spec_path(),
            ))),
        r matches Err(e) ==> (if descriptor_exists {
            e is PackageInvalid
        } else {
            e is PathUnsafe
        }),
        r matches Ok(p) ==> {
            &&& p.0.entry_points == manifest.entry_points
            &&& p.0.main == manifest.main
            &&& p.0.image_path@ == image_path@
            &&& p.0.vols@.len() == manifest.mount_points@.len()
            &&& (forall|i: int|
                0 <= i < p.0.vols@.len() ==> (#[trigger] p.0.vols@[i])@.1 == dir_path_of(
                    manifest.mount_points@[i].spec_path(),
                ) && crate::deploy::is_vol_name(p.0.vols@[i]@.0))
            &&& (p.1.valid matches Ok(m) && m@ == Seq::<char>::empty())
            &&& cv_views(p.1.vols@).map_values(|v: (Seq<char>, Seq<char>)| v.1)
                == public_mount_paths(manifest.mount_points@)
            &&& p.1.start_mode == StartMode::Blocking
        },
{
    if descriptor_exists {
        return Err(Error::PackageInvalid(String::from_str(
            "deploy.json already exists in the workspace",
        )));
    }
    let mut vols: Vec<ContainerVolume> = Vec::new();
    let mut public_vols: Vec<ContainerVolume> = Vec::new();
    let mut i: usize = 0;
    while i < manifest.mount_points.len()
        invariant
            !descriptor_exists,
            i <= manifest.mount_points@.len(),
            vols@.len() == i,
            forall|j: int|
                0 <= j < i ==> mount_path_ok((#[trigger] manifest.mount_points@[j]).spec_path()),
            forall|j: int|
                0 <= j < i ==> (#[trigger] vols@[j])@.1 == dir_path_of(
                    manifest.mount_points@[j].spec_path(),
                ) && crate::deploy::is_vol_name(vols@[j]@.0),
            cv_views(public_vols@).map_values(|v: (Seq<char>, Seq<char>)| v.1)
                == public_mount_paths(manifest.mount_points@.take(i as int)),
        decreases manifest.mount_points@.len() - i,
    {
        let mp = &manifest.mount_points[i];
        match validate_mount_path(mp.path().as_str()) {
            Ok(_) => {},
            Err(e) => {
                return Err(e);
            },
        }
        let vol = ContainerVolume { name: crate::deploy::fresh_vol_name(), path: dir_path(
            mp.path().as_str(),
        ) };
        proof {
            assert(manifest.mount_points@.take(i + 1).drop_last() =~= manifest.mount_points@.take(
                i as int,
            ));
        }
        if mp.is_public() {
            public_vols.push(vol.clone());
        }
        vols.push(vol);
        i = i + 1;
        proof {
            assert(cv_views(public_vols@).map_values(|v: (Seq<char>, Seq<char>)| v.1)
                =~= public_mount_paths(manifest.mount_points@.take(i as int)));
        }
    }
    proof {
        assert(manifest.mount_points@.take(manifest.mount_points@.len() as int)
            =~= manifest.mount_points@);
    }
    let deployment = Deployment {
        entry_points: manifest.entry_points,
        image_path: String::from_str(image_path),
        main: manifest.main,
        vols,
    };
    let result = DeployResult {
        valid: Ok(String::new()),
        vols: public_vols,
        start_mode: StartMode::Blocking,
    };
    Ok((deployment, result))
}

} // verus!
