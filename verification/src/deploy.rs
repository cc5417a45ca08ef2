//! The deployment engine: turns a package manifest into a deployment
//! descriptor and the deploy result reported to the caller.
//!
//! Filesystem work — creating the volume directories and writing
//! `deploy.json` — happens outside the library; this module decides
//! exactly what is created and what is reported.

use vstd::prelude::*;

use crate::entrypoint::{mount_path_ok, validate_mount_path};
use crate::error::Error;
use crate::manifest::Manifest;

verus! {

/// A materialised volume: the host directory's name inside the workspace,
/// and the guest path it is mounted at.
#[derive(Debug)]
pub struct ContainerVolume {
    pub name: String,
    pub path: String,
}

impl View for ContainerVolume {
    type V = (Seq<char>, Seq<char>);

    open spec fn view(&self) -> Self::V {
        (self.name@, self.path@)
    }
}

impl Clone for ContainerVolume {
    fn clone(&self) -> (r: Self)
        ensures
            r@ == self@,
    {
        ContainerVolume { name: self.name.clone(), path: self.path.clone() }
    }
}

/// How the runtime expects to be driven after `deploy`.
#[derive(Debug, PartialEq, Eq, Structural, Clone, Copy)]
pub enum StartMode {
    Empty,
    Blocking,
}

impl Default for StartMode {
    fn default() -> (r: Self)
        ensures
            r == StartMode::Empty,
    {
        StartMode::Empty
    }
}

/// What `deploy` reports to the caller: a validity verdict, the public
/// volumes, and the start mode.
#[derive(Debug)]
pub struct DeployResult {
    pub valid: Result<String, String>,
    pub vols: Vec<ContainerVolume>,
    pub start_mode: StartMode,
}

/// The deployment descriptor persisted as `deploy.json`: the image
/// archive's path and every volume, each tagged with whether its mount
/// was declared private.
#[derive(Debug)]
pub struct DeployFile {
    pub image_path: String,
    pub vols: Vec<(bool, ContainerVolume)>,
}

/// The views of a volume list.
pub open spec fn cv_views(s: Seq<ContainerVolume>) -> Seq<(Seq<char>, Seq<char>)> {
    s.map_values(|v: ContainerVolume| v@)
}

/// The views of every volume, in order, the privacy tags dropped.
pub open spec fn all_views(vols: Seq<(bool, ContainerVolume)>) -> Seq<(Seq<char>, Seq<char>)>
    decreases vols.len(),
{
    if vols.len() == 0 {
        Seq::empty()
    } else {
        all_views(vols.drop_last()).push(vols.last().1@)
    }
}

/// The views of the non-private volumes, in order.
pub open spec fn public_views(vols: Seq<(bool, ContainerVolume)>) -> Seq<(Seq<char>, Seq<char>)>
    decreases vols.len(),
{
    if vols.len() == 0 {
        Seq::empty()
    } else {
        public_views(vols.drop_last()) + if !vols.last().0 {
            seq![vols.last().1@]
        } else {
            Seq::empty()
        }
    }
}

/// The declared guest path normalised to start with `/`.
pub open spec fn abs_path_of(p: Seq<char>) -> Seq<char> {
    if p.len() > 0 && p[0] == '/' {
        p
    } else {
        seq!['/'] + p
    }
}

/// Volume directory names have the form `vol-` followed by the 36
/// characters of a hyphenated uuid.
pub open spec fn is_vol_name(n: Seq<char>) -> bool {
    n.len() == 40 && n.take(4) == "vol-"@
}

impl DeployFile {
    /// Path to the deployed image archive.
    pub fn image_path(&self) -> (r: &String)
        ensures
            r@ == self.image_path@,
    {
        &self.image_path
    }

    /// The volumes whose mounts were not declared private; only these are
    /// reported to the caller.
    pub fn public_vols(&self) -> (r: Vec<ContainerVolume>)
        ensures
            cv_views(r@) == public_views(self.vols@),
    {
        let mut out: Vec<ContainerVolume> = Vec::new();
        let mut i: usize = 0;
        while i < self.vols.len()
            invariant
                i <= self.vols@.len(),
                cv_views(out@) == public_views(self.vols@.take(i as int)),
            decreases self.vols@.len() - i,
        {
            proof {
                assert(self.vols@.take(i + 1).drop_last() =~= self.vols@.take(i as int));
            }
            if !self.vols[i].0 {
                out.push(self.vols[i].1.clone());
            }
            i = i + 1;
            proof {
                assert(cv_views(out@) =~= public_views(self.vols@.take(i as int)));
            }
        }
        proof {
            assert(self.vols@.take(self.vols@.len() as int) =~= self.vols@);
        }
        out
    }

    /// Every volume of the deployment, in declaration order.
    pub fn container_vols(&self) -> (r: Vec<ContainerVolume>)
        ensures
            cv_views(r@) == all_views(self.vols@),
    {
        let mut out: Vec<ContainerVolume> = Vec::new();
        let mut i: usize = 0;
        while i < self.vols.len()
            invariant
                i <= self.vols@.len(),
                cv_views(out@) == all_views(self.vols@.take(i as int)),
            decreases self.vols@.len() - i,
        {
            proof {
                assert(self.vols@.take(i + 1).drop_last() =~= self.vols@.take(i as int));
            }
            out.push(self.vols[i].1.clone());
            i = i + 1;
            proof {
                assert(cv_views(out@) =~= all_views(self.vols@.take(i as int)));
            }
        }
        proof {
            assert(self.vols@.take(self.vols@.len() as int) =~= self.vols@);
        }
        out
    }

    /// Builds the descriptor for an image: one volume per declared mount
    /// point, each with a fresh `vol-<uuid>` name and the normalised
    /// guest path, tagged with the mount's privacy.
    pub fn for_image(manifest: &Manifest, image_path: &str) -> (r: DeployFile)
        ensures
            r.image_path@ == image_path@,
            r.vols@.len() == manifest.mount_points@.len(),
            forall|i: int|
                0 <= i < r.vols@.len() ==> (#[trigger] r.vols@[i]).0
                    == manifest.mount_points@[i].spec_is_private() && r.vols@[i].1.path@
                    == abs_path_of(manifest.mount_points@[i].spec_path()) && is_vol_name(
                    r.vols@[i].1.name@,
                ),
    {
        let mut vols: Vec<(bool, ContainerVolume)> = Vec::new();
        let mut i: usize = 0;
        while i < manifest.mount_points.len()
            invariant
                i <= manifest.mount_points@.len(),
                vols@.len() == i,
                forall|j: int|
                    0 <= j < i ==> (#[trigger] vols@[j]).0
                        == manifest.mount_points@[j].spec_is_private() && vols@[j].1.path@
                        == abs_path_of(manifest.mount_points@[j].spec_path()) && is_vol_name(
                        vols@[j].1.name@,
                    ),
            decreases manifest.mount_points@.len() - i,
        {
            let mp = &manifest.mount_points[i];
            let vol = ContainerVolume { name: fresh_vol_name(), path: absolute_path(mp.path()) };
            vols.push((mp.is_private(), vol));
            i = i + 1;
        }
        DeployFile { image_path: String::from_str(image_path), vols }
    }
}

/// Where the deployment descriptor lives inside a workspace.
pub fn deploy_path(work_dir: &str) -> (r: String)
    ensures
        r@ == work_dir@ + "/deploy.json"@,
{
    String::from_str(work_dir).concat("/deploy.json")
}

/// Normalises a declared guest path to start with `/`.
pub fn absolute_path(path: &str) -> (r: String)
    ensures
        r@ == abs_path_of(path@),
{
    if path.unicode_len() > 0 && path.get_char(0) == '/' {
        String::from_str(path)
    } else {
        let r = String::from_str("/").concat(path);
        proof {
            reveal_strlit("/");
            assert("/"@ =~= seq!['/']);
        }
        r
    }
}

/// Relies on `uuid::Uuid::new_v4` and its hyphenated lowercase rendering:
/// a fresh random identifier of exactly 36 characters.
#[verifier::external_body]
fn fresh_uuid() -> (r: String)
    ensures
        r@.len() == 36,
{
    uuid::Uuid::new_v4().to_string()
}

/// A fresh volume directory name of the form `vol-<uuid>`.
pub(crate) fn fresh_vol_name() -> (r: String)
    ensures
        is_vol_name(r@),
{
    let mut name = String::from_str("vol-");
    let u = fresh_uuid();
    name.append(u.as_str());
    proof {
        reveal_strlit("vol-");
        assert(name@.take(4) =~= "vol-"@);
    }
    name
}

/// Whether every declared mount path passes the validator.
pub open spec fn all_mounts_ok(manifest: &Manifest) -> bool {
    forall|i: int|
        0 <= i < manifest.mount_points@.len() ==> mount_path_ok(
            (#[trigger] manifest.mount_points@[i]).spec_path(),
        )
}

/// Plans a deployment. Succeeds exactly when no descriptor exists yet and
/// every declared mount path is safe; a repeated `deploy` on the same
/// workspace therefore fails. On success the descriptor lists one fresh
/// volume per mount point, and the result reports the public volumes, an
/// empty validity message and the blocking start mode.
pub fn deploy(manifest: &Manifest, image_path: &str, descriptor_exists: bool) -> (r: Result<
    (DeployFile, DeployResult),
    Error,
>)
    ensures
        r is Ok <==> (!descriptor_exists && all_mounts_ok(manifest)),
        r matches Err(e) ==> (if descriptor_exists {
            e is PackageInvalid
        } else {
            e is PathUnsafe
        }),
        r matches Ok(p) ==> {
            &&& p.0.image_path@ == image_path@
            &&& p.0.vols@.len() == manifest.mount_points@.len()
            &&& (forall|i: int|
                0 <= i < p.0.vols@.len() ==> (#[trigger] p.0.vols@[i]).0
                    == manifest.mount_points@[i].spec_is_private() && p.0.vols@[i].1.path@
                    == abs_path_of(manifest.mount_points@[i].spec_path()) && is_vol_name(
                    p.0.vols@[i].1.name@,
                ))
            &&& (p.1.valid matches Ok(m) && m@ == Seq::<char>::empty())
            &&& cv_views(p.1.vols@) == public_views(p.0.vols@)
            &&& p.1.start_mode == StartMode::Blocking
        },
{
    if descriptor_exists {
        return Err(Error::PackageInvalid(String::from_str(
            "deploy.json already exists in the workspace",
        )));
    }
    let mut i: usize = 0;
    while i < manifest.mount_points.len()
        invariant
            !descriptor_exists,
            i <= manifest.mount_points@.len(),
            forall|j: int|
                0 <= j < i ==> mount_path_ok((#[trigger] manifest.mount_points@[j]).spec_path()),
        decreases manifest.mount_points@.len() - i,
    {
        match validate_mount_path(manifest.mount_points[i].path().as_str()) {
            Ok(_) => {},
            Err(e) => {
                return Err(e);
            },
        }
        i = i + 1;
    }
    let file = DeployFile::for_image(manifest, image_path);
    let vols = file.public_vols();
    let result = DeployResult {
        valid: Ok(String::new()),
        vols,
        start_mode: StartMode::Blocking,
    };
    Ok((file, result))
}

} // verus!
