//! The virtual-filesystem mediator of the host-ABI flavour: the
//! file-descriptor allocator and guest-path resolution against the
//! deployment's volume table.
//!
//! The open host files themselves live outside the library, keyed by the
//! descriptors issued here.

use vstd::prelude::*;
use vstd::seq_lib::seq_to_set_is_finite;

use crate::deploy::ContainerVolume;
use crate::error::Error;

verus! {

/// The lowest descriptor the allocator issues.
pub const MIN_FD: i32 = 256;

/// Descriptors wrap within 28 bits.
pub const FD_LIMIT: i32 = 0x1000_0000;

/// The table refuses new descriptors once it holds more than this many.
pub const MAX_FDS: usize = 4096;

/// The candidate the allocator probes `k` steps after `start`: the ids
/// advance by one and wrap from the 28-bit limit back to `MIN_FD`.
pub open spec fn fd_candidate(start: int, k: int) -> int {
    if start + k < FD_LIMIT {
        start + k
    } else {
        start + k - FD_LIMIT + MIN_FD
    }
}

/// The file-descriptor allocator: the set of issued descriptors and the
/// next id to probe.
pub struct FdState {
    pub fds: Vec<i32>,
    pub next_fd: i32,
}

impl FdState {
    /// Every issued descriptor is in range and issued at most once, and
    /// the probe position is in range.
    pub open spec fn wf(&self) -> bool {
        &&& MIN_FD <= self.next_fd < FD_LIMIT
        &&& self.fds@.no_duplicates()
        &&& forall|i: int| 0 <= i < self.fds@.len() ==> MIN_FD <= #[trigger] self.fds@[i] < FD_LIMIT
    }

    /// A fresh table with no descriptor issued.
    pub fn new() -> (r: Self)
        ensures
            r.wf(),
            r.fds@.len() == 0,
    {
        FdState { fds: Vec::new(), next_fd: MIN_FD }
    }

    /// Whether a descriptor is currently issued.
    pub fn contains_fd(&self, fd: i32) -> (r: bool)
        ensures
            r == self.fds@.contains(fd),
    {
        let mut i: usize = 0;
        while i < self.fds.len()
            invariant
                i <= self.fds@.len(),
                forall|j: int| 0 <= j < i ==> #[trigger] self.fds@[j] != fd,
            decreases self.fds@.len() - i,
        {
            if self.fds[i] == fd {
                return true;
            }
            i = i + 1;
        }
        false
    }

    /// Issues a fresh descriptor, or `-1` once the table holds more than
    /// `MAX_FDS` descriptors. An issued descriptor is at least `MIN_FD`
    /// and is never a duplicate of one still in the table.
    pub fn add_fd(&mut self) -> (r: i32)
        requires
            old(self).wf(),
        ensures
            final(self).wf(),
            old(self).fds@.len() > MAX_FDS ==> r == -1 && final(self).fds@ == old(self).fds@,
            old(self).fds@.len() <= MAX_FDS ==> {
                &&& MIN_FD <= r < FD_LIMIT
                &&& !old(self).fds@.contains(r)
                &&& final(self).fds@ == old(self).fds@.push(r)
            },
    {
        if self.fds.len() > MAX_FDS {
            return -1;
        }
        let ghost start = self.next_fd as int;
        let ghost orig = self.fds@;
        let mut k: usize = 0;
        while k < MAX_FDS + 1
            invariant
                self.wf(),
                self.fds@ == orig,
                orig == old(self).fds@,
                orig.len() <= MAX_FDS,
                MIN_FD <= start < FD_LIMIT,
                k <= MAX_FDS + 1,
                self.next_fd == fd_candidate(start, k as int),
                forall|j: int| 0 <= j < k ==> orig.contains(fd_candidate(start, j) as i32),
            decreases MAX_FDS + 1 - k,
        {
            let ifd: i32 = self.next_fd;
            let mut nxt: i32 = ifd + 1;
            if nxt == FD_LIMIT {
                nxt = MIN_FD;
            }
            self.next_fd = nxt;
            if !self.contains_fd(ifd) {
                self.fds.push(ifd);
                proof {
                    assert(self.fds@.no_duplicates()) by {
                        assert(forall|j: int|
                            0 <= j < orig.len() ==> #[trigger] self.fds@[j] == orig[j]);
                    }
                }
                return ifd;
            }
            k = k + 1;
        }
        proof {
            broadcast use seq_to_set_is_finite;

            let cands = Seq::new((MAX_FDS + 1) as nat, |j: int| fd_candidate(start, j) as i32);
            assert forall|i: int, j: int|
                0 <= i < cands.len() && 0 <= j < cands.len() && i != j implies cands[i]
                != cands[j] by {
                if start + i < FD_LIMIT && start + j < FD_LIMIT {
                } else if start + i >= FD_LIMIT && start + j >= FD_LIMIT {
                } else {
                    assert(fd_candidate(start, i) != fd_candidate(start, j));
                }
            }
            assert(cands.no_duplicates());
            cands.unique_seq_to_set();
            orig.lemma_cardinality_of_set();
            assert forall|x: i32| cands.to_set().contains(x) implies orig.to_set().contains(
                x,
            ) by {
                let j = choose|j: int| 0 <= j < cands.len() && cands[j] == x;
                assert(orig.contains(fd_candidate(start, j) as i32));
            }
            vstd::set_lib::lemma_len_subset(cands.to_set(), orig.to_set());
            assert(false);
        }
        -1
    }

    /// Withdraws a descriptor; reports whether it was issued. Every other
    /// descriptor stays issued.
    pub fn remove_fd(&mut self, fd: i32) -> (r: bool)
        requires
            old(self).wf(),
        ensures
            final(self).wf(),
            r == old(self).fds@.contains(fd),
            forall|x: i32|
                final(self).fds@.contains(x) <==> (old(self).fds@.contains(x) && x != fd),
            final(self).next_fd == old(self).next_fd,
    {
        let ghost orig = self.fds@;
        let mut out: Vec<i32> = Vec::new();
        let mut found = false;
        let mut i: usize = 0;
        while i < self.fds.len()
            invariant
                i <= self.fds@.len(),
                self.fds@ == orig,
                self.next_fd == old(self).next_fd,
                orig == old(self).fds@,
                self.wf(),
                found == exists|j: int| 0 <= j < i && #[trigger] orig[j] == fd,
                out@.no_duplicates(),
                forall|j: int| 0 <= j < out@.len() ==> MIN_FD <= #[trigger] out@[j] < FD_LIMIT,
                forall|j: int|
                    0 <= j < out@.len() ==> orig.take(i as int).contains(#[trigger] out@[j])
                        && out@[j] != fd,
                forall|j: int|
                    0 <= j < i ==> ((#[trigger] orig[j]) == fd || out@.contains(orig[j])),
            decreases self.fds@.len() - i,
        {
            let v = self.fds[i];
            let ghost out_pre = out@;
            if v == fd {
                found = true;
            } else {
                proof {
                    if out@.contains(v) {
                        let j = choose|j: int| 0 <= j < out@.len() && #[trigger] out@[j] == v;
                        let m = choose|m: int|
                            0 <= m < orig.take(i as int).len() && #[trigger] orig.take(
                                i as int,
                            )[m] == v;
                        assert(orig.take(i as int)[m] == orig[m]);
                        assert(orig[i as int] == v);
                        assert(false);
                    }
                }
                out.push(v);
            }
            i = i + 1;
            proof {
                let ghost prev = i - 1;
                assert forall|j: int|
                    0 <= j < out@.len() implies orig.take(i as int).contains(#[trigger] out@[j])
                        && out@[j] != fd by {
                    if j < out_pre.len() {
                        assert(out@[j] == out_pre[j]);
                        assert(orig.take(prev).contains(out_pre[j]));
                        let m = choose|m: int|
                            0 <= m < prev && #[trigger] orig.take(prev)[m] == out_pre[j];
                        assert(orig.take(i as int)[m] == out@[j]);
                    } else {
                        assert(out@[j] == v);
                        assert(orig.take(i as int)[prev] == v);
                    }
                }
                assert forall|j: int|
                    0 <= j < i implies ((#[trigger] orig[j]) == fd || out@.contains(orig[j])) by {
                    if j < prev && orig[j] != fd {
                        let m = choose|m: int|
                            0 <= m < out_pre.len() && #[trigger] out_pre[m] == orig[j];
                        assert(out@[m] == orig[j]);
                    } else if j == prev && orig[j] != fd {
                        assert(out@[out@.len() - 1] == v);
                    }
                }
            }
        }
        proof {
            assert(orig.take(orig.len() as int) =~= orig);
            assert forall|x: i32|
                out@.contains(x) implies (orig.contains(x) && x != fd) by {
                let j = choose|j: int| 0 <= j < out@.len() && #[trigger] out@[j] == x;
            }
            assert forall|x: i32| orig.contains(x) && x != fd implies out@.contains(x) by {
                let j = choose|j: int| 0 <= j < orig.len() && #[trigger] orig[j] == x;
            }
            if found {
                assert(orig.contains(fd)) by {
                    let j = choose|j: int| 0 <= j < orig.len() && #[trigger] orig[j] == fd;
                }
            }
            if orig.contains(fd) {
                let j = choose|j: int| 0 <= j < orig.len() && #[trigger] orig[j] == fd;
            }
        }
        self.fds = out;
        found
    }
}

/// Whether a guest path holds a character the mediator refuses: any `.`
/// (which could form an escaping segment) or `:` (a drive-like prefix
/// leaked through a guest string).
pub open spec fn bad_vfs_char(s: Seq<char>) -> bool {
    exists|i: int| 0 <= i < s.len() && ((#[trigger] s[i]) == '.' || s[i] == ':')
}

/// Whether a volume's guest path is a prefix of the guest path.
pub open spec fn vol_matches(vol_path: Seq<char>, path: Seq<char>) -> bool {
    path.len() >= vol_path.len() && path.take(vol_path.len() as int) == vol_path
}

/// The host path a match resolves to: the volume's directory under the
/// base directory, then the remainder of the guest path.
pub open spec fn resolved_path(
    base: Seq<char>,
    vol_name: Seq<char>,
    vol_path: Seq<char>,
    path: Seq<char>,
) -> Seq<char> {
    base + seq!['/'] + vol_name + seq!['/'] + path.skip(vol_path.len() as int)
}

/// The volume table a deployment binds the guest's filesystem to.
pub struct VolumeTable {
    pub base_dir: String,
    pub vols: Vec<ContainerVolume>,
}

impl VolumeTable {
    /// Every volume path ends with `/`, as the deploy engine normalises
    /// them; resolution relies on it.
    pub open spec fn wf(&self) -> bool {
        forall|i: int|
            0 <= i < self.vols@.len() ==> ((#[trigger] self.vols@[i])@.1.len() > 0 && self.vols@[i]@.1[self.vols@[i]@.1.len()
                - 1] == '/')
    }

    /// Resolves a guest path against the volume table: rejects paths with
    /// `.` or `:`, returns the host path under the first matching volume,
    /// and `None` when no volume matches.
    pub fn find_path(&self, path: &str) -> (r: Result<Option<String>, Error>)
        requires
            self.wf(),
        ensures
            r is Err <==> bad_vfs_char(path@),
            r matches Err(e) ==> e is PathUnsafe,
            r matches Ok(o) ==> {
                &&& (o is Some <==> exists|i: int|
                    0 <= i < self.vols@.len() && vol_matches((#[trigger] self.vols@[i])@.1, path@))
                &&& (o matches Some(host) ==> exists|i: int|
                    {
                        &&& 0 <= i < self.vols@.len()
                        &&& vol_matches((#[trigger] self.vols@[i])@.1, path@)
                        &&& (forall|j: int|
                            0 <= j < i ==> !vol_matches((#[trigger] self.vols@[j])@.1, path@))
                        &&& host@ == resolved_path(
                            self.base_dir@,
                            self.vols@[i]@.0,
                            self.vols@[i]@.1,
                            path@,
                        )
                    })
            },
    {
        let n = path.unicode_len();
        let mut i: usize = 0;
        while i < n
            invariant
                n == path@.len(),
                i <= n,
                forall|j: int| 0 <= j < i ==> !((#[trigger] path@[j]) == '.' || path@[j] == ':'),
            decreases n - i,
        {
            let c = path.get_char(i);
            if c == '.' || c == ':' {
                return Err(Error::PathUnsafe(String::from_str("invalid path char")));
            }
            i = i + 1;
        }
        let mut v: usize = 0;
        while v < self.vols.len()
            invariant
                n == path@.len(),
                !bad_vfs_char(path@),
                self.wf(),
                v <= self.vols@.len(),
                forall|j: int| 0 <= j < v ==> !vol_matches((#[trigger] self.vols@[j])@.1, path@),
            decreases self.vols@.len() - v,
        {
            let vol = &self.vols[v];
            let vl = vol.path.as_str().unicode_len();
            if vl <= n {
                let mut p: usize = 0;
                let mut matches = true;
                while p < vl
                    invariant
                        n == path@.len(),
                        vl == vol.path@.len(),
                        vl <= n,
                        p <= vl,
                        vol == &self.vols@[v as int],
                        v < self.vols@.len(),
                        matches == (forall|q: int| 0 <= q < p ==> path@[q] == vol.path@[q]),
                    decreases vl - p,
                {
                    if path.get_char(p) != vol.path.as_str().get_char(p) {
                        matches = false;
                    }
                    p = p + 1;
                }
                if matches {
                    proof {
                        assert(path@.take(vl as int) =~= vol.path@);
                    }
                    let tail = path.substring_char(vl, n);
                    let mut host = String::from_str(self.base_dir.as_str());
                    crate::strutil::push_char(&mut host, '/');
                    host.append(vol.name.as_str());
                    crate::strutil::push_char(&mut host, '/');
                    host.append(tail);
                    proof {
                        assert(host@ =~= resolved_path(
                            self.base_dir@,
                            self.vols@[v as int]@.0,
                            self.vols@[v as int]@.1,
                            path@,
                        ));
                    }
                    return Ok(Some(host));
                }
                proof {
                    assert(!vol_matches(self.vols@[v as int]@.1, path@)) by {
                        if vol_matches(self.vols@[v as int]@.1, path@) {
                            let q = choose|q: int|
                                0 <= q < vl && path@[q] != vol.path@[q];
                            assert(path@.take(vl as int)[q] == path@[q]);
                        }
                    }
                }
            } else {
                proof {
                    assert(!vol_matches(self.vols@[v as int]@.1, path@));
                }
            }
            v = v + 1;
        }
        Ok(None)
    }
}

} // verus!
