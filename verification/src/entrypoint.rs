//! Runtime configuration, the guest-path validator, and the helpers the
//! lifecycle commands share.
//!
//! Paths are handled as plain unix-style strings: segments are the maximal
//! runs between `/` separators, and no normalisation is performed.

use vstd::prelude::*;

use crate::error::Error;

verus! {

/// Whether a segment starts at position `i`.
pub open spec fn seg_start(s: Seq<char>, i: int) -> bool {
    i == 0 || s[i - 1] == '/'
}

/// Whether a segment ends just before position `i`.
pub open spec fn seg_end(s: Seq<char>, i: int) -> bool {
    i == s.len() || s[i] == '/'
}

/// Whether the path contains a `.` segment.
pub open spec fn has_cur_dir_seg(s: Seq<char>) -> bool {
    exists|i: int|
        0 <= i < s.len() && #[trigger] s[i] == '.' && seg_start(s, i) && seg_end(s, i + 1)
}

/// Whether the path contains a `..` segment.
pub open spec fn has_parent_dir_seg(s: Seq<char>) -> bool {
    exists|i: int|
        0 <= i && i + 2 <= s.len() && #[trigger] s[i] == '.' && s[i + 1] == '.' && seg_start(s, i)
            && seg_end(s, i + 2)
}

/// Whether the path contains a drive-like `:` character anywhere.
pub open spec fn has_drive_char(s: Seq<char>) -> bool {
    exists|i: int| 0 <= i < s.len() && #[trigger] s[i] == ':'
}

/// A guest path is acceptable when it has no `.` segment, no `..` segment
/// and no drive-like character. Absolute paths are acceptable here: the
/// volume paths a deployment presents to the guest all start with `/`.
pub open spec fn mount_path_ok(s: Seq<char>) -> bool {
    !has_cur_dir_seg(s) && !has_parent_dir_seg(s) && !has_drive_char(s)
}

/// Rejects guest paths that could escape the mount root: any path with a
/// `.` or `..` segment or a drive-like character.
pub fn validate_mount_path(path: &str) -> (r: Result<(), Error>)
    ensures
        r is Ok <==> mount_path_ok(path@),
        r matches Err(e) ==> e is PathUnsafe,
{
    let n = path.unicode_len();
    let mut i: usize = 0;
    while i < n
        invariant
            n == path@.len(),
            i <= n,
            forall|j: int| 0 <= j < i ==> #[trigger] path@[j] != ':',
            forall|j: int|
                0 <= j < i ==> !(#[trigger] path@[j] == '.' && seg_start(path@, j) && seg_end(
                    path@,
                    j + 1,
                )),
            forall|j: int|
                0 <= j < i ==> !(#[trigger] path@[j] == '.' && j + 2 <= n && path@[j + 1] == '.'
                    && seg_start(path@, j) && seg_end(path@, j + 2)),
        decreases n - i,
    {
        let c = path.get_char(i);
        if c == ':' {
            return Err(Error::PathUnsafe(String::from_str(
                "path contains a drive-like character",
            )));
        }
        if c == '.' && (i == 0 || path.get_char(i - 1) == '/') {
            if i + 1 == n || path.get_char(i + 1) == '/' {
                return Err(Error::PathUnsafe(String::from_str(
                    "path contains an illegal '.' component",
                )));
            }
            if path.get_char(i + 1) == '.' && (i + 2 == n || path.get_char(i + 2) == '/') {
                return Err(Error::PathUnsafe(String::from_str(
                    "path contains an illegal '..' component",
                )));
            }
        }
        i = i + 1;
    }
    Ok(())
}

/// Runtime configuration of the WASI executor. Every field left `None`
/// keeps the engine's default configuration.
#[derive(Debug)]
pub struct RuntimeOptions {
    /// Maximum size, in bytes, at which a linear memory is still static.
    pub max_static_memory: Option<u64>,
    /// `true` optimises for speed, `false` switches optimisation off.
    pub optimize: Option<bool>,
    /// Enables the SGX-profiled engine configuration.
    pub sgx_profile: Option<bool>,
}

impl Clone for RuntimeOptions {
    fn clone(&self) -> (r: Self)
        ensures
            r == *self,
    {
        RuntimeOptions {
            max_static_memory: self.max_static_memory,
            optimize: self.optimize,
            sgx_profile: self.sgx_profile,
        }
    }
}

impl Default for RuntimeOptions {
    fn default() -> (r: Self)
        ensures
            r.max_static_memory is None,
            r.optimize is None,
            r.sgx_profile is None,
    {
        RuntimeOptions { max_static_memory: None, optimize: None, sgx_profile: None }
    }
}

impl RuntimeOptions {
    /// Configures the maximum size, in bytes, where a linear memory is
    /// considered static, above which it is considered dynamic.
    pub fn with_static_memory(self, max_memory: Option<u64>) -> (r: Self)
        ensures
            r.max_static_memory == max_memory,
            r.optimize == self.optimize,
            r.sgx_profile == self.sgx_profile,
    {
        RuntimeOptions { max_static_memory: max_memory, ..self }
    }

    /// Changes the default optimisation level: `true` optimises for
    /// speed, `false` switches optimisation off.
    pub fn with_optimize(self, optimize: bool) -> (r: Self)
        ensures
            r.optimize == Some(optimize),
            r.max_static_memory == self.max_static_memory,
            r.sgx_profile == self.sgx_profile,
    {
        RuntimeOptions { optimize: Some(optimize), ..self }
    }

    /// Enables or disables the SGX-profiled configuration.
    pub fn with_sgx_profile(self, sgx_profile: bool) -> (r: Self)
        ensures
            r.sgx_profile == Some(sgx_profile),
            r.max_static_memory == self.max_static_memory,
            r.optimize == self.optimize,
    {
        RuntimeOptions { sgx_profile: Some(sgx_profile), ..self }
    }

    /// Whether every option keeps its default; only then may the executor
    /// use the engine's default configuration.
    pub fn is_default(&self) -> (r: bool)
        ensures
            r == (self.max_static_memory is None && self.optimize is None
                && self.sgx_profile is None),
    {
        self.max_static_memory.is_none() && self.optimize.is_none() && self.sgx_profile.is_none()
    }
}

/// Whether a character is a decimal digit.
pub open spec fn is_digit(c: char) -> bool {
    '0' <= c && c <= '9'
}

/// The value of a decimal digit.
pub open spec fn digit_val(c: char) -> int {
    c as u32 - '0' as u32
}

/// The value of a decimal digit string.
pub open spec fn dec_val(s: Seq<char>) -> int
    decreases s.len(),
{
    if s.len() == 0 {
        0
    } else {
        dec_val(s.drop_last()) * 10 + digit_val(s.last())
    }
}

/// A digit string's value never shrinks as the string grows to the right.
pub(crate) proof fn lemma_dec_val_grows(s: Seq<char>, i: int)
    requires
        0 <= i <= s.len(),
        forall|j: int| 0 <= j < s.len() ==> is_digit(#[trigger] s[j]),
    ensures
        dec_val(s.take(i)) <= dec_val(s),
        dec_val(s) >= 0,
    decreases s.len(),
{
    if s.len() == 0 {
    } else {
        lemma_dec_val_grows(s.drop_last(), if i < s.len() { i } else { s.len() - 1 });
        assert(s.drop_last() =~= s.take(s.len() - 1));
        if i < s.len() {
            assert(s.take(i) =~= s.drop_last().take(i));
        } else {
            assert(s.take(i) =~= s);
        }
    }
}

/// The byte multiplier a size suffix selects; zero marks an unknown
/// suffix.
pub open spec fn mem_scale(c: char) -> int {
    if c == 'k' {
        0x400
    } else if c == 'm' {
        0x100_000
    } else if c == 'g' {
        0x40_000_000
    } else {
        0
    }
}

/// Whether a memory-size string is well formed: one or more digits, a
/// `k`, `m` or `g` suffix, and a byte value that fits in 64 bits.
pub open spec fn mem_size_ok(s: Seq<char>) -> bool {
    s.len() >= 2 && mem_scale(s.last()) != 0 && (forall|i: int|
        0 <= i < s.len() - 1 ==> is_digit(#[trigger] s[i])) && dec_val(s.take(s.len() - 1))
        * mem_scale(s.last()) <= u64::MAX
}

/// The byte value a well-formed memory-size string denotes.
pub open spec fn mem_size_val(s: Seq<char>) -> int {
    dec_val(s.take(s.len() - 1)) * mem_scale(s.last())
}

/// Parses a memory-size string such as `250m`: a decimal number with a
/// `k`, `m` or `g` suffix. Fails exactly on malformed strings and on
/// values that do not fit in 64 bits.
pub fn parse_mem_size(s: &str) -> (r: Result<u64, Error>)
    ensures
        r is Ok <==> mem_size_ok(s@),
        r matches Ok(v) ==> v == mem_size_val(s@),
        r matches Err(e) ==> e is ConfigInvalid,
{
    let n = s.unicode_len();
    if n < 2 {
        return Err(Error::ConfigInvalid(String::from_str("invalid max mem spec")));
    }
    let suffix = s.get_char(n - 1);
    let scale: u64 = if suffix == 'k' {
        0x400
    } else if suffix == 'm' {
        0x100_000
    } else if suffix == 'g' {
        0x40_000_000
    } else {
        return Err(Error::ConfigInvalid(String::from_str("invalid max mem spec")));
    };
    assert(scale == mem_scale(s@.last()));
    let limit: u64 = u64::MAX / scale;
    proof {
        assert(limit * scale <= u64::MAX) by (nonlinear_arith)
            requires
                limit == u64::MAX as int / scale as int,
                scale > 0,
        ;
    }
    let ghost digits = s@.take(n - 1);
    let mut acc: u64 = 0;
    let mut i: usize = 0;
    while i < n - 1
        invariant
            n == s@.len(),
            2 <= n,
            i <= n - 1,
            digits == s@.take(n - 1),
            scale == mem_scale(s@.last()),
            scale > 0,
            limit == u64::MAX as int / scale as int,
            limit * scale <= u64::MAX,
            forall|j: int| 0 <= j < i ==> is_digit(#[trigger] digits[j]),
            acc == dec_val(digits.take(i as int)),
            acc <= limit,
        decreases n - i,
    {
        let c = s.get_char(i);
        if !('0' <= c && c <= '9') {
            return Err(Error::ConfigInvalid(String::from_str("invalid max mem spec")));
        }
        let d: u64 = (c as u32 - '0' as u32) as u64;
        let wide: u128 = acc as u128 * 10 + d as u128;
        proof {
            assert(digits.take(i + 1).drop_last() =~= digits.take(i as int));
            assert(digits.take(i + 1).last() == digits[i as int]);
        }
        if wide > limit as u128 {
            proof {
                if forall|j: int| 0 <= j < digits.len() ==> is_digit(#[trigger] digits[j]) {
                    lemma_dec_val_grows(digits, i + 1);
                    assert(dec_val(digits) >= dec_val(digits.take(i + 1)));
                    assert((limit + 1) * scale > u64::MAX) by (nonlinear_arith)
                        requires
                            limit == u64::MAX as int / scale as int,
                            scale > 0,
                    ;
                    assert(dec_val(digits) * scale >= (limit + 1) * scale) by (nonlinear_arith)
                        requires
                            dec_val(digits) >= limit + 1,
                            scale > 0,
                    ;
                } else {
                    let j = choose|j: int| 0 <= j < digits.len() && !is_digit(#[trigger] digits[j]);
                    assert(digits[j] == s@[j]);
                    assert(!is_digit(s@[j]));
                }
            }
            return Err(Error::ConfigInvalid(String::from_str("invalid max mem spec")));
        }
        acc = wide as u64;
        i = i + 1;
    }
    proof {
        assert(digits.take(n - 1) =~= digits);
        assert forall|j: int| 0 <= j < s@.len() - 1 implies is_digit(#[trigger] s@[j]) by {
            assert(digits[j] == s@[j]);
        }
        assert(acc * scale <= limit * scale) by (nonlinear_arith)
            requires
                acc <= limit,
                scale > 0,
                0 <= acc,
        ;
    }
    Ok(acc * scale)
}

/// Parses an on-off flag: `1` or `yes` is `true`, `0` or `no` is `false`,
/// anything else is rejected.
pub fn parse_bool_flag(s: &str) -> (r: Result<bool, Error>)
    ensures
        r matches Ok(v) ==> (v == (s@ == "1"@ || s@ == "yes"@) && (s@ == "1"@ || s@ == "yes"@ || s@
            == "0"@ || s@ == "no"@)),
        r is Err <==> (s@ != "1"@ && s@ != "yes"@ && s@ != "0"@ && s@ != "no"@),
        r matches Err(e) ==> e is ConfigInvalid,
{
    if crate::manifest::str_eq(s, "1") || crate::manifest::str_eq(s, "yes") {
        Ok(true)
    } else if crate::manifest::str_eq(s, "0") || crate::manifest::str_eq(s, "no") {
        Ok(false)
    } else {
        Err(Error::ConfigInvalid(String::from_str("0|1|no|yes expected")))
    }
}

/// The tail of a path after its last separator; empty for an empty path
/// or one ending in a separator.
pub open spec fn file_name_of(p: Seq<char>) -> Seq<char>
    decreases p.len(),
{
    if p.len() == 0 {
        Seq::empty()
    } else if p.last() == '/' {
        Seq::empty()
    } else {
        file_name_of(p.drop_last()).push(p.last())
    }
}

/// A suffix that starts just after a separator (or at the start) and
/// holds no separator is the path's file name.
proof fn lemma_file_name_suffix(p: Seq<char>, k: int)
    requires
        0 <= k <= p.len(),
        k == 0 || p[k - 1] == '/',
        forall|j: int| k <= j < p.len() ==> #[trigger] p[j] != '/',
    ensures
        file_name_of(p) == p.skip(k),
    decreases p.len(),
{
    if p.len() == 0 {
        assert(file_name_of(p) =~= p.skip(k));
    } else if k == p.len() {
        if p.last() == '/' {
            assert(file_name_of(p) =~= p.skip(k));
        } else {
            assert(k == 0 || p[k - 1] == '/');
            if k == 0 {
                assert(p[k - 1 + 1] != '/') by {
                    assert(false);
                }
            }
            assert(p[k - 1] == '/');
            assert(p.last() != '/') by {
                assert(false);
            }
        }
    } else {
        assert(p.last() != '/');
        lemma_file_name_suffix(p.drop_last(), k);
        assert(file_name_of(p) == file_name_of(p.drop_last()).push(p.last()));
        assert(p.skip(k) =~= p.drop_last().skip(k).push(p.last()));
    }
}

/// The path shown in diagnostics: the remainder when `path` lies under
/// `workdir`, else its file name, else the empty path.
pub open spec fn log_path_of(workdir: Seq<char>, path: Seq<char>) -> Seq<char> {
    if path == workdir {
        Seq::empty()
    } else if path.len() > workdir.len() + 1 && path.take(workdir.len() as int) == workdir
        && path[workdir.len() as int] == '/' {
        path.skip(workdir.len() as int + 1)
    } else {
        file_name_of(path)
    }
}

/// Shortens a path for diagnostics, as `log_path_of` describes.
pub fn get_log_path(workdir: &str, path: &str) -> (r: String)
    ensures
        r@ == log_path_of(workdir@, path@),
{
    let nw = workdir.unicode_len();
    let np = path.unicode_len();
    if crate::manifest::str_eq(path, workdir) {
        return String::new();
    }
    if np > nw && np - nw > 1 && path.get_char(nw) == '/' {
        let mut is_prefix = true;
        let mut i: usize = 0;
        while i < nw
            invariant
                nw == workdir@.len(),
                np == path@.len(),
                np > nw + 1,
                i <= nw,
                is_prefix == (forall|j: int| 0 <= j < i ==> path@[j] == workdir@[j]),
            decreases nw - i,
        {
            if path.get_char(i) != workdir.get_char(i) {
                is_prefix = false;
            }
            i = i + 1;
        }
        if is_prefix {
            proof {
                assert(path@.take(nw as int) =~= workdir@);
            }
            let tail = path.substring_char(nw + 1, np);
            return String::from_str(tail);
        }
        proof {
            assert(path@.take(nw as int) != workdir@) by {
                if path@.take(nw as int) == workdir@ {
                    assert(forall|j: int|
                        0 <= j < nw ==> path@[j] == #[trigger] path@.take(nw as int)[j]);
                }
            }
        }
        return file_name_exec(path);
    }
    file_name_exec(path)
}

/// The executable form of `file_name_of`.
fn file_name_exec(path: &str) -> (r: String)
    ensures
        r@ == file_name_of(path@),
{
    let np = path.unicode_len();
    let mut k: usize = np;
    while k > 0 && path.get_char(k - 1) != '/'
        invariant
            np == path@.len(),
            k <= np,
            forall|j: int| k <= j < np ==> #[trigger] path@[j] != '/',
        decreases k,
    {
        k = k - 1;
    }
    proof {
        lemma_file_name_suffix(path@, k as int);
    }
    let tail = path.substring_char(k, np);
    String::from_str(tail)
}

} // verus!
