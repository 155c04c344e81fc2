//! Choosing how a batch run is launched and which build artifact it loads.
use vstd::prelude::*;

verus! {

/// How a submission's pricing code is run.
#[derive(Clone, Copy, Debug, PartialEq, Eq, Structural)]
pub enum Backend {
    /// A shared library loaded into the process.
    Native,
    /// A sandboxed bytecode object.
    Bpf,
}

/// What a run does: which backend, how many simulations of how many steps, and
/// how many workers (`None` lets the runner use the machine's parallelism).
#[derive(Debug)]
pub struct RunPlan {
    pub crate_path: String,
    pub backend: Backend,
    pub simulations: u32,
    pub steps: u32,
    pub n_workers: Option<usize>,
}

/// Plans a run of `simulations` simulations of `steps` steps over the submission
/// built in `crate_path`. A worker count of zero means "as many as the machine has".
pub fn run(crate_path: &str, simulations: u32, steps: u32, workers: usize, bpf: bool) -> (r: RunPlan)
    ensures
        r.crate_path@ == crate_path@,
        r.backend == (if bpf {
            Backend::Bpf
        } else {
            Backend::Native
        }),
        r.simulations == simulations,
        r.steps == steps,
        r.n_workers == (if workers == 0 {
            None
        } else {
            Some(workers)
        }),
{
    let n_workers = if workers == 0 {
        None
    } else {
        Some(workers)
    };
    let backend = if bpf {
        Backend::Bpf
    } else {
        Backend::Native
    };
    RunPlan { crate_path: crate_path.to_string(), backend, simulations, steps, n_workers }
}

/// `p` is a prefix of `s`.
pub open spec fn has_prefix(s: Seq<u8>, p: Seq<u8>) -> bool {
    p.len() <= s.len() && s.subrange(0, p.len() as int) == p
}

/// `p` is a suffix of `s`.
pub open spec fn has_suffix(s: Seq<u8>, p: Seq<u8>) -> bool {
    p.len() <= s.len() && s.subrange(s.len() - p.len(), s.len() as int) == p
}

/// The bytes `lib`.
pub open spec fn lib_prefix() -> Seq<u8> {
    seq![0x6cu8, 0x69u8, 0x62u8]
}

/// The bytes `.so`.
pub open spec fn so_suffix() -> Seq<u8> {
    seq![0x2eu8, 0x73u8, 0x6fu8]
}

/// The byte `.` followed by `ext`.
pub open spec fn dotted(ext: Seq<u8>) -> Seq<u8> {
    seq![0x2eu8] + ext
}

/// A file of this name is the build artifact for `backend`: a native library is
/// named `lib*.<ext>`, a bytecode object `*.so`.
pub open spec fn artifact_matches(backend: Backend, name: Seq<u8>, ext: Seq<u8>) -> bool {
    match backend {
        Backend::Native => has_prefix(name, lib_prefix()) && has_suffix(name, dotted(ext)),
        Backend::Bpf => has_suffix(name, so_suffix()),
    }
}

/// Whether `s` begins with `p`.
pub fn starts_with(s: &[u8], p: &[u8]) -> (r: bool)
    ensures
        r == has_prefix(s@, p@),
{
    if p.len() > s.len() {
        return false;
    }
    let mut i: usize = 0;
    while i < p.len()
        invariant
            p@.len() <= s@.len(),
            i <= p@.len(),
            forall|j: int| 0 <= j < i ==> s@[j] == p@[j],
        decreases p@.len() - i,
    {
        if s[i] != p[i] {
            assert(s@.subrange(0, p@.len() as int)[i as int] != p@[i as int]);
            return false;
        }
        i = i + 1;
    }
    assert(s@.subrange(0, p@.len() as int) =~= p@);
    true
}

/// Whether `s` ends with `p`.
pub fn ends_with(s: &[u8], p: &[u8]) -> (r: bool)
    ensures
        r == has_suffix(s@, p@),
{
    if p.len() > s.len() {
        return false;
    }
    let n: usize = s.len();
    let off: usize = n - p.len();
    let mut i: usize = 0;
    while i < p.len()
        invariant
            n == s@.len(),
            p@.len() <= s@.len(),
            off == s@.len() - p@.len(),
            i <= p@.len(),
            forall|j: int| 0 <= j < i ==> s@[off + j] == p@[j],
        decreases p@.len() - i,
    {
        if s[off + i] != p[i] {
            assert(s@.subrange(off as int, s@.len() as int)[i as int] != p@[i as int]);
            return false;
        }
        i = i + 1;
    }
    assert(s@.subrange(off as int, s@.len() as int) =~= p@);
    true
}

/// The byte `.` followed by `ext`.
fn dotted_exec(ext: &[u8]) -> (r: Vec<u8>)
    ensures
        r@ == dotted(ext@),
{
    let mut out: Vec<u8> = Vec::new();
    out.push(0x2eu8);
    let mut i: usize = 0;
    while i < ext.len()
        invariant
            i <= ext@.len(),
            out@ == seq![0x2eu8] + ext@.subrange(0, i as int),
        decreases ext@.len() - i,
    {
        out.push(ext[i]);
        assert(ext@.subrange(0, i + 1) =~= ext@.subrange(0, i as int).push(ext@[i as int]));
        i = i + 1;
    }
    assert(ext@.subrange(0, ext@.len() as int) =~= ext@);
    out
}

/// Whether a file named `name` is the build artifact for `backend`, where a native
/// library ends in `.` and `ext`.
pub fn is_artifact(backend: Backend, name: &[u8], ext: &[u8]) -> (r: bool)
    ensures
        r == artifact_matches(backend, name@, ext@),
{
    match backend {
        Backend::Native => {
            let lib: [u8; 3] = [0x6cu8, 0x69u8, 0x62u8];
            assert(lib@ =~= lib_prefix());
            let suffix = dotted_exec(ext);
            starts_with(name, lib.as_slice()) && ends_with(name, suffix.as_slice())
        },
        Backend::Bpf => {
            let so: [u8; 3] = [0x2eu8, 0x73u8, 0x6fu8];
            assert(so@ =~= so_suffix());
            ends_with(name, so.as_slice())
        },
    }
}

/// The position of the first of `names` that is the build artifact for `backend`,
/// or `None` when none is.
pub fn find_artifact(backend: Backend, names: &Vec<Vec<u8>>, ext: &[u8]) -> (r: Option<usize>)
    ensures
        r matches Some(i) ==> i < names@.len() && artifact_matches(backend, names@[i as int]@, ext@)
            && forall|j: int| 0 <= j < i ==> !artifact_matches(backend, names@[j]@, ext@),
        r is None ==> forall|j: int|
            0 <= j < names@.len() ==> !artifact_matches(backend, #[trigger] names@[j]@, ext@),
{
    let mut i: usize = 0;
    while i < names.len()
        invariant
            i <= names@.len(),
            forall|j: int| 0 <= j < i ==> !artifact_matches(backend, #[trigger] names@[j]@, ext@),
        decreases names@.len() - i,
    {
        if is_artifact(backend, names[i].as_slice(), ext) {
            return Some(i);
        }
        i = i + 1;
    }
    None
}

} // verus!
