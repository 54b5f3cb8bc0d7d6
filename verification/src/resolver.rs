//! Startup path resolution.
//!
//! A user-supplied candidate path may be empty, absolute, or relative. An
//! empty candidate is a definitive failure. An absolute candidate is taken
//! as given. A relative candidate is joined onto the working directory; if
//! the joined path does not refer to an existing entry, the join is retried
//! from each ancestor of the working directory, up to four levels in all,
//! because the process may have been started from a directory nested below
//! the one the user had in mind. When no level succeeds, the plain join of
//! working directory and candidate is returned so that the later existence
//! check reports a path the user recognizes.

use vstd::prelude::*;

use crate::path::FilePath;

verus! {

/// How many directory levels the ancestor walk covers, the working
/// directory itself included.
pub const ANCESTOR_SEARCH_LEVELS: u64 = 4;

/// A definitive startup failure of path resolution.
#[derive(Debug)]
pub enum PathError {
    /// No candidate path was supplied at all.
    NoPathProvided,
    /// The resolved path, carried here for the error report, refers to no
    /// existing filesystem entry.
    FileNotFound(FilePath),
}

/// Relies on `std::path::Path::canonicalize`: returns the canonical,
/// absolute form of the path when it refers to an existing filesystem
/// entry, and an error otherwise. The outcome depends on the state of the
/// disk, so nothing is promised about which case occurs; a successful
/// result is promised to be absolute, as the documentation states.
#[verifier::external_body]
fn canonicalize_probe(candidate: &FilePath) -> (r: Option<FilePath>)
    ensures
        r matches Some(p) ==> p@.absolute,
{
    let mut buf = std::path::PathBuf::from(if candidate.absolute { "/" } else { "" });
    for c in candidate.components.iter() {
        buf.push(c);
    }
    let canon = match buf.canonicalize() {
        Ok(p) => p,
        Err(_) => return None,
    };
    let mut comps: Vec<String> = Vec::new();
    for part in canon.components() {
        if let std::path::Component::Normal(os) = part {
            comps.push(os.to_string_lossy().into_owned());
        }
    }
    Some(FilePath { absolute: true, components: comps })
}

/// Relies on `std::path::Path::exists`: whether the path refers to an
/// existing filesystem entry. The outcome depends on the state of the disk,
/// so nothing is promised of it.
#[verifier::external_body]
fn probe_exists(path: &FilePath) -> bool {
    let mut buf = std::path::PathBuf::from(if path.absolute { "/" } else { "" });
    for c in path.components.iter() {
        buf.push(c);
    }
    buf.exists()
}

/// Resolution of a relative candidate against an already answered sequence
/// of existence probes: `answers[k]` is the outcome of probing the join of
/// the `k`-th ancestor of the working directory with the candidate. The
/// first successful probe wins; when every probe failed, the plain join of
/// `base` and `relative` is returned unchanged.
pub fn resolve_from_answers(base: &FilePath, relative: &FilePath, answers: &Vec<Option<FilePath>>) -> (r:
    FilePath)
    requires
        !relative@.absolute,
    ensures
        (forall|k: int| 0 <= k < answers@.len() ==> answers@[k] is None) ==> r@ == base@.join(
            relative@,
        ),
        forall|j: int|
            #![trigger answers@[j]]
            (0 <= j < answers@.len() && answers@[j] is Some && (forall|k: int|
                0 <= k < j ==> answers@[k] is None)) ==> r@ == answers@[j]->0@,
        r@ == base@.join(relative@) || (exists|j: int|
            0 <= j < answers@.len() && (#[trigger] answers@[j]) is Some && r@ == answers@[j]->0@),
{
    let n: usize = answers.len();
    for i in 0..n
        invariant
            n == answers@.len(),
            forall|k: int| 0 <= k < i ==> answers@[k] is None,
    {
        match &answers[i] {
            Some(hit) => {
                return hit.duplicate();
            },
            None => {},
        }
    }
    base.join(relative)
}

/// The ancestor walk of the Path Resolver. Starting at `base`, joins
/// `relative` onto the current directory and probes the filesystem; it then
/// steps up one directory and repeats, covering at most
/// [`ANCESTOR_SEARCH_LEVELS`] directories, the filesystem root included at
/// most once. The probes are read-only, so every level is probed and the
/// collected answers are handed to [`resolve_from_answers`], whose contract
/// fixes the decision exactly: the first successful probe's canonical path
/// wins; when none succeeds, the plain join of `base` and `relative` is
/// returned so that error output shows a recognizable path. Which case
/// occurs depends on the disk, so this function's own contract promises
/// only the shape of the result.
pub fn resolve_relative_path(base: &FilePath, relative: &FilePath) -> (r: FilePath)
    requires
        !relative@.absolute,
    ensures
        r@ == base@.join(relative@) || r@.absolute,
        base@.absolute ==> r@.absolute,
{
    let mut answers: Vec<Option<FilePath>> = Vec::new();
    let mut dir: FilePath = base.duplicate();
    let mut level: u64 = 0;
    while level < ANCESTOR_SEARCH_LEVELS
        invariant
            !relative@.absolute,
            forall|k: int|
                0 <= k < answers@.len() ==> ((#[trigger] answers@[k]) matches Some(p)
                    ==> p@.absolute),
        decreases ANCESTOR_SEARCH_LEVELS - level,
    {
        let candidate = dir.join(relative);
        answers.push(canonicalize_probe(&candidate));
        if !dir.pop() {
            break ;
        }
        level = level + 1;
    }
    let r = resolve_from_answers(base, relative, &answers);
    proof {
        if r@ != base@.join(relative@) {
            let j = choose|j: int|
                0 <= j < answers@.len() && (#[trigger] answers@[j]) is Some && r@
                    == answers@[j]->0@;
            assert(answers@[j] is Some);
        }
    }
    r
}

/// The Path Resolver's decision on a raw candidate: an empty candidate is
/// a definitive failure, an absolute candidate is used as given, and a
/// relative candidate goes through the ancestor walk. Existence of the
/// result is not checked here.
pub fn resolve_candidate(cwd: &FilePath, candidate: FilePath) -> (r: Result<FilePath, PathError>)
    ensures
        match r {
            Ok(p) => !candidate@.is_empty() && (candidate@.absolute ==> p@ == candidate@) && (
            !candidate@.absolute ==> (p@ == cwd@.join(candidate@) || p@.absolute) && (cwd@.absolute
                ==> p@.absolute)),
            Err(e) => candidate@.is_empty() && e is NoPathProvided,
        },
{
    if candidate.is_empty() {
        Err(PathError::NoPathProvided)
    } else if candidate.is_absolute() {
        Ok(candidate)
    } else {
        Ok(resolve_relative_path(cwd, &candidate))
    }
}

/// The explicit existence gate the caller of resolution must apply: given
/// whether the resolved path is present on disk, either passes the path
/// through or reports it as not found.
pub fn validate_existence(path: FilePath, present: bool) -> (r: Result<FilePath, PathError>)
    ensures
        present ==> (r matches Ok(p) && p@ == path@),
        !present ==> (r matches Err(e) && e matches PathError::FileNotFound(q) && q@ == path@),
{
    if present {
        Ok(path)
    } else {
        Err(PathError::FileNotFound(path))
    }
}

/// Probes the filesystem for the resolved path and applies the existence
/// gate. Whether the probe succeeds depends on the disk, so the contract
/// promises only that the returned path — passed through or reported as
/// not found — is the given one, unchanged.
pub fn require_existing(path: FilePath) -> (r: Result<FilePath, PathError>)
    ensures
        r matches Ok(p) ==> p@ == path@,
        r matches Err(e) ==> e matches PathError::FileNotFound(q) && q@ == path@,
{
    let present = probe_exists(&path);
    validate_existence(path, present)
}

/// The whole startup pipeline of the Path Resolver: resolve the candidate,
/// then insist that the result exists. Exactly the empty candidate yields
/// `NoPathProvided`; an absent resolved path is reported as `FileNotFound`
/// carrying that resolved path. On both arms the carried path is the
/// resolution's result: the absolute candidate unchanged, or for a
/// relative candidate either its plain join onto the working directory or
/// an absolute ancestor-walk hit.
pub fn resolve_startup_path(cwd: &FilePath, candidate: FilePath) -> (r: Result<FilePath, PathError>)
    ensures
        match r {
            Ok(p) => !candidate@.is_empty() && (candidate@.absolute ==> p@ == candidate@) && (
            !candidate@.absolute ==> (p@ == cwd@.join(candidate@) || p@.absolute) && (cwd@.absolute
                ==> p@.absolute)),
            Err(e) => match e {
                PathError::NoPathProvided => candidate@.is_empty(),
                PathError::FileNotFound(p) => !candidate@.is_empty() && (candidate@.absolute
                    ==> p@ == candidate@) && (!candidate@.absolute ==> (p@ == cwd@.join(candidate@)
                    || p@.absolute) && (cwd@.absolute ==> p@.absolute)),
            },
        },
{
    match resolve_candidate(cwd, candidate) {
        Ok(resolved) => require_existing(resolved),
        Err(e) => Err(e),
    }
}

} // verus!

