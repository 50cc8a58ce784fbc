//! Status reconciliation: what the cache holds for each declared library,
//! compared with what the manifest asks for.
//!
//! Reading the cache and the repository is the caller's part; it hands the
//! observations over as a `CacheProbe`, and the decisions are made here.
use vstd::prelude::*;

use crate::commit::{commit_matches, commit_prefix, commit_prefix_of, lowered, lowered_id, matches_commit};
use crate::dependencies::Dependancies;
use crate::haxelib::{Haxelib, HaxelibType};
use crate::text::{copy_opt, join2};

verus! {

/// How a declared library stands in the cache.
#[derive(Debug, Clone, Copy, PartialEq, Eq, Structural)]
pub enum InstallType {
    /// Needs to be installed.
    Missing,
    /// Needs to be cloned.
    MissingGit,
    /// Installed, at another version or commit.
    Outdated,
    /// Installed as the manifest asks.
    AlreadyInstalled,
    /// A repository with local changes, possibly at the wrong commit too.
    Conflict,
    /// A registry library whose manifest entry names no version.
    NotLocked,
}

/// How one declared library stands.
#[derive(Debug)]
pub struct HaxelibStatus<'a> {
    pub lib: &'a Haxelib,
    pub install_type: InstallType,
    /// The version or ref the manifest asks for.
    pub wants: Option<String>,
    /// What the cache holds, possibly with the reason it does not match.
    pub installed: Option<String>,
}

impl<'a> HaxelibStatus<'a> {
    pub fn new(
        lib: &'a Haxelib,
        install_type: InstallType,
        wants: Option<String>,
        installed: Option<String>,
    ) -> (r: Self)
        ensures
            r.lib == lib,
            r.install_type == install_type,
            r.wants == wants,
            r.installed == installed,
    {
        HaxelibStatus { lib, install_type, wants, installed }
    }
}

/// What reading one marker file gave.
#[derive(Debug)]
pub enum MarkerRead {
    Absent,
    Unreadable,
    Contents(String),
}

/// What inspecting the library's working copy gave.
#[derive(Debug)]
pub enum RepoRead {
    /// The working copy was not looked at.
    Unopened,
    /// It could not be opened, or its head commit could not be read.
    Broken,
    Opened {
        /// The full identifier of the commit checked out.
        head: String,
        /// The full identifier of the commit that the declared ref names as a
        /// branch or tag, where it names one.
        ref_target: Option<String>,
        /// Tracked files are modified or changes are staged.
        dirty: bool,
    },
}

/// Everything the evaluation of one library reads from the cache.
#[derive(Debug)]
pub struct CacheProbe {
    /// `<cache>/<escaped name>/` exists.
    pub lib_dir_exists: bool,
    /// The `.dev` marker in that directory.
    pub dev_marker: MarkerRead,
    /// The `.current` marker in that directory.
    pub current_marker: MarkerRead,
    /// `<cache>/<escaped name>/git/` exists.
    pub git_dir_exists: bool,
    pub repo: RepoRead,
}

/// Why a library could not be evaluated.
#[derive(Debug, Clone, Copy, PartialEq, Eq, Structural)]
pub enum CheckError {
    /// A repository library without a ref in the manifest.
    MissingVcsRef,
    /// The working copy could not be opened or read.
    RepoUnavailable,
    /// The ref names no branch or tag and is no commit identifier.
    InvalidRef,
}

pub open spec fn opt_view(o: Option<String>) -> Option<Seq<char>> {
    match o {
        Some(s) => Some(s@),
        None => None,
    }
}

/// The marker that decides: `.dev` wherever it exists, else `.current`.
pub open spec fn chosen_marker(p: CacheProbe) -> MarkerRead {
    if p.dev_marker is Absent {
        p.current_marker
    } else {
        p.dev_marker
    }
}

/// The version (registry) or ref (repository) the manifest asks for.
pub open spec fn wants_of(lib: Haxelib) -> Option<Seq<char>> {
    match lib.haxelib_type {
        HaxelibType::Haxelib => opt_view(lib.version),
        HaxelibType::Git => opt_view(lib.vcs_ref),
        _ => None,
    }
}

/// The commit a declared ref stands for: the commit of the branch or tag it
/// names, else the ref read as an abbreviated identifier.
pub open spec fn target_of(vcs_ref: Seq<char>, ref_target: Option<String>) -> Option<Seq<char>> {
    match ref_target {
        Some(t) => Some(lowered_id(t@)),
        None => commit_prefix_of(vcs_ref),
    }
}

/// The status tag, the wanted descriptor and the installed descriptor of one evaluation.
pub type Assessment = (InstallType, Option<Seq<char>>, Option<Seq<char>>);

/// The assessment of a repository library whose working copy was read, from
/// whether its head is the wanted commit and whether it has local changes.
pub open spec fn repo_assessment(vcs_ref: Seq<char>, head: Seq<char>, wrong_commit: bool, dirty: bool) -> Assessment {
    if wrong_commit && dirty {
        (InstallType::Conflict, Some(vcs_ref), Some(head + " (wrong commit + local changes)"@))
    } else if wrong_commit {
        (InstallType::Outdated, Some(vcs_ref), Some(head + " (wrong commit)"@))
    } else if dirty {
        (InstallType::Conflict, Some(vcs_ref), Some(head + " (local changes)"@))
    } else {
        (InstallType::AlreadyInstalled, Some(vcs_ref), Some(vcs_ref))
    }
}

/// The evaluation of one declared library against what the cache shows.
pub open spec fn evaluation(lib: Haxelib, p: CacheProbe) -> Result<Assessment, CheckError> {
    if !p.lib_dir_exists {
        let tag = if lib.haxelib_type == HaxelibType::Git {
            InstallType::MissingGit
        } else {
            InstallType::Missing
        };
        Ok((tag, wants_of(lib), None))
    } else {
        match chosen_marker(p) {
            MarkerRead::Contents(m) => match lib.haxelib_type {
                HaxelibType::Haxelib => match lib.version {
                    None => Ok((InstallType::NotLocked, None, Some(m@))),
                    Some(v) => if v@ == m@ {
                        Ok((InstallType::AlreadyInstalled, Some(v@), Some(m@)))
                    } else {
                        Ok((InstallType::Outdated, Some(v@), Some(m@)))
                    },
                },
                HaxelibType::Git => if !p.git_dir_exists {
                    Ok((InstallType::MissingGit, wants_of(lib), None))
                } else {
                    match lib.vcs_ref {
                        None => Err(CheckError::MissingVcsRef),
                        Some(rf) => match p.repo {
                            RepoRead::Opened { head, ref_target, dirty } => match target_of(rf@, ref_target) {
                                Some(t) => Ok(repo_assessment(rf@, head@, !commit_matches(head@, t), dirty)),
                                None => Err(CheckError::InvalidRef),
                            },
                            _ => Err(CheckError::RepoUnavailable),
                        },
                    }
                },
                _ => Ok((InstallType::AlreadyInstalled, wants_of(lib), Some(m@))),
            },
            _ => Ok((InstallType::Missing, wants_of(lib), None)),
        }
    }
}

/// A status carries the given assessment.
pub open spec fn shows(s: HaxelibStatus, v: Assessment) -> bool {
    &&& s.install_type == v.0
    &&& opt_view(s.wants) == v.1
    &&& opt_view(s.installed) == v.2
}

/// The outcome of an evaluation is the given one.
pub open spec fn reports<'a>(r: Result<HaxelibStatus<'a>, CheckError>, lib: &'a Haxelib, p: CacheProbe) -> bool {
    match evaluation(*lib, p) {
        Ok(v) => r is Ok && r->Ok_0.lib == lib && shows(r->Ok_0, v),
        Err(e) => r == Err::<HaxelibStatus<'a>, CheckError>(e),
    }
}

/// A library without a cache directory is missing, whatever version or ref it
/// declares: a repository library is reported as not cloned, any other as not
/// installed.
pub proof fn lemma_absent_cache_is_missing(lib: Haxelib, p: CacheProbe)
    requires
        !p.lib_dir_exists,
    ensures
        evaluation(lib, p) is Ok,
        lib.haxelib_type == HaxelibType::Git ==> evaluation(lib, p)->Ok_0.0 == InstallType::MissingGit,
        lib.haxelib_type != HaxelibType::Git ==> evaluation(lib, p)->Ok_0.0 == InstallType::Missing,
{
}

/// A registry library with a declared version and a readable marker is
/// installed exactly when the marker holds that version character for
/// character, and outdated otherwise.
pub proof fn lemma_registry_marker_decides(lib: Haxelib, p: CacheProbe)
    requires
        p.lib_dir_exists,
        lib.haxelib_type == HaxelibType::Haxelib,
        lib.version is Some,
        chosen_marker(p) is Contents,
    ensures
        evaluation(lib, p) is Ok,
        lib.version->0@ == chosen_marker(p)->Contents_0@ ==> evaluation(lib, p)->Ok_0.0 == InstallType::AlreadyInstalled,
        lib.version->0@ != chosen_marker(p)->Contents_0@ ==> evaluation(lib, p)->Ok_0.0 == InstallType::Outdated,
{
}

/// A repository library whose working copy was read is outdated at the wrong
/// commit with no local changes, in conflict with local changes at any commit,
/// and installed at the right commit with none.
pub proof fn lemma_repository_status_table(lib: Haxelib, p: CacheProbe)
    requires
        p.lib_dir_exists,
        chosen_marker(p) is Contents,
        p.git_dir_exists,
        lib.haxelib_type == HaxelibType::Git,
        lib.vcs_ref is Some,
        p.repo is Opened,
        target_of(lib.vcs_ref->0@, p.repo->ref_target) is Some,
    ensures
        ({
            let wrong = !commit_matches(p.repo->head@, target_of(lib.vcs_ref->0@, p.repo->ref_target)->0);
            let dirty = p.repo->dirty;
            &&& evaluation(lib, p) is Ok
            &&& (wrong && !dirty ==> evaluation(lib, p)->Ok_0.0 == InstallType::Outdated)
            &&& (wrong && dirty ==> evaluation(lib, p)->Ok_0.0 == InstallType::Conflict)
            &&& (!wrong && dirty ==> evaluation(lib, p)->Ok_0.0 == InstallType::Conflict)
            &&& (!wrong && !dirty ==> evaluation(lib, p)->Ok_0.0 == InstallType::AlreadyInstalled)
        }),
{
}

/// Returns either the version (registry) or the ref (repository) the manifest
/// asks for.
pub fn get_wants(haxelib: &Haxelib) -> (r: Option<String>)
    ensures
        opt_view(r) == wants_of(*haxelib),
{
    match haxelib.haxelib_type {
        HaxelibType::Haxelib => copy_opt(&haxelib.version),
        HaxelibType::Git => copy_opt(&haxelib.vcs_ref),
        _ => None,
    }
}

fn chosen<'b>(p: &'b CacheProbe) -> (r: &'b MarkerRead)
    ensures
        *r == chosen_marker(*p),
{
    match &p.dev_marker {
        MarkerRead::Absent => &p.current_marker,
        _ => &p.dev_marker,
    }
}

fn repo_status<'a>(lib: &'a Haxelib, vcs_ref: &String, head: &String, wrong_commit: bool, dirty: bool) -> (r: HaxelibStatus<'a>)
    ensures
        r.lib == lib,
        shows(r, repo_assessment(vcs_ref@, head@, wrong_commit, dirty)),
{
    let wants = Some(vcs_ref.clone());
    if wrong_commit && dirty {
        HaxelibStatus::new(lib, InstallType::Conflict, wants, Some(join2(head.as_str(), " (wrong commit + local changes)")))
    } else if wrong_commit {
        HaxelibStatus::new(lib, InstallType::Outdated, wants, Some(join2(head.as_str(), " (wrong commit)")))
    } else if dirty {
        HaxelibStatus::new(lib, InstallType::Conflict, wants, Some(join2(head.as_str(), " (local changes)")))
    } else {
        HaxelibStatus::new(lib, InstallType::AlreadyInstalled, wants, Some(vcs_ref.clone()))
    }
}

/// Evaluates one declared library against what the cache shows.
pub fn check_dependency<'a>(haxelib: &'a Haxelib, probe: &CacheProbe) -> (r: Result<HaxelibStatus<'a>, CheckError>)
    ensures
        reports(r, haxelib, *probe),
{
    if !probe.lib_dir_exists {
        let tag = if haxelib.haxelib_type == HaxelibType::Git {
            InstallType::MissingGit
        } else {
            InstallType::Missing
        };
        return Ok(HaxelibStatus::new(haxelib, tag, get_wants(haxelib), None));
    }
    let marker = match chosen(probe) {
        MarkerRead::Contents(m) => m,
        _ => {
            return Ok(HaxelibStatus::new(haxelib, InstallType::Missing, get_wants(haxelib), None));
        },
    };
    match haxelib.haxelib_type {
        HaxelibType::Haxelib => match &haxelib.version {
            None => Ok(HaxelibStatus::new(haxelib, InstallType::NotLocked, None, Some(marker.clone()))),
            Some(v) => {
                let tag = if *v == *marker {
                    InstallType::AlreadyInstalled
                } else {
                    InstallType::Outdated
                };
                Ok(HaxelibStatus::new(haxelib, tag, Some(v.clone()), Some(marker.clone())))
            },
        },
        HaxelibType::Git => {
            if !probe.git_dir_exists {
                return Ok(HaxelibStatus::new(haxelib, InstallType::MissingGit, get_wants(haxelib), None));
            }
            let vcs_ref = match &haxelib.vcs_ref {
                Some(v) => v,
                None => {
                    return Err(CheckError::MissingVcsRef);
                },
            };
            match &probe.repo {
                RepoRead::Opened { head, ref_target, dirty } => {
                    let target = match ref_target {
                        Some(t) => lowered(t.as_str()),
                        None => match commit_prefix(vcs_ref.as_str()) {
                            Some(t) => t,
                            None => {
                                return Err(CheckError::InvalidRef);
                            },
                        },
                    };
                    let wrong_commit = !matches_commit(head.as_str(), target.as_str());
                    Ok(repo_status(haxelib, vcs_ref, head, wrong_commit, *dirty))
                },
                _ => Err(CheckError::RepoUnavailable),
            }
        },
        _ => Ok(HaxelibStatus::new(haxelib, InstallType::AlreadyInstalled, get_wants(haxelib), Some(marker.clone()))),
    }
}

/// How many evaluations found their library installed as the manifest asks.
pub open spec fn installed_count_spec<'a>(s: Seq<Result<HaxelibStatus<'a>, CheckError>>) -> nat
    decreases s.len(),
{
    if s.len() == 0 {
        0
    } else {
        installed_count_spec(s.drop_last()) + if s.last() is Ok && s.last()->Ok_0.install_type == InstallType::AlreadyInstalled {
            1nat
        } else {
            0nat
        }
    }
}

/// Counts the libraries found installed as the manifest asks.
pub fn count_installed(statuses: &Vec<Result<HaxelibStatus, CheckError>>) -> (r: usize)
    ensures
        r == installed_count_spec(statuses@),
{
    let n = statuses.len();
    let mut c: usize = 0;
    let mut i: usize = 0;
    while i < n
        invariant
            n == statuses@.len(),
            i <= n,
            c == installed_count_spec(statuses@.subrange(0, i as int)),
            c <= i,
        decreases n - i,
    {
        assert(statuses@.subrange(0, i + 1).drop_last() =~= statuses@.subrange(0, i as int));
        match &statuses[i] {
            Ok(st) => if st.install_type == InstallType::AlreadyInstalled {
                c = c + 1;
            },
            Err(_) => {},
        }
        i = i + 1;
    }
    assert(statuses@.subrange(0, n as int) =~= statuses@);
    c
}

/// Evaluates every declared library, each against its own probe; a library
/// that cannot be evaluated does not stop the others.
pub fn compare_haxelib_to_hmm<'a>(deps: &'a Dependancies, probes: &Vec<CacheProbe>) -> (r: Vec<Result<HaxelibStatus<'a>, CheckError>>)
    requires
        probes@.len() == deps.dependencies@.len(),
    ensures
        r@.len() == deps.dependencies@.len(),
        forall|i: int| 0 <= i < r@.len() ==> reports(#[trigger] r@[i], &deps.dependencies@[i], probes@[i]),
{
    let n = deps.dependencies.len();
    let mut out: Vec<Result<HaxelibStatus<'a>, CheckError>> = Vec::new();
    let mut i: usize = 0;
    while i < n
        invariant
            n == deps.dependencies@.len(),
            n == probes@.len(),
            i <= n,
            out@.len() == i,
            forall|k: int| 0 <= k < i ==> reports(#[trigger] out@[k], &deps.dependencies@[k], probes@[k]),
        decreases n - i,
    {
        out.push(check_dependency(&deps.dependencies[i], &probes[i]));
        i = i + 1;
    }
    out
}

} // verus!
