//! The install orchestrator's decisions: what to do with each evaluated
//! library, what a registry install writes where, and the manifest entries that
//! the adding commands create.
use vstd::prelude::*;

use crate::cache::{archive_dir_path, get_lib_path, lib_path_of};
use crate::haxelib::{registry_archive_url, registry_url, Haxelib, HaxelibType, ManifestError};
use crate::status::{HaxelibStatus, InstallType};
use crate::text::{copy_opt, escaped, owned, same_text, trim, trimmed};

verus! {

/// What the orchestrator does with one evaluated library.
#[derive(Debug, Clone, Copy, PartialEq, Eq, Structural)]
pub enum InstallAction {
    /// Download and extract the registry archive.
    FetchArchive,
    /// Clone or update the working copy (see `install_session`).
    SyncRepository,
    /// Ask how to deal with local changes (see `conflict_session`).
    ResolveConflict,
    /// Leave it as it is.
    Nothing,
    /// The library's kind cannot be installed.
    NotImplemented,
}

/// Fetching or updating a library of the given kind.
pub open spec fn acquire_action(kind: HaxelibType) -> InstallAction {
    match kind {
        HaxelibType::Haxelib => InstallAction::FetchArchive,
        HaxelibType::Git => InstallAction::SyncRepository,
        _ => InstallAction::NotImplemented,
    }
}

/// The dispatch table: missing and outdated libraries are fetched or updated
/// by kind, conflicts are resolved, everything else is left alone (a library
/// that is present but not locked included).
pub open spec fn action_for(tag: InstallType, kind: HaxelibType) -> InstallAction {
    match tag {
        InstallType::Missing | InstallType::MissingGit | InstallType::Outdated => acquire_action(kind),
        InstallType::Conflict => InstallAction::ResolveConflict,
        _ => InstallAction::Nothing,
    }
}

/// What to do with one evaluated library.
pub fn install_action(status: &HaxelibStatus) -> (r: InstallAction)
    ensures
        r == action_for(status.install_type, status.lib.haxelib_type),
{
    match status.install_type {
        InstallType::Missing | InstallType::MissingGit | InstallType::Outdated => match status.lib.haxelib_type {
            HaxelibType::Haxelib => InstallAction::FetchArchive,
            HaxelibType::Git => InstallAction::SyncRepository,
            _ => InstallAction::NotImplemented,
        },
        InstallType::Conflict => InstallAction::ResolveConflict,
        _ => InstallAction::Nothing,
    }
}

/// Everything a registry install downloads and writes.
#[derive(Debug)]
pub struct ArchivePlan {
    /// Where the archive is downloaded from.
    pub url: String,
    /// The library's cache directory.
    pub lib_dir: String,
    /// What the `.current` marker in it is to hold.
    pub marker: String,
    /// Where the archive is extracted.
    pub extract_dir: String,
}

/// The plan of a registry install of `lib`, which must declare a version.
pub fn archive_plan(lib: &Haxelib) -> (r: Result<ArchivePlan, ManifestError>)
    ensures
        lib.version is None ==> r == Err::<ArchivePlan, ManifestError>(ManifestError::MissingVersion),
        lib.version matches Some(v) ==> r is Ok && ({
            let p = r->Ok_0;
            &&& p.url@ == registry_url(lib.name@, v@)
            &&& p.lib_dir@ == lib_path_of(lib.name@)
            &&& p.marker@ == v@
            &&& p.extract_dir@ == lib_path_of(lib.name@) + "/"@ + escaped(v@)
        }),
{
    match &lib.version {
        None => Err(ManifestError::MissingVersion),
        Some(v) => {
            Ok(ArchivePlan {
                url: registry_archive_url(lib.name.as_str(), v.as_str()),
                lib_dir: get_lib_path(lib.name.as_str()),
                marker: v.clone(),
                extract_dir: archive_dir_path(lib.name.as_str(), v.as_str()),
            })
        },
    }
}

/// The downloaded file is not the size the server announced.
#[derive(Debug, Clone, Copy, PartialEq, Eq, Structural)]
pub struct IncompleteDownload {
    pub expected: u64,
    pub actual: u64,
}

/// Checks a finished download against the announced size.
pub fn check_download_size(expected: u64, actual: u64) -> (r: Result<(), IncompleteDownload>)
    ensures
        r is Ok <==> expected == actual,
        r is Err ==> r->Err_0 == (IncompleteDownload { expected, actual }),
{
    if expected == actual {
        Ok(())
    } else {
        Err(IncompleteDownload { expected, actual })
    }
}

/// The progress to show once another chunk has arrived: the bytes so far,
/// never past the announced total.
pub fn progress_after(downloaded: u64, chunk: u64, total: u64) -> (r: u64)
    ensures
        r == if downloaded + chunk < total {
            downloaded + chunk
        } else {
            total as int
        },
{
    if chunk >= total || downloaded >= total - chunk {
        total
    } else {
        downloaded + chunk
    }
}

/// A registry library at the given version (or at none, to be locked later).
pub fn registry_dependency(name: &str, version: &Option<String>) -> (r: Haxelib)
    ensures
        r.name@ == name@,
        r.haxelib_type == HaxelibType::Haxelib,
        r.version == *version,
        r.vcs_ref is None && r.dir is None && r.path is None && r.url is None,
{
    Haxelib {
        name: owned(name),
        haxelib_type: HaxelibType::Haxelib,
        vcs_ref: None,
        dir: None,
        path: None,
        url: None,
        version: copy_opt(version),
    }
}

/// A repository library at the given URL and ref (or at the default branch).
pub fn git_dependency(name: &str, url: &str, git_ref: &Option<String>) -> (r: Haxelib)
    ensures
        r.name@ == name@,
        r.haxelib_type == HaxelibType::Git,
        r.url is Some && r.url->0@ == url@,
        r.vcs_ref == *git_ref,
        r.version is None && r.dir is None && r.path is None,
{
    Haxelib {
        name: owned(name),
        haxelib_type: HaxelibType::Git,
        vcs_ref: copy_opt(git_ref),
        dir: None,
        path: None,
        url: Some(owned(url)),
        version: None,
    }
}

/// A local-path library.
pub fn dev_dependency(name: &str, path: &str) -> (r: Haxelib)
    ensures
        r.name@ == name@,
        r.haxelib_type == HaxelibType::Dev,
        r.path is Some && r.path->0@ == path@,
        r.version is None && r.vcs_ref is None && r.dir is None && r.url is None,
{
    Haxelib {
        name: owned(name),
        haxelib_type: HaxelibType::Dev,
        vcs_ref: None,
        dir: None,
        path: Some(owned(path)),
        url: None,
        version: None,
    }
}

/// The ref to record for a fresh clone made without one, from what the tool
/// printed (trimmed) for the abbreviated and for the full name of the head,
/// where it succeeded: the branch checked out; the commit where the head is
/// detached (or the branch cannot be read); `main` where neither can be read.
pub open spec fn detected_ref_spec(branch: Option<Seq<char>>, commit: Option<Seq<char>>) -> Seq<char> {
    match branch {
        Some(b) => if b == "HEAD"@ && commit is Some {
            commit->0
        } else {
            b
        },
        None => match commit {
            Some(c) => c,
            None => "main"@,
        },
    }
}

pub open spec fn opt_text(o: Option<String>) -> Option<Seq<char>> {
    match o {
        Some(s) => Some(s@),
        None => None,
    }
}

pub open spec fn opt_trimmed(o: Option<String>) -> Option<Seq<char>> {
    match o {
        Some(s) => Some(trimmed(s@)),
        None => None,
    }
}

/// The ref to record, from the tool's already trimmed answers.
pub fn ref_from_head_names(branch: &Option<String>, commit: &Option<String>) -> (r: String)
    ensures
        r@ == detected_ref_spec(opt_text(*branch), opt_text(*commit)),
{
    match branch {
        Some(b) => {
            if same_text(b.as_str(), "HEAD") {
                if let Some(c) = commit {
                    return c.clone();
                }
            }
            b.clone()
        },
        None => match commit {
            Some(c) => c.clone(),
            None => owned("main"),
        },
    }
}

fn trim_opt(o: &Option<String>) -> (r: Option<String>)
    ensures
        opt_text(r) == opt_trimmed(*o),
{
    match o {
        Some(s) => Some(trim(s.as_str())),
        None => None,
    }
}

/// The ref to record, from the tool's raw answers.
pub fn detected_ref(branch: &Option<String>, commit: &Option<String>) -> (r: String)
    ensures
        r@ == detected_ref_spec(opt_trimmed(*branch), opt_trimmed(*commit)),
{
    ref_from_head_names(&trim_opt(branch), &trim_opt(commit))
}

/// The arguments of the `add` command.
#[derive(Debug)]
pub struct AddArgs {
    pub name: String,
    /// A repository URL: add a repository library instead of a registry one.
    pub git: Option<String>,
    /// The ref to pin a repository library to.
    pub git_ref: Option<String>,
}

/// What the `add` command is to install.
#[derive(Debug)]
pub enum AddPlan {
    Git { name: String, url: String, git_ref: Option<String> },
    Haxelib { name: String, version: Option<String> },
}

/// `add` installs a repository library where a URL is given, else the
/// registry library of that name at its latest version.
pub fn add_dependency(add_args: &AddArgs) -> (r: AddPlan)
    ensures
        match add_args.git {
            Some(u) => r matches AddPlan::Git { name, url, git_ref } && name@ == add_args.name@ && url@ == u@ && git_ref == add_args.git_ref,
            None => r matches AddPlan::Haxelib { name, version } && name@ == add_args.name@ && version is None,
        },
{
    match &add_args.git {
        Some(u) => AddPlan::Git { name: add_args.name.clone(), url: u.clone(), git_ref: copy_opt(&add_args.git_ref) },
        None => AddPlan::Haxelib { name: add_args.name.clone(), version: None },
    }
}

} // verus!
