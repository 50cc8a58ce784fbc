//! The lock engine: pins each selected library to what the cache holds, and
//! the read-only check of which libraries are pinned.
use vstd::prelude::*;

use crate::dependencies::{declares, Dependancies};
use crate::haxelib::{Haxelib, HaxelibType};
use crate::status::MarkerRead;
use crate::text::{owned, same_text};

verus! {

/// What locking one library did.
#[derive(Debug)]
pub enum LockResult {
    /// The manifest entry now names this version or commit.
    Locked(String),
    /// The library's kind is not locked; the reason.
    Skipped(String),
    /// The manifest entry already named this version or commit.
    AlreadyLocked(String),
}

/// The mathematical value of a `LockResult`.
pub enum LockView {
    Locked(Seq<char>),
    Skipped(Seq<char>),
    AlreadyLocked(Seq<char>),
}

impl View for LockResult {
    type V = LockView;

    open spec fn view(&self) -> LockView {
        match self {
            LockResult::Locked(s) => LockView::Locked(s@),
            LockResult::Skipped(s) => LockView::Skipped(s@),
            LockResult::AlreadyLocked(s) => LockView::AlreadyLocked(s@),
        }
    }
}

/// Why a library could not be locked.
#[derive(Debug, Clone, Copy, PartialEq, Eq, Structural)]
pub enum LockError {
    /// No `.current` marker: the library was never installed.
    NotInstalled,
    /// The `.current` marker exists but could not be read.
    MarkerUnreadable,
    /// No working copy: the repository was never cloned.
    NotCloned,
    /// The working copy could not be opened or its head read.
    RepoUnavailable,
}

/// What reading a working copy's head gave.
#[derive(Debug)]
pub enum HeadRead {
    NotCloned,
    Broken,
    Head {
        /// The full identifier of the head commit.
        full: String,
        /// Its shortest unambiguous abbreviation in the repository.
        short: String,
    },
}

/// Everything locking one library reads from the cache.
#[derive(Debug)]
pub struct LockProbe {
    /// The library's `.current` marker.
    pub current_marker: MarkerRead,
    pub head: HeadRead,
}

pub open spec fn dev_skip_reason() -> Seq<char> {
    "dev dependencies are already locked by path"@
}

pub open spec fn unsupported_skip_reason() -> Seq<char> {
    "mercurial not yet supported"@
}

/// The outcome of locking `lib`, and the manifest entry afterwards.
pub open spec fn lock_spec(lib: Haxelib, long_id: bool, p: LockProbe) -> (Result<LockView, LockError>, Haxelib) {
    match lib.haxelib_type {
        HaxelibType::Haxelib => match lib.version {
            Some(v) => (Ok(LockView::AlreadyLocked(v@)), lib),
            None => match p.current_marker {
                MarkerRead::Contents(m) => (Ok(LockView::Locked(m@)), Haxelib { version: Some(m), ..lib }),
                MarkerRead::Absent => (Err(LockError::NotInstalled), lib),
                MarkerRead::Unreadable => (Err(LockError::MarkerUnreadable), lib),
            },
        },
        HaxelibType::Git => match p.head {
            HeadRead::Head { full, short } => {
                let id = if long_id { full } else { short };
                if lib.vcs_ref is Some && lib.vcs_ref->0@ == id@ {
                    (Ok(LockView::AlreadyLocked(id@)), lib)
                } else {
                    (Ok(LockView::Locked(id@)), Haxelib { vcs_ref: Some(id), ..lib })
                }
            },
            HeadRead::NotCloned => (Err(LockError::NotCloned), lib),
            HeadRead::Broken => (Err(LockError::RepoUnavailable), lib),
        },
        HaxelibType::Dev => (Ok(LockView::Skipped(dev_skip_reason())), lib),
        HaxelibType::Mecurial => (Ok(LockView::Skipped(unsupported_skip_reason())), lib),
    }
}

pub open spec fn lock_view(r: Result<LockResult, LockError>) -> Result<LockView, LockError> {
    match r {
        Ok(x) => Ok(x@),
        Err(e) => Err(e),
    }
}

/// Pins one library to what the cache holds: a registry library to the
/// version in its `.current` marker, a repository library to its head commit,
/// given in full or abbreviated as `long_id` says.
pub fn lock_dependency(lib: &mut Haxelib, long_id: bool, probe: &LockProbe) -> (r: Result<LockResult, LockError>)
    ensures
        lock_view(r) == lock_spec(*old(lib), long_id, *probe).0,
        *final(lib) == lock_spec(*old(lib), long_id, *probe).1,
{
    match lib.haxelib_type {
        HaxelibType::Haxelib => lock_haxelib_dependency(lib, probe),
        HaxelibType::Git => lock_git_dependency(lib, long_id, probe),
        HaxelibType::Dev => Ok(LockResult::Skipped(owned("dev dependencies are already locked by path"))),
        HaxelibType::Mecurial => Ok(LockResult::Skipped(owned("mercurial not yet supported"))),
    }
}

fn lock_haxelib_dependency(lib: &mut Haxelib, probe: &LockProbe) -> (r: Result<LockResult, LockError>)
    requires
        old(lib).haxelib_type == HaxelibType::Haxelib,
    ensures
        lock_view(r) == lock_spec(*old(lib), false, *probe).0,
        *final(lib) == lock_spec(*old(lib), false, *probe).1,
{
    if let Some(v) = &lib.version {
        return Ok(LockResult::AlreadyLocked(v.clone()));
    }
    match &probe.current_marker {
        MarkerRead::Contents(m) => {
            lib.version = Some(m.clone());
            Ok(LockResult::Locked(m.clone()))
        },
        MarkerRead::Absent => Err(LockError::NotInstalled),
        MarkerRead::Unreadable => Err(LockError::MarkerUnreadable),
    }
}

fn lock_git_dependency(lib: &mut Haxelib, long_id: bool, probe: &LockProbe) -> (r: Result<LockResult, LockError>)
    requires
        old(lib).haxelib_type == HaxelibType::Git,
    ensures
        lock_view(r) == lock_spec(*old(lib), long_id, *probe).0,
        *final(lib) == lock_spec(*old(lib), long_id, *probe).1,
{
    let id = match &probe.head {
        HeadRead::Head { full, short } => if long_id {
            full
        } else {
            short
        },
        HeadRead::NotCloned => {
            return Err(LockError::NotCloned);
        },
        HeadRead::Broken => {
            return Err(LockError::RepoUnavailable);
        },
    };
    if let Some(current) = &lib.vcs_ref {
        if *current == *id {
            return Ok(LockResult::AlreadyLocked(id.clone()));
        }
    }
    lib.vcs_ref = Some(id.clone());
    Ok(LockResult::Locked(id.clone()))
}

/// Whether a library counts as pinned.
#[derive(Debug)]
pub enum LockStatus {
    Locked,
    /// Not pinned; the reason.
    NotLocked(String),
    /// A local-path library, pinned by its path.
    NotApplicable,
}

/// A registry library is pinned by its version; a repository library (and a
/// legacy one) by its ref; a local-path library always is.
pub open spec fn is_pinned(lib: Haxelib) -> bool {
    match lib.haxelib_type {
        HaxelibType::Haxelib => lib.version is Some,
        HaxelibType::Dev => true,
        _ => lib.vcs_ref is Some,
    }
}

/// The status the lock check gives a library: not applicable to a
/// local-path library, locked where it is pinned, else not locked, with the
/// field that is missing.
pub open spec fn status_of(r: LockStatus, lib: Haxelib) -> bool {
    &&& (r is NotApplicable <==> lib.haxelib_type == HaxelibType::Dev)
    &&& (r is Locked <==> lib.haxelib_type != HaxelibType::Dev && is_pinned(lib))
    &&& (r is NotLocked <==> !is_pinned(lib))
    &&& (r matches LockStatus::NotLocked(reason) ==> reason@ == (if lib.haxelib_type == HaxelibType::Haxelib {
        "no version specified"@
    } else {
        "no ref specified"@
    }))
}

/// Whether one library is pinned, and if not, why.
pub fn is_locked(lib: &Haxelib) -> (r: LockStatus)
    ensures
        status_of(r, *lib),
{
    match lib.haxelib_type {
        HaxelibType::Haxelib => if lib.version.is_some() {
            LockStatus::Locked
        } else {
            LockStatus::NotLocked(owned("no version specified"))
        },
        HaxelibType::Dev => LockStatus::NotApplicable,
        _ => if lib.vcs_ref.is_some() {
            LockStatus::Locked
        } else {
            LockStatus::NotLocked(owned("no ref specified"))
        },
    }
}

/// How many of the libraries are pinned.
pub open spec fn pinned_count(libs: Seq<Haxelib>) -> nat
    decreases libs.len(),
{
    if libs.len() == 0 {
        0
    } else {
        pinned_count(libs.drop_last()) + if is_pinned(libs.last()) {
            1nat
        } else {
            0nat
        }
    }
}

/// The read-only lock check of a whole manifest.
#[derive(Debug)]
pub struct LockCheck {
    /// One status per declared library, in manifest order.
    pub statuses: Vec<LockStatus>,
    /// How many libraries are pinned (local-path libraries included).
    pub locked_count: usize,
}

impl LockCheck {
    /// Every declared library is pinned.
    pub fn all_locked(&self) -> (r: bool)
        ensures
            r == (self.locked_count == self.statuses@.len()),
    {
        self.locked_count == self.statuses.len()
    }
}

/// Reports, for each declared library, whether it is pinned, and how many are.
pub fn check_locked(deps: &Dependancies) -> (r: LockCheck)
    ensures
        r.statuses@.len() == deps.dependencies@.len(),
        forall|i: int| 0 <= i < r.statuses@.len() ==> status_of(#[trigger] r.statuses@[i], deps.dependencies@[i]),
        r.locked_count == pinned_count(deps.dependencies@),
{
    let n = deps.dependencies.len();
    let mut statuses: Vec<LockStatus> = Vec::new();
    let mut locked_count: usize = 0;
    let mut i: usize = 0;
    while i < n
        invariant
            n == deps.dependencies@.len(),
            i <= n,
            statuses@.len() == i,
            forall|k: int| 0 <= k < i ==> status_of(#[trigger] statuses@[k], deps.dependencies@[k]),
            locked_count == pinned_count(deps.dependencies@.subrange(0, i as int)),
            locked_count <= i,
        decreases n - i,
    {
        let st = is_locked(&deps.dependencies[i]);
        let pinned = !matches!(st, LockStatus::NotLocked(_));
        proof {
            assert(deps.dependencies@.subrange(0, i + 1).drop_last() =~= deps.dependencies@.subrange(0, i as int));
        }
        if pinned {
            locked_count = locked_count + 1;
        }
        statuses.push(st);
        i = i + 1;
    }
    assert(deps.dependencies@.subrange(0, n as int) =~= deps.dependencies@);
    LockCheck { statuses, locked_count }
}

/// A library named for locking is not declared in the manifest.
#[derive(Debug)]
pub struct UnknownLibrary {
    pub name: String,
}

/// The library is among those to lock: all are when none are named.
pub open spec fn selected(libs: Option<Vec<String>>, name: Seq<char>) -> bool {
    match libs {
        None => true,
        Some(v) => exists|j: int| 0 <= j < v@.len() && (#[trigger] v@[j])@ == name,
    }
}

/// Some named library is not declared.
pub open spec fn names_unknown(deps: Seq<Haxelib>, libs: Option<Vec<String>>) -> bool {
    match libs {
        None => false,
        Some(v) => exists|j: int| 0 <= j < v@.len() && !declares(deps, (#[trigger] v@[j])@),
    }
}

pub open spec fn outcome_view(o: Option<Result<LockResult, LockError>>) -> Option<Result<LockView, LockError>> {
    match o {
        Some(r) => Some(lock_view(r)),
        None => None,
    }
}

/// The outcome for the library at `i`: none where it is not selected.
pub open spec fn expected_outcome(deps: Seq<Haxelib>, libs: Option<Vec<String>>, long_id: bool, probes: Seq<LockProbe>, i: int) -> Option<Result<LockView, LockError>> {
    if selected(libs, deps[i].name@) {
        Some(lock_spec(deps[i], long_id, probes[i]).0)
    } else {
        None
    }
}

/// The manifest entry at `i` after locking.
pub open spec fn expected_entry(deps: Seq<Haxelib>, libs: Option<Vec<String>>, long_id: bool, probes: Seq<LockProbe>, i: int) -> Haxelib {
    if selected(libs, deps[i].name@) {
        lock_spec(deps[i], long_id, probes[i]).1
    } else {
        deps[i]
    }
}

/// How many outcomes locked a library, how many left one as it was (skipped
/// or already locked), and how many failed.
pub open spec fn tally(s: Seq<Option<Result<LockView, LockError>>>) -> (nat, nat, nat)
    decreases s.len(),
{
    if s.len() == 0 {
        (0, 0, 0)
    } else {
        let t = tally(s.drop_last());
        match s.last() {
            Some(Ok(LockView::Locked(_))) => (t.0 + 1, t.1, t.2),
            Some(Ok(_)) => (t.0, t.1 + 1, t.2),
            Some(Err(_)) => (t.0, t.1, t.2 + 1),
            None => t,
        }
    }
}

pub open spec fn expected_outcomes(deps: Seq<Haxelib>, libs: Option<Vec<String>>, long_id: bool, probes: Seq<LockProbe>) -> Seq<Option<Result<LockView, LockError>>> {
    Seq::new(deps.len(), |i: int| expected_outcome(deps, libs, long_id, probes, i))
}

/// What locking a manifest did.
#[derive(Debug)]
pub struct LockReport {
    /// The manifest after locking.
    pub updated: Dependancies,
    /// One outcome per declared library; none where it was not selected.
    pub outcomes: Vec<Option<Result<LockResult, LockError>>>,
    pub locked_count: usize,
    pub skipped_count: usize,
    pub error_count: usize,
}

impl LockReport {
    /// The manifest is to be written back: something was locked.
    pub fn should_save(&self) -> (r: bool)
        ensures
            r == (self.locked_count > 0),
    {
        self.locked_count > 0
    }

    /// The run as a whole failed: some library could not be locked.
    pub fn failed(&self) -> (r: bool)
        ensures
            r == (self.error_count > 0),
    {
        self.error_count > 0
    }
}

fn is_selected(libs: &Option<Vec<String>>, name: &String) -> (r: bool)
    ensures
        r == selected(*libs, name@),
{
    match libs {
        None => true,
        Some(v) => {
            let n = v.len();
            let mut j: usize = 0;
            while j < n
                invariant
                    *libs == Some(*v),
                    n == v@.len(),
                    j <= n,
                    forall|k: int| 0 <= k < j ==> (#[trigger] v@[k])@ != name@,
                decreases n - j,
            {
                if same_text(v[j].as_str(), name.as_str()) {
                    assert(libs->0@[j as int]@ == name@);
                    return true;
                }
                j = j + 1;
            }
            false
        },
    }
}

fn first_unknown(deps: &Dependancies, libs: &Option<Vec<String>>) -> (r: Option<String>)
    ensures
        r is Some <==> names_unknown(deps.dependencies@, *libs),
{
    match libs {
        None => None,
        Some(v) => {
            let n = v.len();
            let mut j: usize = 0;
            while j < n
                invariant
                    *libs == Some(*v),
                    n == v@.len(),
                    j <= n,
                    forall|k: int| 0 <= k < j ==> declares(deps.dependencies@, (#[trigger] v@[k])@),
                decreases n - j,
            {
                if deps.get_haxelib(v[j].as_str()).is_err() {
                    assert(!declares(deps.dependencies@, libs->0@[j as int]@));
                    return Some(v[j].clone());
                }
                j = j + 1;
            }
            None
        },
    }
}

/// Locks the named libraries (all of them when none are named), each against
/// its own probe, and counts what happened. A library that cannot be locked
/// does not stop the others; a name that is not declared stops everything
/// before anything is locked.
pub fn lock_dependencies(deps: &Dependancies, libs: &Option<Vec<String>>, long_id: bool, probes: &Vec<LockProbe>) -> (r: Result<LockReport, UnknownLibrary>)
    requires
        probes@.len() == deps.dependencies@.len(),
    ensures
        r is Err <==> names_unknown(deps.dependencies@, *libs),
        r matches Ok(rep) ==> {
            let n = deps.dependencies@.len() as int;
            let want = expected_outcomes(deps.dependencies@, *libs, long_id, probes@);
            &&& rep.updated.dependencies@.len() == n
            &&& rep.outcomes@.len() == n
            &&& forall|i: int| 0 <= i < n ==> #[trigger] rep.updated.dependencies@[i] == expected_entry(deps.dependencies@, *libs, long_id, probes@, i)
            &&& forall|i: int| 0 <= i < n ==> outcome_view(#[trigger] rep.outcomes@[i]) == want[i]
            &&& (rep.locked_count as nat, rep.skipped_count as nat, rep.error_count as nat) == tally(want)
        },
{
    if let Some(name) = first_unknown(deps, libs) {
        return Err(UnknownLibrary { name });
    }
    let ghost want = expected_outcomes(deps.dependencies@, *libs, long_id, probes@);
    let n = deps.dependencies.len();
    let mut updated: Vec<Haxelib> = Vec::new();
    let mut outcomes: Vec<Option<Result<LockResult, LockError>>> = Vec::new();
    let mut locked_count: usize = 0;
    let mut skipped_count: usize = 0;
    let mut error_count: usize = 0;
    let mut i: usize = 0;
    while i < n
        invariant
            n == deps.dependencies@.len(),
            n == probes@.len(),
            want == expected_outcomes(deps.dependencies@, *libs, long_id, probes@),
            i <= n,
            updated@.len() == i,
            outcomes@.len() == i,
            forall|k: int| 0 <= k < i ==> #[trigger] updated@[k] == expected_entry(deps.dependencies@, *libs, long_id, probes@, k),
            forall|k: int| 0 <= k < i ==> outcome_view(#[trigger] outcomes@[k]) == want[k],
            (locked_count as nat, skipped_count as nat, error_count as nat) == tally(want.subrange(0, i as int)),
            locked_count + skipped_count + error_count <= i,
        decreases n - i,
    {
        let mut lib = deps.dependencies[i].duplicate();
        proof {
            assert(want.subrange(0, i + 1).drop_last() =~= want.subrange(0, i as int));
        }
        if is_selected(libs, &deps.dependencies[i].name) {
            let res = lock_dependency(&mut lib, long_id, &probes[i]);
            match &res {
                Ok(LockResult::Locked(_)) => {
                    locked_count = locked_count + 1;
                },
                Ok(_) => {
                    skipped_count = skipped_count + 1;
                },
                Err(_) => {
                    error_count = error_count + 1;
                },
            }
            outcomes.push(Some(res));
        } else {
            outcomes.push(None);
        }
        updated.push(lib);
        i = i + 1;
    }
    assert(want.subrange(0, n as int) =~= want);
    Ok(LockReport { updated: Dependancies { dependencies: updated }, outcomes, locked_count, skipped_count, error_count })
}

/// Locking twice in a row with the same cache changes nothing the second
/// time: the second call reports the library as already locked (or skipped,
/// for the kinds that are never locked) and leaves the entry as the first
/// call left it. A registry library with a version is already locked at once.
pub proof fn lemma_lock_idempotent(lib: Haxelib, long_id: bool, p: LockProbe)
    requires
        lock_spec(lib, long_id, p).0 is Ok,
    ensures
        ({
            let once = lock_spec(lib, long_id, p).1;
            let twice = lock_spec(once, long_id, p);
            &&& twice.1 == once
            &&& twice.0 is Ok
            &&& !(twice.0->Ok_0 is Locked)
        }),
        lib.haxelib_type == HaxelibType::Haxelib && lib.version is Some ==> lock_spec(lib, long_id, p) == (
        Ok::<LockView, LockError>(LockView::AlreadyLocked(lib.version->0@)), lib),
{
}

} // verus!
