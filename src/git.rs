//! The version-control backend as a state machine: each step takes how the
//! previous command ended and names the next thing to do. The caller runs the
//! commands, writes the marker and asks the user; the decisions are made here.
use vstd::prelude::*;

use crate::cache::{get_lib_path, git_dir_path, lib_path_of};
use crate::commands::{
    clone_blobless_args, clone_blobless_cmd, clone_full_args, clone_full_cmd, repo_args2,
    repo_args3, repo_args4, repo_cmd2, repo_cmd3, repo_cmd4, views,
};
use crate::conflict::ConflictResolution;
use crate::haxelib::Haxelib;
use crate::remote::{parse_remote_name_from_url, remote_path_spec};
use crate::text::{contains_text, copy_opt, has_infix, join2, lower_of, same_text, trim, trimmed};

verus! {

/// Where a session stands: the command or request whose answer it waits for.
#[derive(Debug, Clone, Copy, PartialEq, Eq, Structural)]
pub enum Phase {
    CloneBlobless,
    CloneFull,
    CheckOrigin,
    RenameOrigin,
    WriteMarker,
    CheckRemote,
    UpdateRemote,
    AddRemote,
    CheckoutLocal,
    Fetch,
    CheckoutRetry,
    Submodules,
    StashPush,
    StashPop,
    Reset,
    Clean,
    AskMessage,
    Stage,
    Commit,
    Finished,
}

/// How a finished session ended well.
#[derive(Debug, Clone, Copy, PartialEq, Eq, Structural)]
pub enum GitNote {
    /// The working copy is at the wanted ref.
    Installed,
    /// The user chose to leave the library alone.
    Skipped,
    /// Updated, but bringing the stashed changes back left merge conflicts:
    /// they are to be resolved by hand and the stash dropped.
    StashConflict,
}

/// Why a session failed.
#[derive(Debug, Clone, Copy, PartialEq, Eq, Structural)]
pub enum GitError {
    CloneFailed,
    MarkerWriteFailed,
    RemoteUpdateFailed,
    RemoteAddFailed,
    FetchFailed,
    RefNotFound,
    SubmoduleFailed,
    StashFailed,
    StashPopFailed,
    ResetFailed,
    CleanFailed,
    EmptyMessage,
    StageFailed,
    CommitFailed,
    /// An answer of a kind the session did not ask for.
    UnexpectedEvent,
}

/// A session cannot start.
#[derive(Debug, Clone, Copy, PartialEq, Eq, Structural)]
pub enum GitSetupError {
    /// A repository library without a URL.
    MissingUrl,
    /// The URL has no `owner/repo` path to name the remote after.
    BadRemoteUrl,
}

/// What the caller is to do next.
#[derive(Debug)]
pub enum GitAction {
    /// Run the version-control tool with these arguments.
    Run(Vec<String>),
    /// Write a `.current` marker holding `git` into this directory.
    WriteMarker(String),
    /// Ask the user for a commit message.
    AskCommitMessage,
    Done(GitNote),
    /// Failed; the tool's error output, where there is one.
    Failed(GitError, String),
}

/// The mathematical value of a `GitAction`.
pub enum GitActionView {
    Run(Seq<Seq<char>>),
    WriteMarker(Seq<char>),
    AskCommitMessage,
    Done(GitNote),
    Failed(GitError, Seq<char>),
}

impl View for GitAction {
    type V = GitActionView;

    open spec fn view(&self) -> GitActionView {
        match self {
            GitAction::Run(v) => GitActionView::Run(views(v@)),
            GitAction::WriteMarker(d) => GitActionView::WriteMarker(d@),
            GitAction::AskCommitMessage => GitActionView::AskCommitMessage,
            GitAction::Done(n) => GitActionView::Done(*n),
            GitAction::Failed(e, d) => GitActionView::Failed(*e, d@),
        }
    }
}

/// What came of the last action.
#[derive(Debug)]
pub enum GitEvent {
    /// The command ended, successfully or not, with this output.
    Ran { success: bool, stdout: String, stderr: String },
    /// The marker was written, or not.
    Wrote(bool),
    /// The user typed this commit message.
    Answered(String),
}

/// One library's run through the backend.
#[derive(Debug)]
pub struct GitSession {
    pub url: String,
    pub vcs_ref: Option<String>,
    /// The library's cache directory.
    pub lib_dir: String,
    /// Its working copy.
    pub repo: String,
    /// The name its remote is kept under.
    pub remote: String,
    pub git_dir_exists: bool,
    /// Stashed changes wait to be brought back after the update.
    pub stash_pending: bool,
    /// The commit message, once given.
    pub message: String,
    pub phase: Phase,
}

/// The mathematical value of a `GitSession`.
pub struct GitSessionView {
    pub url: Seq<char>,
    pub vcs_ref: Option<Seq<char>>,
    pub lib_dir: Seq<char>,
    pub repo: Seq<char>,
    pub remote: Seq<char>,
    pub git_dir_exists: bool,
    pub stash_pending: bool,
    pub message: Seq<char>,
    pub phase: Phase,
}

impl View for GitSession {
    type V = GitSessionView;

    open spec fn view(&self) -> GitSessionView {
        GitSessionView {
            url: self.url@,
            vcs_ref: match self.vcs_ref {
                Some(r) => Some(r@),
                None => None,
            },
            lib_dir: self.lib_dir@,
            repo: self.repo@,
            remote: self.remote@,
            git_dir_exists: self.git_dir_exists,
            stash_pending: self.stash_pending,
            message: self.message@,
            phase: self.phase,
        }
    }
}

pub open spec fn get_origin_cmd(repo: Seq<char>) -> Seq<Seq<char>> {
    repo_cmd3(repo, "remote"@, "get-url"@, "origin"@)
}

pub open spec fn submodules_cmd(repo: Seq<char>) -> Seq<Seq<char>> {
    repo_cmd4(repo, "submodule"@, "update"@, "--init"@, "--recursive"@)
}

/// Checking out the declared ref (only asked for where there is one).
pub open spec fn checkout_cmd(s: GitSessionView) -> Seq<Seq<char>> {
    repo_cmd2(
        s.repo,
        "checkout"@,
        match s.vcs_ref {
            Some(r) => r,
            None => Seq::empty(),
        },
    )
}

pub open spec fn stash_message(vcs_ref: Option<Seq<char>>) -> Seq<char> {
    "hmm-rs: auto-stash before updating to "@ + match vcs_ref {
        Some(r) => r,
        None => "latest"@,
    }
}

pub open spec fn in_phase(s: GitSessionView, p: Phase) -> GitSessionView {
    GitSessionView { phase: p, ..s }
}

/// Moving on to the checkout: straight to the submodules where no ref is
/// declared, else first making sure the remote is there.
pub open spec fn checkout_start(s: GitSessionView) -> (GitSessionView, GitActionView) {
    match s.vcs_ref {
        None => (in_phase(s, Phase::Submodules), GitActionView::Run(submodules_cmd(s.repo))),
        Some(_) => (in_phase(s, Phase::CheckRemote), GitActionView::Run(repo_cmd3(s.repo, "remote"@, "get-url"@, s.remote))),
    }
}

/// Starting an install or update: clone first where there is no working copy.
pub open spec fn install_start(s: GitSessionView) -> (GitSessionView, GitActionView) {
    if !s.git_dir_exists {
        (in_phase(s, Phase::CloneBlobless), GitActionView::Run(clone_blobless_cmd(s.url, s.repo)))
    } else {
        checkout_start(s)
    }
}

/// After a successful update: bring stashed changes back, if any.
pub open spec fn install_end(s: GitSessionView) -> (GitSessionView, GitActionView) {
    if s.stash_pending {
        (GitSessionView { phase: Phase::StashPop, stash_pending: false, ..s }, GitActionView::Run(repo_cmd2(s.repo, "stash"@, "pop"@)))
    } else {
        (in_phase(s, Phase::Finished), GitActionView::Done(GitNote::Installed))
    }
}

pub open spec fn fail_with(s: GitSessionView, e: GitError, detail: Seq<char>) -> (GitSessionView, GitActionView) {
    (in_phase(s, Phase::Finished), GitActionView::Failed(e, detail))
}

/// After a clone: look for the default remote, to rename it.
pub open spec fn after_clone(s: GitSessionView) -> (GitSessionView, GitActionView) {
    (in_phase(s, Phase::CheckOrigin), GitActionView::Run(get_origin_cmd(s.repo)))
}

/// The next state and action once a command has ended.
pub open spec fn after_run(s: GitSessionView, success: bool, stdout: Seq<char>, stderr: Seq<char>) -> (GitSessionView, GitActionView) {
    match s.phase {
        Phase::CloneBlobless => if success {
            after_clone(s)
        } else {
            (in_phase(s, Phase::CloneFull), GitActionView::Run(clone_full_cmd(s.url, s.repo)))
        },
        Phase::CloneFull => if success {
            after_clone(s)
        } else {
            fail_with(s, GitError::CloneFailed, stderr)
        },
        Phase::CheckOrigin => if success {
            (in_phase(s, Phase::RenameOrigin), GitActionView::Run(repo_cmd4(s.repo, "remote"@, "rename"@, "origin"@, s.remote)))
        } else {
            (in_phase(s, Phase::WriteMarker), GitActionView::WriteMarker(s.lib_dir))
        },
        Phase::RenameOrigin => (in_phase(s, Phase::WriteMarker), GitActionView::WriteMarker(s.lib_dir)),
        Phase::CheckRemote => if !success {
            (in_phase(s, Phase::AddRemote), GitActionView::Run(repo_cmd4(s.repo, "remote"@, "add"@, s.remote, s.url)))
        } else if trimmed(stdout) == s.url {
            (in_phase(s, Phase::CheckoutLocal), GitActionView::Run(checkout_cmd(s)))
        } else {
            (in_phase(s, Phase::UpdateRemote), GitActionView::Run(repo_cmd4(s.repo, "remote"@, "set-url"@, s.remote, s.url)))
        },
        Phase::UpdateRemote => if success {
            (in_phase(s, Phase::CheckoutLocal), GitActionView::Run(checkout_cmd(s)))
        } else {
            fail_with(s, GitError::RemoteUpdateFailed, stderr)
        },
        Phase::AddRemote => if success {
            (in_phase(s, Phase::CheckoutLocal), GitActionView::Run(checkout_cmd(s)))
        } else {
            fail_with(s, GitError::RemoteAddFailed, stderr)
        },
        Phase::CheckoutLocal => if success {
            (in_phase(s, Phase::Submodules), GitActionView::Run(submodules_cmd(s.repo)))
        } else {
            (in_phase(s, Phase::Fetch), GitActionView::Run(repo_cmd2(s.repo, "fetch"@, s.remote)))
        },
        Phase::Fetch => if success {
            (in_phase(s, Phase::CheckoutRetry), GitActionView::Run(checkout_cmd(s)))
        } else {
            fail_with(s, GitError::FetchFailed, stderr)
        },
        Phase::CheckoutRetry => if success {
            (in_phase(s, Phase::Submodules), GitActionView::Run(submodules_cmd(s.repo)))
        } else {
            fail_with(s, GitError::RefNotFound, stderr)
        },
        Phase::Submodules => if success {
            install_end(s)
        } else {
            fail_with(s, GitError::SubmoduleFailed, stderr)
        },
        Phase::StashPush => if success {
            install_start(GitSessionView { stash_pending: true, ..s })
        } else {
            fail_with(s, GitError::StashFailed, stderr)
        },
        Phase::StashPop => if success {
            (in_phase(s, Phase::Finished), GitActionView::Done(GitNote::Installed))
        } else if has_infix(stderr, "CONFLICT"@) {
            (in_phase(s, Phase::Finished), GitActionView::Done(GitNote::StashConflict))
        } else {
            fail_with(s, GitError::StashPopFailed, stderr)
        },
        Phase::Reset => if success {
            (in_phase(s, Phase::Clean), GitActionView::Run(repo_cmd2(s.repo, "clean"@, "-fd"@)))
        } else {
            fail_with(s, GitError::ResetFailed, stderr)
        },
        Phase::Clean => if success {
            install_start(s)
        } else {
            fail_with(s, GitError::CleanFailed, stderr)
        },
        Phase::Stage => if success {
            (in_phase(s, Phase::Commit), GitActionView::Run(repo_cmd3(s.repo, "commit"@, "-m"@, s.message)))
        } else {
            fail_with(s, GitError::StageFailed, stderr)
        },
        Phase::Commit => if success || has_infix(stderr, "nothing to commit"@) {
            install_start(s)
        } else {
            fail_with(s, GitError::CommitFailed, stderr)
        },
        _ => fail_with(s, GitError::UnexpectedEvent, Seq::empty()),
    }
}

/// The next state and action, given what came of the last action.
pub open spec fn next_spec(s: GitSessionView, e: GitEvent) -> (GitSessionView, GitActionView) {
    match e {
        GitEvent::Ran { success, stdout, stderr } => after_run(s, success, stdout@, stderr@),
        GitEvent::Wrote(ok) => if s.phase != Phase::WriteMarker {
            fail_with(s, GitError::UnexpectedEvent, Seq::empty())
        } else if ok {
            checkout_start(s)
        } else {
            fail_with(s, GitError::MarkerWriteFailed, Seq::empty())
        },
        GitEvent::Answered(m) => if s.phase != Phase::AskMessage {
            fail_with(s, GitError::UnexpectedEvent, Seq::empty())
        } else if trimmed(m@).len() == 0 {
            fail_with(s, GitError::EmptyMessage, Seq::empty())
        } else {
            (GitSessionView { phase: Phase::Stage, message: trimmed(m@), ..s }, GitActionView::Run(repo_cmd2(s.repo, "add"@, "-A"@)))
        },
    }
}

/// A session for `lib` before its first step.
pub open spec fn fresh(lib: Haxelib, git_dir_exists: bool) -> GitSessionView {
    GitSessionView {
        url: lib.url->0@,
        vcs_ref: match lib.vcs_ref {
            Some(r) => Some(r@),
            None => None,
        },
        lib_dir: lib_path_of(lib.name@),
        repo: lib_path_of(lib.name@) + "/git"@,
        remote: lower_of(remote_path_spec(trimmed(lib.url->0@))->0),
        git_dir_exists,
        stash_pending: false,
        message: Seq::empty(),
        phase: Phase::Finished,
    }
}

/// A session for `lib` can start: it has a URL with an `owner/repo` path.
pub open spec fn can_start(lib: Haxelib) -> bool {
    lib.url is Some && remote_path_spec(trimmed(lib.url->0@)) is Some
}

pub open spec fn setup_error(lib: Haxelib) -> GitSetupError {
    if lib.url is None {
        GitSetupError::MissingUrl
    } else {
        GitSetupError::BadRemoteUrl
    }
}

/// The first state and action of resolving a conflict the given way.
pub open spec fn conflict_start(s: GitSessionView, choice: ConflictResolution) -> (GitSessionView, GitActionView) {
    match choice {
        ConflictResolution::Stash => (in_phase(s, Phase::StashPush), GitActionView::Run(repo_cmd4(s.repo, "stash"@, "push"@, "-m"@, stash_message(s.vcs_ref)))),
        ConflictResolution::Discard => (in_phase(s, Phase::Reset), GitActionView::Run(repo_cmd3(s.repo, "reset"@, "--hard"@, "HEAD"@))),
        ConflictResolution::Commit => (in_phase(s, Phase::AskMessage), GitActionView::AskCommitMessage),
        ConflictResolution::Skip => (in_phase(s, Phase::Finished), GitActionView::Done(GitNote::Skipped)),
    }
}

fn new_session(lib: &Haxelib, git_dir_exists: bool) -> (r: Result<GitSession, GitSetupError>)
    ensures
        r is Ok <==> can_start(*lib),
        r is Ok ==> r->Ok_0@ == fresh(*lib, git_dir_exists),
        r is Err ==> r->Err_0 == setup_error(*lib),
{
    let url = match &lib.url {
        Some(u) => u,
        None => {
            return Err(GitSetupError::MissingUrl);
        },
    };
    let remote = match parse_remote_name_from_url(url.as_str()) {
        Ok(n) => n,
        Err(_) => {
            return Err(GitSetupError::BadRemoteUrl);
        },
    };
    Ok(GitSession {
        url: url.clone(),
        vcs_ref: copy_opt(&lib.vcs_ref),
        lib_dir: get_lib_path(lib.name.as_str()),
        repo: git_dir_path(lib.name.as_str()),
        remote,
        git_dir_exists,
        stash_pending: false,
        message: String::new(),
        phase: Phase::Finished,
    })
}

/// Starts installing or updating a repository library: cloning it first
/// where `git_dir_exists` says there is no working copy, then checking out the
/// declared ref (if any) and syncing submodules.
pub fn install_session(lib: &Haxelib, git_dir_exists: bool) -> (r: Result<(GitSession, GitAction), GitSetupError>)
    ensures
        r is Ok <==> can_start(*lib),
        r is Err ==> r->Err_0 == setup_error(*lib),
        r is Ok ==> (r->Ok_0.0@, r->Ok_0.1@) == install_start(fresh(*lib, git_dir_exists)),
{
    match new_session(lib, git_dir_exists) {
        Ok(mut s) => {
            let a = s.start_install();
            Ok((s, a))
        },
        Err(e) => Err(e),
    }
}

/// Starts resolving a repository library's local changes the chosen way; the
/// update that follows is the same as `install_session`'s. Skipping needs
/// nothing of the library.
pub fn conflict_session(lib: &Haxelib, choice: ConflictResolution) -> (r: Result<(GitSession, GitAction), GitSetupError>)
    ensures
        choice == ConflictResolution::Skip ==> r is Ok && r->Ok_0.1@ == GitActionView::Done(GitNote::Skipped) && r->Ok_0.0.phase == Phase::Finished,
        choice != ConflictResolution::Skip ==> {
            &&& r is Ok <==> can_start(*lib)
            &&& r is Err ==> r->Err_0 == setup_error(*lib)
            &&& r is Ok ==> (r->Ok_0.0@, r->Ok_0.1@) == conflict_start(fresh(*lib, true), choice)
        },
{
    if choice == ConflictResolution::Skip {
        let s = GitSession {
            url: String::new(),
            vcs_ref: None,
            lib_dir: String::new(),
            repo: String::new(),
            remote: String::new(),
            git_dir_exists: true,
            stash_pending: false,
            message: String::new(),
            phase: Phase::Finished,
        };
        return Ok((s, GitAction::Done(GitNote::Skipped)));
    }
    let mut s = match new_session(lib, true) {
        Ok(s) => s,
        Err(e) => {
            return Err(e);
        },
    };
    let a = match choice {
        ConflictResolution::Stash => {
            s.phase = Phase::StashPush;
            let msg = match &s.vcs_ref {
                Some(r) => join2("hmm-rs: auto-stash before updating to ", r.as_str()),
                None => join2("hmm-rs: auto-stash before updating to ", "latest"),
            };
            GitAction::Run(repo_args4(s.repo.as_str(), "stash", "push", "-m", msg.as_str()))
        },
        ConflictResolution::Discard => {
            s.phase = Phase::Reset;
            GitAction::Run(repo_args3(s.repo.as_str(), "reset", "--hard", "HEAD"))
        },
        _ => {
            s.phase = Phase::AskMessage;
            GitAction::AskCommitMessage
        },
    };
    Ok((s, a))
}

impl GitSession {
    fn goto(&mut self, p: Phase)
        ensures
            final(self)@ == in_phase(old(self)@, p),
    {
        self.phase = p;
    }

    fn fail(&mut self, e: GitError, detail: String) -> (r: GitAction)
        ensures
            (final(self)@, r@) == fail_with(old(self)@, e, detail@),
    {
        self.phase = Phase::Finished;
        GitAction::Failed(e, detail)
    }

    fn checkout_action(&self) -> (r: GitAction)
        ensures
            r@ == GitActionView::Run(checkout_cmd(self@)),
    {
        match &self.vcs_ref {
            Some(rf) => GitAction::Run(repo_args2(self.repo.as_str(), "checkout", rf.as_str())),
            None => {
                proof {
                    reveal_strlit("");
                    assert(""@ =~= Seq::<char>::empty());
                }
                GitAction::Run(repo_args2(self.repo.as_str(), "checkout", ""))
            },
        }
    }

    fn submodules_action(&self) -> (r: GitAction)
        ensures
            r@ == GitActionView::Run(submodules_cmd(self@.repo)),
    {
        GitAction::Run(repo_args4(self.repo.as_str(), "submodule", "update", "--init", "--recursive"))
    }

    fn start_checkout(&mut self) -> (r: GitAction)
        ensures
            (final(self)@, r@) == checkout_start(old(self)@),
    {
        if self.vcs_ref.is_none() {
            self.goto(Phase::Submodules);
            self.submodules_action()
        } else {
            self.goto(Phase::CheckRemote);
            GitAction::Run(repo_args3(self.repo.as_str(), "remote", "get-url", self.remote.as_str()))
        }
    }

    fn start_install(&mut self) -> (r: GitAction)
        ensures
            (final(self)@, r@) == install_start(old(self)@),
    {
        if !self.git_dir_exists {
            self.goto(Phase::CloneBlobless);
            GitAction::Run(clone_blobless_args(self.url.as_str(), self.repo.as_str()))
        } else {
            self.start_checkout()
        }
    }

    fn end_install(&mut self) -> (r: GitAction)
        ensures
            (final(self)@, r@) == install_end(old(self)@),
    {
        if self.stash_pending {
            self.stash_pending = false;
            self.phase = Phase::StashPop;
            GitAction::Run(repo_args2(self.repo.as_str(), "stash", "pop"))
        } else {
            self.goto(Phase::Finished);
            GitAction::Done(GitNote::Installed)
        }
    }

    fn after_command(&mut self, success: bool, stdout: &String, stderr: String) -> (r: GitAction)
        ensures
            (final(self)@, r@) == after_run(old(self)@, success, stdout@, stderr@),
    {
        match self.phase {
            Phase::CloneBlobless => if success {
                self.goto(Phase::CheckOrigin);
                GitAction::Run(repo_args3(self.repo.as_str(), "remote", "get-url", "origin"))
            } else {
                self.goto(Phase::CloneFull);
                GitAction::Run(clone_full_args(self.url.as_str(), self.repo.as_str()))
            },
            Phase::CloneFull => if success {
                self.goto(Phase::CheckOrigin);
                GitAction::Run(repo_args3(self.repo.as_str(), "remote", "get-url", "origin"))
            } else {
                self.fail(GitError::CloneFailed, stderr)
            },
            Phase::CheckOrigin => if success {
                self.goto(Phase::RenameOrigin);
                GitAction::Run(repo_args4(self.repo.as_str(), "remote", "rename", "origin", self.remote.as_str()))
            } else {
                self.goto(Phase::WriteMarker);
                GitAction::WriteMarker(self.lib_dir.clone())
            },
            Phase::RenameOrigin => {
                self.goto(Phase::WriteMarker);
                GitAction::WriteMarker(self.lib_dir.clone())
            },
            Phase::CheckRemote => if !success {
                self.goto(Phase::AddRemote);
                GitAction::Run(repo_args4(self.repo.as_str(), "remote", "add", self.remote.as_str(), self.url.as_str()))
            } else {
                let existing = trim(stdout.as_str());
                if same_text(existing.as_str(), self.url.as_str()) {
                    self.goto(Phase::CheckoutLocal);
                    self.checkout_action()
                } else {
                    self.goto(Phase::UpdateRemote);
                    GitAction::Run(repo_args4(self.repo.as_str(), "remote", "set-url", self.remote.as_str(), self.url.as_str()))
                }
            },
            Phase::UpdateRemote => if success {
                self.goto(Phase::CheckoutLocal);
                self.checkout_action()
            } else {
                self.fail(GitError::RemoteUpdateFailed, stderr)
            },
            Phase::AddRemote => if success {
                self.goto(Phase::CheckoutLocal);
                self.checkout_action()
            } else {
                self.fail(GitError::RemoteAddFailed, stderr)
            },
            Phase::CheckoutLocal => if success {
                self.goto(Phase::Submodules);
                self.submodules_action()
            } else {
                self.goto(Phase::Fetch);
                GitAction::Run(repo_args2(self.repo.as_str(), "fetch", self.remote.as_str()))
            },
            Phase::Fetch => if success {
                self.goto(Phase::CheckoutRetry);
                self.checkout_action()
            } else {
                self.fail(GitError::FetchFailed, stderr)
            },
            Phase::CheckoutRetry => if success {
                self.goto(Phase::Submodules);
                self.submodules_action()
            } else {
                self.fail(GitError::RefNotFound, stderr)
            },
            Phase::Submodules => if success {
                self.end_install()
            } else {
                self.fail(GitError::SubmoduleFailed, stderr)
            },
            Phase::StashPush => if success {
                self.stash_pending = true;
                self.start_install()
            } else {
                self.fail(GitError::StashFailed, stderr)
            },
            Phase::StashPop => if success {
                self.goto(Phase::Finished);
                GitAction::Done(GitNote::Installed)
            } else if contains_text(stderr.as_str(), "CONFLICT") {
                self.goto(Phase::Finished);
                GitAction::Done(GitNote::StashConflict)
            } else {
                self.fail(GitError::StashPopFailed, stderr)
            },
            Phase::Reset => if success {
                self.goto(Phase::Clean);
                GitAction::Run(repo_args2(self.repo.as_str(), "clean", "-fd"))
            } else {
                self.fail(GitError::ResetFailed, stderr)
            },
            Phase::Clean => if success {
                self.start_install()
            } else {
                self.fail(GitError::CleanFailed, stderr)
            },
            Phase::Stage => if success {
                self.goto(Phase::Commit);
                GitAction::Run(repo_args3(self.repo.as_str(), "commit", "-m", self.message.as_str()))
            } else {
                self.fail(GitError::StageFailed, stderr)
            },
            Phase::Commit => if success || contains_text(stderr.as_str(), "nothing to commit") {
                self.start_install()
            } else {
                self.fail(GitError::CommitFailed, stderr)
            },
            _ => self.fail(GitError::UnexpectedEvent, String::new()),
        }
    }

    /// Takes what came of the last action and names the next one.
    pub fn step(&mut self, e: GitEvent) -> (r: GitAction)
        ensures
            (final(self)@, r@) == next_spec(old(self)@, e),
    {
        match e {
            GitEvent::Ran { success, stdout, stderr } => self.after_command(success, &stdout, stderr),
            GitEvent::Wrote(ok) => if self.phase != Phase::WriteMarker {
                self.fail(GitError::UnexpectedEvent, String::new())
            } else if ok {
                self.start_checkout()
            } else {
                self.fail(GitError::MarkerWriteFailed, String::new())
            },
            GitEvent::Answered(m) => if self.phase != Phase::AskMessage {
                self.fail(GitError::UnexpectedEvent, String::new())
            } else {
                let t = trim(m.as_str());
                if t.unicode_len() == 0 {
                    self.fail(GitError::EmptyMessage, String::new())
                } else {
                    self.message = t;
                    self.phase = Phase::Stage;
                    GitAction::Run(repo_args2(self.repo.as_str(), "add", "-A"))
                }
            },
        }
    }

    /// The session has ended, well or not.
    pub fn is_finished(&self) -> (r: bool)
        ensures
            r == (self.phase == Phase::Finished),
    {
        self.phase == Phase::Finished
    }
}

} // verus!
