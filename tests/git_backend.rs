use hmm_rs::conflict::{parse_conflict_choice, ConflictResolution};
use hmm_rs::git::{conflict_session, install_session, GitAction, GitError, GitEvent, GitNote, GitSession, GitSetupError};
use hmm_rs::haxelib::{Haxelib, HaxelibType};
use hmm_rs::parse_remote_name_from_url;
use hmm_rs::remote::{remote_path, RemoteNameError};
use hmm_rs::status::{check_dependency, CacheProbe, InstallType, MarkerRead, RepoRead};

fn git_lib(name: &str, url: &str, vcs_ref: Option<&str>) -> Haxelib {
    Haxelib {
        name: name.to_string(),
        haxelib_type: HaxelibType::Git,
        vcs_ref: vcs_ref.map(|s| s.to_string()),
        dir: None,
        path: None,
        url: Some(url.to_string()),
        version: None,
    }
}

fn ran(success: bool, stdout: &str, stderr: &str) -> GitEvent {
    GitEvent::Ran { success, stdout: stdout.to_string(), stderr: stderr.to_string() }
}

fn expect_run(a: GitAction, want: &[&str]) {
    match a {
        GitAction::Run(args) => assert_eq!(args, want.iter().map(|s| s.to_string()).collect::<Vec<_>>()),
        other => panic!("expected a command, got {:?}", other),
    }
}

fn expect_done(a: GitAction, note: GitNote) {
    match a {
        GitAction::Done(n) => assert_eq!(n, note),
        other => panic!("expected done, got {:?}", other),
    }
}

fn expect_failed(a: GitAction, err: GitError) -> String {
    match a {
        GitAction::Failed(e, detail) => {
            assert_eq!(e, err);
            detail
        }
        other => panic!("expected failure, got {:?}", other),
    }
}

const REPO: &str = ".haxelib/flixel/git";

#[test]
fn remote_names_from_urls() {
    assert_eq!(parse_remote_name_from_url("https://github.com/HaxeFlixel/flixel.git"), Ok("haxeflixel/flixel".to_string()));
    assert_eq!(parse_remote_name_from_url("  https://github.com/user/repo\n"), Ok("user/repo".to_string()));
    assert_eq!(parse_remote_name_from_url("git@github.com:User/Repo.git"), Ok("user/repo".to_string()));
    assert_eq!(parse_remote_name_from_url("ssh://git@github.com/user/repo.git"), Ok("user/repo".to_string()));
    assert_eq!(parse_remote_name_from_url("http://host/a/b/c//"), Ok("b/c".to_string()));
    assert_eq!(parse_remote_name_from_url("https://github.com/user/repo.git.git"), Ok("user/repo".to_string()));
    assert_eq!(parse_remote_name_from_url("https://github.com"), Err(RemoteNameError));
    assert_eq!(parse_remote_name_from_url(""), Err(RemoteNameError));
    assert_eq!(remote_path("https://github.com/User/Repo.git"), Ok("User/Repo".to_string()));
}

#[test]
fn conflict_choices() {
    assert_eq!(parse_conflict_choice("s\n"), ConflictResolution::Stash);
    assert_eq!(parse_conflict_choice("  STASH "), ConflictResolution::Stash);
    assert_eq!(parse_conflict_choice("d"), ConflictResolution::Discard);
    assert_eq!(parse_conflict_choice("Discard\r\n"), ConflictResolution::Discard);
    assert_eq!(parse_conflict_choice("c"), ConflictResolution::Commit);
    assert_eq!(parse_conflict_choice("commit"), ConflictResolution::Commit);
    assert_eq!(parse_conflict_choice("k"), ConflictResolution::Skip);
    assert_eq!(parse_conflict_choice("whatever"), ConflictResolution::Skip);
    assert_eq!(parse_conflict_choice(""), ConflictResolution::Skip);
}

#[test]
fn flixel_install_scenario() {
    let lib = git_lib("flixel", "https://example/flixel", Some("v5.0.0"));
    let empty = CacheProbe {
        lib_dir_exists: false,
        dev_marker: MarkerRead::Absent,
        current_marker: MarkerRead::Absent,
        git_dir_exists: false,
        repo: RepoRead::Unopened,
    };
    assert_eq!(check_dependency(&lib, &empty).unwrap().install_type, InstallType::MissingGit);

    let (mut s, a) = install_session(&lib, false).unwrap();
    expect_run(a, &["clone", "--filter=blob:none", "https://example/flixel", REPO]);
    expect_run(s.step(ran(true, "", "")), &["-C", REPO, "remote", "get-url", "origin"]);
    expect_run(s.step(ran(true, "https://example/flixel\n", "")), &["-C", REPO, "remote", "rename", "origin", "example/flixel"]);
    match s.step(ran(true, "", "")) {
        GitAction::WriteMarker(d) => assert_eq!(d, ".haxelib/flixel"),
        other => panic!("expected marker, got {:?}", other),
    }
    expect_run(s.step(GitEvent::Wrote(true)), &["-C", REPO, "remote", "get-url", "example/flixel"]);
    expect_run(s.step(ran(true, "https://example/flixel\n", "")), &["-C", REPO, "checkout", "v5.0.0"]);
    expect_run(s.step(ran(true, "", "")), &["-C", REPO, "submodule", "update", "--init", "--recursive"]);
    expect_done(s.step(ran(true, "", "")), GitNote::Installed);
    assert!(s.is_finished());

    let head = "0123456789abcdef0123456789abcdef01234567";
    let after = CacheProbe {
        lib_dir_exists: true,
        dev_marker: MarkerRead::Absent,
        current_marker: MarkerRead::Contents("git".to_string()),
        git_dir_exists: true,
        repo: RepoRead::Opened { head: head.to_string(), ref_target: Some(head.to_string()), dirty: false },
    };
    let st = check_dependency(&lib, &after).unwrap();
    assert_eq!(st.install_type, InstallType::AlreadyInstalled);
    assert_eq!(st.wants, Some("v5.0.0".to_string()));
    assert_eq!(st.installed, Some("v5.0.0".to_string()));
}

#[test]
fn blobless_clone_falls_back_to_full_clone() {
    let lib = git_lib("flixel", "https://example/flixel", None);
    let (mut s, a) = install_session(&lib, false).unwrap();
    expect_run(a, &["clone", "--filter=blob:none", "https://example/flixel", REPO]);
    expect_run(s.step(ran(false, "", "filter not supported")), &["clone", "https://example/flixel", REPO]);
    expect_failed(s.step(ran(false, "", "boom")), GitError::CloneFailed);

    let (mut s, _) = install_session(&lib, false).unwrap();
    s.step(ran(false, "", ""));
    expect_run(s.step(ran(true, "", "")), &["-C", REPO, "remote", "get-url", "origin"]);
    match s.step(ran(false, "", "no such remote")) {
        GitAction::WriteMarker(_) => {}
        other => panic!("expected marker, got {:?}", other),
    }
    expect_run(s.step(GitEvent::Wrote(true)), &["-C", REPO, "submodule", "update", "--init", "--recursive"]);
    expect_failed(s.step(ran(false, "", "x")), GitError::SubmoduleFailed);
}

#[test]
fn existing_clone_repairs_remote_and_fetches() {
    let lib = git_lib("flixel", "https://example/flixel", Some("abc1234"));
    let (mut s, a) = install_session(&lib, true).unwrap();
    expect_run(a, &["-C", REPO, "remote", "get-url", "example/flixel"]);
    expect_run(
        s.step(ran(true, "https://old/flixel\n", "")),
        &["-C", REPO, "remote", "set-url", "example/flixel", "https://example/flixel"],
    );
    expect_run(s.step(ran(true, "", "")), &["-C", REPO, "checkout", "abc1234"]);
    expect_run(s.step(ran(false, "", "pathspec")), &["-C", REPO, "fetch", "example/flixel"]);
    expect_run(s.step(ran(true, "", "")), &["-C", REPO, "checkout", "abc1234"]);
    assert_eq!(expect_failed(s.step(ran(false, "", "still missing")), GitError::RefNotFound), "still missing");

    let (mut s, _) = install_session(&lib, true).unwrap();
    expect_run(s.step(ran(false, "", "")), &["-C", REPO, "remote", "add", "example/flixel", "https://example/flixel"]);
    expect_failed(s.step(ran(false, "", "")), GitError::RemoteAddFailed);

    let (mut s, _) = install_session(&lib, true).unwrap();
    s.step(ran(true, "https://old", ""));
    expect_failed(s.step(ran(false, "", "")), GitError::RemoteUpdateFailed);

    let (mut s, _) = install_session(&lib, true).unwrap();
    s.step(ran(true, "https://example/flixel", ""));
    expect_run(s.step(ran(true, "", "")), &["-C", REPO, "submodule", "update", "--init", "--recursive"]);
    expect_failed(s.step(GitEvent::Wrote(true)), GitError::UnexpectedEvent);
}

#[test]
fn sessions_need_a_usable_url() {
    let mut lib = git_lib("flixel", "https://example", Some("dev"));
    assert_eq!(install_session(&lib, false).err().map(|e| e), Some(GitSetupError::BadRemoteUrl));
    lib.url = None;
    assert_eq!(install_session(&lib, false).err(), Some(GitSetupError::MissingUrl));
    assert_eq!(conflict_session(&lib, ConflictResolution::Discard).err(), Some(GitSetupError::MissingUrl));
    let (s, a) = conflict_session(&lib, ConflictResolution::Skip).unwrap();
    expect_done(a, GitNote::Skipped);
    assert!(s.is_finished());
}

#[test]
fn stash_update_restore() {
    let lib = git_lib("flixel", "https://example/flixel", Some("dev"));
    let (mut s, a) = conflict_session(&lib, ConflictResolution::Stash).unwrap();
    expect_run(a, &["-C", REPO, "stash", "push", "-m", "hmm-rs: auto-stash before updating to dev"]);
    expect_run(s.step(ran(true, "", "")), &["-C", REPO, "remote", "get-url", "example/flixel"]);
    s.step(ran(true, "https://example/flixel", ""));
    s.step(ran(true, "", ""));
    expect_run(s.step(ran(true, "", "")), &["-C", REPO, "stash", "pop"]);
    expect_done(s.step(ran(false, "", "CONFLICT (content): Merge conflict in a.hx")), GitNote::StashConflict);

    let (mut s, _) = conflict_session(&lib, ConflictResolution::Stash).unwrap();
    s.step(ran(true, "", ""));
    s.step(ran(true, "https://example/flixel", ""));
    s.step(ran(true, "", ""));
    s.step(ran(true, "", ""));
    assert_eq!(expect_failed(s.step(ran(false, "", "error: bad")), GitError::StashPopFailed), "error: bad");

    let (mut s, _) = conflict_session(&lib, ConflictResolution::Stash).unwrap();
    s.step(ran(true, "", ""));
    s.step(ran(true, "https://example/flixel", ""));
    s.step(ran(true, "", ""));
    s.step(ran(true, "", ""));
    expect_done(s.step(ran(true, "", "")), GitNote::Installed);

    let unpinned = git_lib("flixel", "https://example/flixel", None);
    let (mut s, a) = conflict_session(&unpinned, ConflictResolution::Stash).unwrap();
    expect_run(a, &["-C", REPO, "stash", "push", "-m", "hmm-rs: auto-stash before updating to latest"]);
    expect_failed(s.step(ran(false, "", "")), GitError::StashFailed);
}

#[test]
fn discard_then_update() {
    let lib = git_lib("flixel", "https://example/flixel", Some("dev"));
    let (mut s, a) = conflict_session(&lib, ConflictResolution::Discard).unwrap();
    expect_run(a, &["-C", REPO, "reset", "--hard", "HEAD"]);
    expect_run(s.step(ran(true, "", "")), &["-C", REPO, "clean", "-fd"]);
    expect_run(s.step(ran(true, "", "")), &["-C", REPO, "remote", "get-url", "example/flixel"]);

    let (mut s, _) = conflict_session(&lib, ConflictResolution::Discard).unwrap();
    expect_failed(s.step(ran(false, "", "")), GitError::ResetFailed);
    let (mut s, _) = conflict_session(&lib, ConflictResolution::Discard).unwrap();
    s.step(ran(true, "", ""));
    expect_failed(s.step(ran(false, "", "")), GitError::CleanFailed);
}

#[test]
fn commit_then_update() {
    let lib = git_lib("flixel", "https://example/flixel", Some("dev"));
    let (mut s, a) = conflict_session(&lib, ConflictResolution::Commit).unwrap();
    assert!(matches!(a, GitAction::AskCommitMessage));
    expect_run(s.step(GitEvent::Answered("  fix things \n".to_string())), &["-C", REPO, "add", "-A"]);
    expect_run(s.step(ran(true, "", "")), &["-C", REPO, "commit", "-m", "fix things"]);
    expect_run(s.step(ran(false, "", "nothing to commit, working tree clean")), &["-C", REPO, "remote", "get-url", "example/flixel"]);

    let (mut s, _) = conflict_session(&lib, ConflictResolution::Commit).unwrap();
    expect_failed(s.step(GitEvent::Answered("  \n".to_string())), GitError::EmptyMessage);

    let (mut s, _) = conflict_session(&lib, ConflictResolution::Commit).unwrap();
    s.step(GitEvent::Answered("m".to_string()));
    expect_failed(s.step(ran(false, "", "")), GitError::StageFailed);

    let (mut s, _) = conflict_session(&lib, ConflictResolution::Commit).unwrap();
    s.step(GitEvent::Answered("m".to_string()));
    s.step(ran(true, "", ""));
    expect_failed(s.step(ran(false, "", "hook failed")), GitError::CommitFailed);
}

#[test]
fn session_fields_follow_the_library() {
    let lib = git_lib("my.lib", "git@github.com:Owner/My.Lib.git", Some("v1"));
    let (s, _): (GitSession, GitAction) = install_session(&lib, true).unwrap();
    assert_eq!(s.repo, ".haxelib/my,lib/git");
    assert_eq!(s.lib_dir, ".haxelib/my,lib");
    assert_eq!(s.remote, "owner/my.lib");
}
