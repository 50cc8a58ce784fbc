use hmm_rs::haxelib::{Haxelib, HaxelibType};
use hmm_rs::lock::{
    check_locked, is_locked, lock_dependencies, lock_dependency, HeadRead, LockError, LockProbe,
    LockResult, LockStatus,
};
use hmm_rs::status::{check_dependency, CacheProbe, InstallType, MarkerRead, RepoRead};
use hmm_rs::Dependancies;

fn lib(name: &str, kind: HaxelibType, vcs_ref: Option<&str>, version: Option<&str>) -> Haxelib {
    Haxelib {
        name: name.to_string(),
        haxelib_type: kind,
        vcs_ref: vcs_ref.map(|s| s.to_string()),
        dir: None,
        path: None,
        url: None,
        version: version.map(|s| s.to_string()),
    }
}

fn marker_probe(m: MarkerRead) -> LockProbe {
    LockProbe { current_marker: m, head: HeadRead::NotCloned }
}

fn head_probe(full: &str, short: &str) -> LockProbe {
    LockProbe {
        current_marker: MarkerRead::Contents("git".to_string()),
        head: HeadRead::Head { full: full.to_string(), short: short.to_string() },
    }
}

const FULL: &str = "0123456789abcdef0123456789abcdef01234567";

fn text(r: &LockResult) -> (&'static str, String) {
    match r {
        LockResult::Locked(s) => ("locked", s.clone()),
        LockResult::Skipped(s) => ("skipped", s.clone()),
        LockResult::AlreadyLocked(s) => ("already", s.clone()),
    }
}

fn same(a: &Haxelib, b: &Haxelib) -> bool {
    a.name == b.name
        && a.haxelib_type == b.haxelib_type
        && a.vcs_ref == b.vcs_ref
        && a.dir == b.dir
        && a.path == b.path
        && a.url == b.url
        && a.version == b.version
}

#[test]
fn lock_registry_reads_marker() {
    let mut h = lib("format", HaxelibType::Haxelib, None, None);
    let r = lock_dependency(&mut h, false, &marker_probe(MarkerRead::Contents("3.5.0".to_string()))).unwrap();
    assert_eq!(text(&r), ("locked", "3.5.0".to_string()));
    assert_eq!(h.version, Some("3.5.0".to_string()));
}

#[test]
fn lock_registry_already_locked_changes_nothing() {
    let mut h = lib("format", HaxelibType::Haxelib, None, Some("1.0.0"));
    let before = h.duplicate();
    let r = lock_dependency(&mut h, false, &marker_probe(MarkerRead::Contents("2.0.0".to_string()))).unwrap();
    assert_eq!(text(&r), ("already", "1.0.0".to_string()));
    assert!(same(&h, &before));
}

#[test]
fn lock_registry_needs_an_install() {
    let mut h = lib("format", HaxelibType::Haxelib, None, None);
    assert_eq!(lock_dependency(&mut h, false, &marker_probe(MarkerRead::Absent)).err(), Some(LockError::NotInstalled));
    assert_eq!(h.version, None);
    assert_eq!(
        lock_dependency(&mut h, false, &marker_probe(MarkerRead::Unreadable)).err(),
        Some(LockError::MarkerUnreadable)
    );
}

#[test]
fn lock_git_short_and_long_ids() {
    let mut h = lib("flixel", HaxelibType::Git, Some("dev"), None);
    let r = lock_dependency(&mut h, false, &head_probe(FULL, "0123456")).unwrap();
    assert_eq!(text(&r), ("locked", "0123456".to_string()));
    assert_eq!(h.vcs_ref, Some("0123456".to_string()));

    let r = lock_dependency(&mut h, true, &head_probe(FULL, "0123456")).unwrap();
    assert_eq!(text(&r), ("locked", FULL.to_string()));
    assert_eq!(h.vcs_ref, Some(FULL.to_string()));
}

#[test]
fn lock_git_twice_is_already_locked() {
    let mut h = lib("flixel", HaxelibType::Git, None, None);
    let p = head_probe(FULL, "0123456");
    let first = lock_dependency(&mut h, false, &p).unwrap();
    assert_eq!(text(&first).0, "locked");
    let after_first = h.duplicate();
    let second = lock_dependency(&mut h, false, &p).unwrap();
    assert_eq!(text(&second), ("already", "0123456".to_string()));
    assert!(same(&h, &after_first));
}

#[test]
fn lock_git_errors_and_skips() {
    let mut h = lib("flixel", HaxelibType::Git, None, None);
    let p = LockProbe { current_marker: MarkerRead::Absent, head: HeadRead::NotCloned };
    assert_eq!(lock_dependency(&mut h, false, &p).err(), Some(LockError::NotCloned));
    let p = LockProbe { current_marker: MarkerRead::Absent, head: HeadRead::Broken };
    assert_eq!(lock_dependency(&mut h, false, &p).err(), Some(LockError::RepoUnavailable));

    let mut d = lib("local", HaxelibType::Dev, None, None);
    let r = lock_dependency(&mut d, false, &p).unwrap();
    assert_eq!(text(&r), ("skipped", "dev dependencies are already locked by path".to_string()));
    let mut m = lib("old", HaxelibType::Mecurial, None, None);
    let r = lock_dependency(&mut m, false, &p).unwrap();
    assert_eq!(text(&r), ("skipped", "mercurial not yet supported".to_string()));
}

#[test]
fn is_locked_per_kind() {
    assert!(matches!(is_locked(&lib("a", HaxelibType::Haxelib, None, Some("1"))), LockStatus::Locked));
    match is_locked(&lib("a", HaxelibType::Haxelib, None, None)) {
        LockStatus::NotLocked(r) => assert_eq!(r, "no version specified"),
        _ => panic!("expected not locked"),
    }
    match is_locked(&lib("a", HaxelibType::Git, None, None)) {
        LockStatus::NotLocked(r) => assert_eq!(r, "no ref specified"),
        _ => panic!("expected not locked"),
    }
    assert!(matches!(is_locked(&lib("a", HaxelibType::Mecurial, Some("x"), None)), LockStatus::Locked));
    assert!(matches!(is_locked(&lib("a", HaxelibType::Dev, None, None)), LockStatus::NotApplicable));
}

#[test]
fn lock_selection_and_counts() {
    let deps = Dependancies {
        dependencies: vec![
            lib("format", HaxelibType::Haxelib, None, None),
            lib("lime", HaxelibType::Haxelib, None, Some("8.0.0")),
            lib("flixel", HaxelibType::Git, None, None),
            lib("local", HaxelibType::Dev, None, None),
        ],
    };
    let probes = vec![
        marker_probe(MarkerRead::Contents("3.5.0".to_string())),
        marker_probe(MarkerRead::Contents("8.0.0".to_string())),
        LockProbe { current_marker: MarkerRead::Absent, head: HeadRead::NotCloned },
        marker_probe(MarkerRead::Absent),
    ];
    let rep = lock_dependencies(&deps, &None, false, &probes).unwrap();
    assert_eq!((rep.locked_count, rep.skipped_count, rep.error_count), (1, 2, 1));
    assert!(rep.should_save());
    assert!(rep.failed());
    assert_eq!(rep.updated.dependencies[0].version, Some("3.5.0".to_string()));
    assert_eq!(rep.updated.dependencies[2].vcs_ref, None);

    let only = Some(vec!["lime".to_string()]);
    let rep = lock_dependencies(&deps, &only, false, &probes).unwrap();
    assert_eq!((rep.locked_count, rep.skipped_count, rep.error_count), (0, 1, 0));
    assert!(!rep.should_save());
    assert!(rep.outcomes[0].is_none());
    assert_eq!(rep.updated.dependencies[0].version, None);

    let unknown = Some(vec!["lime".to_string(), "nope".to_string()]);
    assert_eq!(lock_dependencies(&deps, &unknown, false, &probes).err().unwrap().name, "nope");
}

#[test]
fn registry_lock_scenario() {
    let deps = Dependancies { dependencies: vec![lib("format", HaxelibType::Haxelib, None, None)] };
    let cache = CacheProbe {
        lib_dir_exists: true,
        dev_marker: MarkerRead::Absent,
        current_marker: MarkerRead::Contents("3.5.0".to_string()),
        git_dir_exists: false,
        repo: RepoRead::Unopened,
    };
    let st = check_dependency(&deps.dependencies[0], &cache).unwrap();
    assert_eq!(st.install_type, InstallType::NotLocked);

    let check = check_locked(&deps);
    assert_eq!(check.locked_count, 0);
    assert!(!check.all_locked());
    assert!(matches!(check.statuses[0], LockStatus::NotLocked(_)));

    let probes = vec![marker_probe(MarkerRead::Contents("3.5.0".to_string()))];
    let rep = lock_dependencies(&deps, &None, false, &probes).unwrap();
    assert_eq!(rep.updated.dependencies[0].version, Some("3.5.0".to_string()));
    assert!(rep.should_save());

    let check = check_locked(&rep.updated);
    assert_eq!(check.locked_count, 1);
    assert!(check.all_locked());
}
