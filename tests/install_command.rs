use hmm_rs::haxelib::{Haxelib, HaxelibType, ManifestError};
use hmm_rs::install::{
    archive_plan, check_download_size, detected_ref, dev_dependency, git_dependency, progress_after,
    registry_dependency, IncompleteDownload,
};
use hmm_rs::status::{HaxelibStatus, InstallType};
use hmm_rs::{add_dependency, install_action, AddArgs, AddPlan, InstallAction};

fn lib(kind: HaxelibType) -> Haxelib {
    Haxelib {
        name: "x".to_string(),
        haxelib_type: kind,
        vcs_ref: None,
        dir: None,
        path: None,
        url: None,
        version: None,
    }
}

#[test]
fn dispatch_table() {
    let kinds = [HaxelibType::Haxelib, HaxelibType::Git, HaxelibType::Dev, HaxelibType::Mecurial];
    let acquire = [
        InstallAction::FetchArchive,
        InstallAction::SyncRepository,
        InstallAction::NotImplemented,
        InstallAction::NotImplemented,
    ];
    for (k, want) in kinds.iter().zip(acquire.iter()) {
        let l = lib(*k);
        for t in [InstallType::Missing, InstallType::MissingGit, InstallType::Outdated] {
            let st = HaxelibStatus::new(&l, t, None, None);
            assert_eq!(install_action(&st), *want);
        }
        let st = HaxelibStatus::new(&l, InstallType::Conflict, None, None);
        assert_eq!(install_action(&st), InstallAction::ResolveConflict);
        for t in [InstallType::AlreadyInstalled, InstallType::NotLocked] {
            let st = HaxelibStatus::new(&l, t, None, None);
            assert_eq!(install_action(&st), InstallAction::Nothing);
        }
    }
}

#[test]
fn archive_plan_for_registry_install() {
    let mut l = lib(HaxelibType::Haxelib);
    l.name = "hx.format".to_string();
    assert_eq!(archive_plan(&l).err(), Some(ManifestError::MissingVersion));
    l.version = Some("3.5.0".to_string());
    let p = archive_plan(&l).unwrap();
    assert_eq!(p.url, "https://lib.haxe.org/p/hx.format/3.5.0/download");
    assert_eq!(p.lib_dir, ".haxelib/hx,format");
    assert_eq!(p.marker, "3.5.0");
    assert_eq!(p.extract_dir, ".haxelib/hx,format/3,5,0");
}

#[test]
fn download_size_and_progress() {
    assert_eq!(check_download_size(10, 10), Ok(()));
    assert_eq!(check_download_size(10, 9), Err(IncompleteDownload { expected: 10, actual: 9 }));
    assert_eq!(progress_after(0, 4, 10), 4);
    assert_eq!(progress_after(8, 4, 10), 10);
    assert_eq!(progress_after(6, 4, 10), 10);
    assert_eq!(progress_after(u64::MAX, u64::MAX, 7), 7);
}

#[test]
fn new_entries() {
    let r = registry_dependency("format", &Some("1.0.0".to_string()));
    assert_eq!((r.name.as_str(), r.haxelib_type, r.version.as_deref()), ("format", HaxelibType::Haxelib, Some("1.0.0")));
    let g = git_dependency("flixel", "https://example/flixel", &None);
    assert_eq!(g.haxelib_type, HaxelibType::Git);
    assert_eq!(g.url.as_deref(), Some("https://example/flixel"));
    assert_eq!(g.vcs_ref, None);
    let d = dev_dependency("local", "../local");
    assert_eq!(d.haxelib_type, HaxelibType::Dev);
    assert_eq!(d.path.as_deref(), Some("../local"));
}

#[test]
fn detected_ref_prefers_branch_then_commit() {
    let s = |x: &str| Some(x.to_string());
    assert_eq!(detected_ref(&s("main\n"), &s("abc\n")), "main");
    assert_eq!(detected_ref(&s("HEAD\n"), &s("abc123\n")), "abc123");
    assert_eq!(detected_ref(&s("HEAD\n"), &None), "HEAD");
    assert_eq!(detected_ref(&None, &s(" abc ")), "abc");
    assert_eq!(detected_ref(&None, &None), "main");
}

#[test]
fn add_chooses_source() {
    let a = AddArgs { name: "flixel".to_string(), git: Some("https://example/flixel".to_string()), git_ref: Some("dev".to_string()) };
    match add_dependency(&a) {
        AddPlan::Git { name, url, git_ref } => {
            assert_eq!(name, "flixel");
            assert_eq!(url, "https://example/flixel");
            assert_eq!(git_ref.as_deref(), Some("dev"));
        }
        other => panic!("unexpected {:?}", other),
    }
    let a = AddArgs { name: "format".to_string(), git: None, git_ref: None };
    match add_dependency(&a) {
        AddPlan::Haxelib { name, version } => {
            assert_eq!(name, "format");
            assert_eq!(version, None);
        }
        other => panic!("unexpected {:?}", other),
    }
}
