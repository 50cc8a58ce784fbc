use hmm_rs::cache::{archive_dir_path, current_marker_path, dev_marker_path, git_dir_path};
use hmm_rs::dependencies::NotDeclared;
use hmm_rs::haxelib::{Haxelib, HaxelibType, ManifestError};
use hmm_rs::{create_empty_hmm_json, escape_name, get_lib_path, sorted_for_save, Dependancies};

fn lib(name: &str, kind: HaxelibType) -> Haxelib {
    Haxelib {
        name: name.to_string(),
        haxelib_type: kind,
        vcs_ref: None,
        dir: None,
        path: None,
        url: None,
        version: None,
    }
}

fn names(d: &Dependancies) -> Vec<String> {
    d.dependencies.iter().map(|h| h.name.clone()).collect()
}

#[test]
fn accessors_return_declared_fields() {
    let mut h = lib("lime", HaxelibType::Haxelib);
    assert_eq!(h.try_version(), None);
    assert_eq!(h.try_vcs_ref(), None);
    assert_eq!(h.try_url(), None);
    h.version = Some("8.1.2".to_string());
    h.vcs_ref = Some("main".to_string());
    h.url = Some("https://example/lime".to_string());
    assert_eq!(h.version(), "8.1.2");
    assert_eq!(h.vcs_ref(), "main");
    assert_eq!(h.url(), "https://example/lime");
    assert_eq!(h.try_version(), Some("8.1.2"));
    assert_eq!(h.try_vcs_ref(), Some("main"));
    assert_eq!(h.try_url(), Some("https://example/lime"));
}

#[test]
fn download_url_by_kind() {
    let mut h = lib("format", HaxelibType::Haxelib);
    assert_eq!(h.download_url(), Err(ManifestError::MissingVersion));
    h.version = Some("3.5.0".to_string());
    assert_eq!(h.download_url(), Ok("https://lib.haxe.org/p/format/3.5.0/download".to_string()));

    let mut g = lib("flixel", HaxelibType::Git);
    assert_eq!(g.download_url(), Err(ManifestError::MissingUrl));
    g.url = Some("https://github.com/HaxeFlixel/flixel".to_string());
    assert_eq!(g.download_url(), Ok("https://github.com/HaxeFlixel/flixel".to_string()));

    assert_eq!(lib("d", HaxelibType::Dev).download_url(), Err(ManifestError::UnsupportedType));
    assert_eq!(lib("m", HaxelibType::Mecurial).download_url(), Err(ManifestError::UnsupportedType));
}

#[test]
fn version_or_ref_by_kind() {
    let mut h = lib("format", HaxelibType::Haxelib);
    assert_eq!(h.version_or_ref(), Err(ManifestError::MissingVersion));
    h.version = Some("1.0.0".to_string());
    assert_eq!(h.version_or_ref(), Ok("1.0.0"));
    let mut g = lib("flixel", HaxelibType::Git);
    assert_eq!(g.version_or_ref(), Err(ManifestError::MissingVcsRef));
    g.vcs_ref = Some("dev".to_string());
    assert_eq!(g.version_or_ref(), Ok("dev"));
    assert_eq!(lib("d", HaxelibType::Dev).version_or_ref(), Err(ManifestError::UnsupportedType));
}

#[test]
fn commas_replace_dots_only() {
    let mut h = lib("my.lib.core", HaxelibType::Haxelib);
    h.version = Some("1.2.3-rc.1".to_string());
    assert_eq!(h.version_as_commas(), "1,2,3-rc,1");
    assert_eq!(h.name_as_commas(), "my,lib,core");
    assert_eq!(escape_name("my.lib.core"), "my,lib,core");
    assert_eq!(escape_name("a_b-c/d,e"), "a_b-c/d,e");
    assert_eq!(escape_name(""), "");
    assert_eq!(escape_name("..."), ",,,");
    assert_eq!(escape_name("é.ü"), "é,ü");
}

#[test]
fn cache_paths_use_escaped_names() {
    assert_eq!(get_lib_path("my.lib.core"), ".haxelib/my,lib,core");
    assert_eq!(git_dir_path("flixel.addons"), ".haxelib/flixel,addons/git");
    assert_eq!(current_marker_path("lime"), ".haxelib/lime/.current");
    assert_eq!(dev_marker_path("a.b"), ".haxelib/a,b/.dev");
    assert_eq!(archive_dir_path("a.b", "1.0.0"), ".haxelib/a,b/1,0,0");
}

#[test]
fn save_order_ignores_case() {
    let d = Dependancies {
        dependencies: vec![
            lib("Zeta", HaxelibType::Haxelib),
            lib("alpha", HaxelibType::Haxelib),
            lib("Beta", HaxelibType::Haxelib),
        ],
    };
    assert_eq!(names(&sorted_for_save(&d)), vec!["alpha", "Beta", "Zeta"]);
}

#[test]
fn save_order_is_stable_for_equal_names() {
    let d = Dependancies {
        dependencies: vec![
            lib("b", HaxelibType::Haxelib),
            lib("LIME", HaxelibType::Git),
            lib("a", HaxelibType::Haxelib),
            lib("lime", HaxelibType::Dev),
            lib("Lime", HaxelibType::Haxelib),
        ],
    };
    let s = sorted_for_save(&d);
    assert_eq!(names(&s), vec!["a", "b", "LIME", "lime", "Lime"]);
    assert_eq!(s.dependencies[2].haxelib_type, HaxelibType::Git);
    assert_eq!(s.dependencies[3].haxelib_type, HaxelibType::Dev);
}

#[test]
fn save_order_of_any_permutation_is_the_same() {
    let orders = [["c", "A", "b"], ["b", "c", "A"], ["A", "b", "c"]];
    for o in orders {
        let d = Dependancies { dependencies: o.iter().map(|n| lib(n, HaxelibType::Haxelib)).collect() };
        assert_eq!(names(&sorted_for_save(&d)), vec!["A", "b", "c"]);
    }
    assert!(sorted_for_save(&create_empty_hmm_json()).dependencies.is_empty());
}

#[test]
fn get_haxelib_and_upsert() {
    let mut d = Dependancies { dependencies: vec![lib("a", HaxelibType::Haxelib), lib("b", HaxelibType::Haxelib)] };
    assert_eq!(d.get_haxelib("b").unwrap().name, "b");
    assert_eq!(d.get_haxelib("B").err(), Some(NotDeclared));
    d.upsert(lib("a", HaxelibType::Git));
    assert_eq!(names(&d), vec!["b", "a"]);
    assert_eq!(d.dependencies[1].haxelib_type, HaxelibType::Git);
    d.upsert(lib("c", HaxelibType::Dev));
    assert_eq!(names(&d), vec!["b", "a", "c"]);
}
