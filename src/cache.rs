//! The cache layout: where each library lives on disk.
use vstd::prelude::*;

use crate::text::{escape_name, escaped};

verus! {

/// The cache root, relative to the project directory.
pub open spec fn cache_root() -> Seq<char> {
    ".haxelib"@
}

/// `<cache>/<escaped name>`.
pub open spec fn lib_path_of(name: Seq<char>) -> Seq<char> {
    cache_root() + "/"@ + escaped(name)
}

/// The directory a library is cached in.
pub fn get_lib_path(lib_name: &str) -> (r: String)
    ensures
        r@ == lib_path_of(lib_name@),
{
    let mut s = String::from_str(".haxelib");
    s.append("/");
    let e = escape_name(lib_name);
    s.append(e.as_str());
    s
}

/// The working copy of a repository library.
pub fn git_dir_path(lib_name: &str) -> (r: String)
    ensures
        r@ == lib_path_of(lib_name@) + "/git"@,
{
    get_lib_path(lib_name).concat("/git")
}

/// The marker naming what is installed.
pub fn current_marker_path(lib_name: &str) -> (r: String)
    ensures
        r@ == lib_path_of(lib_name@) + "/.current"@,
{
    get_lib_path(lib_name).concat("/.current")
}

/// The marker of a local-path library.
pub fn dev_marker_path(lib_name: &str) -> (r: String)
    ensures
        r@ == lib_path_of(lib_name@) + "/.dev"@,
{
    get_lib_path(lib_name).concat("/.dev")
}

/// Where a registry archive of the given version is extracted.
pub fn archive_dir_path(lib_name: &str, version: &str) -> (r: String)
    ensures
        r@ == lib_path_of(lib_name@) + "/"@ + escaped(version@),
{
    let mut s = get_lib_path(lib_name);
    s.append("/");
    let e = escape_name(version);
    s.append(e.as_str());
    s
}

} // verus!
