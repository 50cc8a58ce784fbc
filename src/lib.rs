//! Dependency manager core for a Haxe library cache: the manifest model, the
//! cache layout, status reconciliation, the install decisions, the
//! version-control command sequences and the lock engine.
//!
//! Nothing here touches the disk, the network or a terminal: the caller reads
//! the cache into probes, runs the commands a session names, and reports back.
pub mod cache;
pub mod commands;
pub mod commit;
pub mod conflict;
pub mod dependencies;
pub mod git;
pub mod haxelib;
pub mod install;
pub mod lock;
pub mod order;
pub mod remote;
pub mod status;
pub mod text;

pub use cache::get_lib_path;
pub use conflict::{parse_conflict_choice, ConflictResolution};
pub use dependencies::{create_empty_hmm_json, Dependancies};
pub use git::{conflict_session, install_session, GitAction, GitEvent, GitSession};
pub use haxelib::{Haxelib, HaxelibType, ManifestError};
pub use install::{add_dependency, install_action, AddArgs, AddPlan, InstallAction};
pub use lock::{check_locked, is_locked, lock_dependencies, lock_dependency, LockResult, LockStatus};
pub use order::sorted_for_save;
pub use remote::parse_remote_name_from_url;
pub use status::{
    check_dependency, compare_haxelib_to_hmm, get_wants, CacheProbe, HaxelibStatus, InstallType,
    MarkerRead, RepoRead,
};
pub use text::escape_name;
