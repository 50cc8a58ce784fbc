//! The manifest model: one declared library and the manifest that lists them.
use vstd::prelude::*;

use crate::text::{copy_opt, escape_name, escaped};

verus! {

/// Where a library comes from.
#[derive(Debug, Clone, Copy, PartialEq, Eq, Structural)]
pub enum HaxelibType {
    /// A clone of a remote repository, pinned to a ref or commit.
    Git,
    /// A versioned archive from the central library server.
    Haxelib,
    /// A directory already present on disk.
    Dev,
    /// Declared, never implemented.
    Mecurial,
}

/// One declared library.
#[derive(Debug)]
pub struct Haxelib {
    pub name: String,
    pub haxelib_type: HaxelibType,
    pub vcs_ref: Option<String>,
    pub dir: Option<String>,
    pub path: Option<String>,
    pub url: Option<String>,
    pub version: Option<String>,
}

/// A field that the library's kind needs is absent, or the kind has no such
/// operation.
#[derive(Debug, Clone, Copy, PartialEq, Eq, Structural)]
pub enum ManifestError {
    MissingVersion,
    MissingVcsRef,
    MissingUrl,
    UnsupportedType,
}

/// The host that serves registry archives.
pub open spec fn registry_prefix() -> Seq<char> {
    "https://lib.haxe.org/p/"@
}

/// The download address of a registry archive.
pub open spec fn registry_url(name: Seq<char>, version: Seq<char>) -> Seq<char> {
    registry_prefix() + name + "/"@ + version + "/download"@
}

/// The download address of a registry archive.
pub fn registry_archive_url(name: &str, version: &str) -> (r: String)
    ensures
        r@ == registry_url(name@, version@),
{
    let mut s = String::from_str("https://lib.haxe.org/p/");
    s.append(name);
    s.append("/");
    s.append(version);
    s.append("/download");
    s
}

impl Haxelib {
    /// A field-by-field copy.
    pub fn duplicate(&self) -> (r: Haxelib)
        ensures
            r == *self,
    {
        Haxelib {
            name: self.name.clone(),
            haxelib_type: self.haxelib_type,
            vcs_ref: copy_opt(&self.vcs_ref),
            dir: copy_opt(&self.dir),
            path: copy_opt(&self.path),
            url: copy_opt(&self.url),
            version: copy_opt(&self.version),
        }
    }

    /// The declared version; a registry library must have one by now.
    pub fn version(&self) -> (r: &str)
        requires
            self.version is Some,
        ensures
            r@ == self.version->0@,
    {
        match &self.version {
            Some(v) => v.as_str(),
            None => "",
        }
    }

    /// The declared ref; a repository library must have one by now.
    pub fn vcs_ref(&self) -> (r: &str)
        requires
            self.vcs_ref is Some,
        ensures
            r@ == self.vcs_ref->0@,
    {
        match &self.vcs_ref {
            Some(v) => v.as_str(),
            None => "",
        }
    }

    /// The repository URL; a repository library must have one.
    pub fn url(&self) -> (r: &str)
        requires
            self.url is Some,
        ensures
            r@ == self.url->0@,
    {
        match &self.url {
            Some(v) => v.as_str(),
            None => "",
        }
    }

    pub fn try_version(&self) -> (r: Option<&str>)
        ensures
            r is Some <==> self.version is Some,
            r is Some ==> r->0@ == self.version->0@,
    {
        match &self.version {
            Some(v) => Some(v.as_str()),
            None => None,
        }
    }

    pub fn try_vcs_ref(&self) -> (r: Option<&str>)
        ensures
            r is Some <==> self.vcs_ref is Some,
            r is Some ==> r->0@ == self.vcs_ref->0@,
    {
        match &self.vcs_ref {
            Some(v) => Some(v.as_str()),
            None => None,
        }
    }

    pub fn try_url(&self) -> (r: Option<&str>)
        ensures
            r is Some <==> self.url is Some,
            r is Some ==> r->0@ == self.url->0@,
    {
        match &self.url {
            Some(v) => Some(v.as_str()),
            None => None,
        }
    }

    /// Where the library is fetched from: the registry archive address for a
    /// registry library, the repository URL for a repository library.
    pub fn download_url(&self) -> (r: Result<String, ManifestError>)
        ensures
            match self.haxelib_type {
                HaxelibType::Haxelib => match self.version {
                    Some(v) => r is Ok && r->Ok_0@ == registry_url(self.name@, v@),
                    None => r == Err::<String, ManifestError>(ManifestError::MissingVersion),
                },
                HaxelibType::Git => match self.url {
                    Some(u) => r is Ok && r->Ok_0@ == u@,
                    None => r == Err::<String, ManifestError>(ManifestError::MissingUrl),
                },
                _ => r == Err::<String, ManifestError>(ManifestError::UnsupportedType),
            },
    {
        match self.haxelib_type {
            HaxelibType::Haxelib => match &self.version {
                Some(v) => Ok(registry_archive_url(self.name.as_str(), v.as_str())),
                None => Err(ManifestError::MissingVersion),
            },
            HaxelibType::Git => match &self.url {
                Some(u) => Ok(u.clone()),
                None => Err(ManifestError::MissingUrl),
            },
            _ => Err(ManifestError::UnsupportedType),
        }
    }

    /// The version (registry) or ref (repository) the manifest asks for.
    pub fn version_or_ref(&self) -> (r: Result<&str, ManifestError>)
        ensures
            match self.haxelib_type {
                HaxelibType::Haxelib => match self.version {
                    Some(v) => r is Ok && r->Ok_0@ == v@,
                    None => r == Err::<&str, ManifestError>(ManifestError::MissingVersion),
                },
                HaxelibType::Git => match self.vcs_ref {
                    Some(v) => r is Ok && r->Ok_0@ == v@,
                    None => r == Err::<&str, ManifestError>(ManifestError::MissingVcsRef),
                },
                _ => r == Err::<&str, ManifestError>(ManifestError::UnsupportedType),
            },
    {
        match self.haxelib_type {
            HaxelibType::Haxelib => match &self.version {
                Some(v) => Ok(v.as_str()),
                None => Err(ManifestError::MissingVersion),
            },
            HaxelibType::Git => match &self.vcs_ref {
                Some(v) => Ok(v.as_str()),
                None => Err(ManifestError::MissingVcsRef),
            },
            _ => Err(ManifestError::UnsupportedType),
        }
    }

    /// The declared version with every `.` turned into `,`: the name of the
    /// directory a registry archive is extracted into.
    pub fn version_as_commas(&self) -> (r: String)
        requires
            self.version is Some,
        ensures
            r@ == escaped(self.version->0@),
    {
        escape_name(self.version())
    }

    /// The name with every `.` turned into `,`: the library's cache directory.
    pub fn name_as_commas(&self) -> (r: String)
        ensures
            r@ == escaped(self.name@),
    {
        escape_name(self.name.as_str())
    }
}

} // verus!
