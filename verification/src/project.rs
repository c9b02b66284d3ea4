//! Project locations: the providers that hand out the manifest path and
//! the roots derived from it, and the build target triples.

use vstd::prelude::*;

use crate::errors::ConfigError;
use crate::paths::parent_dir;
use crate::paths::spec_parent;
use crate::str_eq;

verus! {

/// Hands out the location of the manifest file. Implementations may
/// search the filesystem, so nothing is promised of the result.
pub trait ManifestProvider {
    fn find_manifest_path(&self) -> Result<String, ConfigError>;
}

/// Hands out the project root (the directory holding the manifest) and
/// the build-output root.
pub trait ProjectProvider {
    fn get_project_path(&self) -> Result<String, ConfigError>;

    fn get_target_path(&self) -> Result<String, ConfigError>;
}

/// A supported build target.
#[derive(Clone, Copy, Debug, PartialEq, Eq, Structural)]
pub enum Target {
    Arm64V8a,
    ArmeabiV7a,
    X86_64,
    X86,
}

impl Target {
    /// The target triple this target is named by.
    pub open spec fn spec_str(self) -> Seq<char> {
        match self {
            Target::Arm64V8a => "aarch64-linux-android"@,
            Target::ArmeabiV7a => "armv7-linux-androideabi"@,
            Target::X86_64 => "x86_64-linux-android"@,
            Target::X86 => "i686-linux-android"@,
        }
    }

    /// The target named by a triple, if it is a supported one.
    pub open spec fn spec_of_str(s: Seq<char>) -> Option<Target> {
        if s == Target::Arm64V8a.spec_str() {
            Some(Target::Arm64V8a)
        } else if s == Target::ArmeabiV7a.spec_str() {
            Some(Target::ArmeabiV7a)
        } else if s == Target::X86_64.spec_str() {
            Some(Target::X86_64)
        } else if s == Target::X86.spec_str() {
            Some(Target::X86)
        } else {
            None
        }
    }

    /// The target triple this target is named by.
    pub fn to_str(&self) -> (r: &'static str)
        ensures
            r@ == self.spec_str(),
    {
        match self {
            Target::Arm64V8a => "aarch64-linux-android",
            Target::ArmeabiV7a => "armv7-linux-androideabi",
            Target::X86_64 => "x86_64-linux-android",
            Target::X86 => "i686-linux-android",
        }
    }

    /// Parses a target triple.
    pub fn try_from(value: &str) -> (r: Result<Target, ConfigError>)
        ensures
            match r {
                Ok(t) => Target::spec_of_str(value@) == Some(t),
                Err(e) => Target::spec_of_str(value@) is None && e == ConfigError::InvalidTarget,
            },
    {
        if str_eq(value, "aarch64-linux-android") {
            Ok(Target::Arm64V8a)
        } else if str_eq(value, "armv7-linux-androideabi") {
            Ok(Target::ArmeabiV7a)
        } else if str_eq(value, "x86_64-linux-android") {
            Ok(Target::X86_64)
        } else if str_eq(value, "i686-linux-android") {
            Ok(Target::X86)
        } else {
            Err(ConfigError::InvalidTarget)
        }
    }
}

/// The build-output root for a project root, target and build type:
/// `<project>/target/<triple>/<release|debug>`.
pub open spec fn spec_target_dir(project: Seq<char>, target: Target, release: bool) -> Seq<char> {
    project + "/target/"@ + target.spec_str() + "/"@ + (if release {
        "release"@
    } else {
        "debug"@
    })
}

/// Writes the build-output root for a project root, target and build type.
pub fn target_dir(project: &str, target: &Target, release: bool) -> (r: String)
    ensures
        r@ == spec_target_dir(project@, *target, release),
{
    let mut acc = String::from_str(project);
    acc.append("/target/");
    acc.append(target.to_str());
    acc.append("/");
    if release {
        acc.append("release");
    } else {
        acc.append("debug");
    }
    acc
}

/// Derives the project root and the build-output root from the manifest
/// location a [`ManifestProvider`] hands out.
#[derive(Debug, Clone)]
pub struct DefaultProject<M: ManifestProvider> {
    target: Target,
    release: bool,
    provider: M,
}

impl<M: ManifestProvider> DefaultProject<M> {
    /// The target this project builds for.
    pub closed spec fn spec_target(self) -> Target {
        self.target
    }

    /// Whether this is a release build.
    pub closed spec fn spec_release(self) -> bool {
        self.release
    }

    pub fn new(target: Target, release: bool, provider: M) -> (r: Self)
        ensures
            r.spec_target() == target,
            r.spec_release() == release,
    {
        DefaultProject { target, release, provider }
    }
}

impl<M: ManifestProvider> ProjectProvider for DefaultProject<M> {
    /// The directory holding the manifest file.
    fn get_project_path(&self) -> Result<String, ConfigError> {
        let manifest_path = match self.provider.find_manifest_path() {
            Ok(p) => p,
            Err(e) => {
                return Err(e);
            },
        };
        match parent_dir(manifest_path.as_str()) {
            Some(p) => Ok(p),
            None => Err(ConfigError::NoManifestParent),
        }
    }

    /// The build-output root under the project root.
    fn get_target_path(&self) -> Result<String, ConfigError> {
        match self.get_project_path() {
            Ok(p) => Ok(target_dir(p.as_str(), &self.target, self.release)),
            Err(e) => Err(e),
        }
    }
}

} // verus!
