//! Error values reported by manifest compilation and staging.
//!
//! Every component fails fast: the first problem found is returned with
//! enough context to locate the offending manifest field, version
//! subcomponent, or asset entry.

use vstd::prelude::*;

verus! {

/// A scalar manifest field.
#[derive(Clone, Copy, Debug, PartialEq, Eq, Structural)]
pub enum FieldName {
    Id,
    Name,
    Version,
    Author,
}

/// The role a declared asset path plays.
#[derive(Clone, Copy, Debug, PartialEq, Eq, Structural)]
pub enum Role {
    Source,
    Dest,
}

/// The way a declared asset path failed the safety check.
#[derive(Clone, Copy, Debug, PartialEq, Eq, Structural)]
pub enum PathFault {
    /// The declared path is the empty string.
    Empty,
    /// The declared path is absolute; only relative paths are accepted.
    Absolute,
    /// A path component is the parent marker `..`.
    Parent,
    /// A path component is the current-directory marker `.`.
    CurDir,
    /// A path component is the reserved three-dot sentinel `...`.
    Sentinel,
}

/// The subcomponent of a version string that failed to parse.
#[derive(Clone, Copy, Debug, PartialEq, Eq, Structural)]
pub enum VersionPart {
    /// The major group is missing, too long, or not followed by `.`.
    Major,
    /// The minor group is missing, too long, or not followed by `.`.
    Minor,
    /// The patch group is missing or too long.
    Patch,
    /// The pre-release label is not one of `alpha`, `beta`, `rc`, or the
    /// text after the patch group does not start with `-`.
    PreType,
    /// The pre-release number is missing, too long, or followed by more text.
    PreCode,
}

/// The first problem found while compiling a manifest or staging a module.
#[derive(Clone, Copy, Debug, PartialEq, Eq, Structural)]
pub enum ConfigError {
    /// A scalar manifest field is empty.
    FieldEmpty(FieldName),
    /// The module identifier does not match the identifier grammar.
    IdFormat,
    /// The version string does not match the version grammar; names the
    /// offending subcomponent.
    VersionFormat(VersionPart),
    /// A declared asset path failed the safety check.
    PathSafety(Role, PathFault),
    /// An asset entry failed the safety check; names the entry's position
    /// in the manifest and the offending role.
    AssetPath(usize, Role, PathFault),
    /// The target triple is not one of the supported ones.
    InvalidTarget,
    /// The manifest path has no parent directory to use as project root.
    NoManifestParent,
    /// No manifest file could be found.
    ManifestNotFound,
    /// An asset source does not exist on disk at deploy time.
    AssetMissing,
    /// A filesystem operation failed while staging.
    Io,
}

} // verus!
