//! The compiled module descriptor: validated manifest fields, the encoded
//! version, and the resolved asset list.

use vstd::prelude::*;

use crate::errors::ConfigError;
use crate::errors::FieldName;
use crate::errors::PathFault;
use crate::errors::Role;
use crate::paths::join_under;
use crate::paths::path_components;
use crate::paths::path_fault;
use crate::paths::spec_join;
use crate::paths::spec_staging_dir;
use crate::paths::split_components;
use crate::paths::staging_dir;
use crate::project::ProjectProvider;
use crate::str_eq;
use crate::version_code::code_chars;
use crate::version_code::encode_digits;
use crate::version_code::spec_parse_version;
use crate::version_code::VersionCode;

verus! {

/// A character that may start an identifier: a letter.
pub open spec fn is_id_start(c: char) -> bool {
    ('A' <= c && c <= 'Z') || ('a' <= c && c <= 'z')
}

/// A character that may continue an identifier: a letter, a digit, or one
/// of `.`, `_`, `-`.
pub open spec fn is_id_char(c: char) -> bool {
    is_id_start(c) || crate::is_digit_char(c) || c == '.' || c == '_' || c == '-'
}

/// The identifier grammar: a letter followed by at least one more letter,
/// digit, dot, underscore or hyphen.
pub open spec fn valid_id(s: Seq<char>) -> bool {
    s.len() >= 2 && is_id_start(s[0]) && forall|i: int| 1 <= i < s.len() ==> is_id_char(s[i])
}

/// The first validation failure of the four scalar manifest fields, in
/// checking order: empty `id`, malformed `id`, empty `name`, empty
/// `version`, empty `author`. The version's shape is not checked here;
/// the version encoder checks it.
pub open spec fn spec_validate(
    id: Seq<char>,
    name: Seq<char>,
    version: Seq<char>,
    author: Seq<char>,
) -> Option<ConfigError> {
    if id.len() == 0 {
        Some(ConfigError::FieldEmpty(FieldName::Id))
    } else if !valid_id(id) {
        Some(ConfigError::IdFormat)
    } else if name.len() == 0 {
        Some(ConfigError::FieldEmpty(FieldName::Name))
    } else if version.len() == 0 {
        Some(ConfigError::FieldEmpty(FieldName::Version))
    } else if author.len() == 0 {
        Some(ConfigError::FieldEmpty(FieldName::Author))
    } else {
        None
    }
}

/// The module descriptor: the validated scalar fields and the encoded
/// version code.
#[derive(Debug)]
pub struct ModuleProp {
    pub id: String,
    pub name: String,
    pub version: String,
    pub version_code: VersionCode,
    pub author: String,
}

impl ModuleProp {
    /// The fields pass validation, the version parses, and the stored
    /// code encodes the stored version.
    pub open spec fn wf(self) -> bool {
        &&& spec_validate(self.id@, self.name@, self.version@, self.author@) is None
        &&& spec_parse_version(self.version@) is Ok
        &&& self.version_code@ == encode_digits(spec_parse_version(self.version@)->Ok_0)
    }

    /// The rendered descriptor file: one `key=value` line per field, in
    /// the order `id`, `name`, `author`, `version`, `versionCode`, with a
    /// newline after each line.
    pub open spec fn spec_render(self) -> Seq<char> {
        "id="@ + self.id@ + "\n"@ + "name="@ + self.name@ + "\n"@ + "author="@ + self.author@
            + "\n"@ + "version="@ + self.version@ + "\n"@ + "versionCode="@ + code_chars(
            self.version_code@,
        ) + "\n"@
    }

    /// Checks the four scalar fields, reporting the first failure in
    /// checking order.
    fn validate(id: &str, name: &str, version: &str, author: &str) -> (r: Result<(), ConfigError>)
        ensures
            match r {
                Ok(()) => spec_validate(id@, name@, version@, author@) is None,
                Err(e) => spec_validate(id@, name@, version@, author@) == Some(e),
            },
    {
        let id_len = id.unicode_len();
        if id_len == 0 {
            return Err(ConfigError::FieldEmpty(FieldName::Id));
        }
        if id_len < 2 || !is_id_start_exec(id.get_char(0)) {
            return Err(ConfigError::IdFormat);
        }
        let mut i: usize = 1;
        while i < id_len
            invariant
                id_len == id@.len(),
                1 <= i <= id_len,
                forall|j: int| 1 <= j < i ==> is_id_char(id@[j]),
            decreases id_len - i,
        {
            if !is_id_char_exec(id.get_char(i)) {
                return Err(ConfigError::IdFormat);
            }
            i = i + 1;
        }
        if name.unicode_len() == 0 {
            return Err(ConfigError::FieldEmpty(FieldName::Name));
        }
        if version.unicode_len() == 0 {
            return Err(ConfigError::FieldEmpty(FieldName::Version));
        }
        if author.unicode_len() == 0 {
            return Err(ConfigError::FieldEmpty(FieldName::Author));
        }
        Ok(())
    }

    /// Validates the four scalar fields, encodes the version, and builds
    /// the descriptor, or reports the first failure: a field validation
    /// error first, a version format error second.
    pub fn new(id: String, name: String, version: String, author: String) -> (r: Result<
        ModuleProp,
        ConfigError,
    >)
        ensures
            match r {
                Ok(mp) => {
                    &&& spec_validate(id@, name@, version@, author@) is None
                    &&& spec_parse_version(version@) is Ok
                    &&& mp.id@ == id@
                    &&& mp.name@ == name@
                    &&& mp.version@ == version@
                    &&& mp.author@ == author@
                    &&& mp.version_code@ == encode_digits(spec_parse_version(version@)->Ok_0)
                    &&& mp.wf()
                },
                Err(e) => if spec_validate(id@, name@, version@, author@) is Some {
                    Some(e) == spec_validate(id@, name@, version@, author@)
                } else {
                    spec_parse_version(version@) is Err && e == ConfigError::VersionFormat(
                        spec_parse_version(version@)->Err_0,
                    )
                },
            },
    {
        match Self::validate(id.as_str(), name.as_str(), version.as_str(), author.as_str()) {
            Ok(()) => {},
            Err(e) => {
                return Err(e);
            },
        }
        let version_code = match VersionCode::try_from(version.as_str()) {
            Ok(vc) => vc,
            Err(e) => {
                return Err(e);
            },
        };
        Ok(ModuleProp { id, name, version, version_code, author })
    }

    /// Writes the descriptor file content.
    pub fn render(&self) -> (r: String)
        ensures
            r@ == self.spec_render(),
    {
        let mut acc = String::from_str("id=");
        acc.append(self.id.as_str());
        acc.append("\n");
        acc.append("name=");
        acc.append(self.name.as_str());
        acc.append("\n");
        acc.append("author=");
        acc.append(self.author.as_str());
        acc.append("\n");
        acc.append("version=");
        acc.append(self.version.as_str());
        acc.append("\n");
        acc.append("versionCode=");
        let code = self.version_code.code_string();
        acc.append(code.as_str());
        acc.append("\n");
        acc
    }
}

/// A letter.
fn is_id_start_exec(c: char) -> (r: bool)
    ensures
        r == is_id_start(c),
{
    ('A' <= c && c <= 'Z') || ('a' <= c && c <= 'z')
}

/// A letter, a digit, or one of `.`, `_`, `-`.
fn is_id_char_exec(c: char) -> (r: bool)
    ensures
        r == is_id_char(c),
{
    is_id_start_exec(c) || ('0' <= c && c <= '9') || c == '.' || c == '_' || c == '-'
}

/// One declared asset mapping, as written in the manifest: two relative
/// paths.
#[derive(Debug, Clone)]
pub struct AssetEntry {
    pub source: String,
    pub dest: String,
}

/// The four scalar manifest fields and the declared asset mappings: all
/// the manifest content the compiler reads.
#[derive(Debug)]
pub struct ManifestFields {
    pub id: String,
    pub name: String,
    pub version: String,
    pub author: String,
    pub assets: Vec<AssetEntry>,
}

/// One resolved asset mapping: an absolute source location and an
/// absolute destination under the staging directory.
#[derive(Debug)]
pub struct Asset {
    pub source: String,
    pub dest: String,
}

impl Asset {
    /// The resolved location of a declared source path: under the
    /// build-output root with the leading `target` segment stripped when
    /// the path starts with one, else under the project root.
    pub open spec fn spec_resolve_source(
        source: Seq<char>,
        project: Seq<char>,
        target: Seq<char>,
    ) -> Seq<char> {
        let cs = path_components(source);
        if cs.len() > 0 && cs[0] == "target"@ {
            spec_join(target, cs.drop_first())
        } else {
            spec_join(project, cs)
        }
    }

    /// The resolved location of a declared destination path: always under
    /// the staging directory.
    pub open spec fn spec_resolve_dest(dest: Seq<char>, target: Seq<char>) -> Seq<char> {
        spec_join(spec_staging_dir(target), path_components(dest))
    }

    /// `r` is the resolution of `source` against some pair of roots: what
    /// the provider-driven functions promise when the provider's answers
    /// cannot be named.
    pub open spec fn spec_source_resolved(source: Seq<char>, r: Seq<char>) -> bool {
        exists|project: Seq<char>, target: Seq<char>|
            r == Asset::spec_resolve_source(source, project, target)
    }

    /// `r` is the resolution of `dest` under some build-output root.
    pub open spec fn spec_dest_resolved(dest: Seq<char>, r: Seq<char>) -> bool {
        exists|target: Seq<char>| r == Asset::spec_resolve_dest(dest, target)
    }

    /// Checks a declared path's safety, naming the role in the error: a
    /// path must be relative, non-empty, and free of `.`, `..` and `...`
    /// components.
    pub fn check_path(path: &str, role: Role) -> (r: Result<(), ConfigError>)
        ensures
            match r {
                Ok(()) => path_fault(path@) is None,
                Err(e) => path_fault(path@) is Some && e == ConfigError::PathSafety(
                    role,
                    path_fault(path@)->0,
                ),
            },
    {
        if path.unicode_len() == 0 {
            return Err(ConfigError::PathSafety(role, PathFault::Empty));
        }
        if path.get_char(0) == '/' {
            return Err(ConfigError::PathSafety(role, PathFault::Absolute));
        }
        let comps = split_components(path);
        match crate::paths::components_fault(&comps) {
            Some(fault) => Err(ConfigError::PathSafety(role, fault)),
            None => Ok(()),
        }
    }

    /// Resolves a declared source path against the two roots.
    pub fn resolve_source(source: &str, project_path: &str, target_path: &str) -> (r: Result<
        String,
        ConfigError,
    >)
        ensures
            match r {
                Ok(p) => path_fault(source@) is None && p@ == Asset::spec_resolve_source(
                    source@,
                    project_path@,
                    target_path@,
                ),
                Err(e) => path_fault(source@) is Some && e == ConfigError::PathSafety(
                    Role::Source,
                    path_fault(source@)->0,
                ),
            },
    {
        match Self::check_path(source, Role::Source) {
            Ok(()) => {},
            Err(e) => {
                return Err(e);
            },
        }
        let comps = split_components(source);
        if comps.len() > 0 && str_eq(comps[0].as_str(), "target") {
            proof {
                assert(comps.deep_view().subrange(1, comps.deep_view().len() as int)
                    =~= path_components(source@).drop_first());
            }
            Ok(join_under(target_path, &comps, 1))
        } else {
            proof {
                assert(comps.deep_view().subrange(0, comps.deep_view().len() as int)
                    =~= path_components(source@));
            }
            Ok(join_under(project_path, &comps, 0))
        }
    }

    /// Resolves a declared destination path under the staging directory.
    pub fn resolve_dest(dest: &str, target_path: &str) -> (r: Result<String, ConfigError>)
        ensures
            match r {
                Ok(p) => path_fault(dest@) is None && p@ == Asset::spec_resolve_dest(
                    dest@,
                    target_path@,
                ),
                Err(e) => path_fault(dest@) is Some && e == ConfigError::PathSafety(
                    Role::Dest,
                    path_fault(dest@)->0,
                ),
            },
    {
        match Self::check_path(dest, Role::Dest) {
            Ok(()) => {},
            Err(e) => {
                return Err(e);
            },
        }
        let comps = split_components(dest);
        let staging = staging_dir(target_path);
        proof {
            assert(comps.deep_view().subrange(0, comps.deep_view().len() as int)
                =~= path_components(dest@));
        }
        Ok(join_under(staging.as_str(), &comps, 0))
    }

    /// Resolves a declared source path, asking the provider for the root
    /// it needs: the build-output root when the path starts with a
    /// `target` segment, the project root otherwise. The safety check
    /// comes first, so an unsafe path is reported whatever the provider
    /// would answer.
    pub fn parse_source<P: ProjectProvider>(source: String, provider: &P) -> (r: Result<
        String,
        ConfigError,
    >)
        ensures
            path_fault(source@) is Some ==> r == Err::<String, ConfigError>(
                ConfigError::PathSafety(Role::Source, path_fault(source@)->0),
            ),
            r is Ok ==> path_fault(source@) is None && Asset::spec_source_resolved(
                source@,
                r->Ok_0@,
            ),
    {
        match Self::check_path(source.as_str(), Role::Source) {
            Ok(()) => {},
            Err(e) => {
                return Err(e);
            },
        }
        let comps = split_components(source.as_str());
        if comps.len() > 0 && str_eq(comps[0].as_str(), "target") {
            let target_path = match provider.get_target_path() {
                Ok(p) => p,
                Err(e) => {
                    return Err(e);
                },
            };
            let resolved = join_under(target_path.as_str(), &comps, 1);
            proof {
                assert(comps.deep_view().subrange(1, comps.deep_view().len() as int)
                    =~= path_components(source@).drop_first());
                assert(resolved@ == Asset::spec_resolve_source(
                    source@,
                    target_path@,
                    target_path@,
                ));
                assert(Asset::spec_source_resolved(source@, resolved@));
            }
            Ok(resolved)
        } else {
            let project_path = match provider.get_project_path() {
                Ok(p) => p,
                Err(e) => {
                    return Err(e);
                },
            };
            let resolved = join_under(project_path.as_str(), &comps, 0);
            proof {
                assert(comps.deep_view().subrange(0, comps.deep_view().len() as int)
                    =~= path_components(source@));
                assert(resolved@ == Asset::spec_resolve_source(
                    source@,
                    project_path@,
                    project_path@,
                ));
                assert(Asset::spec_source_resolved(source@, resolved@));
            }
            Ok(resolved)
        }
    }

    /// Resolves a declared destination path, asking the provider for the
    /// build-output root. The safety check comes first.
    pub fn parse_dest<P: ProjectProvider>(dest: String, provider: &P) -> (r: Result<
        String,
        ConfigError,
    >)
        ensures
            path_fault(dest@) is Some ==> r == Err::<String, ConfigError>(
                ConfigError::PathSafety(Role::Dest, path_fault(dest@)->0),
            ),
            r is Ok ==> path_fault(dest@) is None && Asset::spec_dest_resolved(dest@, r->Ok_0@),
    {
        match Self::check_path(dest.as_str(), Role::Dest) {
            Ok(()) => {},
            Err(e) => {
                return Err(e);
            },
        }
        let target_path = match provider.get_target_path() {
            Ok(p) => p,
            Err(e) => {
                return Err(e);
            },
        };
        let comps = split_components(dest.as_str());
        let staging = staging_dir(target_path.as_str());
        let resolved = join_under(staging.as_str(), &comps, 0);
        proof {
            assert(comps.deep_view().subrange(0, comps.deep_view().len() as int)
                =~= path_components(dest@));
            assert(resolved@ == Asset::spec_resolve_dest(dest@, target_path@));
            assert(Asset::spec_dest_resolved(dest@, resolved@));
        }
        Ok(resolved)
    }

    /// Resolves one declared asset mapping, source first.
    pub fn try_new<P: ProjectProvider>(source: String, dest: String, provider: &P) -> (r: Result<
        Asset,
        ConfigError,
    >)
        ensures
            path_fault(source@) is Some ==> r == Err::<Asset, ConfigError>(
                ConfigError::PathSafety(Role::Source, path_fault(source@)->0),
            ),
            r is Ok ==> {
                &&& path_fault(source@) is None
                &&& path_fault(dest@) is None
                &&& Asset::spec_source_resolved(source@, r->Ok_0.source@)
                &&& Asset::spec_dest_resolved(dest@, r->Ok_0.dest@)
            },
    {
        let source = match Self::parse_source(source, provider) {
            Ok(p) => p,
            Err(e) => {
                return Err(e);
            },
        };
        let dest = match Self::parse_dest(dest, provider) {
            Ok(p) => p,
            Err(e) => {
                return Err(e);
            },
        };
        Ok(Asset { source, dest })
    }
}

/// The safety fault of one declared asset mapping, if any: the source is
/// checked before the destination.
pub open spec fn entry_fault(e: AssetEntry) -> Option<(Role, PathFault)> {
    if path_fault(e.source@) is Some {
        Some((Role::Source, path_fault(e.source@)->0))
    } else if path_fault(e.dest@) is Some {
        Some((Role::Dest, path_fault(e.dest@)->0))
    } else {
        None
    }
}

/// The first faulty asset mapping at or after position `i`, with its
/// position and fault.
pub open spec fn first_entry_fault(es: Seq<AssetEntry>, i: int) -> Option<(int, Role, PathFault)>
    decreases es.len() - i,
{
    if !(0 <= i < es.len()) {
        None
    } else {
        match entry_fault(es[i]) {
            Some(rf) => Some((i, rf.0, rf.1)),
            None => first_entry_fault(es, i + 1),
        }
    }
}

/// The compiled configuration: the module descriptor and the resolved
/// assets, in manifest order.
#[derive(Debug)]
pub struct Config {
    pub module_prop: ModuleProp,
    pub assets: Vec<Asset>,
}

impl Config {
    /// The first error compiling these manifest fields against the two
    /// roots would report: field validation first, then the version
    /// format, then the first unsafe asset path in manifest order.
    pub open spec fn spec_error(fields: ManifestFields) -> Option<ConfigError> {
        if spec_validate(fields.id@, fields.name@, fields.version@, fields.author@) is Some {
            spec_validate(fields.id@, fields.name@, fields.version@, fields.author@)
        } else if spec_parse_version(fields.version@) is Err {
            Some(ConfigError::VersionFormat(spec_parse_version(fields.version@)->Err_0))
        } else {
            match first_entry_fault(fields.assets@, 0) {
                Some((i, role, fault)) => Some(ConfigError::AssetPath(i as usize, role, fault)),
                None => None,
            }
        }
    }

    /// A successful compilation against some pair of roots: what
    /// [`Config::load`] promises when the provider's answers cannot be
    /// named.
    pub open spec fn spec_built_somewhere(c: Config, fields: ManifestFields) -> bool {
        exists|project: Seq<char>, target: Seq<char>|
            Config::spec_built(c, fields, project, target)
    }

    /// What a successful compilation contains: the descriptor carries the
    /// given fields, and each asset is the resolution of the declared
    /// mapping at the same position.
    pub open spec fn spec_built(
        c: Config,
        fields: ManifestFields,
        project: Seq<char>,
        target: Seq<char>,
    ) -> bool {
        &&& c.module_prop.id@ == fields.id@
        &&& c.module_prop.name@ == fields.name@
        &&& c.module_prop.version@ == fields.version@
        &&& c.module_prop.author@ == fields.author@
        &&& c.module_prop.wf()
        &&& c.assets@.len() == fields.assets@.len()
        &&& forall|i: int|
            0 <= i < fields.assets@.len() ==> (#[trigger] c.assets@[i]).source@
                == Asset::spec_resolve_source(fields.assets@[i].source@, project, target)
                && c.assets@[i].dest@ == Asset::spec_resolve_dest(
                fields.assets@[i].dest@,
                target,
            )
    }

    /// Compiles manifest fields against the two roots: validates the
    /// scalar fields, encodes the version, and resolves every declared
    /// asset mapping, or reports the first error.
    #[verifier::loop_isolation(false)]
    pub fn build(fields: ManifestFields, project_path: &str, target_path: &str) -> (r: Result<
        Config,
        ConfigError,
    >)
        ensures
            match r {
                Ok(c) => Config::spec_error(fields) is None && Config::spec_built(
                    c,
                    fields,
                    project_path@,
                    target_path@,
                ),
                Err(e) => Config::spec_error(fields) == Some(e),
            },
    {
        let ManifestFields { id, name, version, author, assets: entries } = fields;
        let module_prop = match ModuleProp::new(id, name, version, author) {
            Ok(mp) => mp,
            Err(e) => {
                return Err(e);
            },
        };
        let mut assets: Vec<Asset> = Vec::new();
        let mut i: usize = 0;
        while i < entries.len()
            invariant
                i <= entries.len(),
                first_entry_fault(entries@, 0) == first_entry_fault(entries@, i as int),
                assets@.len() == i,
                forall|j: int|
                    0 <= j < i ==> (#[trigger] assets@[j]).source@ == Asset::spec_resolve_source(
                        entries@[j].source@,
                        project_path@,
                        target_path@,
                    ) && assets@[j].dest@ == Asset::spec_resolve_dest(
                        entries@[j].dest@,
                        target_path@,
                    ),
            decreases entries.len() - i,
        {
            let entry = &entries[i];
            let source = match Asset::resolve_source(
                entry.source.as_str(),
                project_path,
                target_path,
            ) {
                Ok(p) => p,
                Err(e) => {
                    return Err(map_asset_error(e, i));
                },
            };
            let dest = match Asset::resolve_dest(entry.dest.as_str(), target_path) {
                Ok(p) => p,
                Err(e) => {
                    return Err(map_asset_error(e, i));
                },
            };
            assets.push(Asset { source, dest });
            i = i + 1;
        }
        Ok(Config { module_prop, assets })
    }

    /// Compiles manifest fields, asking the provider for the two roots.
    /// Field validation and version encoding come first, so a bad
    /// manifest is reported whatever the provider would answer; when
    /// compilation succeeds, every asset is resolved against the one pair
    /// of roots the provider handed out.
    #[verifier::loop_isolation(false)]
    pub fn load<P: ProjectProvider>(fields: ManifestFields, provider: &P) -> (r: Result<
        Config,
        ConfigError,
    >)
        ensures
            spec_validate(fields.id@, fields.name@, fields.version@, fields.author@) is Some
                ==> Some(r->Err_0) == spec_validate(
                fields.id@,
                fields.name@,
                fields.version@,
                fields.author@,
            ) && r is Err,
            (spec_validate(fields.id@, fields.name@, fields.version@, fields.author@) is None
                && spec_parse_version(fields.version@) is Err) ==> r == Err::<Config, ConfigError>(
                ConfigError::VersionFormat(spec_parse_version(fields.version@)->Err_0),
            ),
            r is Ok ==> Config::spec_built_somewhere(r->Ok_0, fields),
    {
        let ghost fields0 = fields;
        let ManifestFields { id, name, version, author, assets: entries } = fields;
        let module_prop = match ModuleProp::new(id, name, version, author) {
            Ok(mp) => mp,
            Err(e) => {
                return Err(e);
            },
        };
        let project_path = match provider.get_project_path() {
            Ok(p) => p,
            Err(e) => {
                return Err(e);
            },
        };
        let target_path = match provider.get_target_path() {
            Ok(p) => p,
            Err(e) => {
                return Err(e);
            },
        };
        let mut assets: Vec<Asset> = Vec::new();
        let mut i: usize = 0;
        while i < entries.len()
            invariant
                i <= entries.len(),
                assets@.len() == i,
                forall|j: int|
                    0 <= j < i ==> (#[trigger] assets@[j]).source@ == Asset::spec_resolve_source(
                        entries@[j].source@,
                        project_path@,
                        target_path@,
                    ) && assets@[j].dest@ == Asset::spec_resolve_dest(
                        entries@[j].dest@,
                        target_path@,
                    ),
            decreases entries.len() - i,
        {
            let entry = &entries[i];
            let source = match Asset::resolve_source(
                entry.source.as_str(),
                project_path.as_str(),
                target_path.as_str(),
            ) {
                Ok(p) => p,
                Err(e) => {
                    return Err(map_asset_error(e, i));
                },
            };
            let dest = match Asset::resolve_dest(entry.dest.as_str(), target_path.as_str()) {
                Ok(p) => p,
                Err(e) => {
                    return Err(map_asset_error(e, i));
                },
            };
            assets.push(Asset { source, dest });
            i = i + 1;
        }
        let result = Config { module_prop, assets };
        proof {
            assert(Config::spec_built(result, fields0, project_path@, target_path@));
            assert(Config::spec_built_somewhere(result, fields0));
        }
        Ok(result)
    }
}

/// Adds the asset's manifest position to a path-safety error.
fn map_asset_error(e: ConfigError, index: usize) -> (r: ConfigError)
    ensures
        e is PathSafety ==> r == ConfigError::AssetPath(
            index,
            e->PathSafety_0,
            e->PathSafety_1,
        ),
        !(e is PathSafety) ==> r == e,
{
    match e {
        ConfigError::PathSafety(role, fault) => ConfigError::AssetPath(index, role, fault),
        _ => e,
    }
}

} // verus!
