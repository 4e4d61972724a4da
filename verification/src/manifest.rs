//! Project manifests: the few fields that are read from one, and the health
//! tiers that follow from them.

use crate::document::{parse_document, parsed_document, table_get, table_nodes, Node};
use vstd::prelude::*;

verus! {

/// Why a manifest gave no metadata.
#[derive(Clone, Copy, Debug, PartialEq, Eq, Structural)]
pub enum ParseError {
    /// The text is no TOML document, or a field that is read holds a value of
    /// another type than a manifest gives it.
    Malformed,
    /// The document names no package.
    MissingField,
}

/// The `opt-level` of a profile.
#[derive(Clone, Copy, Debug, PartialEq, Eq, Structural)]
pub enum OptimizationLevel {
    /// A numbered level.
    Level(i64),
    /// Anything else that the key may hold, such as `"s"` or `"z"`.
    Other,
}

/// The settings of a release profile that hygiene is judged by. A setting
/// that the manifest leaves out is `None`, which is not the same as `false`.
#[derive(Clone, Copy, Debug, PartialEq, Eq, Structural)]
pub struct ReleaseProfileFlags {
    pub link_time_optimization: Option<bool>,
    pub strip_symbols: Option<bool>,
    pub debug_info: Option<bool>,
    pub debug_assertions: Option<bool>,
    pub runtime_path_embedding: Option<bool>,
    pub incremental_compilation: Option<bool>,
    pub optimization_level: Option<OptimizationLevel>,
    pub codegen_units: Option<u64>,
}

/// What is kept of one project's manifest.
#[derive(Clone, Debug, PartialEq, Eq)]
pub struct ManifestMetadata {
    pub name: String,
    pub edition: Option<String>,
    /// Whether the project builds an executable.
    pub has_binary_target: bool,
    pub release_profile: Option<ReleaseProfileFlags>,
}

/// A `ManifestMetadata` with its strings as sequences of characters.
pub struct ManifestModel {
    pub name: Seq<char>,
    pub edition: Option<Seq<char>>,
    pub has_binary_target: bool,
    pub release_profile: Option<ReleaseProfileFlags>,
}

impl DeepView for ManifestMetadata {
    type V = ManifestModel;

    open spec fn deep_view(&self) -> ManifestModel {
        ManifestModel {
            name: self.name@,
            edition: self.edition.deep_view(),
            has_binary_target: self.has_binary_target,
            release_profile: self.release_profile,
        }
    }
}

/// The entries of a document or of one of its tables.
pub type Entries = Map<Seq<char>, Node>;

/// The boolean under `key`, if the key is there.
pub open spec fn flag_at(table: Entries, key: Seq<char>) -> Result<Option<bool>, ParseError> {
    if !table.contains_key(key) {
        Ok(None)
    } else {
        match table[key] {
            Node::Boolean(b) => Ok(Some(b)),
            _ => Err(ParseError::Malformed),
        }
    }
}

/// The string under `key`, if the key is there.
pub open spec fn text_at(table: Entries, key: Seq<char>) -> Result<Option<Seq<char>>, ParseError> {
    if !table.contains_key(key) {
        Ok(None)
    } else {
        match table[key] {
            Node::Text(text) => Ok(Some(text)),
            _ => Err(ParseError::Malformed),
        }
    }
}

/// The count under `key`, if the key is there: an integer that is not negative.
pub open spec fn count_at(table: Entries, key: Seq<char>) -> Result<Option<u64>, ParseError> {
    if !table.contains_key(key) {
        Ok(None)
    } else {
        match table[key] {
            Node::Integer(i) => if i >= 0 {
                Ok(Some(i as u64))
            } else {
                Err(ParseError::Malformed)
            },
            _ => Err(ParseError::Malformed),
        }
    }
}

/// The optimization level under `key`, if the key is there. Any value is one.
pub open spec fn level_at(table: Entries, key: Seq<char>) -> Option<OptimizationLevel> {
    if !table.contains_key(key) {
        None
    } else {
        match table[key] {
            Node::Integer(i) => Some(OptimizationLevel::Level(i)),
            _ => Some(OptimizationLevel::Other),
        }
    }
}

/// The table under `key`, if the key is there.
pub open spec fn table_at(table: Entries, key: Seq<char>) -> Result<Option<Entries>, ParseError> {
    if !table.contains_key(key) {
        Ok(None)
    } else {
        match table[key] {
            Node::Table(entries) => Ok(Some(entries)),
            _ => Err(ParseError::Malformed),
        }
    }
}

fn read_flag(table: &toml::Table, key: &str) -> (read: Result<Option<bool>, ParseError>)
    ensures
        read == flag_at(table_nodes(*table), key@),
{
    match table_get(table, key) {
        None => Ok(None),
        Some(value) => match value.as_bool() {
            Some(b) => Ok(Some(b)),
            None => Err(ParseError::Malformed),
        },
    }
}

fn read_text(table: &toml::Table, key: &str) -> (read: Result<Option<String>, ParseError>)
    ensures
        match read {
            Ok(text) => text_at(table_nodes(*table), key@) == Ok::<_, ParseError>(text.deep_view()),
            Err(e) => text_at(table_nodes(*table), key@) == Err::<Option<Seq<char>>, _>(e),
        },
{
    match table_get(table, key) {
        None => Ok(None),
        Some(value) => match value.as_str() {
            Some(text) => Ok(Some(text.to_owned())),
            None => Err(ParseError::Malformed),
        },
    }
}

fn read_count(table: &toml::Table, key: &str) -> (read: Result<Option<u64>, ParseError>)
    ensures
        read == count_at(table_nodes(*table), key@),
{
    match table_get(table, key) {
        None => Ok(None),
        Some(value) => match value.as_integer() {
            Some(i) => if i >= 0 {
                Ok(Some(i as u64))
            } else {
                Err(ParseError::Malformed)
            },
            None => Err(ParseError::Malformed),
        },
    }
}

fn read_level(table: &toml::Table, key: &str) -> (read: Option<OptimizationLevel>)
    ensures
        read == level_at(table_nodes(*table), key@),
{
    match table_get(table, key) {
        None => None,
        Some(value) => match value.as_integer() {
            Some(i) => Some(OptimizationLevel::Level(i)),
            None => Some(OptimizationLevel::Other),
        },
    }
}

fn read_table<'a>(table: &'a toml::Table, key: &str) -> (read: Result<
    Option<&'a toml::Table>,
    ParseError,
>)
    ensures
        match read {
            Ok(Some(inner)) => table_at(table_nodes(*table), key@) == Ok::<_, ParseError>(
                Some(table_nodes(*inner)),
            ),
            Ok(None) => table_at(table_nodes(*table), key@) == Ok::<Option<Entries>, ParseError>(
                None,
            ),
            Err(e) => table_at(table_nodes(*table), key@) == Err::<Option<Entries>, _>(e),
        },
{
    match table_get(table, key) {
        None => Ok(None),
        Some(value) => match value.as_table() {
            Some(inner) => Ok(Some(inner)),
            None => Err(ParseError::Malformed),
        },
    }
}

/// The release profile that a table of settings states, or `Malformed` where
/// one of the settings read has the wrong type.
pub open spec fn profile_of(settings: Entries) -> Result<ReleaseProfileFlags, ParseError> {
    let lto = flag_at(settings, "lto"@);
    let strip = flag_at(settings, "strip"@);
    let debug = flag_at(settings, "debug"@);
    let debug_assertions = flag_at(settings, "debug-assertions"@);
    let rpath = flag_at(settings, "rpath"@);
    let incremental = flag_at(settings, "incremental"@);
    let codegen_units = count_at(settings, "codegen-units"@);
    if lto is Ok && strip is Ok && debug is Ok && debug_assertions is Ok && rpath is Ok
        && incremental is Ok && codegen_units is Ok {
        Ok(
            ReleaseProfileFlags {
                link_time_optimization: lto->Ok_0,
                strip_symbols: strip->Ok_0,
                debug_info: debug->Ok_0,
                debug_assertions: debug_assertions->Ok_0,
                runtime_path_embedding: rpath->Ok_0,
                incremental_compilation: incremental->Ok_0,
                optimization_level: level_at(settings, "opt-level"@),
                codegen_units: codegen_units->Ok_0,
            },
        )
    } else {
        Err(ParseError::Malformed)
    }
}

/// The release profile of a document: the table `release` inside the table
/// `profile`. Nothing where either is left out.
pub open spec fn release_of(doc: Entries) -> Result<Option<ReleaseProfileFlags>, ParseError> {
    match table_at(doc, "profile"@) {
        Err(e) => Err(e),
        Ok(None) => Ok(None),
        Ok(Some(profiles)) => match table_at(profiles, "release"@) {
            Err(e) => Err(e),
            Ok(None) => Ok(None),
            Ok(Some(settings)) => match profile_of(settings) {
                Err(e) => Err(e),
                Ok(flags) => Ok(Some(flags)),
            },
        },
    }
}

/// Name and edition of the package that a document describes. Nothing where
/// the table `package` or its `name` is left out.
pub open spec fn package_of(doc: Entries) -> Result<
    Option<(Seq<char>, Option<Seq<char>>)>,
    ParseError,
> {
    match table_at(doc, "package"@) {
        Err(e) => Err(e),
        Ok(None) => Ok(None),
        Ok(Some(package)) => match (text_at(package, "name"@), text_at(package, "edition"@)) {
            (Ok(Some(name)), Ok(edition)) => Ok(Some((name, edition))),
            (Ok(None), Ok(_)) => Ok(None),
            _ => Err(ParseError::Malformed),
        },
    }
}

/// The metadata of a parsed manifest. A setting of the wrong type anywhere
/// makes the manifest `Malformed`; one that is well typed and names no
/// package has a `MissingField`.
pub open spec fn manifest_of(doc: Entries, has_binary_target: bool) -> Result<
    ManifestModel,
    ParseError,
> {
    match (package_of(doc), release_of(doc)) {
        (Ok(Some(package)), Ok(release_profile)) => Ok(
            ManifestModel {
                name: package.0,
                edition: package.1,
                has_binary_target,
                release_profile,
            },
        ),
        (Ok(None), Ok(_)) => Err(ParseError::MissingField),
        _ => Err(ParseError::Malformed),
    }
}

/// The metadata of a manifest's text: that of the document it parses to.
pub open spec fn manifest_of_text(text: Seq<char>, has_binary_target: bool) -> Result<
    ManifestModel,
    ParseError,
> {
    match parsed_document(text) {
        Some(doc) => manifest_of(doc, has_binary_target),
        None => Err(ParseError::Malformed),
    }
}

fn read_profile(settings: &toml::Table) -> (read: Result<ReleaseProfileFlags, ParseError>)
    ensures
        read == profile_of(table_nodes(*settings)),
{
    let lto = read_flag(settings, "lto");
    let strip = read_flag(settings, "strip");
    let debug = read_flag(settings, "debug");
    let debug_assertions = read_flag(settings, "debug-assertions");
    let rpath = read_flag(settings, "rpath");
    let incremental = read_flag(settings, "incremental");
    let codegen_units = read_count(settings, "codegen-units");
    let optimization_level = read_level(settings, "opt-level");
    match (lto, strip, debug, debug_assertions, rpath, incremental, codegen_units) {
        (
            Ok(link_time_optimization),
            Ok(strip_symbols),
            Ok(debug_info),
            Ok(debug_assertions),
            Ok(runtime_path_embedding),
            Ok(incremental_compilation),
            Ok(codegen_units),
        ) => Ok(
            ReleaseProfileFlags {
                link_time_optimization,
                strip_symbols,
                debug_info,
                debug_assertions,
                runtime_path_embedding,
                incremental_compilation,
                optimization_level,
                codegen_units,
            },
        ),
        _ => Err(ParseError::Malformed),
    }
}

fn read_release(doc: &toml::Table) -> (read: Result<Option<ReleaseProfileFlags>, ParseError>)
    ensures
        read == release_of(table_nodes(*doc)),
{
    match read_table(doc, "profile") {
        Err(e) => Err(e),
        Ok(None) => Ok(None),
        Ok(Some(profiles)) => match read_table(profiles, "release") {
            Err(e) => Err(e),
            Ok(None) => Ok(None),
            Ok(Some(settings)) => match read_profile(settings) {
                Err(e) => Err(e),
                Ok(flags) => Ok(Some(flags)),
            },
        },
    }
}

fn read_package(doc: &toml::Table) -> (read: Result<Option<(String, Option<String>)>, ParseError>)
    ensures
        match read {
            Ok(package) => package_of(table_nodes(*doc)) == Ok::<_, ParseError>(
                package.deep_view(),
            ),
            Err(e) => package_of(table_nodes(*doc)) == Err::<
                Option<(Seq<char>, Option<Seq<char>>)>,
                _,
            >(e),
        },
{
    match read_table(doc, "package") {
        Err(e) => Err(e),
        Ok(None) => Ok(None),
        Ok(Some(package)) => {
            let name = read_text(package, "name");
            let edition = read_text(package, "edition");
            match (name, edition) {
                (Ok(Some(name)), Ok(edition)) => Ok(Some((name, edition))),
                (Ok(None), Ok(_)) => Ok(None),
                _ => Err(ParseError::Malformed),
            }
        },
    }
}

/// Reads the metadata out of a parsed manifest.
pub fn read_manifest(doc: &toml::Table, has_binary_target: bool) -> (read: Result<
    ManifestMetadata,
    ParseError,
>)
    ensures
        match read {
            Ok(metadata) => manifest_of(table_nodes(*doc), has_binary_target) == Ok::<
                _,
                ParseError,
            >(metadata.deep_view()),
            Err(e) => manifest_of(table_nodes(*doc), has_binary_target) == Err::<ManifestModel, _>(
                e,
            ),
        },
{
    let package = read_package(doc);
    let release = read_release(doc);
    match (package, release) {
        (Ok(Some(package)), Ok(release_profile)) => Ok(
            ManifestMetadata {
                name: package.0,
                edition: package.1,
                has_binary_target,
                release_profile,
            },
        ),
        (Ok(None), Ok(_)) => Err(ParseError::MissingField),
        _ => Err(ParseError::Malformed),
    }
}

/// Parses the text of a manifest and reads its metadata. `has_binary_target`
/// says whether the project's entry-point file was found beside the manifest.
pub fn classify_manifest(text: &str, has_binary_target: bool) -> (read: Result<
    ManifestMetadata,
    ParseError,
>)
    ensures
        match read {
            Ok(metadata) => manifest_of_text(text@, has_binary_target) == Ok::<_, ParseError>(
                metadata.deep_view(),
            ),
            Err(e) => manifest_of_text(text@, has_binary_target) == Err::<ManifestModel, _>(e),
        },
{
    match parse_document(text) {
        Ok(doc) => read_manifest(&doc, has_binary_target),
        Err(_) => Err(ParseError::Malformed),
    }
}

/// Name and version of a package.
#[derive(Clone, Debug, PartialEq, Eq)]
pub struct PackageId {
    pub name: String,
    pub version: String,
}

/// A `PackageId` with its strings as sequences of characters.
pub struct PackageIdModel {
    pub name: Seq<char>,
    pub version: Seq<char>,
}

impl DeepView for PackageId {
    type V = PackageIdModel;

    open spec fn deep_view(&self) -> PackageIdModel {
        PackageIdModel { name: self.name@, version: self.version@ }
    }
}

/// Name and version of the package that a document describes. Both are
/// asked for: a document without the table `package`, or without one of the
/// two, has a `MissingField`.
pub open spec fn package_id_of(doc: Entries) -> Result<PackageIdModel, ParseError> {
    match table_at(doc, "package"@) {
        Err(e) => Err(e),
        Ok(None) => Err(ParseError::MissingField),
        Ok(Some(package)) => match (text_at(package, "name"@), text_at(package, "version"@)) {
            (Ok(Some(name)), Ok(Some(version))) => Ok(PackageIdModel { name, version }),
            (Ok(_), Ok(_)) => Err(ParseError::MissingField),
            _ => Err(ParseError::Malformed),
        },
    }
}

/// Name and version of the package that a manifest's text describes.
pub open spec fn package_id_of_text(text: Seq<char>) -> Result<PackageIdModel, ParseError> {
    match parsed_document(text) {
        Some(doc) => package_id_of(doc),
        None => Err(ParseError::Malformed),
    }
}

/// Reads name and version out of a parsed manifest.
pub fn read_package_id(doc: &toml::Table) -> (read: Result<PackageId, ParseError>)
    ensures
        match read {
            Ok(id) => package_id_of(table_nodes(*doc)) == Ok::<_, ParseError>(id.deep_view()),
            Err(e) => package_id_of(table_nodes(*doc)) == Err::<PackageIdModel, _>(e),
        },
{
    match read_table(doc, "package") {
        Err(e) => Err(e),
        Ok(None) => Err(ParseError::MissingField),
        Ok(Some(package)) => {
            let name = read_text(package, "name");
            let version = read_text(package, "version");
            match (name, version) {
                (Ok(Some(name)), Ok(Some(version))) => Ok(PackageId { name, version }),
                (Ok(_), Ok(_)) => Err(ParseError::MissingField),
                _ => Err(ParseError::Malformed),
            }
        },
    }
}

/// Parses the text of a manifest and reads the package's name and version.
pub fn package_id(text: &str) -> (read: Result<PackageId, ParseError>)
    ensures
        match read {
            Ok(id) => package_id_of_text(text@) == Ok::<_, ParseError>(id.deep_view()),
            Err(e) => package_id_of_text(text@) == Err::<PackageIdModel, _>(e),
        },
{
    match parse_document(text) {
        Ok(doc) => read_package_id(&doc),
        Err(_) => Err(ParseError::Malformed),
    }
}

} // verus!
