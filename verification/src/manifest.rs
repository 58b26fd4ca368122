//! Reading the manifest of the package that a driver is built from.
//!
//! The manifest is a TOML document. Parsing it and looking entries up is the
//! work of the `toml` crate; which entries are looked up, and what follows from
//! what is found, is decided here.
use crate::bundle::{check_manifest, spec_check_manifest, text_of, ManifestError};
use vstd::prelude::*;
use vstd::string::*;

verus! {

/// A table of a TOML document, as the `toml` crate holds it.
#[verifier::external_type_specification]
#[verifier::external_body]
#[verifier::reject_recursive_types(K)]
#[verifier::reject_recursive_types(V)]
pub struct ExTomlMap<K, V>(toml::map::Map<K, V>);

/// A value of a TOML document, as the `toml` crate holds it.
#[verifier::external_type_specification]
#[verifier::external_body]
pub struct ExTomlValue(toml::Value);

/// What a value of a TOML document holds, as far as the manifest is read: a
/// string, a table of values under their keys, an array of values in their
/// order, or something else (a number, a truth value, a date).
pub enum TomlModel {
    Text(Seq<char>),
    Table(Map<Seq<char>, TomlModel>),
    Array(Seq<TomlModel>),
    Other,
}

/// What a table of the `toml` crate holds: the values under its keys. This
/// is a name for what the crate's lookups show of the table; all that is
/// known of it is what the wrappers below state.
pub uninterp spec fn spec_table_model(table: toml::map::Map<String, toml::Value>) -> Map<
    Seq<char>,
    TomlModel,
>;

/// What a value of the `toml` crate holds: a string for `Value::String`, the
/// entries for `Value::Table`, the elements for `Value::Array`, and
/// `TomlModel::Other` for every other variant. A name as well: all that is
/// known of it is what the wrappers below state.
pub uninterp spec fn spec_value_model(value: toml::Value) -> TomlModel;

/// What a text holds when it is read as a TOML document: the values under the
/// keys of its top-level table, or nothing where the text is no well-formed
/// TOML. This is a name for the result of the `toml` crate's parser, which
/// depends on the text alone.
pub uninterp spec fn spec_parse_manifest(text: Seq<char>) -> Option<Map<Seq<char>, TomlModel>>;

/// `str::parse` to a `toml::Table`: the document's top-level table, or `None`
/// where the text is no well-formed TOML. What the table holds is what the
/// text holds as a document.
#[verifier::external_body]
fn parse_table(text: &str) -> (table: Option<toml::map::Map<String, toml::Value>>)
    ensures
        match table {
            Some(document) => spec_parse_manifest(text@) == Some(spec_table_model(document)),
            None => spec_parse_manifest(text@) is None,
        },
{
    match text.parse::<toml::Table>() {
        Ok(table) => Some(table),
        Err(_) => None,
    }
}

/// `toml::map::Map::get`: the value under a key of a table, if the table has
/// the key, and nothing if it has not.
#[verifier::external_body]
fn table_get<'a>(table: &'a toml::map::Map<String, toml::Value>, key: &str) -> (value: Option<
    &'a toml::Value,
>)
    ensures
        value is Some <==> spec_table_model(*table).dom().contains(key@),
        value matches Some(found) ==> spec_value_model(*found) == spec_table_model(*table)[key@],
{
    table.get(key)
}

/// `toml::Value::get` with a string as the index: the value under a key, if
/// the value is a table that has the key, and nothing for a table without the
/// key and for a value that is no table.
#[verifier::external_body]
fn value_get<'a>(value: &'a toml::Value, key: &str) -> (entry: Option<&'a toml::Value>)
    ensures
        entry is Some <==> (spec_value_model(*value) matches TomlModel::Table(entries)
            && entries.dom().contains(key@)),
        entry matches Some(found) ==> spec_value_model(*found) == spec_value_model(
            *value,
        )->Table_0[key@],
{
    value.get(key)
}

/// `toml::Value::as_str`: the string, if the value is a string, and nothing
/// if it is anything else.
#[verifier::external_body]
fn value_as_str<'a>(value: &'a toml::Value) -> (text: Option<&'a str>)
    ensures
        text_of(text) == model_text(spec_value_model(*value)),
{
    value.as_str()
}

/// `toml::Value::as_array`: the elements in their order, if the value is an
/// array, and nothing if it is anything else.
#[verifier::external_body]
fn value_as_array<'a>(value: &'a toml::Value) -> (elements: Option<&'a Vec<toml::Value>>)
    ensures
        elements is Some <==> spec_value_model(*value) is Array,
        elements matches Some(found) ==> {
            &&& found@.len() == spec_value_model(*value)->Array_0.len()
            &&& forall|i: int|
                0 <= i < found@.len() ==> spec_value_model(#[trigger] found@[i])
                    == spec_value_model(*value)->Array_0[i]
        },
{
    value.as_array()
}

/// The string that a value is, if it is a string.
pub open spec fn model_text(value: TomlModel) -> Option<Seq<char>> {
    match value {
        TomlModel::Text(text) => Some(text),
        _ => None,
    }
}

/// The value under a key of a value, if the value is a table that has the key.
pub open spec fn model_entry(value: TomlModel, key: Seq<char>) -> Option<TomlModel> {
    match value {
        TomlModel::Table(entries) => if entries.dom().contains(key) {
            Some(entries[key])
        } else {
            None
        },
        _ => None,
    }
}

/// The string under a key of a table of a document: the table is there, it
/// is a table and has the key, and what it holds under the key is a string.
pub open spec fn spec_string_entry(
    document: Map<Seq<char>, TomlModel>,
    table: Seq<char>,
    key: Seq<char>,
) -> Option<Seq<char>> {
    if document.dom().contains(table) {
        match model_entry(document[table], key) {
            Some(entry) => model_text(entry),
            None => None,
        }
    } else {
        None
    }
}

/// The first of the types of the library of a document: the document has a
/// table `lib`, the table holds an array under `crate-type`, the array is not
/// empty, and its first element is a string.
pub open spec fn spec_first_crate_type(document: Map<Seq<char>, TomlModel>) -> Option<Seq<char>> {
    if document.dom().contains("lib"@) {
        match model_entry(document["lib"@], "crate-type"@) {
            Some(TomlModel::Array(elements)) => if elements.len() > 0 {
                model_text(elements[0])
            } else {
                None
            },
            _ => None,
        }
    } else {
        None
    }
}

/// What is taken from the manifest of a package that can be built.
#[derive(Debug, Clone, PartialEq, Eq)]
pub struct PackageInfo {
    pub name: String,
    pub version: String,
}

/// What `package_info` answers, given what the manifest holds: the name and
/// the version of a package that passes the checks, or the error of the first
/// check that fails.
pub open spec fn spec_package_info(
    package_name: Option<Seq<char>>,
    package_version: Option<Seq<char>>,
    is_library: bool,
    crate_type: Option<Seq<char>>,
) -> Result<(Seq<char>, Seq<char>), ManifestError> {
    match spec_check_manifest(package_name, package_version, is_library, crate_type) {
        Ok(()) => Ok((package_name->0, package_version->0)),
        Err(error) => Err(error),
    }
}

/// The name and the version of a result as plain text.
pub open spec fn info_text(info: Result<PackageInfo, ManifestError>) -> Result<
    (Seq<char>, Seq<char>),
    ManifestError,
> {
    match info {
        Ok(info) => Ok((info.name@, info.version@)),
        Err(error) => Err(error),
    }
}

/// Checks what was found in a manifest, and keeps the package's name and
/// version if the package can be built into a driver.
pub fn package_info(
    package_name: Option<&str>,
    package_version: Option<&str>,
    is_library: bool,
    crate_type: Option<&str>,
) -> (info: Result<PackageInfo, ManifestError>)
    ensures
        info_text(info) == spec_package_info(
            text_of(package_name),
            text_of(package_version),
            is_library,
            text_of(crate_type),
        ),
{
    match check_manifest(package_name, package_version, is_library, crate_type) {
        Err(error) => Err(error),
        Ok(()) => {
            match (package_name, package_version) {
                (Some(name), Some(version)) => Ok(
                    PackageInfo { name: String::from_str(name), version: String::from_str(version) },
                ),
                _ => Err(ManifestError::MissingName),
            }
        },
    }
}

/// The string under a key of a table of the document, if the table is there,
/// has the key, and holds a string under it.
fn string_entry<'a>(
    document: &'a toml::map::Map<String, toml::Value>,
    table: &str,
    key: &str,
) -> (text: Option<&'a str>)
    ensures
        text_of(text) == spec_string_entry(spec_table_model(*document), table@, key@),
{
    match table_get(document, table) {
        None => None,
        Some(section) => match value_get(section, key) {
            None => None,
            Some(entry) => value_as_str(entry),
        },
    }
}

/// The first of the types of the library, if the package is a library that
/// lists its types and the first of them is a string.
fn first_crate_type<'a>(document: &'a toml::map::Map<String, toml::Value>) -> (text: Option<
    &'a str,
>)
    ensures
        text_of(text) == spec_first_crate_type(spec_table_model(*document)),
{
    match table_get(document, "lib") {
        None => None,
        Some(library) => match value_get(library, "crate-type") {
            None => None,
            Some(types) => match value_as_array(types) {
                None => None,
                Some(elements) => {
                    if elements.len() > 0 {
                        value_as_str(&elements[0])
                    } else {
                        None
                    }
                },
            },
        },
    }
}

/// What `document_info` answers for a document: `package_info` of the
/// entries `package.name` and `package.version`, of whether there is an entry
/// `lib`, and of the first element of `lib.crate-type`.
pub open spec fn spec_document_info(document: Map<Seq<char>, TomlModel>) -> Result<
    (Seq<char>, Seq<char>),
    ManifestError,
> {
    spec_package_info(
        spec_string_entry(document, "package"@, "name"@),
        spec_string_entry(document, "package"@, "version"@),
        document.dom().contains("lib"@),
        spec_first_crate_type(document),
    )
}

/// What `read_manifest` answers, given what the text holds as a document: a
/// text that is no document is malformed, and a document is judged by
/// `document_info`.
pub open spec fn spec_read_manifest(parsed: Option<Map<Seq<char>, TomlModel>>) -> Result<
    (Seq<char>, Seq<char>),
    ManifestError,
> {
    match parsed {
        Some(document) => spec_document_info(document),
        None => Err(ManifestError::Malformed),
    }
}

/// Looks up in a document what the build needs, and keeps the package's name
/// and version if the package can be built into a driver.
pub fn document_info(document: &toml::map::Map<String, toml::Value>) -> (info: Result<
    PackageInfo,
    ManifestError,
>)
    ensures
        info_text(info) == spec_document_info(spec_table_model(*document)),
{
    let package_name = string_entry(document, "package", "name");
    let package_version = string_entry(document, "package", "version");
    let is_library = table_get(document, "lib").is_some();
    let crate_type = first_crate_type(document);
    package_info(package_name, package_version, is_library, crate_type)
}

/// Reads the manifest of a package: the name and the version of the package
/// if it can be built into a driver, else the reason why it cannot.
///
/// A text that is no TOML document is malformed. Of a document, the entries
/// `package.name`, `package.version`, the table `lib` and the first element of
/// `lib.crate-type` are looked up, and `package_info` decides on what was
/// found.
pub fn read_manifest(text: &str) -> (info: Result<PackageInfo, ManifestError>)
    ensures
        info_text(info) == spec_read_manifest(spec_parse_manifest(text@)),
{
    match parse_table(text) {
        Some(document) => document_info(&document),
        None => Err(ManifestError::Malformed),
    }
}

} // verus!
