//! What goes into the bundle that the host loads a driver from: the names of
//! its files, the checks on the package that it is built from, and the
//! property list that tells the host which factory makes the driver.
use crate::interface_id::{
    spec_uuid_bytes, spec_uuid_text, uuid_bytes, uuid_text, AUDIO_SERVER_DRIVER_PLUGIN_TYPE,
};
use vstd::prelude::*;
use vstd::string::*;

verus! {

/// The property list up to the name of the executable.
pub const PLIST_EXECUTABLE: &'static str =
    "\n<?xml version=\"1.0\" encoding=\"UTF-8\"?>\n<!DOCTYPE plist PUBLIC \"-//Apple//DTD PLIST 1.0//EN\" \"http://www.apple.com/DTDs/PropertyList-1.0.dtd\">\n<plist version=\"1.0\">\n<dict>\n\t<key>CFBundleDevelopmentRegion</key>\n\t<string>English</string>\n\t<key>CFBundleExecutable</key>\n\t<string>";

/// From the name of the executable to the identifier of the bundle.
pub const PLIST_IDENTIFIER: &'static str =
    "</string>\n\t<key>CFBundleIdentifier</key>\n\t<string>com.rustaudio.";

/// From the identifier of the bundle to its name.
pub const PLIST_NAME: &'static str =
    "</string>\n\t<key>CFBundleInfoDictionaryVersion</key>\n\t<string>6.0</string>\n\t<key>CFBundleName</key>\n\t<string>";

/// From the name of the bundle to its version.
pub const PLIST_VERSION: &'static str =
    "</string>\n\t<key>CFBundlePackageType</key>\n\t<string>BNDL</string>\n\t<key>CFBundleShortVersionString</key>\n\t<string>";

/// From the version to the factory's identifier, as the key of its entry point.
pub const PLIST_FACTORY: &'static str =
    "</string>\n\t<key>CFBundleSignature</key>\n\t<string>????</string>\n\t<key>CFBundleSupportedPlatforms</key>\n\t<array>\n\t\t<string>MacOSX</string>\n\t</array>\n\t<key>CFBundleVersion</key>\n\t<string>1</string>\n\t<key>CFPlugInFactories</key>\n\t<dict>\n\t\t<key>";

/// The name of the function that the host's loader calls to make a driver.
/// The dynamic library of a driver exports its factory under this name, and
/// the property list names it as the factory's entry point.
pub const FACTORY_ENTRY_POINT: &'static str = "create_driver";

/// From the factory's identifier to the name of its entry point.
pub const PLIST_ENTRY_POINT: &'static str = "</key>\n\t\t<string>";

/// From the factory's entry point to the plug-in type of audio server
/// drivers.
pub const PLIST_TYPE: &'static str =
    "</string>\n\t</dict>\n\t<key>CFPlugInTypes</key>\n\t<dict>\n\t\t<key>";

/// From the plug-in type to the factory's identifier under it.
pub const PLIST_TYPE_FACTORY: &'static str = "</key>\n\t\t<array>\n\t\t\t<string>";

/// The end of the property list.
pub const PLIST_END: &'static str = "</string>\n\t\t</array>\n\t</dict>\n</dict>\n</plist>";

/// The text of `Uuid::new_v3(&Uuid::NAMESPACE_URL, package_name)`: the
/// identifier that the name of a package stands for.
pub uninterp spec fn spec_factory_uuid(package_name: Seq<char>) -> Seq<char>;

/// `uuid::Uuid::new_v3` in the namespace `Uuid::NAMESPACE_URL`, written out by
/// `to_string`: the name-based identifier of the package's name, an MD5 hash
/// of the namespace and the bytes of the name, in its hyphenated text form.
/// The same name always gives the same identifier.
#[verifier::external_body]
fn factory_uuid(package_name: &str) -> (text: String)
    ensures
        text@ == spec_factory_uuid(package_name@),
{
    uuid::Uuid::new_v3(&uuid::Uuid::NAMESPACE_URL, package_name.as_bytes()).to_string()
}

/// The property list of a bundle, given the factory's identifier: the name of
/// the package names the executable, the bundle's identifier and the bundle,
/// and the factory's identifier stands both by its entry point, which is
/// `FACTORY_ENTRY_POINT`, and under the plug-in type, which is the one that
/// the factory of a driver answers to.
pub open spec fn spec_info_plist(
    package_name: Seq<char>,
    package_version: Seq<char>,
    uuid: Seq<char>,
) -> Seq<char> {
    PLIST_EXECUTABLE@ + package_name + PLIST_IDENTIFIER@ + package_name + PLIST_NAME@ + package_name
        + PLIST_VERSION@ + package_version + PLIST_FACTORY@ + uuid + PLIST_ENTRY_POINT@
        + FACTORY_ENTRY_POINT@ + PLIST_TYPE@ + spec_uuid_text(
        spec_uuid_bytes(AUDIO_SERVER_DRIVER_PLUGIN_TYPE),
        16,
    ) + PLIST_TYPE_FACTORY@ + uuid + PLIST_END@
}

/// Writes the property list of a bundle with the given factory identifier.
pub fn info_plist(package_name: &str, package_version: &str, uuid: &str) -> (plist: String)
    ensures
        plist@ == spec_info_plist(package_name@, package_version@, uuid@),
{
    let mut plist = String::from_str(PLIST_EXECUTABLE);
    plist.append(package_name);
    plist.append(PLIST_IDENTIFIER);
    plist.append(package_name);
    plist.append(PLIST_NAME);
    plist.append(package_name);
    plist.append(PLIST_VERSION);
    plist.append(package_version);
    plist.append(PLIST_FACTORY);
    plist.append(uuid);
    plist.append(PLIST_ENTRY_POINT);
    plist.append(FACTORY_ENTRY_POINT);
    plist.append(PLIST_TYPE);
    let plugin_type = uuid_text(uuid_bytes(AUDIO_SERVER_DRIVER_PLUGIN_TYPE));
    plist.append(plugin_type.as_str());
    plist.append(PLIST_TYPE_FACTORY);
    plist.append(uuid);
    plist.append(PLIST_END);
    plist
}

/// Writes the property list of the bundle of a package. The factory's
/// identifier is the one that the package's name stands for.
pub fn make_info_plist(package_name: &str, package_version: &str) -> (plist: String)
    ensures
        plist@ == spec_info_plist(
            package_name@,
            package_version@,
            spec_factory_uuid(package_name@),
        ),
{
    let uuid = factory_uuid(package_name);
    info_plist(package_name, package_version, uuid.as_str())
}

/// Why a package cannot be built into a driver.
#[derive(Debug, Clone, Copy, PartialEq, Eq, Structural)]
pub enum ManifestError {
    /// The manifest is not a well-formed document.
    Malformed,
    /// The manifest names no package.
    MissingName,
    /// The manifest gives the package no version.
    MissingVersion,
    /// The package is not a library.
    NotALibrary,
    /// The library does not say of which type it is.
    MissingCrateType,
    /// The library is not a C dynamic library.
    WrongCrateType,
}

/// Whether two strings hold the same characters.
pub fn str_equals(a: &str, b: &str) -> (same: bool)
    ensures
        same == (a@ == b@),
{
    let len = a.unicode_len();
    if len != b.unicode_len() {
        return false;
    }
    let mut i: usize = 0;
    while i < len
        invariant
            i <= len,
            len == a@.len(),
            len == b@.len(),
            forall|k: int| 0 <= k < i ==> a@[k] == b@[k],
        decreases len - i,
    {
        if a.get_char(i) != b.get_char(i) {
            return false;
        }
        i = i + 1;
    }
    assert(a@ =~= b@);
    true
}

/// What `check_manifest` answers, given what the manifest holds.
pub open spec fn spec_check_manifest(
    package_name: Option<Seq<char>>,
    package_version: Option<Seq<char>>,
    is_library: bool,
    crate_type: Option<Seq<char>>,
) -> Result<(), ManifestError> {
    if package_name is None {
        Err(ManifestError::MissingName)
    } else if package_version is None {
        Err(ManifestError::MissingVersion)
    } else if !is_library {
        Err(ManifestError::NotALibrary)
    } else if crate_type is None {
        Err(ManifestError::MissingCrateType)
    } else if crate_type != Some("cdylib"@) {
        Err(ManifestError::WrongCrateType)
    } else {
        Ok(())
    }
}

/// The view of a string that may be missing.
pub open spec fn text_of(text: Option<&str>) -> Option<Seq<char>> {
    match text {
        Some(text) => Some(text@),
        None => None,
    }
}

/// Checks that a package can be built into a driver: it has a name and a
/// version, and it is a library whose first type is `cdylib`. The first
/// check that fails decides the error.
pub fn check_manifest(
    package_name: Option<&str>,
    package_version: Option<&str>,
    is_library: bool,
    crate_type: Option<&str>,
) -> (checked: Result<(), ManifestError>)
    ensures
        checked == spec_check_manifest(
            text_of(package_name),
            text_of(package_version),
            is_library,
            text_of(crate_type),
        ),
{
    if package_name.is_none() {
        return Err(ManifestError::MissingName);
    }
    if package_version.is_none() {
        return Err(ManifestError::MissingVersion);
    }
    if !is_library {
        return Err(ManifestError::NotALibrary);
    }
    match crate_type {
        None => Err(ManifestError::MissingCrateType),
        Some(lib_type) => {
            if str_equals(lib_type, "cdylib") {
                Ok(())
            } else {
                Err(ManifestError::WrongCrateType)
            }
        },
    }
}

impl ManifestError {
    /// What is said to the person who asked for the build.
    pub fn message(&self) -> (text: &'static str)
        ensures
            text@ == match *self {
                ManifestError::Malformed => "Error: Cargo.toml file for this package is malformed"@,
                ManifestError::MissingName => "Error: Cargo.toml file does not contain a package name!"@,
                ManifestError::MissingVersion => "Error: Cargo.toml file does not contain a package version!"@,
                ManifestError::NotALibrary => "Error: Package is not a library"@,
                ManifestError::MissingCrateType => "Error: Package lib type is not specified! Please specify it to be \"cdylib\"."@,
                ManifestError::WrongCrateType => "Error: Package lib type is specified but not \"cdylib\". Please change it to \"cdylib\"."@,
            },
    {
        match self {
            ManifestError::Malformed => "Error: Cargo.toml file for this package is malformed",
            ManifestError::MissingName => "Error: Cargo.toml file does not contain a package name!",
            ManifestError::MissingVersion => "Error: Cargo.toml file does not contain a package version!",
            ManifestError::NotALibrary => "Error: Package is not a library",
            ManifestError::MissingCrateType => "Error: Package lib type is not specified! Please specify it to be \"cdylib\".",
            ManifestError::WrongCrateType => "Error: Package lib type is specified but not \"cdylib\". Please change it to \"cdylib\".",
        }
    }
}

/// The directory of the build's output below the target directory.
pub fn profile_dir(release: bool) -> (dir: &'static str)
    ensures
        dir@ == (if release {
            "release"@
        } else {
            "debug"@
        }),
{
    if release {
        "release"
    } else {
        "debug"
    }
}

/// The file name of the dynamic library that the build makes of a package.
pub fn library_file_name(package_name: &str) -> (name: String)
    ensures
        name@ == "lib"@ + package_name@ + ".dylib"@,
{
    let mut name = String::from_str("lib");
    name.append(package_name);
    name.append(".dylib");
    name
}

/// The name of the bundle's directory.
pub fn driver_bundle_name(package_name: &str) -> (name: String)
    ensures
        name@ == package_name@ + ".driver"@,
{
    let mut name = String::from_str(package_name);
    name.append(".driver");
    name
}

/// The path at which the host looks for the installed bundle.
pub fn install_path(package_name: &str) -> (path: String)
    ensures
        path@ == "/library/Audio/Plug-Ins/HAL/"@ + package_name@ + ".driver"@,
{
    let mut path = String::from_str("/library/Audio/Plug-Ins/HAL/");
    path.append(package_name);
    path.append(".driver");
    path
}

} // verus!
