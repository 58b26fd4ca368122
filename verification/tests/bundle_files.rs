use cahal::bundle::{
    check_manifest, driver_bundle_name, info_plist, install_path, library_file_name,
    make_info_plist, profile_dir, str_equals, ManifestError, FACTORY_ENTRY_POINT,
};
use cahal::manifest::{document_info, package_info, read_manifest, PackageInfo};

const PLIST: &str = "
<?xml version=\"1.0\" encoding=\"UTF-8\"?>
<!DOCTYPE plist PUBLIC \"-//Apple//DTD PLIST 1.0//EN\" \"http://www.apple.com/DTDs/PropertyList-1.0.dtd\">
<plist version=\"1.0\">
<dict>
\t<key>CFBundleDevelopmentRegion</key>
\t<string>English</string>
\t<key>CFBundleExecutable</key>
\t<string>null_audio</string>
\t<key>CFBundleIdentifier</key>
\t<string>com.rustaudio.null_audio</string>
\t<key>CFBundleInfoDictionaryVersion</key>
\t<string>6.0</string>
\t<key>CFBundleName</key>
\t<string>null_audio</string>
\t<key>CFBundlePackageType</key>
\t<string>BNDL</string>
\t<key>CFBundleShortVersionString</key>
\t<string>0.3.1</string>
\t<key>CFBundleSignature</key>
\t<string>????</string>
\t<key>CFBundleSupportedPlatforms</key>
\t<array>
\t\t<string>MacOSX</string>
\t</array>
\t<key>CFBundleVersion</key>
\t<string>1</string>
\t<key>CFPlugInFactories</key>
\t<dict>
\t\t<key>FACTORY</key>
\t\t<string>create_driver</string>
\t</dict>
\t<key>CFPlugInTypes</key>
\t<dict>
\t\t<key>443ABAB8-E7B3-491A-B985-BEB9187030DB</key>
\t\t<array>
\t\t\t<string>FACTORY</string>
\t\t</array>
\t</dict>
</dict>
</plist>";

const MANIFEST: &str = "
[package]
name = \"null_audio\"
version = \"0.3.1\"

[lib]
crate-type = [\"cdylib\", \"rlib\"]
";

#[test]
fn property_list_names_the_package_and_the_factory() {
    assert_eq!(info_plist("null_audio", "0.3.1", "FACTORY"), PLIST);
}

#[test]
fn factory_identifier_is_made_of_the_package_name() {
    let uuid = uuid::Uuid::new_v3(&uuid::Uuid::NAMESPACE_URL, b"null_audio").to_string();
    assert_eq!(uuid.len(), 36);
    assert_ne!(uuid, "null_audio");
    assert_eq!(make_info_plist("null_audio", "0.3.1"), PLIST.replace("FACTORY", &uuid));
    assert_eq!(make_info_plist("null_audio", "0.3.1"), info_plist("null_audio", "0.3.1", &uuid));
}

#[test]
fn different_packages_have_different_factories() {
    assert_ne!(make_info_plist("one", "1"), make_info_plist("two", "1").replace("two", "one"));
    assert_eq!(make_info_plist("one", "1"), make_info_plist("one", "1"));
}

#[test]
fn strings_are_compared_by_their_characters() {
    assert!(str_equals("cdylib", "cdylib"));
    assert!(str_equals("", ""));
    assert!(!str_equals("cdylib", "cdylic"));
    assert!(!str_equals("cdylib", "cdyli"));
    assert!(!str_equals("cdylib", "dylib"));
    assert!(str_equals("tr\u{00E4}ger", "tr\u{00E4}ger"));
    assert!(!str_equals("tr\u{00E4}ger", "trager"));
}

#[test]
fn buildable_package_passes_the_checks() {
    assert_eq!(check_manifest(Some("a"), Some("1"), true, Some("cdylib")), Ok(()));
}

#[test]
fn first_failing_check_decides_the_error() {
    assert_eq!(check_manifest(None, None, false, None), Err(ManifestError::MissingName));
    assert_eq!(check_manifest(Some("a"), None, false, None), Err(ManifestError::MissingVersion));
    assert_eq!(check_manifest(Some("a"), Some("1"), false, None), Err(ManifestError::NotALibrary));
    assert_eq!(
        check_manifest(Some("a"), Some("1"), false, Some("cdylib")),
        Err(ManifestError::NotALibrary)
    );
    assert_eq!(
        check_manifest(Some("a"), Some("1"), true, None),
        Err(ManifestError::MissingCrateType)
    );
    assert_eq!(
        check_manifest(Some("a"), Some("1"), true, Some("rlib")),
        Err(ManifestError::WrongCrateType)
    );
    assert_eq!(
        check_manifest(Some("a"), Some("1"), true, Some("")),
        Err(ManifestError::WrongCrateType)
    );
}

#[test]
fn every_error_has_its_message() {
    assert_eq!(
        ManifestError::Malformed.message(),
        "Error: Cargo.toml file for this package is malformed"
    );
    assert_eq!(
        ManifestError::MissingName.message(),
        "Error: Cargo.toml file does not contain a package name!"
    );
    assert_eq!(
        ManifestError::MissingVersion.message(),
        "Error: Cargo.toml file does not contain a package version!"
    );
    assert_eq!(ManifestError::NotALibrary.message(), "Error: Package is not a library");
    assert_eq!(
        ManifestError::MissingCrateType.message(),
        "Error: Package lib type is not specified! Please specify it to be \"cdylib\"."
    );
    assert_eq!(
        ManifestError::WrongCrateType.message(),
        "Error: Package lib type is specified but not \"cdylib\". Please change it to \"cdylib\"."
    );
}

#[test]
fn package_info_keeps_name_and_version() {
    assert_eq!(
        package_info(Some("a"), Some("1.2"), true, Some("cdylib")),
        Ok(PackageInfo { name: "a".to_string(), version: "1.2".to_string() })
    );
    assert_eq!(
        package_info(Some("a"), Some("1.2"), true, Some("staticlib")),
        Err(ManifestError::WrongCrateType)
    );
    assert_eq!(package_info(None, Some("1.2"), true, Some("cdylib")), Err(ManifestError::MissingName));
}

#[test]
fn manifest_of_a_driver_package_is_read() {
    assert_eq!(
        read_manifest(MANIFEST),
        Ok(PackageInfo { name: "null_audio".to_string(), version: "0.3.1".to_string() })
    );
}

#[test]
fn text_that_is_no_document_is_malformed() {
    assert_eq!(read_manifest("[package"), Err(ManifestError::Malformed));
    assert_eq!(read_manifest("name = "), Err(ManifestError::Malformed));
}

#[test]
fn manifest_without_a_name_is_refused() {
    assert_eq!(read_manifest(""), Err(ManifestError::MissingName));
    assert_eq!(
        read_manifest("[package]\nversion = \"1\"\n[lib]\ncrate-type = [\"cdylib\"]"),
        Err(ManifestError::MissingName)
    );
    assert_eq!(
        read_manifest("package = 3\n[lib]\ncrate-type = [\"cdylib\"]"),
        Err(ManifestError::MissingName)
    );
    assert_eq!(
        read_manifest("[package]\nname = 7\nversion = \"1\""),
        Err(ManifestError::MissingName)
    );
}

#[test]
fn manifest_without_a_version_is_refused() {
    assert_eq!(
        read_manifest("[package]\nname = \"a\"\n[lib]\ncrate-type = [\"cdylib\"]"),
        Err(ManifestError::MissingVersion)
    );
}

#[test]
fn manifest_of_a_program_is_refused() {
    assert_eq!(
        read_manifest("[package]\nname = \"a\"\nversion = \"1\""),
        Err(ManifestError::NotALibrary)
    );
}

#[test]
fn manifest_without_a_library_type_is_refused() {
    assert_eq!(
        read_manifest("[package]\nname = \"a\"\nversion = \"1\"\n[lib]\nname = \"a\""),
        Err(ManifestError::MissingCrateType)
    );
    assert_eq!(
        read_manifest("[package]\nname = \"a\"\nversion = \"1\"\n[lib]\ncrate-type = []"),
        Err(ManifestError::MissingCrateType)
    );
    assert_eq!(
        read_manifest("[package]\nname = \"a\"\nversion = \"1\"\n[lib]\ncrate-type = \"cdylib\""),
        Err(ManifestError::MissingCrateType)
    );
    assert_eq!(
        read_manifest("[package]\nname = \"a\"\nversion = \"1\"\n[lib]\ncrate-type = [1]"),
        Err(ManifestError::MissingCrateType)
    );
}

#[test]
fn manifest_of_another_library_type_is_refused() {
    assert_eq!(
        read_manifest("[package]\nname = \"a\"\nversion = \"1\"\n[lib]\ncrate-type = [\"rlib\", \"cdylib\"]"),
        Err(ManifestError::WrongCrateType)
    );
}

#[test]
fn files_are_named_after_the_package() {
    assert_eq!(profile_dir(true), "release");
    assert_eq!(profile_dir(false), "debug");
    assert_eq!(library_file_name("null_audio"), "libnull_audio.dylib");
    assert_eq!(driver_bundle_name("null_audio"), "null_audio.driver");
    assert_eq!(install_path("null_audio"), "/library/Audio/Plug-Ins/HAL/null_audio.driver");
}

#[test]
fn property_list_names_the_exported_factory() {
    assert_eq!(FACTORY_ENTRY_POINT, "create_driver");
    let plist = info_plist("null_audio", "0.3.1", "FACTORY");
    let entry = format!("<key>FACTORY</key>\n\t\t<string>{}</string>", FACTORY_ENTRY_POINT);
    assert!(plist.contains(&entry));
}

#[test]
fn document_is_judged_by_its_entries() {
    let mut package = toml::Table::new();
    package.insert("name".to_string(), toml::Value::String("a".to_string()));
    package.insert("version".to_string(), toml::Value::String("1".to_string()));
    let mut library = toml::Table::new();
    library.insert(
        "crate-type".to_string(),
        toml::Value::Array(vec![toml::Value::String("cdylib".to_string())]),
    );
    let mut document = toml::Table::new();
    assert_eq!(document_info(&document), Err(ManifestError::MissingName));
    document.insert("package".to_string(), toml::Value::Table(package));
    assert_eq!(document_info(&document), Err(ManifestError::NotALibrary));
    document.insert("lib".to_string(), toml::Value::Integer(3));
    assert_eq!(document_info(&document), Err(ManifestError::MissingCrateType));
    document.insert("lib".to_string(), toml::Value::Table(library));
    assert_eq!(
        document_info(&document),
        Ok(PackageInfo { name: "a".to_string(), version: "1".to_string() })
    );
    document.insert("package".to_string(), toml::Value::String("a".to_string()));
    assert_eq!(document_info(&document), Err(ManifestError::MissingName));
}
