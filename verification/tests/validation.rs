use oflike_gen::error::GeneratorError;
use oflike_gen::utils::{
    validate_addon_mode, validate_bundle_id, validate_entry_mode, validate_project_name,
    validate_template,
};

fn err_message(r: Result<(), GeneratorError>) -> String {
    match r {
        Ok(()) => panic!("expected an error"),
        Err(e) => e.message(),
    }
}

#[test]
fn accepts_alphanumeric_names() {
    assert!(validate_project_name("MyApp").is_ok());
    assert!(validate_project_name("my-app").is_ok());
    assert!(validate_project_name("my_app2").is_ok());
    assert!(validate_project_name("a").is_ok());
    assert!(validate_project_name("x9-_").is_ok());
}

#[test]
fn rejects_empty_name() {
    let r = validate_project_name("");
    assert!(matches!(r, Err(GeneratorError::InvalidProjectName(_))));
    assert_eq!(
        err_message(validate_project_name("")),
        "Invalid project name: Project name cannot be empty"
    );
}

#[test]
fn rejects_invalid_name_characters() {
    assert!(matches!(
        validate_project_name("my app"),
        Err(GeneratorError::InvalidProjectName(_))
    ));
    assert!(matches!(
        validate_project_name("my.app"),
        Err(GeneratorError::InvalidProjectName(_))
    ));
    assert!(matches!(
        validate_project_name("app!"),
        Err(GeneratorError::InvalidProjectName(_))
    ));
    assert_eq!(
        err_message(validate_project_name("my app")),
        "Invalid project name: Invalid characters in project name: my app"
    );
}

#[test]
fn accepts_valid_bundle_ids() {
    assert!(validate_bundle_id("com.example").is_ok());
    assert!(validate_bundle_id("com.example.app").is_ok());
    assert!(validate_bundle_id("a.b").is_ok());
}

#[test]
fn rejects_empty_bundle_id() {
    let r = validate_bundle_id("");
    assert!(matches!(r, Err(GeneratorError::InvalidBundleId(_))));
    assert_eq!(
        err_message(validate_bundle_id("")),
        "Invalid bundle ID: Bundle ID cannot be empty"
    );
}

#[test]
fn rejects_single_part_bundle_id() {
    assert_eq!(
        err_message(validate_bundle_id("com")),
        "Invalid bundle ID: Bundle ID must have at least 2 parts (e.g., com.example)"
    );
}

#[test]
fn rejects_malformed_bundle_ids() {
    assert_eq!(
        err_message(validate_bundle_id("com..x")),
        "Invalid bundle ID: Invalid bundle ID format: com..x"
    );
    assert!(validate_bundle_id(".x").is_err());
    assert!(validate_bundle_id("x.").is_err());
    assert!(validate_bundle_id("com.exa mple").is_err());
    assert!(validate_bundle_id("com.exa-mple").is_err());
}

#[test]
fn entry_modes() {
    assert!(validate_entry_mode("swiftui").is_ok());
    assert!(validate_entry_mode("ofmain").is_ok());
    let r = validate_entry_mode("winmain");
    assert!(matches!(r, Err(GeneratorError::InvalidEntryMode(_))));
    assert_eq!(
        err_message(validate_entry_mode("winmain")),
        "Invalid entry mode: Invalid entry mode: winmain. Must be 'swiftui' or 'ofmain'"
    );
}

#[test]
fn addon_modes() {
    assert!(validate_addon_mode("reference").is_ok());
    assert!(validate_addon_mode("copy").is_ok());
    assert!(validate_addon_mode("symlink").is_ok());
    let r = validate_addon_mode("hardlink");
    assert!(matches!(r, Err(GeneratorError::InvalidAddonMode(_))));
    assert_eq!(
        err_message(validate_addon_mode("hardlink")),
        "Invalid addon mode: Invalid addon mode: hardlink. Must be 'reference', 'copy', or 'symlink'"
    );
}

#[test]
fn templates() {
    assert!(validate_template("basic").is_ok());
    assert!(validate_template("swiftui").is_ok());
    assert!(validate_template("metal").is_ok());
    assert!(validate_template("3d").is_ok());
    let r = validate_template("2d");
    assert!(matches!(r, Err(GeneratorError::InvalidTemplate(_))));
    assert_eq!(
        err_message(validate_template("2d")),
        "Invalid template: Invalid template: 2d. Must be 'basic', 'swiftui', 'metal', or '3d'"
    );
}

#[test]
fn error_messages_have_fixed_prefixes() {
    assert_eq!(
        GeneratorError::Io(String::from("boom")).message(),
        "IO error: boom"
    );
    assert_eq!(
        GeneratorError::AddonNotFound(String::from("x")).message(),
        "Addon not found: x"
    );
    assert_eq!(
        GeneratorError::ProjectExists(String::from("/a/b")).message(),
        "Project already exists: /a/b"
    );
    assert_eq!(
        GeneratorError::ProjectNotFound(String::from("p")).message(),
        "Project not found: p"
    );
    assert_eq!(
        GeneratorError::RootNotFound(String::from("r")).message(),
        "Root not found: r"
    );
    assert_eq!(
        GeneratorError::Config(String::from("c")).message(),
        "Config error: c"
    );
    assert_eq!(
        GeneratorError::BuildFile(String::from("b")).message(),
        "Build file error: b"
    );
    assert_eq!(
        GeneratorError::Validation(String::from("v")).message(),
        "Validation error: v"
    );
    assert_eq!(
        GeneratorError::PlatformUnsupported(String::from("s")).message(),
        "Platform not supported: s"
    );
    assert_eq!(GeneratorError::Other(String::from("plain")).message(), "plain");
}
