use oflike_gen::addons::{
    addon_dest_rel_path, addon_mode_from_str, addon_source_rel_path, classify_addon,
    integrated_addon_names, parse_addons, plan_add_addon, plan_addon_integration, resolve_addon,
    AddAddonOutcome, AddonCategory, AddonMode, IntegrationAction, ResolvedAddon,
};
use oflike_gen::error::GeneratorError;
use oflike_gen::utils::{core_addons, is_builtin_addon, native_addons};

#[test]
fn registries_hold_the_builtin_names() {
    let core = core_addons();
    assert_eq!(
        core,
        vec!["ofxOsc", "ofxGui", "ofxXmlSettings", "ofxSvg", "ofxNetwork", "ofxOpenCv"]
    );
    let native = native_addons();
    assert_eq!(
        native,
        vec![
            "ofxSharp",
            "ofxNeuralEngine",
            "ofxMetalCompute",
            "ofxMPS",
            "ofxVideoToolbox",
            "ofxSpatialAudio",
            "ofxMetalFX"
        ]
    );
}

#[test]
fn builtin_lookup() {
    assert!(is_builtin_addon("ofxGui"));
    assert!(is_builtin_addon("ofxMetalFX"));
    assert!(!is_builtin_addon("ofxgui"));
    assert!(!is_builtin_addon("ofxCustomThing"));
    assert!(!is_builtin_addon(""));
}

#[test]
fn classification() {
    assert_eq!(classify_addon("ofxGui"), AddonCategory::Core);
    assert_eq!(classify_addon("ofxMPS"), AddonCategory::Native);
    assert_eq!(classify_addon("somethingElse"), AddonCategory::Unknown);
}

#[test]
fn mode_parsing() {
    assert_eq!(addon_mode_from_str("reference"), Some(AddonMode::Reference));
    assert_eq!(addon_mode_from_str("copy"), Some(AddonMode::Copy));
    assert_eq!(addon_mode_from_str("symlink"), Some(AddonMode::Symlink));
    assert_eq!(addon_mode_from_str("hardlink"), None);
}

#[test]
fn source_paths_follow_the_category() {
    assert_eq!(addon_source_rel_path("ofxGui").as_deref(), Some("addons/core/ofxGui"));
    assert_eq!(addon_source_rel_path("ofxMPS").as_deref(), Some("addons/apple_native/ofxMPS"));
    // An unregistered name gets no source lookup at all.
    assert_eq!(addon_source_rel_path("ofxCustom"), None);
    assert_eq!(addon_dest_rel_path("ofxGui"), "addons/ofxGui");
}

#[test]
fn resolution_gives_unregistered_names_a_warning_and_no_source() {
    let d = resolve_addon("ofxGui");
    assert_eq!(d.name, "ofxGui");
    assert_eq!(d.category, AddonCategory::Core);
    assert_eq!(d.source_rel.as_deref(), Some("addons/core/ofxGui"));
    assert!(d.warning.is_none());

    let d = resolve_addon("ofxSharp");
    assert_eq!(d.category, AddonCategory::Native);
    assert_eq!(d.source_rel.as_deref(), Some("addons/apple_native/ofxSharp"));

    let d = resolve_addon("ofxCustom");
    assert_eq!(d.category, AddonCategory::Unknown);
    assert!(d.source_rel.is_none());
    assert_eq!(d.warning.as_deref(), Some("Warning: ofxCustom is not a builtin addon"));
}

#[test]
fn parse_addons_trims_and_drops_empties() {
    let r = parse_addons(Some(" ofxGui , ofxOsc ,, custom ")).unwrap();
    assert_eq!(r, vec!["ofxGui", "ofxOsc", "custom"]);
    let r = parse_addons(Some("")).unwrap();
    assert!(r.is_empty());
    let r = parse_addons(None).unwrap();
    assert!(r.is_empty());
    let r = parse_addons(Some("one")).unwrap();
    assert_eq!(r, vec!["one"]);
}

fn resolved(name: &str, exists: bool) -> ResolvedAddon {
    ResolvedAddon { name: String::from(name), source_exists: exists }
}

#[test]
fn symlink_mode_without_support_fails_hard() {
    let addons = vec![resolved("ofxGui", true)];
    let r = plan_addon_integration(&addons, AddonMode::Symlink, false);
    match r {
        Err(GeneratorError::PlatformUnsupported(m)) => {
            assert_eq!(m, "Symlinks are only supported on Unix systems");
        }
        _ => panic!("expected PlatformUnsupported"),
    }
}

#[test]
fn symlink_mode_with_support_plans_symlinks_only() {
    let addons = vec![resolved("ofxGui", true)];
    let acts = plan_addon_integration(&addons, AddonMode::Symlink, true).unwrap();
    assert_eq!(acts.len(), 1);
    match &acts[0] {
        IntegrationAction::Symlink { name, from_rel, to_rel } => {
            assert_eq!(name.as_str(), "ofxGui");
            assert_eq!(from_rel.as_str(), "addons/core/ofxGui");
            assert_eq!(to_rel.as_str(), "addons/ofxGui");
        }
        _ => panic!("expected a symlink action, never a copy fallback"),
    }
}

#[test]
fn copy_mode_plans_copies() {
    let addons = vec![resolved("ofxGui", true), resolved("ofxMPS", true)];
    let acts = plan_addon_integration(&addons, AddonMode::Copy, false).unwrap();
    assert_eq!(acts.len(), 2);
    assert!(matches!(&acts[0], IntegrationAction::CopyDir { .. }));
    match &acts[1] {
        IntegrationAction::CopyDir { name, from_rel, to_rel } => {
            assert_eq!(name.as_str(), "ofxMPS");
            assert_eq!(from_rel.as_str(), "addons/apple_native/ofxMPS");
            assert_eq!(to_rel.as_str(), "addons/ofxMPS");
        }
        _ => panic!("expected a copy action"),
    }
}

#[test]
fn reference_mode_plans_no_writes() {
    let addons = vec![resolved("ofxGui", true)];
    let acts = plan_addon_integration(&addons, AddonMode::Reference, false).unwrap();
    assert_eq!(acts.len(), 1);
    assert!(matches!(&acts[0], IntegrationAction::Reference { .. }));
}

#[test]
fn missing_sources_are_skipped() {
    let addons = vec![resolved("ofxGui", false), resolved("ofxOsc", true)];
    let acts = plan_addon_integration(&addons, AddonMode::Copy, false).unwrap();
    assert!(matches!(&acts[0], IntegrationAction::Skip { .. }));
    assert!(matches!(&acts[1], IntegrationAction::CopyDir { .. }));
}

#[test]
fn integrated_names_filter_missing_sources_and_keep_order() {
    let addons = vec![
        resolved("ofxGui", true),
        resolved("ofxOsc", false),
        resolved("ofxMPS", true),
    ];
    let names = integrated_addon_names(&addons);
    assert_eq!(names, vec!["ofxGui", "ofxMPS"]);
}

#[test]
fn unregistered_addons_pass_through_as_references() {
    // Even in copy mode an unregistered name is never copied: it has no
    // source, so it passes through as a reference and stays in the manifests.
    let addons = vec![resolved("ofxCustom", false)];
    let acts = plan_addon_integration(&addons, AddonMode::Copy, false).unwrap();
    assert_eq!(acts.len(), 1);
    match &acts[0] {
        IntegrationAction::Reference { name } => assert_eq!(name.as_str(), "ofxCustom"),
        _ => panic!("expected a pass-through reference"),
    }
    let names = integrated_addon_names(&addons);
    assert_eq!(names, vec!["ofxCustom"]);
}

#[test]
fn add_addon_decisions() {
    assert_eq!(
        plan_add_addon("ofxGui", "reference", false).unwrap(),
        AddAddonOutcome::BuiltinAvailable
    );
    match plan_add_addon("ofxGui", "copy", false) {
        Err(GeneratorError::InvalidAddonMode(m)) => {
            assert_eq!(m, "Core/Native addon 'ofxGui' must use 'reference' mode");
        }
        _ => panic!("expected InvalidAddonMode"),
    }
    match plan_add_addon("myAddon", "reference", false) {
        Err(GeneratorError::AddonNotFound(m)) => {
            assert_eq!(m, "Custom addon 'myAddon' requires --source path");
        }
        _ => panic!("expected AddonNotFound"),
    }
    assert_eq!(
        plan_add_addon("myAddon", "reference", true).unwrap(),
        AddAddonOutcome::CustomAccepted
    );
    assert!(matches!(
        plan_add_addon("myAddon", "hardlink", true),
        Err(GeneratorError::InvalidAddonMode(_))
    ));
}
