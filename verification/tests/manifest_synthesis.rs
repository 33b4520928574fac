use oflike_gen::addons::AddonMode;
use oflike_gen::manifests::{cmake_file_content, xcodegen_file_content};

#[test]
fn cmake_without_addons_is_byte_exact() {
    let addons: Vec<String> = Vec::new();
    let text = cmake_file_content("demo-app", &addons);
    let expected = "cmake_minimum_required(VERSION 3.20)\n\
                    project(demo-app)\n\
                    \n\
                    set(CMAKE_CXX_STANDARD 20)\n\
                    set(CMAKE_CXX_STANDARD_REQUIRED ON)\n\
                    \n\
                    # Find oflike-metal framework\n\
                    find_package(oflike-metal REQUIRED)\n\
                    \n\
                    # Source files\n\
                    file(GLOB_RECURSE SOURCES \"src/*.cpp\" \"src/*.mm\")\n\
                    file(GLOB_RECURSE HEADERS \"src/*.h\")\n\
                    \n\
                    # Swift sources\n\
                    file(GLOB SWIFT_SOURCES \"src/*.swift\")\n\
                    \n\
                    # Executable\n\
                    add_executable(demo-app MACOSX_BUNDLE ${SOURCES} ${HEADERS} ${SWIFT_SOURCES})\n\
                    \n\
                    # Link oflike-metal\n\
                    target_link_libraries(demo-app oflike-metal::oflike-metal)\n\
                    \n\
                    # Bundle settings\n\
                    set_target_properties(demo-app PROPERTIES\n\
                    \x20   MACOSX_BUNDLE_INFO_PLIST \"${CMAKE_CURRENT_SOURCE_DIR}/resources/Info.plist\"\n\
                    \x20   RESOURCE \"${CMAKE_CURRENT_SOURCE_DIR}/resources;${CMAKE_CURRENT_SOURCE_DIR}/data\"\n\
                    )\n";
    assert_eq!(text, expected);
}

#[test]
fn cmake_addon_section_uses_uppercase_tokens_and_relative_paths() {
    let addons = vec![String::from("ofxGui")];
    let text = cmake_file_content("demo-app", &addons);
    assert!(text.contains("# Addons\n"));
    assert!(text.contains("file(GLOB_RECURSE OFXGUI_SOURCES \"addons/ofxGui/*.cpp\" \"addons/ofxGui/*.mm\")"));
    assert!(text.contains("file(GLOB_RECURSE OFXGUI_HEADERS \"addons/ofxGui/*.h\")"));
    assert!(text.contains("target_sources(demo-app PRIVATE ${OFXGUI_SOURCES} ${OFXGUI_HEADERS})"));
    assert!(text.contains("target_include_directories(demo-app PRIVATE addons/ofxGui)"));
}

#[test]
fn xcodegen_lists_target_bundle_and_addons() {
    let addons = vec![String::from("ofxGui")];
    let text = xcodegen_file_content("demo-app", "com.example.demo-app", &addons, AddonMode::Copy);
    assert!(text.starts_with("name: demo-app\n"));
    assert!(text.contains("  bundleIdPrefix: com.example.demo-app\n"));
    assert!(text.contains("      PRODUCT_BUNDLE_IDENTIFIER: com.example.demo-app\n"));
    assert!(text.contains("      - src\n"));
    assert!(text.contains("      - addons/ofxGui\n"));
    assert!(text.contains("      CODE_SIGNING_ALLOWED: NO\n"));
    assert!(text.contains("    scheme:\n      testTargets: []\n"));
}

#[test]
fn xcodegen_dependency_entry_follows_the_addon_mode() {
    // Copy and symlink modes embed the framework bundle; reference mode
    // links the framework's build output with explicit library flags.
    let addons: Vec<String> = Vec::new();
    for mode in [AddonMode::Copy, AddonMode::Symlink] {
        let embedded = xcodegen_file_content("a", "c.a", &addons, mode);
        assert!(
            embedded.contains("      - framework: oflike-metal.framework\n        embed: true\n")
        );
        assert!(!embedded.contains("LIBRARY_SEARCH_PATHS"));
    }
    let linked = xcodegen_file_content("a", "c.a", &addons, AddonMode::Reference);
    assert!(linked.contains("      LIBRARY_SEARCH_PATHS:\n"));
    assert!(linked.contains("        - \"-loflike-metal\"\n"));
    assert!(linked.contains("      - sdk: Cocoa.framework\n"));
    assert!(!linked.contains("embed: true"));
}

#[test]
fn both_manifests_list_addons_in_identical_order() {
    let addons = vec![
        String::from("ofxGui"),
        String::from("ofxOsc"),
        String::from("customAddon"),
    ];
    let cmake = cmake_file_content("demo-app", &addons);
    let yml = xcodegen_file_content("demo-app", "com.example.demo-app", &addons, AddonMode::Copy);
    for text in [&cmake, &yml] {
        let gui = text.find("addons/ofxGui").expect("ofxGui path present");
        let osc = text.find("addons/ofxOsc").expect("ofxOsc path present");
        let custom = text.find("addons/customAddon").expect("custom path present");
        assert!(gui < osc && osc < custom, "addon order must match the request order");
    }
}

#[test]
fn an_addon_absent_from_the_list_appears_in_neither_manifest() {
    // The synthesizer is handed only the successfully integrated addons.
    let integrated = vec![String::from("ofxOsc")];
    let cmake = cmake_file_content("demo-app", &integrated);
    let yml = xcodegen_file_content("demo-app", "com.example.demo-app", &integrated, AddonMode::Copy);
    assert!(!cmake.contains("ofxGui"));
    assert!(!yml.contains("ofxGui"));
    assert!(cmake.contains("addons/ofxOsc"));
    assert!(yml.contains("addons/ofxOsc"));
}

#[test]
fn manifests_are_deterministic() {
    let addons = vec![String::from("ofxGui")];
    assert_eq!(
        cmake_file_content("demo-app", &addons),
        cmake_file_content("demo-app", &addons)
    );
    assert_eq!(
        xcodegen_file_content("demo-app", "c.d", &addons, AddonMode::Reference),
        xcodegen_file_content("demo-app", "c.d", &addons, AddonMode::Reference)
    );
}
