//! Source stub and fixed-file generation.
//!
//! Every function here is a pure function of the project spec: identical
//! inputs give byte-identical output, and each contract pins the full text.

use vstd::prelude::*;

verus! {

/// The header stub for the application class.
pub open spec fn header_content_spec(class_name: Seq<char>) -> Seq<char> {
    "#pragma once\n\n#include <oflike/ofApp.h>\n\nclass "@ + class_name
        + ": public ofBaseApp {\npublic:\n    void setup();\n    void update();\n    void draw();\n\n    void keyPressed(int key);\n    void keyReleased(int key);\n    void mouseMoved(int x, int y);\n    void mouseDragged(int x, int y, int button);\n    void mousePressed(int x, int y, int button);\n    void mouseReleased(int x, int y, int button);\n    void windowResized(int w, int h);\n};\n"@
}

/// Emits the header stub named after the PascalCase class name.
pub fn header_file_content(class_name: &str) -> (r: String)
    ensures
        r@ == header_content_spec(class_name@),
{
    let mut out = String::from_str("#pragma once\n\n#include <oflike/ofApp.h>\n\nclass ");
    out.append(class_name);
    out.append(
        ": public ofBaseApp {\npublic:\n    void setup();\n    void update();\n    void draw();\n\n    void keyPressed(int key);\n    void keyReleased(int key);\n    void mouseMoved(int x, int y);\n    void mouseDragged(int x, int y, int button);\n    void mousePressed(int x, int y, int button);\n    void mouseReleased(int x, int y, int button);\n    void windowResized(int w, int h);\n};\n",
    );
    out
}

/// The implementation stub for the application class.
pub open spec fn impl_content_spec(class_name: Seq<char>, project_name: Seq<char>) -> Seq<char> {
    "#include \""@ + class_name + ".h\"\n\nvoid "@ + class_name
        + "::setup() {\n    // Initialization\n    ofSetWindowTitle(\""@ + project_name
        + "\");\n}\n\nvoid "@ + class_name + "::update() {\n    // Update logic\n}\n\nvoid "@
        + class_name
        + "::draw() {\n    ofClear(50, 50, 50);\n\n    // Draw example\n    ofSetColor(255);\n    ofDrawCircle(ofGetWidth() / 2, ofGetHeight() / 2, 100);\n}\n\nvoid "@
        + class_name + "::keyPressed(int key) {\n    // Handle key press\n}\n\nvoid "@ + class_name
        + "::keyReleased(int key) {\n    // Handle key release\n}\n\nvoid "@ + class_name
        + "::mouseMoved(int x, int y) {\n    // Handle mouse move\n}\n\nvoid "@ + class_name
        + "::mouseDragged(int x, int y, int button) {\n    // Handle mouse drag\n}\n\nvoid "@
        + class_name + "::mousePressed(int x, int y, int button) {\n    // Handle mouse press\n}\n\nvoid "@
        + class_name + "::mouseReleased(int x, int y, int button) {\n    // Handle mouse release\n}\n\nvoid "@
        + class_name + "::windowResized(int w, int h) {\n    // Handle window resize\n}\n"@
        + "\nextern \"C\" ofBaseApp* ofCreateApp() {\n    return new "@ + class_name + "();\n}\n"@
}

/// Emits the implementation stub.
pub fn impl_file_content(class_name: &str, project_name: &str) -> (r: String)
    ensures
        r@ == impl_content_spec(class_name@, project_name@),
{
    let mut out = String::from_str("#include \"");
    out.append(class_name);
    out.append(".h\"\n\nvoid ");
    out.append(class_name);
    out.append("::setup() {\n    // Initialization\n    ofSetWindowTitle(\"");
    out.append(project_name);
    out.append("\");\n}\n\nvoid ");
    out.append(class_name);
    out.append("::update() {\n    // Update logic\n}\n\nvoid ");
    out.append(class_name);
    out.append(
        "::draw() {\n    ofClear(50, 50, 50);\n\n    // Draw example\n    ofSetColor(255);\n    ofDrawCircle(ofGetWidth() / 2, ofGetHeight() / 2, 100);\n}\n\nvoid ",
    );
    out.append(class_name);
    out.append("::keyPressed(int key) {\n    // Handle key press\n}\n\nvoid ");
    out.append(class_name);
    out.append("::keyReleased(int key) {\n    // Handle key release\n}\n\nvoid ");
    out.append(class_name);
    out.append("::mouseMoved(int x, int y) {\n    // Handle mouse move\n}\n\nvoid ");
    out.append(class_name);
    out.append("::mouseDragged(int x, int y, int button) {\n    // Handle mouse drag\n}\n\nvoid ");
    out.append(class_name);
    out.append("::mousePressed(int x, int y, int button) {\n    // Handle mouse press\n}\n\nvoid ");
    out.append(class_name);
    out.append(
        "::mouseReleased(int x, int y, int button) {\n    // Handle mouse release\n}\n\nvoid ",
    );
    out.append(class_name);
    out.append("::windowResized(int w, int h) {\n    // Handle window resize\n}\n");
    out.append("\nextern \"C\" ofBaseApp* ofCreateApp() {\n    return new ");
    out.append(class_name);
    out.append("();\n}\n");
    out
}

/// The declarative SwiftUI composition root.
pub open spec fn app_swift_content_spec(class_name: Seq<char>) -> Seq<char> {
    "import SwiftUI\n\n@main\nstruct "@ + class_name
        + "App: App {\n    var body: some Scene {\n        WindowGroup {\n            MetalView()\n                .frame(minWidth: 800, minHeight: 600)\n        }\n        .windowStyle(.titleBar)\n    }\n}\n"@
}

/// Emits the SwiftUI entry-point file.
pub fn app_swift_content(class_name: &str) -> (r: String)
    ensures
        r@ == app_swift_content_spec(class_name@),
{
    let mut out = String::from_str("import SwiftUI\n\n@main\nstruct ");
    out.append(class_name);
    out.append(
        "App: App {\n    var body: some Scene {\n        WindowGroup {\n            MetalView()\n                .frame(minWidth: 800, minHeight: 600)\n        }\n        .windowStyle(.titleBar)\n    }\n}\n",
    );
    out
}

/// The procedural entry point used when no declarative composition root is
/// wanted: a plain `main` that hands the application class to the framework
/// runner.
pub open spec fn main_bootstrap_content_spec(class_name: Seq<char>) -> Seq<char> {
    "#include \""@ + class_name
        + ".h\"\n\n#include <oflike/ofAppRunner.h>\n\nint main(int argc, char* argv[]) {\n    return ofRunApp(new "@
        + class_name + "());\n}\n"@
}

/// Emits the procedural `main`-style entry-point file.
pub fn main_bootstrap_content(class_name: &str) -> (r: String)
    ensures
        r@ == main_bootstrap_content_spec(class_name@),
{
    let mut out = String::from_str("#include \"");
    out.append(class_name);
    out.append(
        ".h\"\n\n#include <oflike/ofAppRunner.h>\n\nint main(int argc, char* argv[]) {\n    return ofRunApp(new ",
    );
    out.append(class_name);
    out.append("());\n}\n");
    out
}

/// The app-bundle metadata file.
pub open spec fn info_plist_content_spec(project_name: Seq<char>, bundle_id: Seq<char>) -> Seq<
    char,
> {
    "<?xml version=\"1.0\" encoding=\"UTF-8\"?>\n<!DOCTYPE plist PUBLIC \"-//Apple//DTD PLIST 1.0//EN\" \"http://www.apple.com/DTDs/PropertyList-1.0.dtd\">\n<plist version=\"1.0\">\n<dict>\n    <key>CFBundleName</key>\n    <string>"@
        + project_name + "</string>\n    <key>CFBundleIdentifier</key>\n    <string>"@ + bundle_id
        + "</string>\n    <key>CFBundleVersion</key>\n    <string>1.0.0</string>\n    <key>CFBundleShortVersionString</key>\n    <string>1.0.0</string>\n    <key>CFBundleExecutable</key>\n    <string>$(EXECUTABLE_NAME)</string>\n    <key>NSPrincipalClass</key>\n    <string>NSApplication</string>\n    <key>LSMinimumSystemVersion</key>\n    <string>13.0</string>\n</dict>\n</plist>\n"@
}

/// Emits the Info.plist with bundle name, bundle id and minimum OS version.
pub fn info_plist_content(project_name: &str, bundle_id: &str) -> (r: String)
    ensures
        r@ == info_plist_content_spec(project_name@, bundle_id@),
{
    let mut out = String::from_str(
        "<?xml version=\"1.0\" encoding=\"UTF-8\"?>\n<!DOCTYPE plist PUBLIC \"-//Apple//DTD PLIST 1.0//EN\" \"http://www.apple.com/DTDs/PropertyList-1.0.dtd\">\n<plist version=\"1.0\">\n<dict>\n    <key>CFBundleName</key>\n    <string>",
    );
    out.append(project_name);
    out.append("</string>\n    <key>CFBundleIdentifier</key>\n    <string>");
    out.append(bundle_id);
    out.append(
        "</string>\n    <key>CFBundleVersion</key>\n    <string>1.0.0</string>\n    <key>CFBundleShortVersionString</key>\n    <string>1.0.0</string>\n    <key>CFBundleExecutable</key>\n    <string>$(EXECUTABLE_NAME)</string>\n    <key>NSPrincipalClass</key>\n    <string>NSApplication</string>\n    <key>LSMinimumSystemVersion</key>\n    <string>13.0</string>\n</dict>\n</plist>\n",
    );
    out
}

/// The asset-catalog index placed under `resources/Assets.xcassets`.
pub open spec fn assets_contents_json_spec() -> Seq<char> {
    "{\n  \"info\": {\n    \"author\": \"xcode\",\n    \"version\": 1\n  }\n}\n"@
}

/// Emits the asset-catalog index.
pub fn assets_contents_json() -> (r: String)
    ensures
        r@ == assets_contents_json_spec(),
{
    String::from_str("{\n  \"info\": {\n    \"author\": \"xcode\",\n    \"version\": 1\n  }\n}\n")
}

/// The ignore file for generated projects.
pub open spec fn gitignore_content_spec() -> Seq<char> {
    "# Xcode\n*.xcodeproj\n*.xcworkspace\n!default.xcworkspace\n*.pbxuser\n*.mode1v3\n*.mode2v3\n*.perspectivev3\nxcuserdata/\nDerivedData/\n*.xccheckout\n*.moved-aside\n*.hmap\n*.ipa\n\n# CMake\nbuild/\nCMakeCache.txt\nCMakeFiles/\ncmake_install.cmake\n*.cmake\n\n# macOS\n.DS_Store\n.AppleDouble\n.LSOverride\nIcon\n._*\n\n# Temporary\n*.swp\n*.swo\n*~\n\n# Data\ndata/*\n!data/.gitkeep\n"@
}

/// Emits the ignore file.
pub fn gitignore_content() -> (r: String)
    ensures
        r@ == gitignore_content_spec(),
{
    String::from_str(
        "# Xcode\n*.xcodeproj\n*.xcworkspace\n!default.xcworkspace\n*.pbxuser\n*.mode1v3\n*.mode2v3\n*.perspectivev3\nxcuserdata/\nDerivedData/\n*.xccheckout\n*.moved-aside\n*.hmap\n*.ipa\n\n# CMake\nbuild/\nCMakeCache.txt\nCMakeFiles/\ncmake_install.cmake\n*.cmake\n\n# macOS\n.DS_Store\n.AppleDouble\n.LSOverride\nIcon\n._*\n\n# Temporary\n*.swp\n*.swo\n*~\n\n# Data\ndata/*\n!data/.gitkeep\n",
    )
}

/// The project README.
pub open spec fn readme_content_spec(project_name: Seq<char>) -> Seq<char> {
    "# "@ + project_name
        + "\n\nGenerated with oflike-gen (oflike-metal Project Generator).\n\n## Build\n\n### With XcodeGen (Recommended)\n\n```bash\nopen "@
        + project_name
        + ".xcodeproj\n```\n\nRe-generate the Xcode project after editing `project.yml`:\n\n```bash\nxcodegen generate\n```\n\n### With xcodebuild (CLI)\n\n```bash\nmkdir -p /tmp/oflike_metal_module_cache\nxcodebuild -project "@
        + project_name + ".xcodeproj \\\n  -scheme "@ + project_name
        + " \\\n  -configuration Debug \\\n  -destination \"platform=macOS\" \\\n  -derivedDataPath build/DerivedData/"@
        + project_name
        + " \\\n  MTL_COMPILER_FLAGS=\"-fmodules-cache-path=/tmp/oflike_metal_module_cache\" \\\n  build\n```\n\n### Using repo scripts (from oflike-metal root)\n\n```bash\n./scripts/build_app.sh "@
        + project_name + "\n./scripts/run_app.sh "@ + project_name
        + "\n# Metal debug\n./scripts/run_app.sh "@ + project_name
        + " --metal-debug\n```\n\n### Notes\n\n- Xcode 26 requires the Metal Toolchain component (Xcode Settings > Components).\n- Verify `xcrun metal -v` works before building.\n- Shader debug info is disabled to avoid Metal cache warnings; set `MTL_ENABLE_DEBUG_INFO = INCLUDE_SOURCE` in `project.yml` if needed.\n- Set `OFL_METAL_DEBUG=1` to log Metal library probing at app startup.\n\n### With CMake\n\n```bash\nmkdir build && cd build\ncmake .. -G Xcode\nopen "@
        + project_name
        + ".xcodeproj\n```\n\n## Dependencies\n\n- oflike-metal framework\n\n## License\n\nMIT\n"@
}

/// Emits the README.
pub fn readme_content(project_name: &str) -> (r: String)
    ensures
        r@ == readme_content_spec(project_name@),
{
    let mut out = String::from_str("# ");
    out.append(project_name);
    out.append(
        "\n\nGenerated with oflike-gen (oflike-metal Project Generator).\n\n## Build\n\n### With XcodeGen (Recommended)\n\n```bash\nopen ",
    );
    out.append(project_name);
    out.append(
        ".xcodeproj\n```\n\nRe-generate the Xcode project after editing `project.yml`:\n\n```bash\nxcodegen generate\n```\n\n### With xcodebuild (CLI)\n\n```bash\nmkdir -p /tmp/oflike_metal_module_cache\nxcodebuild -project ",
    );
    out.append(project_name);
    out.append(".xcodeproj \\\n  -scheme ");
    out.append(project_name);
    out.append(
        " \\\n  -configuration Debug \\\n  -destination \"platform=macOS\" \\\n  -derivedDataPath build/DerivedData/",
    );
    out.append(project_name);
    out.append(
        " \\\n  MTL_COMPILER_FLAGS=\"-fmodules-cache-path=/tmp/oflike_metal_module_cache\" \\\n  build\n```\n\n### Using repo scripts (from oflike-metal root)\n\n```bash\n./scripts/build_app.sh ",
    );
    out.append(project_name);
    out.append("\n./scripts/run_app.sh ");
    out.append(project_name);
    out.append("\n# Metal debug\n./scripts/run_app.sh ");
    out.append(project_name);
    out.append(
        " --metal-debug\n```\n\n### Notes\n\n- Xcode 26 requires the Metal Toolchain component (Xcode Settings > Components).\n- Verify `xcrun metal -v` works before building.\n- Shader debug info is disabled to avoid Metal cache warnings; set `MTL_ENABLE_DEBUG_INFO = INCLUDE_SOURCE` in `project.yml` if needed.\n- Set `OFL_METAL_DEBUG=1` to log Metal library probing at app startup.\n\n### With CMake\n\n```bash\nmkdir build && cd build\ncmake .. -G Xcode\nopen ",
    );
    out.append(project_name);
    out.append(".xcodeproj\n```\n\n## Dependencies\n\n- oflike-metal framework\n\n## License\n\nMIT\n");
    out
}

/// The initial configuration document, with the resolved author filled in.
pub open spec fn default_config_content_spec(author: Seq<char>) -> Seq<char> {
    "# oflike-gen configuration\n[defaults]\naddon_mode = \"reference\"\nauthor = \""@ + author
        + "\"\nbundle_id_prefix = \"com.example\"\n\n[paths]\n# oflike_metal_root = \"/usr/local/lib/oflike-metal\"\n# addons_dir = \"~/addons\"\n\n[templates]\ndefault_template = \"basic\"\n"@
}

/// Emits the initial configuration document.
pub fn default_config_content(author: &str) -> (r: String)
    ensures
        r@ == default_config_content_spec(author@),
{
    let mut out = String::from_str(
        "# oflike-gen configuration\n[defaults]\naddon_mode = \"reference\"\nauthor = \"",
    );
    out.append(author);
    out.append(
        "\"\nbundle_id_prefix = \"com.example\"\n\n[paths]\n# oflike_metal_root = \"/usr/local/lib/oflike-metal\"\n# addons_dir = \"~/addons\"\n\n[templates]\ndefault_template = \"basic\"\n",
    );
    out
}

/// The two SwiftUI support files copied from the framework: each pair is the
/// source path relative to the framework root and the destination path
/// relative to the project root.
pub fn swiftui_support_files() -> (r: Vec<(&'static str, &'static str)>)
    ensures
        r@.len() == 2,
        r@[0].0@ == "src/platform/swiftui/MetalView.swift"@,
        r@[0].1@ == "src/MetalView.swift"@,
        r@[1].0@ == "src/platform/swiftui/PerformanceMonitor.swift"@,
        r@[1].1@ == "src/PerformanceMonitor.swift"@,
{
    let mut r: Vec<(&'static str, &'static str)> = Vec::new();
    r.push(("src/platform/swiftui/MetalView.swift", "src/MetalView.swift"));
    r.push(("src/platform/swiftui/PerformanceMonitor.swift", "src/PerformanceMonitor.swift"));
    r
}

/// The message reported when a SwiftUI support file is missing from the
/// framework installation.
pub open spec fn missing_template_message_spec(path: Seq<char>) -> Seq<char> {
    "Missing SwiftUI template: "@ + path
}

/// Builds the missing-support-file message.
pub fn missing_template_message(path: &str) -> (r: String)
    ensures
        r@ == missing_template_message_spec(path@),
{
    let mut out = String::from_str("Missing SwiftUI template: ");
    out.append(path);
    out
}

} // verus!
