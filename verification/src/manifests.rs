//! Build-manifest synthesis.
//!
//! Two structurally different documents describe the same build target: a
//! CMake build-graph file and an XcodeGen project description.  Both are
//! synthesized from the project name, the bundle id, and the same ordered
//! list of successfully integrated addon names, so their addon enumerations
//! agree by construction — `lemma_manifests_agree_on_addons` states that
//! agreement.

use vstd::prelude::*;

use crate::addons::{
    action_matches, addon_dest_rel, integrated_names, lemma_plan_matches_integrated,
    non_skipped_names, AddonMode, IntegrationAction, ResolvedAddon,
};
use crate::text::{str_to_uppercase, uppercase_of};

verus! {

/// The fixed head of the CMake manifest, up to the addon section.
pub open spec fn cmake_prelude_spec(project: Seq<char>) -> Seq<char> {
    "cmake_minimum_required(VERSION 3.20)\nproject("@ + project
        + ")\n\nset(CMAKE_CXX_STANDARD 20)\nset(CMAKE_CXX_STANDARD_REQUIRED ON)\n\n# Find oflike-metal framework\nfind_package(oflike-metal REQUIRED)\n\n# Source files\nfile(GLOB_RECURSE SOURCES \"src/*.cpp\" \"src/*.mm\")\nfile(GLOB_RECURSE HEADERS \"src/*.h\")\n\n"@
        + "# Swift sources\nfile(GLOB SWIFT_SOURCES \"src/*.swift\")\n\n"@
        + "# Executable\nadd_executable("@ + project + " MACOSX_BUNDLE ${SOURCES} ${HEADERS}"@
        + " ${SWIFT_SOURCES}"@ + ")\n\n"@ + "# Link oflike-metal\ntarget_link_libraries("@
        + project + " oflike-metal::oflike-metal)\n\n"@
}

/// The CMake block wiring one addon into the target: source selection and an
/// include path, both under the addon's project-relative directory, named by
/// the addon's upper-case token.
pub open spec fn cmake_addon_block_spec(project: Seq<char>, addon: Seq<char>) -> Seq<char> {
    "file(GLOB_RECURSE "@ + uppercase_of(addon) + "_SOURCES \""@ + addon_dest_rel(addon)
        + "/*.cpp\" \""@ + addon_dest_rel(addon) + "/*.mm\")\nfile(GLOB_RECURSE "@ + uppercase_of(
        addon,
    ) + "_HEADERS \""@ + addon_dest_rel(addon) + "/*.h\")\ntarget_sources("@ + project
        + " PRIVATE ${"@ + uppercase_of(addon) + "_SOURCES} ${"@ + uppercase_of(addon)
        + "_HEADERS})\ntarget_include_directories("@ + project + " PRIVATE "@ + addon_dest_rel(
        addon,
    ) + ")\n\n"@
}

/// The addon blocks of the CMake manifest, in list order.
pub open spec fn cmake_addon_blocks_spec(project: Seq<char>, addons: Seq<Seq<char>>) -> Seq<char>
    decreases addons.len(),
{
    if addons.len() == 0 {
        Seq::<char>::empty()
    } else {
        cmake_addon_blocks_spec(project, addons.drop_last()) + cmake_addon_block_spec(
            project,
            addons.last(),
        )
    }
}

/// The addon section: absent when no addon was integrated.
pub open spec fn cmake_addons_section_spec(project: Seq<char>, addons: Seq<Seq<char>>) -> Seq<
    char,
> {
    if addons.len() == 0 {
        Seq::<char>::empty()
    } else {
        "# Addons\n"@ + cmake_addon_blocks_spec(project, addons) + "\n"@
    }
}

/// The fixed tail of the CMake manifest.
pub open spec fn cmake_bundle_spec(project: Seq<char>) -> Seq<char> {
    "# Bundle settings\nset_target_properties("@ + project
        + " PROPERTIES\n    MACOSX_BUNDLE_INFO_PLIST \"${CMAKE_CURRENT_SOURCE_DIR}/resources/Info.plist\"\n    RESOURCE \"${CMAKE_CURRENT_SOURCE_DIR}/resources;${CMAKE_CURRENT_SOURCE_DIR}/data\"\n)\n"@
}

/// The whole CMake manifest.
pub open spec fn cmake_file_spec(project: Seq<char>, addons: Seq<Seq<char>>) -> Seq<char> {
    cmake_prelude_spec(project) + cmake_addons_section_spec(project, addons) + cmake_bundle_spec(
        project,
    )
}

/// Builds the CMake addon block for one addon.
pub fn cmake_addon_block(project_name: &str, addon: &str) -> (r: String)
    ensures
        r@ == cmake_addon_block_spec(project_name@, addon@),
{
    let up = str_to_uppercase(addon);
    let dest = crate::addons::addon_dest_rel_path(addon);
    let mut out = String::from_str("file(GLOB_RECURSE ");
    out.append(up.as_str());
    out.append("_SOURCES \"");
    out.append(dest.as_str());
    out.append("/*.cpp\" \"");
    out.append(dest.as_str());
    out.append("/*.mm\")\nfile(GLOB_RECURSE ");
    out.append(up.as_str());
    out.append("_HEADERS \"");
    out.append(dest.as_str());
    out.append("/*.h\")\ntarget_sources(");
    out.append(project_name);
    out.append(" PRIVATE ${");
    out.append(up.as_str());
    out.append("_SOURCES} ${");
    out.append(up.as_str());
    out.append("_HEADERS})\ntarget_include_directories(");
    out.append(project_name);
    out.append(" PRIVATE ");
    out.append(dest.as_str());
    out.append(")\n\n");
    out
}

/// Synthesizes the CMake manifest from the project name and the integrated
/// addon names, in their request order.
pub fn cmake_file_content(project_name: &str, addons: &Vec<String>) -> (r: String)
    ensures
        r@ == cmake_file_spec(project_name@, addons@.map_values(|a: String| a@)),
{
    let ghost addon_views = addons@.map_values(|a: String| a@);
    let mut out = String::from_str("cmake_minimum_required(VERSION 3.20)\nproject(");
    out.append(project_name);
    out.append(
        ")\n\nset(CMAKE_CXX_STANDARD 20)\nset(CMAKE_CXX_STANDARD_REQUIRED ON)\n\n# Find oflike-metal framework\nfind_package(oflike-metal REQUIRED)\n\n# Source files\nfile(GLOB_RECURSE SOURCES \"src/*.cpp\" \"src/*.mm\")\nfile(GLOB_RECURSE HEADERS \"src/*.h\")\n\n",
    );
    out.append("# Swift sources\nfile(GLOB SWIFT_SOURCES \"src/*.swift\")\n\n");
    out.append("# Executable\nadd_executable(");
    out.append(project_name);
    out.append(" MACOSX_BUNDLE ${SOURCES} ${HEADERS}");
    out.append(" ${SWIFT_SOURCES}");
    out.append(")\n\n");
    out.append("# Link oflike-metal\ntarget_link_libraries(");
    out.append(project_name);
    out.append(" oflike-metal::oflike-metal)\n\n");
    proof {
        assert(out@ =~= cmake_prelude_spec(project_name@));
    }
    if addons.len() > 0 {
        out.append("# Addons\n");
        let mut k: usize = 0;
        proof {
            assert(cmake_addon_blocks_spec(project_name@, addon_views.take(0)) =~= Seq::<
                char,
            >::empty());
            assert(out@ =~= cmake_prelude_spec(project_name@) + "# Addons\n"@
                + cmake_addon_blocks_spec(project_name@, addon_views.take(0)));
        }
        while k < addons.len()
            invariant
                addon_views == addons@.map_values(|a: String| a@),
                0 <= k <= addons@.len(),
                out@ == cmake_prelude_spec(project_name@) + "# Addons\n"@
                    + cmake_addon_blocks_spec(project_name@, addon_views.take(k as int)),
            decreases addons@.len() - k,
        {
            proof {
                assert(addon_views[k as int] == addons@.map_values(|a: String| a@)[k as int]);
                assert(addon_views.take(k + 1).drop_last() =~= addon_views.take(k as int));
                assert(addon_views.take(k + 1).last() == addon_views[k as int]);
            }
            let block = cmake_addon_block(project_name, addons[k].as_str());
            out.append(block.as_str());
            proof {
                assert(out@ =~= cmake_prelude_spec(project_name@) + "# Addons\n"@
                    + cmake_addon_blocks_spec(project_name@, addon_views.take(k + 1)));
            }
            k = k + 1;
        }
        out.append("\n");
        proof {
            assert(addon_views.take(addons@.len() as int) =~= addon_views);
            assert(out@ =~= cmake_prelude_spec(project_name@) + cmake_addons_section_spec(
                project_name@,
                addon_views,
            ));
        }
    } else {
        proof {
            assert(addon_views.len() == 0);
            assert(out@ =~= cmake_prelude_spec(project_name@) + cmake_addons_section_spec(
                project_name@,
                addon_views,
            ));
        }
    }
    out.append("# Bundle settings\nset_target_properties(");
    out.append(project_name);
    out.append(
        " PROPERTIES\n    MACOSX_BUNDLE_INFO_PLIST \"${CMAKE_CURRENT_SOURCE_DIR}/resources/Info.plist\"\n    RESOURCE \"${CMAKE_CURRENT_SOURCE_DIR}/resources;${CMAKE_CURRENT_SOURCE_DIR}/data\"\n)\n",
    );
    proof {
        assert(out@ =~= cmake_file_spec(project_name@, addon_views));
    }
    out
}

/// The head of the XcodeGen manifest, up to the fixed source entries.
pub open spec fn xcodegen_head_spec(project: Seq<char>, bundle_id: Seq<char>) -> Seq<char> {
    "name: "@ + project + "\noptions:\n  bundleIdPrefix: "@ + bundle_id
        + "\n  deploymentTarget:\n    macOS: \"13.0\"\n\ntargets:\n  "@ + project
        + ":\n    type: application\n    platform: macOS\n    sources:\n"@
        + "      - src\n      - ../../shaders/Basic2D.metal\n      - ../../shaders/Basic3D.metal\n"@
}

/// One addon source entry of the XcodeGen manifest.
pub open spec fn xcodegen_addon_line_spec(addon: Seq<char>) -> Seq<char> {
    "      - "@ + addon_dest_rel(addon) + "\n"@
}

/// The addon source entries, in list order.
pub open spec fn xcodegen_addon_lines_spec(addons: Seq<Seq<char>>) -> Seq<char>
    decreases addons.len(),
{
    if addons.len() == 0 {
        Seq::<char>::empty()
    } else {
        xcodegen_addon_lines_spec(addons.drop_last()) + xcodegen_addon_line_spec(addons.last())
    }
}

/// The settings block of the XcodeGen manifest.
pub open spec fn xcodegen_settings_spec(bundle_id: Seq<char>) -> Seq<char> {
    "      - path: data\n        type: folder\n        buildPhase: resources\n      - path: resources\n        type: folder\n        buildPhase: resources\n"@
        + "    settings:\n      PRODUCT_BUNDLE_IDENTIFIER: "@ + bundle_id
        + "\n      INFOPLIST_FILE: resources/Info.plist\n      SWIFT_VERSION: \"5.9\"\n      MTL_ENABLE_DEBUG_INFO: \"NO\"\n      MTL_COMPILER_FLAGS: \"-fmodules-cache-path=/tmp/oflike_metal_module_cache\"\n      SWIFT_OBJC_BRIDGING_HEADER: \"$(PROJECT_DIR)/../../src/platform/bridge/oflike-metal-Bridging-Header.h\"\n      CLANG_CXX_LANGUAGE_STANDARD: \"c++20\"\n      CLANG_CXX_LIBRARY: \"libc++\"\n      ENABLE_HARDENED_RUNTIME: NO\n      CODE_SIGNING_ALLOWED: NO\n      CODE_SIGNING_REQUIRED: NO\n      CODE_SIGN_IDENTITY: \"\"\n      HEADER_SEARCH_PATHS:\n        - \"$(PROJECT_DIR)/../../src\"\n"@
}

/// The library search paths and linker flags used in reference mode, which
/// links against the installed framework's build output directory; empty in
/// the embedding modes.
pub open spec fn xcodegen_library_settings_spec(mode: AddonMode) -> Seq<char> {
    if mode is Reference {
        "      LIBRARY_SEARCH_PATHS:\n        - \"$(PROJECT_DIR)/../../build\"\n        - \"$(PROJECT_DIR)/../../build/third_party\"\n      OTHER_LDFLAGS:\n        - \"-loflike-metal\"\n        - \"-ltess2\"\n        - \"-loscpack\"\n        - \"-lpugixml\"\n"@
    } else {
        Seq::<char>::empty()
    }
}

/// The dependency entry, decided by the addon mode: reference mode links the
/// framework's build output against the system SDK frameworks, the other
/// modes embed a prebuilt framework bundle.
pub open spec fn xcodegen_dependencies_spec(mode: AddonMode) -> Seq<char> {
    if mode is Reference {
        "    dependencies:\n      - sdk: Cocoa.framework\n      - sdk: Metal.framework\n      - sdk: MetalKit.framework\n      - sdk: QuartzCore.framework\n      - sdk: CoreGraphics.framework\n      - sdk: CoreText.framework\n      - sdk: ImageIO.framework\n      - sdk: Accelerate.framework\n"@
    } else {
        "    dependencies:\n      - framework: oflike-metal.framework\n        embed: true\n"@
    }
}

/// The whole XcodeGen manifest.
pub open spec fn xcodegen_file_spec(
    project: Seq<char>,
    bundle_id: Seq<char>,
    addons: Seq<Seq<char>>,
    mode: AddonMode,
) -> Seq<char> {
    xcodegen_head_spec(project, bundle_id) + xcodegen_addon_lines_spec(addons)
        + xcodegen_settings_spec(bundle_id) + xcodegen_library_settings_spec(mode) + "\n"@
        + xcodegen_dependencies_spec(mode) + "\n    scheme:\n      testTargets: []\n"@
}

/// Synthesizes the XcodeGen manifest from the project name, the bundle id,
/// the integrated addon names in their request order, and the addon mode,
/// which decides the dependency entry.
pub fn xcodegen_file_content(
    project_name: &str,
    bundle_id: &str,
    addons: &Vec<String>,
    mode: AddonMode,
) -> (r: String)
    ensures
        r@ == xcodegen_file_spec(
            project_name@,
            bundle_id@,
            addons@.map_values(|a: String| a@),
            mode,
        ),
{
    let ghost addon_views = addons@.map_values(|a: String| a@);
    let mut out = String::from_str("name: ");
    out.append(project_name);
    out.append("\noptions:\n  bundleIdPrefix: ");
    out.append(bundle_id);
    out.append("\n  deploymentTarget:\n    macOS: \"13.0\"\n\ntargets:\n  ");
    out.append(project_name);
    out.append(":\n    type: application\n    platform: macOS\n    sources:\n");
    out.append(
        "      - src\n      - ../../shaders/Basic2D.metal\n      - ../../shaders/Basic3D.metal\n",
    );
    proof {
        assert(out@ =~= xcodegen_head_spec(project_name@, bundle_id@));
        assert(xcodegen_addon_lines_spec(addon_views.take(0)) =~= Seq::<char>::empty());
        assert(out@ =~= xcodegen_head_spec(project_name@, bundle_id@) + xcodegen_addon_lines_spec(
            addon_views.take(0),
        ));
    }
    let mut k: usize = 0;
    while k < addons.len()
        invariant
            addon_views == addons@.map_values(|a: String| a@),
            0 <= k <= addons@.len(),
            out@ == xcodegen_head_spec(project_name@, bundle_id@) + xcodegen_addon_lines_spec(
                addon_views.take(k as int),
            ),
        decreases addons@.len() - k,
    {
        proof {
            assert(addon_views[k as int] == addons@.map_values(|a: String| a@)[k as int]);
            assert(addon_views.take(k + 1).drop_last() =~= addon_views.take(k as int));
            assert(addon_views.take(k + 1).last() == addon_views[k as int]);
        }
        let dest = crate::addons::addon_dest_rel_path(addons[k].as_str());
        out.append("      - ");
        out.append(dest.as_str());
        out.append("\n");
        proof {
            assert(out@ =~= xcodegen_head_spec(project_name@, bundle_id@)
                + xcodegen_addon_lines_spec(addon_views.take(k + 1)));
        }
        k = k + 1;
    }
    proof {
        assert(addon_views.take(addons@.len() as int) =~= addon_views);
    }
    out.append(
        "      - path: data\n        type: folder\n        buildPhase: resources\n      - path: resources\n        type: folder\n        buildPhase: resources\n",
    );
    out.append("    settings:\n      PRODUCT_BUNDLE_IDENTIFIER: ");
    out.append(bundle_id);
    out.append(
        "\n      INFOPLIST_FILE: resources/Info.plist\n      SWIFT_VERSION: \"5.9\"\n      MTL_ENABLE_DEBUG_INFO: \"NO\"\n      MTL_COMPILER_FLAGS: \"-fmodules-cache-path=/tmp/oflike_metal_module_cache\"\n      SWIFT_OBJC_BRIDGING_HEADER: \"$(PROJECT_DIR)/../../src/platform/bridge/oflike-metal-Bridging-Header.h\"\n      CLANG_CXX_LANGUAGE_STANDARD: \"c++20\"\n      CLANG_CXX_LIBRARY: \"libc++\"\n      ENABLE_HARDENED_RUNTIME: NO\n      CODE_SIGNING_ALLOWED: NO\n      CODE_SIGNING_REQUIRED: NO\n      CODE_SIGN_IDENTITY: \"\"\n      HEADER_SEARCH_PATHS:\n        - \"$(PROJECT_DIR)/../../src\"\n",
    );
    if matches!(mode, AddonMode::Reference) {
        out.append(
            "      LIBRARY_SEARCH_PATHS:\n        - \"$(PROJECT_DIR)/../../build\"\n        - \"$(PROJECT_DIR)/../../build/third_party\"\n      OTHER_LDFLAGS:\n        - \"-loflike-metal\"\n        - \"-ltess2\"\n        - \"-loscpack\"\n        - \"-lpugixml\"\n",
        );
    }
    out.append("\n");
    if matches!(mode, AddonMode::Reference) {
        out.append(
            "    dependencies:\n      - sdk: Cocoa.framework\n      - sdk: Metal.framework\n      - sdk: MetalKit.framework\n      - sdk: QuartzCore.framework\n      - sdk: CoreGraphics.framework\n      - sdk: CoreText.framework\n      - sdk: ImageIO.framework\n      - sdk: Accelerate.framework\n",
        );
    } else {
        out.append(
            "    dependencies:\n      - framework: oflike-metal.framework\n        embed: true\n",
        );
    }
    out.append("\n    scheme:\n      testTargets: []\n");
    proof {
        assert(out@ =~= xcodegen_file_spec(project_name@, bundle_id@, addon_views, mode));
    }
    out
}

/// The addon directories the CMake manifest references, in order.
pub open spec fn cmake_addon_dirs(addons: Seq<Seq<char>>) -> Seq<Seq<char>> {
    addons.map_values(|a: Seq<char>| addon_dest_rel(a))
}

/// The addon directories the XcodeGen manifest references, in order.
pub open spec fn xcodegen_addon_dirs(addons: Seq<Seq<char>>) -> Seq<Seq<char>> {
    addons.map_values(|a: Seq<char>| addon_dest_rel(a))
}

/// Both manifests are synthesized from the same ordered addon list, and for
/// each addon both reference the same project-relative directory: the two
/// enumerations are identical, element for element.
pub proof fn lemma_manifests_agree_on_addons(addons: Seq<Seq<char>>)
    ensures
        cmake_addon_dirs(addons) == xcodegen_addon_dirs(addons),
        cmake_addon_dirs(addons).len() == addons.len(),
        forall|i: int| 0 <= i < addons.len() ==> cmake_addon_dirs(addons)[i] == addon_dest_rel(
            addons[i],
        ),
{
    assert(cmake_addon_dirs(addons) =~= xcodegen_addon_dirs(addons));
}

/// For any planned addon set: the addon directories both manifests enumerate
/// are exactly those of the non-skipped integration actions, in request
/// order — so an addon whose integration was skipped appears in neither
/// manifest, and both agree on order and paths.
pub proof fn lemma_manifests_list_exactly_the_integrated_addons(
    acts: Seq<IntegrationAction>,
    addons: Seq<ResolvedAddon>,
    mode: AddonMode,
)
    requires
        acts.len() == addons.len(),
        forall|i: int| 0 <= i < addons.len() ==> action_matches(#[trigger] acts[i], addons[i], mode),
    ensures
        cmake_addon_dirs(integrated_names(addons)) == xcodegen_addon_dirs(
            integrated_names(addons),
        ),
        cmake_addon_dirs(integrated_names(addons)) == non_skipped_names(acts).map_values(
            |a: Seq<char>| addon_dest_rel(a),
        ),
{
    lemma_plan_matches_integrated(acts, addons, mode);
    lemma_manifests_agree_on_addons(integrated_names(addons));
}

} // verus!
