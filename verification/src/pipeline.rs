//! The project-creation pipeline: request validation, spec resolution, and
//! the write plan.
//!
//! Creation is a strict linear pipeline: the first failing stage aborts the
//! whole operation, and a plan is only handed out when every validation
//! passed and the destination does not exist yet — so a request against an
//! existing destination never plans a single write.

use vstd::prelude::*;

use crate::addons::parse_addons_spec;
use crate::config::Config;
use crate::error::GeneratorError;
use crate::templates::{
    app_swift_content_spec, assets_contents_json_spec, gitignore_content_spec,
    header_content_spec, impl_content_spec, info_plist_content_spec, main_bootstrap_content_spec,
    readme_content_spec,
};
use crate::text::{trim, trim_seq};
use crate::utils::{
    bundle_id_of, pascal_of, valid_addon_mode, valid_bundle_id, valid_entry_mode,
    valid_project_name, valid_template,
};

verus! {

/// One file the plan writes: its path relative to the project root, and its
/// full content.
pub struct FileSpec {
    pub path: String,
    pub content: String,
}

/// How the generated application starts: a declarative SwiftUI composition
/// root inside an app bundle, or a procedural `main`-style bootstrap.
#[derive(Clone, Copy, Debug, PartialEq, Eq, Structural)]
pub enum EntryMode {
    SwiftUIEntry,
    NativeMainEntry,
}

/// Parses an entry mode string into the enum.
pub fn entry_mode_from_str(mode: &str) -> (r: Option<EntryMode>)
    ensures
        r matches Some(m) ==> (m is SwiftUIEntry <==> mode@ == "swiftui"@),
        r matches Some(m) ==> (m is NativeMainEntry <==> mode@ == "ofmain"@),
        r is None <==> !valid_entry_mode(mode@),
{
    proof {
        reveal_strlit("swiftui");
        reveal_strlit("ofmain");
        assert("swiftui"@.len() == 7);
        assert("ofmain"@.len() == 6);
    }
    if crate::text::str_eq(mode, "swiftui") {
        Some(EntryMode::SwiftUIEntry)
    } else if crate::text::str_eq(mode, "ofmain") {
        Some(EntryMode::NativeMainEntry)
    } else {
        None
    }
}

/// Whether the enum value names the given entry-mode string.
pub open spec fn entry_mode_matches(m: EntryMode, s: Seq<char>) -> bool {
    (m is SwiftUIEntry <==> s == "swiftui"@) && (m is NativeMainEntry <==> s == "ofmain"@)
}

/// Everything the shell must materialize for a new project, short of the
/// addon integration and the two manifests, which follow once the framework
/// root is known.
pub struct ProjectPlan {
    /// The resolved bundle identifier.
    pub bundle_id: String,
    /// The resolved author name.
    pub author: String,
    /// The PascalCase class name derived from the project name.
    pub class_name: String,
    /// The resolved entry mode.
    pub entry_mode: EntryMode,
    /// The requested addon names, parsed, in request order.
    pub addons: Vec<String>,
    /// Directories to create under the project root, in order.
    pub dirs: Vec<String>,
    /// Files to write under the project root, in order.
    pub files: Vec<FileSpec>,
}

/// The bundle id the pipeline settles on: an explicit one wins, otherwise it
/// is generated from the name under the configured (or default) prefix.
pub open spec fn chosen_bundle_id(
    name: Seq<char>,
    explicit: Option<Seq<char>>,
    config: Option<&Config>,
) -> Seq<char> {
    match explicit {
        Some(b) => b,
        None => {
            let prefix = match config {
                Some(c) => c.defaults.bundle_id_prefix@,
                None => "com.example"@,
            };
            bundle_id_of(name, prefix)
        },
    }
}

/// The author the pipeline settles on: an explicit author, else the
/// configured author, else the one version control reports, else "Unknown".
pub open spec fn chosen_author(
    explicit: Option<Seq<char>>,
    config: Option<&Config>,
    git_author: Option<Seq<char>>,
) -> Seq<char> {
    match explicit {
        Some(a) => a,
        None => match config {
            Some(c) => c.defaults.author@,
            None => match git_author {
                Some(g) => g,
                None => "Unknown"@,
            },
        },
    }
}

/// The entry mode the pipeline settles on: an explicit one wins, otherwise
/// the configured default, otherwise the SwiftUI entry.
pub open spec fn chosen_entry_mode(explicit: Option<Seq<char>>, config: Option<&Config>) -> Seq<
    char,
> {
    match explicit {
        Some(m) => m,
        None => match config {
            Some(c) => c.defaults.entry_mode@,
            None => "swiftui"@,
        },
    }
}

/// The directories every new project gets.
pub open spec fn planned_dirs() -> Seq<Seq<char>> {
    seq!["src"@, "data"@, "resources"@, "resources/Assets.xcassets"@]
}

/// The files every new project gets (besides addons and manifests), in write
/// order, with their full contents.  The entry mode decides the entry-point
/// file, and the app-bundle metadata file is emitted only for the SwiftUI
/// entry, which packages as an app bundle.
pub open spec fn planned_files(
    name: Seq<char>,
    class: Seq<char>,
    bundle: Seq<char>,
    entry: EntryMode,
    no_readme: bool,
) -> Seq<(Seq<char>, Seq<char>)> {
    let head = seq![
        ("data/.gitkeep"@, Seq::<char>::empty()),
        ("resources/Assets.xcassets/Contents.json"@, assets_contents_json_spec()),
        ("src/"@ + class + ".h"@, header_content_spec(class)),
        ("src/"@ + class + ".cpp"@, impl_content_spec(class, name)),
    ];
    let with_entry = if entry is SwiftUIEntry {
        head.push(("src/App.swift"@, app_swift_content_spec(class))).push(
            ("resources/Info.plist"@, info_plist_content_spec(name, bundle)),
        )
    } else {
        head.push(("src/main.cpp"@, main_bootstrap_content_spec(class)))
    };
    let base = with_entry.push((".gitignore"@, gitignore_content_spec()));
    if no_readme {
        base
    } else {
        base.push(("README.md"@, readme_content_spec(name)))
    }
}

/// What a returned plan promises.
pub open spec fn plan_obeys(
    plan: ProjectPlan,
    name: Seq<char>,
    addons: Option<Seq<char>>,
    explicit_entry: Option<Seq<char>>,
    explicit_bundle: Option<Seq<char>>,
    explicit_author: Option<Seq<char>>,
    config: Option<&Config>,
    git_author: Option<Seq<char>>,
    no_readme: bool,
) -> bool {
    &&& plan.class_name@ == pascal_of(name)
    &&& plan.bundle_id@ == chosen_bundle_id(name, explicit_bundle, config)
    &&& plan.author@ == chosen_author(explicit_author, config, git_author)
    &&& entry_mode_matches(plan.entry_mode, chosen_entry_mode(explicit_entry, config))
    &&& plan.addons@.map_values(|a: String| a@) == match addons {
        Some(s) => parse_addons_spec(s),
        None => Seq::<Seq<char>>::empty(),
    }
    &&& plan.dirs@.map_values(|d: String| d@) == planned_dirs()
    &&& plan.files@.map_values(|f: FileSpec| (f.path@, f.content@)) == planned_files(
        name,
        pascal_of(name),
        chosen_bundle_id(name, explicit_bundle, config),
        plan.entry_mode,
        no_readme,
    )
}

/// Validates the request exactly as the pipeline's first stage does: the
/// project name first, then the addon mode, then the template.
pub fn validate_new_request(project_name: &str, addon_mode: &str, template: &str) -> (r: Result<
    (),
    GeneratorError,
>)
    ensures
        r is Ok <==> valid_project_name(project_name@) && valid_addon_mode(addon_mode@)
            && valid_template(template@),
        !valid_project_name(project_name@) ==> (r matches Err(e) && e is InvalidProjectName),
        valid_project_name(project_name@) && !valid_addon_mode(addon_mode@) ==> (r matches Err(e)
            && e is InvalidAddonMode),
        valid_project_name(project_name@) && valid_addon_mode(addon_mode@) && !valid_template(
            template@,
        ) ==> (r matches Err(e) && e is InvalidTemplate),
{
    crate::utils::validate_project_name(project_name)?;
    crate::utils::validate_addon_mode(addon_mode)?;
    crate::utils::validate_template(template)?;
    Ok(())
}

/// The three request inputs every run validates first.
pub open spec fn request_valid(name: Seq<char>, addon_mode: Seq<char>, template: Seq<char>) -> bool {
    valid_project_name(name) && valid_addon_mode(addon_mode) && valid_template(template)
}

/// Plans a new project.  The stages run in order — name, addon mode,
/// template, entry mode, destination existence, bundle id — and the first
/// failure aborts; in particular an existing destination always yields
/// `ProjectExists` and no plan at all, so nothing is ever written over it.
pub fn plan_project(
    project_name: &str,
    addons: Option<&str>,
    addon_mode: &str,
    template: &str,
    entry_mode: Option<&str>,
    bundle_id: Option<&str>,
    author: Option<&str>,
    config: Option<&Config>,
    git_author: Option<&str>,
    dest_exists: bool,
    dest_path: &str,
    no_readme: bool,
) -> (r: Result<ProjectPlan, GeneratorError>)
    ensures
        !valid_project_name(project_name@) ==> (r matches Err(e) && e is InvalidProjectName),
        valid_project_name(project_name@) && !valid_addon_mode(addon_mode@) ==> (r matches Err(e)
            && e is InvalidAddonMode),
        valid_project_name(project_name@) && valid_addon_mode(addon_mode@) && !valid_template(
            template@,
        ) ==> (r matches Err(e) && e is InvalidTemplate),
        request_valid(project_name@, addon_mode@, template@) && !valid_entry_mode(
            chosen_entry_mode(crate::config::opt_str_view(entry_mode), config),
        ) ==> (r matches Err(e) && e is InvalidEntryMode),
        request_valid(project_name@, addon_mode@, template@) && valid_entry_mode(
            chosen_entry_mode(crate::config::opt_str_view(entry_mode), config),
        ) && dest_exists ==> (r matches Err(e) && e matches GeneratorError::ProjectExists(m) && m@
            == dest_path@),
        request_valid(project_name@, addon_mode@, template@) && valid_entry_mode(
            chosen_entry_mode(crate::config::opt_str_view(entry_mode), config),
        ) && !dest_exists ==> (match bundle_id {
            Some(b) => !valid_bundle_id(b@) ==> (r matches Err(e) && e is InvalidBundleId),
            None => true,
        }),
        request_valid(project_name@, addon_mode@, template@) && valid_entry_mode(
            chosen_entry_mode(crate::config::opt_str_view(entry_mode), config),
        ) && !dest_exists && (match bundle_id {
            Some(b) => valid_bundle_id(b@),
            None => true,
        }) ==> (r matches Ok(plan) && plan_obeys(
            plan,
            project_name@,
            crate::config::opt_str_view(addons),
            crate::config::opt_str_view(entry_mode),
            crate::config::opt_str_view(bundle_id),
            crate::config::opt_str_view(author),
            config,
            crate::config::opt_str_view(git_author),
            no_readme,
        )),
{
    validate_new_request(project_name, addon_mode, template)?;
    let entry_str: String = match entry_mode {
        Some(m) => String::from_str(m),
        None => match config {
            Some(c) => c.defaults.entry_mode.clone(),
            None => String::from_str("swiftui"),
        },
    };
    let entry: EntryMode = match entry_mode_from_str(entry_str.as_str()) {
        Some(m) => m,
        None => {
            return Err(
                GeneratorError::InvalidEntryMode(
                    String::from_str("Invalid entry mode: ").concat(entry_str.as_str()).concat(
                        ". Must be 'swiftui' or 'ofmain'",
                    ),
                ),
            );
        },
    };
    if dest_exists {
        return Err(GeneratorError::ProjectExists(String::from_str(dest_path)));
    }
    let resolved_bundle: String = match bundle_id {
        Some(b) => {
            crate::utils::validate_bundle_id(b)?;
            String::from_str(b)
        },
        None => {
            let generated = match config {
                Some(c) => crate::utils::generate_bundle_id(
                    project_name,
                    c.defaults.bundle_id_prefix.as_str(),
                ),
                None => crate::utils::generate_bundle_id(project_name, "com.example"),
            };
            generated
        },
    };
    let resolved_author: String = match author {
        Some(a) => String::from_str(a),
        None => match config {
            Some(c) => c.defaults.author.clone(),
            None => match git_author {
                Some(g) => String::from_str(g),
                None => String::from_str("Unknown"),
            },
        },
    };
    let class_name = crate::utils::to_pascal_case(project_name);
    let addon_list = crate::addons::parse_addons(addons)?;

    let mut dirs: Vec<String> = Vec::new();
    dirs.push(String::from_str("src"));
    dirs.push(String::from_str("data"));
    dirs.push(String::from_str("resources"));
    dirs.push(String::from_str("resources/Assets.xcassets"));
    proof {
        assert(dirs@.map_values(|d: String| d@) =~= planned_dirs());
    }

    let mut files: Vec<FileSpec> = Vec::new();
    files.push(FileSpec { path: String::from_str("data/.gitkeep"), content: String::new() });
    files.push(
        FileSpec {
            path: String::from_str("resources/Assets.xcassets/Contents.json"),
            content: crate::templates::assets_contents_json(),
        },
    );
    let mut header_path = String::from_str("src/");
    header_path.append(class_name.as_str());
    header_path.append(".h");
    files.push(
        FileSpec {
            path: header_path,
            content: crate::templates::header_file_content(class_name.as_str()),
        },
    );
    let mut impl_path = String::from_str("src/");
    impl_path.append(class_name.as_str());
    impl_path.append(".cpp");
    files.push(
        FileSpec {
            path: impl_path,
            content: crate::templates::impl_file_content(class_name.as_str(), project_name),
        },
    );
    if matches!(entry, EntryMode::SwiftUIEntry) {
        files.push(
            FileSpec {
                path: String::from_str("src/App.swift"),
                content: crate::templates::app_swift_content(class_name.as_str()),
            },
        );
        files.push(
            FileSpec {
                path: String::from_str("resources/Info.plist"),
                content: crate::templates::info_plist_content(
                    project_name,
                    resolved_bundle.as_str(),
                ),
            },
        );
    } else {
        files.push(
            FileSpec {
                path: String::from_str("src/main.cpp"),
                content: crate::templates::main_bootstrap_content(class_name.as_str()),
            },
        );
    }
    files.push(
        FileSpec {
            path: String::from_str(".gitignore"),
            content: crate::templates::gitignore_content(),
        },
    );
    if !no_readme {
        files.push(
            FileSpec {
                path: String::from_str("README.md"),
                content: crate::templates::readme_content(project_name),
            },
        );
    }
    proof {
        assert(files@.map_values(|f: FileSpec| (f.path@, f.content@)) =~= planned_files(
            project_name@,
            class_name@,
            resolved_bundle@,
            entry,
            no_readme,
        ));
    }

    Ok(
        ProjectPlan {
            bundle_id: resolved_bundle,
            author: resolved_author,
            class_name,
            entry_mode: entry,
            addons: addon_list,
            dirs,
            files,
        },
    )
}

/// A project structure is valid when `src/` is present together with at
/// least one of the two build manifests.
pub fn structure_is_valid(src_exists: bool, cmake_exists: bool, yml_exists: bool) -> (r: bool)
    ensures
        r == (src_exists && (cmake_exists || yml_exists)),
{
    src_exists && (cmake_exists || yml_exists)
}

/// The detail text of a failed IDE-generator run: both trimmed streams when
/// verbose, otherwise the trimmed error stream, falling back to the trimmed
/// output stream.
pub open spec fn xcodegen_detail_spec(verbose: bool, out: Seq<char>, err: Seq<char>) -> Seq<char> {
    if verbose {
        "stdout:\n"@ + trim_seq(out) + "\nstderr:\n"@ + trim_seq(err)
    } else if trim_seq(err).len() > 0 {
        trim_seq(err)
    } else {
        trim_seq(out)
    }
}

/// The message reported when the IDE generator exits unsuccessfully.
pub open spec fn xcodegen_failure_message_spec(
    verbose: bool,
    out: Seq<char>,
    err: Seq<char>,
) -> Seq<char> {
    if xcodegen_detail_spec(verbose, out, err).len() == 0 {
        "XcodeGen failed with no output"@
    } else {
        "XcodeGen failed: "@ + xcodegen_detail_spec(verbose, out, err)
    }
}

/// Builds the message for a failed IDE-generator run from its two output
/// streams.
pub fn xcodegen_failure_message(verbose: bool, stdout_text: &str, stderr_text: &str) -> (r:
    String)
    ensures
        r@ == xcodegen_failure_message_spec(verbose, stdout_text@, stderr_text@),
{
    let out_trimmed = trim(stdout_text);
    let err_trimmed = trim(stderr_text);
    let detail: String = if verbose {
        let mut d = String::from_str("stdout:\n");
        d.append(out_trimmed.as_str());
        d.append("\nstderr:\n");
        d.append(err_trimmed.as_str());
        d
    } else if err_trimmed.as_str().unicode_len() > 0 {
        err_trimmed
    } else {
        out_trimmed
    };
    if detail.as_str().unicode_len() == 0 {
        String::from_str("XcodeGen failed with no output")
    } else {
        let mut m = String::from_str("XcodeGen failed: ");
        m.append(detail.as_str());
        m
    }
}

/// The remediation hint reported when the IDE generator is not installed.
pub fn xcodegen_missing_message() -> (r: String)
    ensures
        r@ == "XcodeGen not found. Install with: brew install xcodegen"@,
{
    String::from_str("XcodeGen not found. Install with: brew install xcodegen")
}

/// The message reported when the IDE generator could not be started at all.
pub fn xcodegen_spawn_failure_message(detail: &str) -> (r: String)
    ensures
        r@ == "Failed to run xcodegen: "@ + detail@,
{
    let mut m = String::from_str("Failed to run xcodegen: ");
    m.append(detail);
    m
}

/// The message reported when version-control initialization fails.
pub fn git_init_failure_message() -> (r: String)
    ensures
        r@ == "Failed to initialize git repository"@,
{
    String::from_str("Failed to initialize git repository")
}

} // verus!
