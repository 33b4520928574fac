//! Persisted configuration and its defaults.
//!
//! The key-value document itself is parsed by the shell; the library receives
//! the already-resolved values and owns the precedence rules built on them.

use vstd::prelude::*;

use crate::error::GeneratorError;
use crate::text::str_eq;

verus! {

/// The global configuration document.
pub struct Config {
    pub defaults: Defaults,
    pub paths: Paths,
    pub templates: Templates,
}

/// The `defaults` section of the global configuration.
pub struct Defaults {
    pub entry_mode: String,
    pub addon_mode: String,
    pub author: String,
    pub bundle_id_prefix: String,
}

/// The `paths` section of the global configuration.
pub struct Paths {
    pub oflike_metal_root: Option<String>,
    pub addons_dir: Option<String>,
}

/// The `templates` section of the global configuration.
pub struct Templates {
    pub default_template: String,
}

/// A per-project configuration document.
pub struct ProjectConfig {
    pub project: ProjectInfo,
    pub entry: EntryConfig,
    pub addons: AddonsConfig,
    pub build: BuildConfig,
    pub paths: ProjectPaths,
}

/// The `project` section of a project configuration.
pub struct ProjectInfo {
    pub name: String,
    pub version: String,
    pub author: String,
    pub bundle_id: String,
}

/// The `entry` section of a project configuration.
pub struct EntryConfig {
    pub mode: String,
}

/// The `addons` section of a project configuration.
pub struct AddonsConfig {
    pub core: Vec<String>,
    pub custom: Vec<CustomAddon>,
}

/// One custom addon entry of a project configuration.
#[derive(Clone)]
pub struct CustomAddon {
    pub name: String,
    pub mode: String,
    pub source: String,
}

/// The `build` section of a project configuration.
pub struct BuildConfig {
    pub cmake: bool,
    pub xcodegen: bool,
    pub min_macos: String,
    pub swift_version: String,
    pub cpp_standard: String,
}

/// The `paths` section of a project configuration.
pub struct ProjectPaths {
    pub src: String,
    pub data: String,
    pub resources: String,
    pub addons: String,
}

impl Default for Defaults {
    fn default() -> (r: Self)
        ensures
            r.entry_mode@ == "swiftui"@,
            r.addon_mode@ == "reference"@,
            r.author@ == Seq::<char>::empty(),
            r.bundle_id_prefix@ == "com.example"@,
    {
        Defaults {
            entry_mode: String::from_str("swiftui"),
            addon_mode: String::from_str("reference"),
            author: String::new(),
            bundle_id_prefix: String::from_str("com.example"),
        }
    }
}

impl Default for Paths {
    fn default() -> (r: Self)
        ensures
            r.oflike_metal_root is None,
            r.addons_dir is None,
    {
        Paths { oflike_metal_root: None, addons_dir: None }
    }
}

impl Default for Templates {
    fn default() -> (r: Self)
        ensures
            r.default_template@ == "basic"@,
    {
        Templates { default_template: String::from_str("basic") }
    }
}

impl Default for Config {
    fn default() -> (r: Self)
        ensures
            r.defaults.entry_mode@ == "swiftui"@,
            r.defaults.addon_mode@ == "reference"@,
            r.defaults.author@ == Seq::<char>::empty(),
            r.defaults.bundle_id_prefix@ == "com.example"@,
            r.paths.oflike_metal_root is None,
            r.paths.addons_dir is None,
            r.templates.default_template@ == "basic"@,
    {
        Config {
            defaults: Defaults::default(),
            paths: Paths::default(),
            templates: Templates::default(),
        }
    }
}

impl Default for AddonsConfig {
    fn default() -> (r: Self)
        ensures
            r.core@.len() == 0,
            r.custom@.len() == 0,
    {
        AddonsConfig { core: Vec::new(), custom: Vec::new() }
    }
}

impl Default for BuildConfig {
    fn default() -> (r: Self)
        ensures
            r.cmake,
            r.xcodegen,
            r.min_macos@ == "13.0"@,
            r.swift_version@ == "5.9"@,
            r.cpp_standard@ == "c++20"@,
    {
        BuildConfig {
            cmake: true,
            xcodegen: true,
            min_macos: String::from_str("13.0"),
            swift_version: String::from_str("5.9"),
            cpp_standard: String::from_str("c++20"),
        }
    }
}

impl Default for ProjectPaths {
    fn default() -> (r: Self)
        ensures
            r.src@ == "src"@,
            r.data@ == "data"@,
            r.resources@ == "resources"@,
            r.addons@ == "addons"@,
    {
        ProjectPaths {
            src: String::from_str("src"),
            data: String::from_str("data"),
            resources: String::from_str("resources"),
            addons: String::from_str("addons"),
        }
    }
}

/// The view of an optional string argument.
pub open spec fn opt_str_view(o: Option<&str>) -> Option<Seq<char>> {
    match o {
        Some(s) => Some(s@),
        None => None,
    }
}

/// What tilde expansion yields: `~` alone becomes the home directory, a
/// leading `~/` is replaced by it, and anything else is left unchanged.
/// Without a home directory the path is always left unchanged.
pub open spec fn expand_tilde_spec(path: Seq<char>, home: Option<Seq<char>>) -> Seq<char> {
    if path == "~"@ && home is Some {
        home->0
    } else if path.len() >= 2 && path.subrange(0, 2) == "~/"@ && home is Some {
        home->0 + "/"@ + path.skip(2)
    } else {
        path
    }
}

/// Expands a leading tilde against the given home directory.
pub fn expand_tilde(path: &str, home: Option<&str>) -> (r: String)
    ensures
        r@ == expand_tilde_spec(path@, opt_str_view(home)),
{
    proof {
        reveal_strlit("~");
        reveal_strlit("~/");
    }
    let n = path.unicode_len();
    if str_eq(path, "~") {
        if let Some(h) = home {
            return String::from_str(h);
        }
    }
    if n >= 2 && path.get_char(0) == '~' && path.get_char(1) == '/' {
        proof {
            assert(path@.subrange(0, 2) =~= "~/"@);
        }
        if let Some(h) = home {
            let mut out = String::from_str(h);
            out.append("/");
            let rest = path.substring_char(2, n);
            out.append(rest);
            proof {
                assert(path@.subrange(2, n as int) =~= path@.skip(2));
            }
            return out;
        }
    }
    proof {
        if path@.len() >= 2 && path@.subrange(0, 2) == "~/"@ {
            reveal_strlit("~/");
            assert(path@.subrange(0, 2)[0] == path@[0]);
            assert(path@.subrange(0, 2)[1] == path@[1]);
            assert(path@[0] == '~' && path@[1] == '/');
        }
    }
    String::from_str(path)
}

/// The message reported when no framework root can be found.
pub open spec fn root_not_found_message() -> Seq<char> {
    "Could not find oflike-metal root directory. Run this command from within the oflike-metal project."@
}

/// The framework root named by the configuration, if any.
pub open spec fn config_root(config: Option<&Config>) -> Option<Seq<char>> {
    match config {
        Some(c) => match c.paths.oflike_metal_root {
            Some(rt) => Some(rt@),
            None => None,
        },
        None => None,
    }
}

/// Resolves the directory under which the new project directory is created:
/// an explicit path wins, then the configured framework root's `apps`
/// directory, then the discovered framework root's `apps` directory; with
/// none of the three the resolution fails.
pub fn resolve_project_base_path(
    path: Option<&str>,
    config: Option<&Config>,
    home: Option<&str>,
    discovered_root: Option<&str>,
) -> (r: Result<String, GeneratorError>)
    ensures
        path matches Some(p) ==> (r matches Ok(b) && b@ == expand_tilde_spec(
            p@,
            opt_str_view(home),
        )),
        path is None ==> (config_root(config) matches Some(rt) ==> (r matches Ok(b) && b@
            == expand_tilde_spec(rt, opt_str_view(home)) + "/apps"@)),
        path is None && config_root(config) is None ==> (discovered_root matches Some(d) ==> (
        r matches Ok(b) && b@ == d@ + "/apps"@)),
        path is None && config_root(config) is None && discovered_root is None ==> (
        r matches Err(e) && e matches GeneratorError::RootNotFound(m) && m@
            == root_not_found_message()),
{
    if let Some(p) = path {
        return Ok(expand_tilde(p, home));
    }
    if let Some(c) = config {
        if let Some(rt) = &c.paths.oflike_metal_root {
            let mut out = expand_tilde(rt.as_str(), home);
            out.append("/apps");
            return Ok(out);
        }
    }
    match discovered_root {
        Some(d) => {
            let mut out = String::from_str(d);
            out.append("/apps");
            Ok(out)
        },
        None => Err(
            GeneratorError::RootNotFound(
                String::from_str(
                    "Could not find oflike-metal root directory. Run this command from within the oflike-metal project.",
                ),
            ),
        ),
    }
}

} // verus!
