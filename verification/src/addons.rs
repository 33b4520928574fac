//! Addon classification, request parsing, and integration planning.

use vstd::prelude::*;

use crate::error::GeneratorError;
use crate::text::{kept_parts, split_char, split_seq, trim, trim_seq};
use crate::utils::{
    contains_str, core_addon_names, core_addons, native_addon_names, native_addons,
    valid_addon_mode,
};

verus! {

/// Which registry, if any, an addon name belongs to.
#[derive(Clone, Copy, Debug, PartialEq, Eq, Structural)]
pub enum AddonCategory {
    Core,
    Native,
    Unknown,
}

/// The strategy by which an addon's files become visible to the project.
#[derive(Clone, Copy, Debug, PartialEq, Eq, Structural)]
pub enum AddonMode {
    Reference,
    Copy,
    Symlink,
}

/// A builtin addon name is one of the two registries.
pub open spec fn is_builtin_name(name: Seq<char>) -> bool {
    core_addon_names().contains(name) || native_addon_names().contains(name)
}

/// Classifies an addon name against the two static registries.
pub fn classify_addon(name: &str) -> (r: AddonCategory)
    ensures
        r is Core <==> core_addon_names().contains(name@),
        r is Native <==> (!core_addon_names().contains(name@) && native_addon_names().contains(
            name@,
        )),
        r is Unknown <==> !is_builtin_name(name@),
{
    let core = core_addons();
    if contains_str(&core, name) {
        return AddonCategory::Core;
    }
    let native = native_addons();
    if contains_str(&native, name) {
        return AddonCategory::Native;
    }
    AddonCategory::Unknown
}

/// Parses an addon mode string into the enum.
pub fn addon_mode_from_str(mode: &str) -> (r: Option<AddonMode>)
    ensures
        r matches Some(m) ==> (m is Reference <==> mode@ == "reference"@),
        r matches Some(m) ==> (m is Copy <==> mode@ == "copy"@),
        r matches Some(m) ==> (m is Symlink <==> mode@ == "symlink"@),
        r is None <==> !valid_addon_mode(mode@),
{
    proof {
        reveal_strlit("reference");
        reveal_strlit("copy");
        reveal_strlit("symlink");
        assert("reference"@.len() == 9);
        assert("copy"@.len() == 4);
        assert("symlink"@.len() == 7);
    }
    if crate::text::str_eq(mode, "reference") {
        Some(AddonMode::Reference)
    } else if crate::text::str_eq(mode, "copy") {
        Some(AddonMode::Copy)
    } else if crate::text::str_eq(mode, "symlink") {
        Some(AddonMode::Symlink)
    } else {
        None
    }
}

/// The directory under the framework's `addons` directory that holds a
/// registered addon: `core` for the core registry, `apple_native` for the
/// native one.  Only registered names have such a directory.
pub open spec fn category_dir_of(name: Seq<char>) -> Seq<char> {
    if core_addon_names().contains(name) {
        "core"@
    } else {
        "apple_native"@
    }
}

/// A registered addon's source directory relative to the framework root.
pub open spec fn addon_source_rel(name: Seq<char>) -> Seq<char> {
    "addons/"@ + category_dir_of(name) + "/"@ + name
}

/// The addon's destination directory relative to the project root.
pub open spec fn addon_dest_rel(name: Seq<char>) -> Seq<char> {
    "addons/"@ + name
}

/// Builds the addon's source path relative to the framework root: only a
/// registered builtin has one; an unregistered name gets no source lookup.
pub fn addon_source_rel_path(name: &str) -> (r: Option<String>)
    ensures
        r is Some <==> is_builtin_name(name@),
        r matches Some(p) ==> p@ == addon_source_rel(name@),
{
    let core = core_addons();
    let mut out = String::from_str("addons/");
    if contains_str(&core, name) {
        out.append("core");
    } else {
        let native = native_addons();
        if !contains_str(&native, name) {
            return None;
        }
        out.append("apple_native");
    }
    out.append("/");
    out.append(name);
    Some(out)
}

/// An addon name resolved against the registries: its category, the source
/// directory under the framework root for registered names, and the warning
/// carried by unregistered ones, which pass through with generation still
/// proceeding.
pub struct AddonDescriptor {
    pub name: String,
    pub category: AddonCategory,
    pub source_rel: Option<String>,
    pub warning: Option<String>,
}

/// Resolves one requested addon name.  Registered names get their source
/// directory; an unregistered name gets no source lookup, only a warning.
pub fn resolve_addon(name: &str) -> (r: AddonDescriptor)
    ensures
        r.name@ == name@,
        r.category is Core <==> core_addon_names().contains(name@),
        r.category is Native <==> (!core_addon_names().contains(name@)
            && native_addon_names().contains(name@)),
        r.category is Unknown <==> !is_builtin_name(name@),
        r.source_rel is Some <==> is_builtin_name(name@),
        r.source_rel matches Some(p) ==> p@ == addon_source_rel(name@),
        r.warning is Some <==> !is_builtin_name(name@),
        r.warning matches Some(w) ==> w@ == "Warning: "@ + name@ + " is not a builtin addon"@,
{
    let category = classify_addon(name);
    let source_rel = addon_source_rel_path(name);
    let warning: Option<String> = match category {
        AddonCategory::Unknown => {
            let mut w = String::from_str("Warning: ");
            w.append(name);
            w.append(" is not a builtin addon");
            Some(w)
        },
        _ => None,
    };
    AddonDescriptor { name: String::from_str(name), category, source_rel, warning }
}

/// Builds the addon's destination path relative to the project root.
pub fn addon_dest_rel_path(name: &str) -> (r: String)
    ensures
        r@ == addon_dest_rel(name@),
{
    let mut out = String::from_str("addons/");
    out.append(name);
    out
}

/// The parsed addon list: the comma-separated parts, each trimmed, with the
/// empty ones dropped and the order kept.
pub open spec fn parse_addons_spec(s: Seq<char>) -> Seq<Seq<char>> {
    kept_parts(split_seq(s, ','))
}

/// Splits a comma-separated addon request into the individual names.
/// Unrecognized names are kept: they are user data, warned about later, not
/// rejected here.
pub fn parse_addons(addons: Option<&str>) -> (r: Result<Vec<String>, GeneratorError>)
    ensures
        r is Ok,
        r matches Ok(v) ==> v@.map_values(|p: String| p@) == match addons {
            Some(s) => parse_addons_spec(s@),
            None => Seq::<Seq<char>>::empty(),
        },
{
    let addon_str = match addons {
        Some(s) => s,
        None => {
            let empty: Vec<String> = Vec::new();
            proof {
                assert(empty@.map_values(|p: String| p@) =~= Seq::<Seq<char>>::empty());
            }
            return Ok(empty);
        },
    };
    let parts = split_char(addon_str, ',');
    let ghost part_views = split_seq(addon_str@, ',');
    let mut out: Vec<String> = Vec::new();
    let mut k: usize = 0;
    proof {
        assert(out@.map_values(|p: String| p@) =~= kept_parts(part_views.take(0)));
    }
    while k < parts.len()
        invariant
            parts@.map_values(|p: String| p@) == part_views,
            0 <= k <= parts@.len(),
            out@.map_values(|p: String| p@) == kept_parts(part_views.take(k as int)),
        decreases parts@.len() - k,
    {
        proof {
            assert(part_views[k as int] == parts@.map_values(|p: String| p@)[k as int]);
            assert(part_views.take(k + 1).drop_last() =~= part_views.take(k as int));
            assert(part_views.take(k + 1).last() == part_views[k as int]);
        }
        let ghost old_out = out@;
        let t = trim(parts[k].as_str());
        if t.as_str().unicode_len() > 0 {
            out.push(t);
            proof {
                assert(out@.map_values(|p: String| p@) =~= old_out.map_values(
                    |p: String| p@,
                ).push(trim_seq(part_views[k as int])));
            }
        }
        k = k + 1;
    }
    proof {
        assert(part_views.take(parts@.len() as int) =~= part_views);
    }
    Ok(out)
}

/// An addon as handed to the integration planner: its requested name and
/// whether the shell found its registered source directory on disk.  For an
/// unregistered name no source is ever looked up, so `source_exists` is
/// ignored there.
pub struct ResolvedAddon {
    pub name: String,
    pub source_exists: bool,
}

/// One planned integration step.  `Skip` records a registered addon whose
/// source was missing: it produces a warning and appears in no manifest.
/// An unregistered name passes through as a `Reference`.
pub enum IntegrationAction {
    Skip { name: String },
    Reference { name: String },
    CopyDir { name: String, from_rel: String, to_rel: String },
    Symlink { name: String, from_rel: String, to_rel: String },
}

/// The action the planner owes for one addon under one mode.  An
/// unregistered name is a pass-through reference, whatever the mode; a
/// registered one whose source is missing is skipped; otherwise the mode
/// decides.
pub open spec fn action_matches(act: IntegrationAction, a: ResolvedAddon, mode: AddonMode) -> bool {
    if !is_builtin_name(a.name@) {
        act matches IntegrationAction::Reference { name } && name@ == a.name@
    } else if !a.source_exists {
        act matches IntegrationAction::Skip { name } && name@ == a.name@
    } else {
        match mode {
            AddonMode::Reference => act matches IntegrationAction::Reference { name } && name@
                == a.name@,
            AddonMode::Copy => act matches IntegrationAction::CopyDir { name, from_rel, to_rel }
                && name@ == a.name@ && from_rel@ == addon_source_rel(a.name@) && to_rel@
                == addon_dest_rel(a.name@),
            AddonMode::Symlink => act matches IntegrationAction::Symlink { name, from_rel, to_rel }
                && name@ == a.name@ && from_rel@ == addon_source_rel(a.name@) && to_rel@
                == addon_dest_rel(a.name@),
        }
    }
}

/// Plans how each addon is wired into the project.  Symlink mode on a host
/// without symlink support is a hard failure, never a fallback to copying.
pub fn plan_addon_integration(
    addons: &Vec<ResolvedAddon>,
    mode: AddonMode,
    symlink_supported: bool,
) -> (r: Result<Vec<IntegrationAction>, GeneratorError>)
    ensures
        mode is Symlink && !symlink_supported ==> (r matches Err(e)
            && e matches GeneratorError::PlatformUnsupported(m) && m@
            == "Symlinks are only supported on Unix systems"@),
        !(mode is Symlink && !symlink_supported) ==> r is Ok,
        r matches Ok(acts) ==> acts@.len() == addons@.len() && (forall|i: int|
            0 <= i < addons@.len() ==> action_matches(#[trigger] acts@[i], addons@[i], mode)),
{
    if matches!(mode, AddonMode::Symlink) && !symlink_supported {
        return Err(
            GeneratorError::PlatformUnsupported(
                String::from_str("Symlinks are only supported on Unix systems"),
            ),
        );
    }
    let mut acts: Vec<IntegrationAction> = Vec::new();
    let mut k: usize = 0;
    while k < addons.len()
        invariant
            0 <= k <= addons@.len(),
            acts@.len() == k,
            forall|i: int| 0 <= i < k ==> action_matches(#[trigger] acts@[i], addons@[i], mode),
        decreases addons@.len() - k,
    {
        let a = &addons[k];
        let name = a.name.clone();
        match addon_source_rel_path(a.name.as_str()) {
            None => {
                acts.push(IntegrationAction::Reference { name });
            },
            Some(from_rel) => {
                if !a.source_exists {
                    acts.push(IntegrationAction::Skip { name });
                } else {
                    match mode {
                        AddonMode::Reference => {
                            acts.push(IntegrationAction::Reference { name });
                        },
                        AddonMode::Copy => {
                            let to_rel = addon_dest_rel_path(a.name.as_str());
                            acts.push(IntegrationAction::CopyDir { name, from_rel, to_rel });
                        },
                        AddonMode::Symlink => {
                            let to_rel = addon_dest_rel_path(a.name.as_str());
                            acts.push(IntegrationAction::Symlink { name, from_rel, to_rel });
                        },
                    }
                }
            },
        }
        k = k + 1;
    }
    Ok(acts)
}

/// Whether integration carries this addon into the manifests: every
/// unregistered name passes through, a registered one only when its source
/// exists.
pub open spec fn addon_is_integrated(a: ResolvedAddon) -> bool {
    !is_builtin_name(a.name@) || a.source_exists
}

/// The names of the addons that integration will carry into the manifests,
/// in request order.
pub open spec fn integrated_names(addons: Seq<ResolvedAddon>) -> Seq<Seq<char>>
    decreases addons.len(),
{
    if addons.len() == 0 {
        Seq::<Seq<char>>::empty()
    } else {
        let rest = integrated_names(addons.drop_last());
        if addon_is_integrated(addons.last()) {
            rest.push(addons.last().name@)
        } else {
            rest
        }
    }
}

/// Lists the addons that integration carries into the manifests, in request
/// order.
pub fn integrated_addon_names(addons: &Vec<ResolvedAddon>) -> (r: Vec<String>)
    ensures
        r@.map_values(|p: String| p@) == integrated_names(addons@),
{
    let mut out: Vec<String> = Vec::new();
    let mut k: usize = 0;
    proof {
        assert(out@.map_values(|p: String| p@) =~= integrated_names(addons@.take(0)));
    }
    while k < addons.len()
        invariant
            0 <= k <= addons@.len(),
            out@.map_values(|p: String| p@) == integrated_names(addons@.take(k as int)),
        decreases addons@.len() - k,
    {
        proof {
            assert(addons@.take(k + 1).drop_last() =~= addons@.take(k as int));
            assert(addons@.take(k + 1).last() == addons@[k as int]);
        }
        let ghost old_out = out@;
        if !crate::utils::is_builtin_addon(addons[k].name.as_str()) || addons[k].source_exists {
            let name = addons[k].name.clone();
            out.push(name);
            proof {
                assert(out@.map_values(|p: String| p@) =~= old_out.map_values(
                    |p: String| p@,
                ).push(addons@[k as int].name@));
            }
        }
        k = k + 1;
    }
    proof {
        assert(addons@.take(addons@.len() as int) =~= addons@);
    }
    out
}

/// The names carried by the non-skipped actions, in order.
pub open spec fn non_skipped_names(acts: Seq<IntegrationAction>) -> Seq<Seq<char>>
    decreases acts.len(),
{
    if acts.len() == 0 {
        Seq::<Seq<char>>::empty()
    } else {
        let rest = non_skipped_names(acts.drop_last());
        match acts.last() {
            IntegrationAction::Skip { name } => rest,
            IntegrationAction::Reference { name } => rest.push(name@),
            IntegrationAction::CopyDir { name, from_rel, to_rel } => rest.push(name@),
            IntegrationAction::Symlink { name, from_rel, to_rel } => rest.push(name@),
        }
    }
}

/// A planned integration carries exactly the integrated addons — the
/// pass-through names and the registered ones whose source exists — in
/// request order: the addons the manifests will list.
pub proof fn lemma_plan_matches_integrated(
    acts: Seq<IntegrationAction>,
    addons: Seq<ResolvedAddon>,
    mode: AddonMode,
)
    requires
        acts.len() == addons.len(),
        forall|i: int| 0 <= i < addons.len() ==> action_matches(#[trigger] acts[i], addons[i], mode),
    ensures
        non_skipped_names(acts) == integrated_names(addons),
    decreases acts.len(),
{
    if acts.len() > 0 {
        assert(acts.drop_last().len() == addons.drop_last().len());
        assert forall|i: int| 0 <= i < addons.drop_last().len() implies action_matches(
            #[trigger] acts.drop_last()[i],
            addons.drop_last()[i],
            mode,
        ) by {
            assert(acts.drop_last()[i] == acts[i]);
            assert(addons.drop_last()[i] == addons[i]);
        }
        lemma_plan_matches_integrated(acts.drop_last(), addons.drop_last(), mode);
        assert(action_matches(acts[acts.len() - 1], addons[addons.len() - 1], mode));
    }
}

/// The outcome of adding an addon to an existing project.
#[derive(Clone, Copy, Debug, PartialEq, Eq, Structural)]
pub enum AddAddonOutcome {
    /// The name is a builtin addon: it is already available through the
    /// framework, nothing to copy.
    BuiltinAvailable,
    /// A custom addon with a source path was accepted.
    CustomAccepted,
}

/// Decides what adding one addon to an existing project does.  Builtin addons
/// are only available by reference; custom addons need a source path.
pub fn plan_add_addon(addon_name: &str, mode: &str, has_source: bool) -> (r: Result<
    AddAddonOutcome,
    GeneratorError,
>)
    ensures
        !valid_addon_mode(mode@) ==> (r matches Err(e)
            && e matches GeneratorError::InvalidAddonMode(m) && m@ == "Invalid addon mode: "@
            + mode@ + ". Must be 'reference', 'copy', or 'symlink'"@),
        valid_addon_mode(mode@) && is_builtin_name(addon_name@) && mode@ != "reference"@ ==> (
        r matches Err(e) && e matches GeneratorError::InvalidAddonMode(m) && m@
            == "Core/Native addon '"@ + addon_name@ + "' must use 'reference' mode"@),
        valid_addon_mode(mode@) && is_builtin_name(addon_name@) && mode@ == "reference"@ ==> (
        r matches Ok(o) && o is BuiltinAvailable),
        valid_addon_mode(mode@) && !is_builtin_name(addon_name@) && !has_source ==> (
        r matches Err(e) && e matches GeneratorError::AddonNotFound(m) && m@ == "Custom addon '"@
            + addon_name@ + "' requires --source path"@),
        valid_addon_mode(mode@) && !is_builtin_name(addon_name@) && has_source ==> (r matches Ok(o)
            && o is CustomAccepted),
{
    if let Err(e) = crate::utils::validate_addon_mode(mode) {
        return Err(e);
    }
    if crate::utils::is_builtin_addon(addon_name) {
        if !crate::text::str_eq(mode, "reference") {
            let mut m = String::from_str("Core/Native addon '");
            m.append(addon_name);
            m.append("' must use 'reference' mode");
            return Err(GeneratorError::InvalidAddonMode(m));
        }
        return Ok(AddAddonOutcome::BuiltinAvailable);
    }
    if !has_source {
        let mut m = String::from_str("Custom addon '");
        m.append(addon_name);
        m.append("' requires --source path");
        return Err(GeneratorError::AddonNotFound(m));
    }
    Ok(AddAddonOutcome::CustomAccepted)
}

} // verus!
