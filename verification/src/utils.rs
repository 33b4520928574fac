//! Input validation and name transforms.

use vstd::prelude::*;

use crate::error::GeneratorError;
use crate::text::{
    char_is_alphanumeric, char_to_uppercase, is_alphanumeric_char, lowercase_of, push_char,
    split_char, split_seq, str_eq, str_to_lowercase, uppercase_of_char,
};

verus! {

/// Characters allowed in a project name.
pub open spec fn is_valid_name_char(c: char) -> bool {
    is_alphanumeric_char(c) || c == '-' || c == '_'
}

/// A project name is non-empty and made of alphanumerics, `-` and `_`.
pub open spec fn valid_project_name(s: Seq<char>) -> bool {
    s.len() > 0 && (forall|i: int| 0 <= i < s.len() ==> is_valid_name_char(s[i]))
}

/// Validate project name (PascalCase or kebab-case).
pub fn validate_project_name(name: &str) -> (r: Result<(), GeneratorError>)
    ensures
        r is Ok <==> valid_project_name(name@),
        name@.len() == 0 ==> (r matches Err(e) && e matches GeneratorError::InvalidProjectName(m)
            && m@ == "Project name cannot be empty"@),
        name@.len() > 0 && !valid_project_name(name@) ==> (r matches Err(e)
            && e matches GeneratorError::InvalidProjectName(m) && m@
            == "Invalid characters in project name: "@ + name@),
{
    let n = name.unicode_len();
    if n == 0 {
        return Err(
            GeneratorError::InvalidProjectName(String::from_str("Project name cannot be empty")),
        );
    }
    let mut i: usize = 0;
    while i < n
        invariant
            n == name@.len(),
            0 <= i <= n,
            forall|j: int| 0 <= j < i ==> is_valid_name_char(name@[j]),
        decreases n - i,
    {
        let c = name.get_char(i);
        if !(char_is_alphanumeric(c) || c == '-' || c == '_') {
            return Err(
                GeneratorError::InvalidProjectName(
                    String::from_str("Invalid characters in project name: ").concat(name),
                ),
            );
        }
        i = i + 1;
    }
    Ok(())
}

/// A bundle-id part is non-empty and purely alphanumeric.
pub open spec fn valid_bundle_part(p: Seq<char>) -> bool {
    p.len() > 0 && (forall|i: int| 0 <= i < p.len() ==> is_alphanumeric_char(p[i]))
}

/// A bundle id is non-empty and splits on `.` into at least two valid parts.
pub open spec fn valid_bundle_id(s: Seq<char>) -> bool {
    let parts = split_seq(s, '.');
    s.len() > 0 && parts.len() >= 2 && (forall|i: int|
        0 <= i < parts.len() ==> valid_bundle_part(parts[i]))
}

/// Validate bundle ID (reverse DNS format).
pub fn validate_bundle_id(bundle_id: &str) -> (r: Result<(), GeneratorError>)
    ensures
        r is Ok <==> valid_bundle_id(bundle_id@),
        bundle_id@.len() == 0 ==> (r matches Err(e) && e matches GeneratorError::InvalidBundleId(m)
            && m@ == "Bundle ID cannot be empty"@),
        bundle_id@.len() > 0 && split_seq(bundle_id@, '.').len() < 2 ==> (r matches Err(e)
            && e matches GeneratorError::InvalidBundleId(m) && m@
            == "Bundle ID must have at least 2 parts (e.g., com.example)"@),
        bundle_id@.len() > 0 && split_seq(bundle_id@, '.').len() >= 2 && !valid_bundle_id(
            bundle_id@,
        ) ==> (r matches Err(e) && e matches GeneratorError::InvalidBundleId(m) && m@
            == "Invalid bundle ID format: "@ + bundle_id@),
{
    if bundle_id.unicode_len() == 0 {
        return Err(
            GeneratorError::InvalidBundleId(String::from_str("Bundle ID cannot be empty")),
        );
    }
    let parts = split_char(bundle_id, '.');
    let nparts = parts.len();
    if nparts < 2 {
        return Err(
            GeneratorError::InvalidBundleId(
                String::from_str("Bundle ID must have at least 2 parts (e.g., com.example)"),
            ),
        );
    }
    let ghost part_views = split_seq(bundle_id@, '.');
    let mut k: usize = 0;
    while k < nparts
        invariant
            part_views == split_seq(bundle_id@, '.'),
            parts@.map_values(|p: String| p@) == part_views,
            nparts == parts@.len(),
            nparts == part_views.len(),
            nparts >= 2,
            bundle_id@.len() > 0,
            0 <= k <= nparts,
            forall|j: int| 0 <= j < k ==> valid_bundle_part(part_views[j]),
        decreases nparts - k,
    {
        proof {
            assert(part_views[k as int] == parts@.map_values(|p: String| p@)[k as int]);
        }
        let part = &parts[k];
        let plen = part.as_str().unicode_len();
        if plen == 0 {
            return Err(
                GeneratorError::InvalidBundleId(
                    String::from_str("Invalid bundle ID format: ").concat(bundle_id),
                ),
            );
        }
        let mut i: usize = 0;
        while i < plen
            invariant
                part_views == split_seq(bundle_id@, '.'),
                part_views.len() >= 2,
                bundle_id@.len() > 0,
                0 <= k < part_views.len(),
                part_views[k as int] == part@,
                plen == part@.len(),
                0 <= i <= plen,
                forall|j: int| 0 <= j < i ==> is_alphanumeric_char(part@[j]),
            decreases plen - i,
        {
            let c = part.as_str().get_char(i);
            if !char_is_alphanumeric(c) {
                return Err(
                    GeneratorError::InvalidBundleId(
                        String::from_str("Invalid bundle ID format: ").concat(bundle_id),
                    ),
                );
            }
            i = i + 1;
        }
        k = k + 1;
    }
    Ok(())
}

/// The accepted entry modes.
pub open spec fn valid_entry_mode(s: Seq<char>) -> bool {
    s == "swiftui"@ || s == "ofmain"@
}

/// Validate entry mode.
pub fn validate_entry_mode(mode: &str) -> (r: Result<(), GeneratorError>)
    ensures
        r is Ok <==> valid_entry_mode(mode@),
        !valid_entry_mode(mode@) ==> (r matches Err(e)
            && e matches GeneratorError::InvalidEntryMode(m) && m@ == "Invalid entry mode: "@
            + mode@ + ". Must be 'swiftui' or 'ofmain'"@),
{
    if str_eq(mode, "swiftui") || str_eq(mode, "ofmain") {
        Ok(())
    } else {
        Err(
            GeneratorError::InvalidEntryMode(
                String::from_str("Invalid entry mode: ").concat(mode).concat(
                    ". Must be 'swiftui' or 'ofmain'",
                ),
            ),
        )
    }
}

/// The accepted addon integration modes.
pub open spec fn valid_addon_mode(s: Seq<char>) -> bool {
    s == "reference"@ || s == "copy"@ || s == "symlink"@
}

/// Validate addon mode.
pub fn validate_addon_mode(mode: &str) -> (r: Result<(), GeneratorError>)
    ensures
        r is Ok <==> valid_addon_mode(mode@),
        !valid_addon_mode(mode@) ==> (r matches Err(e)
            && e matches GeneratorError::InvalidAddonMode(m) && m@ == "Invalid addon mode: "@
            + mode@ + ". Must be 'reference', 'copy', or 'symlink'"@),
{
    if str_eq(mode, "reference") || str_eq(mode, "copy") || str_eq(mode, "symlink") {
        Ok(())
    } else {
        Err(
            GeneratorError::InvalidAddonMode(
                String::from_str("Invalid addon mode: ").concat(mode).concat(
                    ". Must be 'reference', 'copy', or 'symlink'",
                ),
            ),
        )
    }
}

/// The accepted template names.
pub open spec fn valid_template(s: Seq<char>) -> bool {
    s == "basic"@ || s == "swiftui"@ || s == "metal"@ || s == "3d"@
}

/// Validate template name.
pub fn validate_template(template: &str) -> (r: Result<(), GeneratorError>)
    ensures
        r is Ok <==> valid_template(template@),
        !valid_template(template@) ==> (r matches Err(e)
            && e matches GeneratorError::InvalidTemplate(m) && m@ == "Invalid template: "@
            + template@ + ". Must be 'basic', 'swiftui', 'metal', or '3d'"@),
{
    if str_eq(template, "basic") || str_eq(template, "swiftui") || str_eq(template, "metal")
        || str_eq(template, "3d") {
        Ok(())
    } else {
        Err(
            GeneratorError::InvalidTemplate(
                String::from_str("Invalid template: ").concat(template).concat(
                    ". Must be 'basic', 'swiftui', 'metal', or '3d'",
                ),
            ),
        )
    }
}

/// The PascalCase contribution of one `-`-separated segment: its first
/// character uppercased, then the rest unchanged.  An empty segment
/// contributes nothing.
pub open spec fn pascal_segment(p: Seq<char>) -> Seq<char> {
    if p.len() == 0 {
        Seq::<char>::empty()
    } else {
        uppercase_of_char(p.first()) + p.drop_first()
    }
}

/// The concatenation of the PascalCase contributions of all segments.
pub open spec fn concat_pascal_segments(parts: Seq<Seq<char>>) -> Seq<char>
    decreases parts.len(),
{
    if parts.len() == 0 {
        Seq::<char>::empty()
    } else {
        concat_pascal_segments(parts.drop_last()) + pascal_segment(parts.last())
    }
}

/// `s` with every underscore replaced by a hyphen: both characters separate
/// name segments equally.
pub open spec fn normalize_separators(s: Seq<char>) -> Seq<char> {
    s.map_values(
        |c: char|
            if c == '_' {
                '-'
            } else {
                c
            },
    )
}

/// The PascalCase form of a name: split at `-` and `_`, title-case each
/// segment, concatenate.
pub open spec fn pascal_of(s: Seq<char>) -> Seq<char> {
    concat_pascal_segments(split_seq(normalize_separators(s), '-'))
}

/// Convert project name to PascalCase.
pub fn to_pascal_case(name: &str) -> (r: String)
    ensures
        r@ == pascal_of(name@),
{
    let n = name.unicode_len();
    let mut norm = String::new();
    proof {
        assert(norm@ =~= normalize_separators(name@.take(0)));
    }
    let mut i: usize = 0;
    while i < n
        invariant
            n == name@.len(),
            0 <= i <= n,
            norm@ == normalize_separators(name@.take(i as int)),
        decreases n - i,
    {
        let c = name.get_char(i);
        if c == '_' {
            push_char(&mut norm, '-');
        } else {
            push_char(&mut norm, c);
        }
        proof {
            assert(norm@ =~= normalize_separators(name@.take(i + 1)));
        }
        i = i + 1;
    }
    proof {
        assert(name@.take(n as int) =~= name@);
    }
    let parts = split_char(norm.as_str(), '-');
    let ghost part_views = split_seq(normalize_separators(name@), '-');
    let mut out = String::new();
    let mut k: usize = 0;
    while k < parts.len()
        invariant
            parts@.map_values(|p: String| p@) == part_views,
            part_views == split_seq(normalize_separators(name@), '-'),
            0 <= k <= parts@.len(),
            out@ == concat_pascal_segments(part_views.take(k as int)),
        decreases parts@.len() - k,
    {
        proof {
            assert(part_views[k as int] == parts@.map_values(|p: String| p@)[k as int]);
            assert(part_views.take(k + 1).drop_last() =~= part_views.take(k as int));
            assert(part_views.take(k + 1).last() == part_views[k as int]);
        }
        let part = &parts[k];
        let plen = part.as_str().unicode_len();
        if plen > 0 {
            let c = part.as_str().get_char(0);
            let up = char_to_uppercase(c);
            out.append(up.as_str());
            let rest = part.as_str().substring_char(1, plen);
            out.append(rest);
            proof {
                assert(part@.drop_first() =~= part@.subrange(1, part@.len() as int));
            }
        }
        k = k + 1;
    }
    proof {
        assert(part_views.take(parts@.len() as int) =~= part_views);
    }
    out
}

/// `s` with every underscore removed.
pub open spec fn strip_underscores(s: Seq<char>) -> Seq<char>
    decreases s.len(),
{
    if s.len() == 0 {
        s
    } else {
        let rest = strip_underscores(s.drop_last());
        if s.last() == '_' {
            rest
        } else {
            rest.push(s.last())
        }
    }
}

/// The generated bundle id: the prefix, a dot, then the lowercase form of
/// the name with its underscores removed.
pub open spec fn bundle_id_of(name: Seq<char>, prefix: Seq<char>) -> Seq<char> {
    prefix + "."@ + lowercase_of(strip_underscores(name))
}

/// Generate bundle ID from project name.
pub fn generate_bundle_id(project_name: &str, prefix: &str) -> (r: String)
    ensures
        r@ == bundle_id_of(project_name@, prefix@),
{
    let n = project_name.unicode_len();
    let mut stripped = String::new();
    proof {
        assert(project_name@.take(0) =~= Seq::<char>::empty());
        assert(stripped@ =~= strip_underscores(project_name@.take(0)));
    }
    let mut i: usize = 0;
    while i < n
        invariant
            n == project_name@.len(),
            0 <= i <= n,
            stripped@ == strip_underscores(project_name@.take(i as int)),
        decreases n - i,
    {
        let c = project_name.get_char(i);
        proof {
            assert(project_name@.take(i + 1).drop_last() =~= project_name@.take(i as int));
            assert(project_name@.take(i + 1).last() == project_name@[i as int]);
        }
        if c != '_' {
            push_char(&mut stripped, c);
        }
        i = i + 1;
    }
    proof {
        assert(project_name@.take(n as int) =~= project_name@);
    }
    let low = str_to_lowercase(stripped.as_str());
    let mut out = String::from_str(prefix);
    out.append(".");
    out.append(low.as_str());
    out
}

/// The names of the core addons, in their listed order.
pub open spec fn core_addon_names() -> Seq<Seq<char>> {
    seq!["ofxOsc"@, "ofxGui"@, "ofxXmlSettings"@, "ofxSvg"@, "ofxNetwork"@, "ofxOpenCv"@]
}

/// The names of the Apple-native addons, in their listed order.
pub open spec fn native_addon_names() -> Seq<Seq<char>> {
    seq![
        "ofxSharp"@,
        "ofxNeuralEngine"@,
        "ofxMetalCompute"@,
        "ofxMPS"@,
        "ofxVideoToolbox"@,
        "ofxSpatialAudio"@,
        "ofxMetalFX"@,
    ]
}

/// List of Core Addons.
pub fn core_addons() -> (r: Vec<&'static str>)
    ensures
        r@.map_values(|p: &str| p@) == core_addon_names(),
{
    let r: Vec<&'static str> = vec![
        "ofxOsc",
        "ofxGui",
        "ofxXmlSettings",
        "ofxSvg",
        "ofxNetwork",
        "ofxOpenCv",
    ];
    proof {
        assert(r@.map_values(|p: &str| p@) =~= core_addon_names());
    }
    r
}

/// List of Apple Native Addons.
pub fn native_addons() -> (r: Vec<&'static str>)
    ensures
        r@.map_values(|p: &str| p@) == native_addon_names(),
{
    let r: Vec<&'static str> = vec![
        "ofxSharp",
        "ofxNeuralEngine",
        "ofxMetalCompute",
        "ofxMPS",
        "ofxVideoToolbox",
        "ofxSpatialAudio",
        "ofxMetalFX",
    ];
    proof {
        assert(r@.map_values(|p: &str| p@) =~= native_addon_names());
    }
    r
}

/// Whether `needle` occurs in the list, compared character-wise.
pub fn contains_str(list: &Vec<&'static str>, needle: &str) -> (r: bool)
    ensures
        r == list@.map_values(|p: &str| p@).contains(needle@),
{
    let ghost views = list@.map_values(|p: &str| p@);
    let mut i: usize = 0;
    while i < list.len()
        invariant
            views == list@.map_values(|p: &str| p@),
            0 <= i <= list@.len(),
            forall|j: int| 0 <= j < i ==> views[j] != needle@,
        decreases list@.len() - i,
    {
        proof {
            assert(views[i as int] == list@.map_values(|p: &str| p@)[i as int]);
        }
        if str_eq(list[i], needle) {
            proof {
                assert(views.contains(needle@)) by {
                    assert(views[i as int] == needle@);
                }
            }
            return true;
        }
        i = i + 1;
    }
    proof {
        assert(!views.contains(needle@)) by {
            if views.contains(needle@) {
                let j = choose|j: int| 0 <= j < views.len() && views[j] == needle@;
                assert(views[j] != needle@);
            }
        }
    }
    false
}

/// Check if addon is Core or Native.
pub fn is_builtin_addon(addon_name: &str) -> (r: bool)
    ensures
        r == (core_addon_names().contains(addon_name@) || native_addon_names().contains(
            addon_name@,
        )),
{
    let core = core_addons();
    if contains_str(&core, addon_name) {
        return true;
    }
    let native = native_addons();
    contains_str(&native, addon_name)
}

} // verus!
