//! Building the engine from source: where the source tree is, and how the bindings to it are
//! compiled.

use crate::engine::link::{LinkMode, Platform};
use crate::text::{chars_of, joined, push_line, same_text, stands_at, texts};
use vstd::prelude::*;
use vstd::string::StringExecFns;

verus! {

/// The places where an engine source tree may stand.
#[derive(Debug, Clone, Copy, PartialEq, Eq, Structural)]
pub enum SourceRoot {
    /// The directory that `LBUG_SOURCE_DIR` names.
    Named,
    /// The checkout beside this package.
    Sibling,
    /// The tree bundled with this package.
    Bundled,
    /// The checkout that this package is part of.
    Enclosing,
    /// None of them: the tree is downloaded.
    Downloaded,
}

/// Which of the places hold something to build from.
#[derive(Debug, Clone, Copy, PartialEq, Eq, Structural)]
pub struct SourceCandidates {
    pub named: bool,
    pub sibling: bool,
    pub bundled: bool,
    pub enclosing: bool,
}

/// The first place, in the order above, that holds a source tree.
pub open spec fn chosen_root(candidates: SourceCandidates, platform: Platform) -> SourceRoot {
    if candidates.named {
        SourceRoot::Named
    } else if candidates.sibling {
        SourceRoot::Sibling
    } else if candidates.bundled {
        SourceRoot::Bundled
    } else if candidates.enclosing && platform == Platform::Windows {
        SourceRoot::Enclosing
    } else {
        SourceRoot::Downloaded
    }
}

/// The source tree that is built: the first place, in the order above, that holds one. The
/// enclosing checkout is considered on Windows only.
pub fn get_lbug_root(candidates: SourceCandidates, platform: Platform) -> (res: SourceRoot)
    ensures
        res == chosen_root(candidates, platform),
        res == SourceRoot::Named <==> candidates.named,
        res == SourceRoot::Sibling <==> !candidates.named && candidates.sibling,
        res == SourceRoot::Bundled <==> !candidates.named && !candidates.sibling
            && candidates.bundled,
        res == SourceRoot::Enclosing <==> !candidates.named && !candidates.sibling
            && !candidates.bundled && candidates.enclosing && platform == Platform::Windows,
{
    if candidates.named {
        SourceRoot::Named
    } else if candidates.sibling {
        SourceRoot::Sibling
    } else if candidates.bundled {
        SourceRoot::Bundled
    } else if candidates.enclosing && platform == Platform::Windows {
        SourceRoot::Enclosing
    } else {
        SourceRoot::Downloaded
    }
}

/// The path, below the repository's archives, of the source of `version`: a branch for `main`,
/// and otherwise a tag, whose name begins with `v` whether or not the version does.
pub open spec fn archive_path(version: Seq<char>) -> Seq<char> {
    if "v"@.is_prefix_of(version) {
        "tags/"@ + version
    } else if version == "main"@ {
        "heads/main"@
    } else {
        "tags/v"@ + version
    }
}

/// The address of the source of `version`, or of the main branch.
pub open spec fn archive_address(version: Option<&str>) -> Seq<char> {
    let path = match version {
        Some(version) => archive_path(version@),
        None => archive_path("main"@),
    };
    "https://github.com/LadybugDB/ladybug/archive/refs/"@ + path + ".tar.gz"@
}

/// The address from which the engine's source is downloaded. Without a version it is the main
/// branch.
pub fn source_archive_url(version: Option<&str>) -> (res: String)
    ensures
        res@ == archive_address(version),
        res@ == "https://github.com/LadybugDB/ladybug/archive/refs/"@ + archive_path(
            match version {
                Some(version) => version@,
                None => "main"@,
            },
        ) + ".tar.gz"@,
{
    let version = match version {
        Some(version) => version,
        None => "main",
    };
    let chars = chars_of(version);
    assert(chars@.skip(0) == version@);
    let path = if stands_at(&chars, 0, "v") {
        joined("tags/", version)
    } else if same_text(version, "main") {
        "heads/main".to_owned()
    } else {
        joined("tags/v", version)
    };
    let mut url = joined("https://github.com/LadybugDB/ladybug/archive/refs/", path.as_str());
    url.append(".tar.gz");
    url
}

/// A preprocessor definition under which the bindings are compiled.
#[derive(Debug, Clone, Copy, PartialEq, Eq, Structural)]
pub enum Define {
    /// The engine was built from source along with the bindings.
    Bundled,
    /// The engine's runtime checks are on.
    RuntimeChecks,
    /// The engine is linked statically.
    Static,
}

/// The name that a definition defines.
pub open spec fn define_name(define: Define) -> Seq<char> {
    match define {
        Define::Bundled => "LBUG_BUNDLED"@,
        Define::RuntimeChecks => "ENABLE_RUNTIME_CHECKS"@,
        Define::Static => "LBUG_STATIC_DEFINE"@,
    }
}

/// The value that a definition's name stands for, if it has one.
pub open spec fn define_value(define: Define) -> Option<Seq<char>> {
    match define {
        Define::RuntimeChecks => Some("1"@),
        _ => None,
    }
}

impl Define {
    /// The name that is defined.
    pub fn name(&self) -> (res: &'static str)
        ensures
            res@ == define_name(*self),
            res@ == match *self {
                Define::Bundled => "LBUG_BUNDLED"@,
                Define::RuntimeChecks => "ENABLE_RUNTIME_CHECKS"@,
                Define::Static => "LBUG_STATIC_DEFINE"@,
            },
    {
        match self {
            Define::Bundled => "LBUG_BUNDLED",
            Define::RuntimeChecks => "ENABLE_RUNTIME_CHECKS",
            Define::Static => "LBUG_STATIC_DEFINE",
        }
    }

    /// The value that the name stands for, if it has one.
    pub fn value(&self) -> (res: Option<&'static str>)
        ensures
            define_value(*self) == match res {
                Some(value) => Some(value@),
                None => None,
            },
            match *self {
                Define::RuntimeChecks => res matches Some(value) && value@ == "1"@,
                _ => res is None,
            },
    {
        match self {
            Define::RuntimeChecks => Some("1"),
            _ => None,
        }
    }
}

/// What the compilation of the bindings depends on.
#[derive(Debug, Clone, Copy)]
pub struct FfiSetting<'a> {
    pub bridge_file: &'a str,
    pub source_file: &'a str,
    pub profile: &'a str,
    pub bundled: bool,
    pub arrow: bool,
    pub mode: LinkMode,
    pub platform: Platform,
}

/// The profiles that turn the engine's runtime checks on.
pub open spec fn checked_profile(profile: Seq<char>) -> bool {
    profile == "debug"@ || profile == "relwithdebinfo"@
}

/// The definitions for a setting, in their order.
pub open spec fn ffi_defines(setting: FfiSetting) -> Seq<Define> {
    let bundled = if setting.bundled { seq![Define::Bundled] } else { seq![] };
    let checks = if checked_profile(setting.profile@) { seq![Define::RuntimeChecks] } else { seq![] };
    let linked = if setting.mode == LinkMode::Static { seq![Define::Static] } else { seq![] };
    bundled + checks + linked
}

/// The compiler flags for a platform.
pub open spec fn ffi_flags(platform: Platform) -> Seq<Seq<char>> {
    if platform == Platform::Windows {
        seq!["/std:c++20"@, "/MD"@]
    } else {
        seq!["-std=c++2a"@]
    }
}

/// The files and directories whose change triggers a new build.
pub open spec fn watched_paths(setting: FfiSetting) -> Seq<Seq<char>> {
    let always = seq![
        "include/lbug_rs.h"@,
        "src/lbug_rs.cpp"@,
        setting.bridge_file@,
        setting.source_file@,
    ];
    let arrow = if setting.arrow { seq!["include/lbug_arrow.h"@] } else { seq![] };
    let bundled = if setting.bundled {
        seq![
            "lbug-src/src"@,
            "lbug-src/cmake"@,
            "lbug-src/third_party"@,
            "lbug-src/CMakeLists.txt"@,
            "lbug-src/tools/CMakeLists.txt"@,
        ]
    } else {
        seq![]
    };
    always + arrow + bundled
}

/// The definitions under which the bindings are compiled.
pub fn defines(setting: FfiSetting) -> (res: Vec<Define>)
    ensures
        res@ == ffi_defines(setting),
        res@.contains(Define::Bundled) <==> setting.bundled,
        res@.contains(Define::RuntimeChecks) <==> (setting.profile@ == "debug"@
            || setting.profile@ == "relwithdebinfo"@),
        res@.contains(Define::Static) <==> setting.mode == LinkMode::Static,
{
    let mut out: Vec<Define> = Vec::new();
    if setting.bundled {
        out.push(Define::Bundled);
    }
    if same_text(setting.profile, "debug") || same_text(setting.profile, "relwithdebinfo") {
        out.push(Define::RuntimeChecks);
    }
    if setting.mode == LinkMode::Static {
        out.push(Define::Static);
    }
    assert(out@ == ffi_defines(setting));
    proof {
        law_each_define_on_its_own_condition(setting);
    }
    out
}

/// The flags with which the bindings are compiled.
pub fn flags(platform: Platform) -> (res: Vec<String>)
    ensures
        texts(res@) == ffi_flags(platform),
{
    let mut out: Vec<String> = Vec::new();
    if platform == Platform::Windows {
        push_line(&mut out, "/std:c++20".to_owned());
        push_line(&mut out, "/MD".to_owned());
    } else {
        push_line(&mut out, "-std=c++2a".to_owned());
    }
    assert(texts(out@) == ffi_flags(platform));
    out
}

fn push_watched(lines: &mut Vec<String>, path: &str)
    ensures
        texts(final(lines)@) == texts(old(lines)@).push("cargo:rerun-if-changed="@ + path@),
{
    push_line(lines, joined("cargo:rerun-if-changed=", path));
}

/// The lines that make a change of the link mode, or of a file that the bindings are made from,
/// trigger a new build.
pub fn rerun_lines(setting: FfiSetting) -> (res: Vec<String>)
    ensures
        texts(res@) == seq!["cargo:rerun-if-env-changed=LBUG_SHARED"@] + watched_paths(
            setting,
        ).map_values(|path: Seq<char>| "cargo:rerun-if-changed="@ + path),
{
    let mut lines: Vec<String> = Vec::new();
    push_line(&mut lines, "cargo:rerun-if-env-changed=LBUG_SHARED".to_owned());
    push_watched(&mut lines, "include/lbug_rs.h");
    push_watched(&mut lines, "src/lbug_rs.cpp");
    push_watched(&mut lines, setting.bridge_file);
    push_watched(&mut lines, setting.source_file);
    if setting.arrow {
        push_watched(&mut lines, "include/lbug_arrow.h");
    }
    if setting.bundled {
        push_watched(&mut lines, "lbug-src/src");
        push_watched(&mut lines, "lbug-src/cmake");
        push_watched(&mut lines, "lbug-src/third_party");
        push_watched(&mut lines, "lbug-src/CMakeLists.txt");
        push_watched(&mut lines, "lbug-src/tools/CMakeLists.txt");
    }
    assert(texts(lines@) == seq!["cargo:rerun-if-env-changed=LBUG_SHARED"@] + watched_paths(
        setting,
    ).map_values(|path: Seq<char>| "cargo:rerun-if-changed="@ + path));
    lines
}

/// A release's source is found with and without the leading `v` of its version. `main` is the one
/// exception: it names the branch.
pub proof fn law_tag_prefix_optional(bare: Seq<char>)
    requires
        !"v"@.is_prefix_of(bare),
        bare != "main"@,
    ensures
        archive_path("v"@ + bare) == archive_path(bare),
{
    reveal_strlit("v");
    reveal_strlit("tags/");
    reveal_strlit("tags/v");
    assert("v"@ == ("v"@ + bare).subrange(0, 1));
    assert("tags/"@ + ("v"@ + bare) == "tags/v"@ + bare);
}

/// Each definition depends on its own condition alone, and none is made twice.
pub proof fn law_each_define_on_its_own_condition(setting: FfiSetting)
    ensures
        ffi_defines(setting).contains(Define::Bundled) <==> setting.bundled,
        ffi_defines(setting).contains(Define::RuntimeChecks) <==> (setting.profile@ == "debug"@
            || setting.profile@ == "relwithdebinfo"@),
        ffi_defines(setting).contains(Define::Static) <==> setting.mode == LinkMode::Static,
        ffi_defines(setting).no_duplicates(),
{
    let made = ffi_defines(setting);
    let b: int = if setting.bundled { 1 } else { 0 };
    let c: int = if setting.profile@ == "debug"@ || setting.profile@ == "relwithdebinfo"@ {
        1
    } else {
        0
    };
    if setting.bundled {
        assert(made[0] == Define::Bundled);
    }
    if c == 1 {
        assert(made[b] == Define::RuntimeChecks);
    }
    if setting.mode == LinkMode::Static {
        assert(made[b + c] == Define::Static);
    }
}

/// The definitions stand in a fixed order: that of the source build, that of the checks, that of
/// static linking.
pub proof fn law_defines_in_order(setting: FfiSetting, i: int, j: int)
    requires
        0 <= i < j < ffi_defines(setting).len(),
    ensures
        ffi_defines(setting)[i] != Define::Static,
        ffi_defines(setting)[j] != Define::Bundled,
{
}

/// Only the checks have a value, and every definition has its own name.
pub proof fn law_define_names()
    ensures
        define_name(Define::Bundled) == "LBUG_BUNDLED"@,
        define_name(Define::RuntimeChecks) == "ENABLE_RUNTIME_CHECKS"@,
        define_name(Define::Static) == "LBUG_STATIC_DEFINE"@,
        define_value(Define::Bundled) is None,
        define_value(Define::RuntimeChecks) == Some("1"@),
        define_value(Define::Static) is None,
{
}

/// The language standard is set on every platform, and the runtime library is chosen on Windows
/// alone.
pub proof fn law_flags_per_platform(platform: Platform)
    ensures
        platform == Platform::Windows ==> ffi_flags(platform) == seq!["/std:c++20"@, "/MD"@],
        platform != Platform::Windows ==> ffi_flags(platform) == seq!["-std=c++2a"@],
{
}

/// The bindings' own files and the two that are named are always watched. The header of the arrow
/// bindings, and the engine's source tree, are watched exactly on their own condition.
pub proof fn law_watched_on_own_condition(setting: FfiSetting)
    ensures
        watched_paths(setting).len() == 4 + (if setting.arrow { 1int } else { 0 }) + (
        if setting.bundled { 5int } else { 0 }),
        watched_paths(setting)[0] == "include/lbug_rs.h"@,
        watched_paths(setting)[1] == "src/lbug_rs.cpp"@,
        watched_paths(setting)[2] == setting.bridge_file@,
        watched_paths(setting)[3] == setting.source_file@,
        setting.arrow ==> watched_paths(setting)[4] == "include/lbug_arrow.h"@,
        setting.bundled ==> watched_paths(setting).skip(
            4 + (if setting.arrow { 1int } else { 0 }),
        ) == seq![
            "lbug-src/src"@,
            "lbug-src/cmake"@,
            "lbug-src/third_party"@,
            "lbug-src/CMakeLists.txt"@,
            "lbug-src/tools/CMakeLists.txt"@,
        ],
{
}

/// A version that begins with `v` names its tag, `main` names the branch, and any other version
/// names the tag that has a `v` before it.
pub proof fn law_archive_of_a_version(version: Seq<char>)
    ensures
        version.len() > 0 && version[0] == 'v' ==> archive_path(version) == "tags/"@ + version,
        version == "main"@ ==> archive_path(version) == "heads/main"@,
        (version.len() == 0 || version[0] != 'v') && version != "main"@ ==> archive_path(version)
            == "tags/"@ + (seq!['v'] + version),
{
    reveal_strlit("v");
    reveal_strlit("main");
    reveal_strlit("tags/");
    reveal_strlit("tags/v");
    assert("v"@ == seq!['v']);
    if version.len() > 0 && version[0] == 'v' {
        assert(version.subrange(0, 1) == seq!['v']);
    }
    if "v"@.is_prefix_of(version) {
        assert("v"@[0] == version.subrange(0, 1)[0]);
    }
    assert("tags/v"@ + version == "tags/"@ + (seq!['v'] + version));
}

/// The address holds the archive's path between the repository and the file's ending, and without
/// a version it is that of the main branch.
pub proof fn law_address_of_a_version(version: &str)
    ensures
        archive_address(Some(version)) == "https://github.com/LadybugDB/ladybug/archive/refs/"@
            + archive_path(version@) + ".tar.gz"@,
        version@ == "main"@ ==> archive_address(None) == archive_address(Some(version)),
{
}

/// A place is built from exactly if it holds a source tree and no place before it does. The
/// enclosing checkout counts on Windows alone, and the download is what is left.
pub proof fn law_first_place_wins(candidates: SourceCandidates, platform: Platform)
    ensures
        candidates.named ==> chosen_root(candidates, platform) == SourceRoot::Named,
        !candidates.named && candidates.sibling ==> chosen_root(candidates, platform)
            == SourceRoot::Sibling,
        !candidates.named && !candidates.sibling && candidates.bundled ==> chosen_root(
            candidates,
            platform,
        ) == SourceRoot::Bundled,
        !candidates.named && !candidates.sibling && !candidates.bundled ==> chosen_root(
            candidates,
            platform,
        ) == (if candidates.enclosing && platform == Platform::Windows {
            SourceRoot::Enclosing
        } else {
            SourceRoot::Downloaded
        }),
{
}

} // verus!
