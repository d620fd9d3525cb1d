//! Naming and fetching the prebuilt engine archive.

use crate::engine::link::{search_line, LinkMode};
use crate::text::{joined, push_line, text_of, texts};
use vstd::prelude::*;
use vstd::string::{StrSliceExecFns, StringExecFns};

verus! {

/// The characters that a cache directory's name keeps.
pub open spec fn is_key_char(c: char) -> bool {
    ||| 'a' <= c <= 'z'
    ||| 'A' <= c <= 'Z'
    ||| '0' <= c <= '9'
    ||| c == '-'
    ||| c == '_'
    ||| c == '.'
}

/// What the archive is built from, as a directory name before cleaning. A run id goes before a
/// version.
pub open spec fn cache_source(run_id: Option<&str>, version: Option<&str>) -> Seq<char> {
    match (run_id, version) {
        (Some(run_id), _) => "run-"@ + run_id@,
        (None, Some(version)) => "version-"@ + version@,
        (None, None) => "latest"@,
    }
}

/// `source` with a hyphen in place of every character that a directory name does not keep.
pub open spec fn cleaned(source: Seq<char>) -> Seq<char> {
    source.map_values(|c: char| if is_key_char(c) { c } else { '-' })
}

/// `version` without a leading `v`.
pub open spec fn bare_version(version: Seq<char>) -> Seq<char> {
    if version.len() > 0 && version[0] == 'v' {
        version.skip(1)
    } else {
        version
    }
}

/// The repository that is named, or the engine's own.
pub open spec fn repository(repo: Option<&str>) -> Seq<char> {
    match repo {
        Some(repo) => repo@,
        None => "LadybugDB/ladybug"@,
    }
}

/// How the origin of a prebuilt archive is recorded.
pub open spec fn source_desc(
    repo: Option<&str>,
    run_id: Option<&str>,
    version: Option<&str>,
) -> Seq<char> {
    match (run_id, version) {
        (Some(run_id), _) => "run:"@ + repository(repo) + "/"@ + run_id@,
        (None, Some(version)) => "release:"@ + repository(repo) + "/v"@ + bare_version(version@),
        (None, None) => "release:"@ + repository(repo) + "/latest"@,
    }
}

fn clean(source: &str) -> (res: String)
    ensures
        res@ == cleaned(source@),
{
    let mut key = String::new();
    for c in it: source.chars()
        invariant
            key@ == cleaned(source@).take(it.index()),
            it.seq() == source@,
    {
        if ('a' <= c && c <= 'z') || ('A' <= c && c <= 'Z') || ('0' <= c && c <= '9') || c == '-'
            || c == '_' || c == '.' {
            key.push(c);
        } else {
            key.push('-');
        }
        assert(key@ == cleaned(source@).take(it.index() + 1));
    }
    assert(key@ == cleaned(source@));
    key
}

/// The name of the cache directory that holds the prebuilt archive.
pub fn prebuilt_cache_key(run_id: Option<&str>, version: Option<&str>) -> (res: String)
    ensures
        res@ == cleaned(cache_source(run_id, version)),
{
    let source = match (run_id, version) {
        (Some(run_id), _) => joined("run-", run_id),
        (None, Some(version)) => joined("version-", version),
        (None, None) => "latest".to_owned(),
    };
    clean(source.as_str())
}

/// Where the prebuilt archive lives.
#[derive(Debug, Clone, Copy, PartialEq, Eq, Structural)]
pub enum PrebuiltPlace {
    /// In the cache inside the source tree.
    InTree,
    /// In the cache that `LBUG_PREBUILT_CACHE_DIR` names, shared across builds and projects.
    Shared,
    /// Under the build's own output directory.
    BuildOutput,
}

/// Where the prebuilt archive lives: an archive that stands in the source tree is used, but none
/// is put there.
pub fn prebuilt_place(present_in_tree: bool, shared_cache_named: bool) -> (res: PrebuiltPlace)
    ensures
        res == PrebuiltPlace::InTree <==> present_in_tree,
        res == PrebuiltPlace::Shared <==> !present_in_tree && shared_cache_named,
{
    if present_in_tree {
        PrebuiltPlace::InTree
    } else if shared_cache_named {
        PrebuiltPlace::Shared
    } else {
        PrebuiltPlace::BuildOutput
    }
}

/// The record of where a prebuilt archive came from.
pub fn prebuilt_source_desc(
    repo: Option<&str>,
    run_id: Option<&str>,
    version: Option<&str>,
) -> (res: String)
    ensures
        res@ == source_desc(repo, run_id, version),
{
    let repo = match repo {
        Some(repo) => repo,
        None => "LadybugDB/ladybug",
    };
    match (run_id, version) {
        (Some(run_id), _) => {
            let mut out = joined("run:", repo);
            out.append("/");
            out.append(run_id);
            out
        },
        (None, Some(version)) => {
            let mut out = joined("release:", repo);
            out.append("/v");
            let n: usize = version.unicode_len();
            if n > 0 && version.get_char(0) == 'v' {
                out.append(version.substring_char(1, n));
                assert(version@.skip(1) == version@.subrange(1, n as int));
            } else {
                out.append(version);
            }
            out
        },
        (None, None) => {
            let mut out = joined("release:", repo);
            out.append("/latest");
            out
        },
    }
}

/// The file name of the static engine library.
pub fn static_lbug_file_name(windows: bool) -> (res: &'static str)
    ensures
        res@ == if windows { "lbug.lib"@ } else { "liblbug.a"@ },
{
    if windows {
        "lbug.lib"
    } else {
        "liblbug.a"
    }
}

/// The lines that record a library's origin and place.
pub open spec fn metadata_lines(source: Seq<char>, lib_dir: Seq<char>) -> Seq<Seq<char>> {
    seq![
        "cargo:rustc-env=LBUG_PRECOMPILED_SOURCE="@ + source,
        "cargo:rustc-env=LBUG_PRECOMPILED_LIBRARY_DIR="@ + lib_dir,
    ]
}

/// The lines that link a library which the environment points to.
pub open spec fn outside_lines(lib_dir: Seq<char>) -> Seq<Seq<char>> {
    seq![
        search_line(lib_dir),
        "cargo:rustc-link-arg=-Wl,-rpath,"@ + lib_dir,
        "cargo:rustc-env=LBUG_PRECOMPILED_SOURCE=external"@,
        "cargo:rustc-env=LBUG_PRECOMPILED_LIBRARY_DIR="@ + lib_dir,
    ]
}

/// The lines that record a library's origin and place for the crate that is built with it.
pub fn emit_lbug_metadata(source: &str, lib_dir: &str) -> (res: Vec<String>)
    ensures
        texts(res@) == metadata_lines(source@, lib_dir@),
        texts(res@) == seq![
            "cargo:rustc-env=LBUG_PRECOMPILED_SOURCE="@ + source@,
            "cargo:rustc-env=LBUG_PRECOMPILED_LIBRARY_DIR="@ + lib_dir@,
        ],
{
    let mut lines: Vec<String> = Vec::new();
    push_line(&mut lines, joined("cargo:rustc-env=LBUG_PRECOMPILED_SOURCE=", source));
    push_line(&mut lines, joined("cargo:rustc-env=LBUG_PRECOMPILED_LIBRARY_DIR=", lib_dir));
    lines
}

/// The lines that link an engine library which the environment points to: where it is looked for
/// at build time and at run time, and the record of it.
pub fn external_library_lines(lib_dir: &str) -> (res: Vec<String>)
    ensures
        texts(res@) == outside_lines(lib_dir@),
        texts(res@) == seq![
            search_line(lib_dir@),
            "cargo:rustc-link-arg=-Wl,-rpath,"@ + lib_dir@,
            "cargo:rustc-env=LBUG_PRECOMPILED_SOURCE=external"@,
            "cargo:rustc-env=LBUG_PRECOMPILED_LIBRARY_DIR="@ + lib_dir@,
        ],
{
    let mut lines: Vec<String> = Vec::new();
    push_line(&mut lines, joined("cargo:rustc-link-search=native=", lib_dir));
    push_line(&mut lines, joined("cargo:rustc-link-arg=-Wl,-rpath,", lib_dir));
    push_line(&mut lines, "cargo:rustc-env=LBUG_PRECOMPILED_SOURCE=external".to_owned());
    push_line(&mut lines, joined("cargo:rustc-env=LBUG_PRECOMPILED_LIBRARY_DIR=", lib_dir));
    lines
}

/// Whether a prebuilt archive is looked for.
#[derive(Debug, PartialEq, Eq)]
pub enum PrebuiltDecision {
    /// Look for it, and download it if it is not there.
    Look,
    /// Do not; the line says why, where that is worth a warning.
    Skip(Option<String>),
}

/// Decides whether a prebuilt archive is looked for: only for static linking, and not where a
/// build from source was asked for.
pub fn prebuilt_decision(mode: LinkMode, source_requested: bool) -> (res: PrebuiltDecision)
    ensures
        match res {
            PrebuiltDecision::Look => mode == LinkMode::Static && !source_requested,
            PrebuiltDecision::Skip(None) => mode == LinkMode::Dylib,
            PrebuiltDecision::Skip(Some(line)) => mode == LinkMode::Static && source_requested
                && line@
                == "cargo:warning=Skipping prebuilt liblbug because source build was requested"@,
        },
{
    match mode {
        LinkMode::Dylib => PrebuiltDecision::Skip(None),
        LinkMode::Static => if source_requested {
            PrebuiltDecision::Skip(
                Some(
                    "cargo:warning=Skipping prebuilt liblbug because source build was requested".to_owned(),
                ),
            )
        } else {
            PrebuiltDecision::Look
        },
    }
}

/// How running a download script ended.
#[derive(Debug, PartialEq, Eq)]
pub enum ScriptRun {
    /// It ran, with an exit status that reads `status`.
    Exited { success: bool, status: String },
    /// It could not be started, for the given reason.
    NotStarted { reason: String },
}

/// The warning that a download script's end calls for, if it does.
pub open spec fn download_report(run: ScriptRun, archive_present: bool) -> Option<Seq<char>> {
    match run {
        ScriptRun::Exited { success, status } => if success && archive_present {
            None
        } else {
            Some(
                "cargo:warning=Prebuilt liblbug download failed with status "@ + status@
                    + "; building from source"@,
            )
        },
        ScriptRun::NotStarted { reason } => Some(
            "cargo:warning=Could not run prebuilt liblbug downloader ("@ + reason@
                + "); building from source"@,
        ),
    }
}

/// What a download script's end means: `None` if the archive is there now, and otherwise the
/// warning to print before going on without it.
pub fn download_warning(run: ScriptRun, archive_present: bool) -> (res: Option<String>)
    ensures
        text_of(res) == download_report(run, archive_present),
        match run {
            ScriptRun::Exited { success, status } => if success && archive_present {
                res is None
            } else {
                res matches Some(line) && line@
                    == "cargo:warning=Prebuilt liblbug download failed with status "@ + status@
                    + "; building from source"@
            },
            ScriptRun::NotStarted { reason } => res matches Some(line) && line@
                == "cargo:warning=Could not run prebuilt liblbug downloader ("@ + reason@
                + "); building from source"@,
        },
{
    match run {
        ScriptRun::Exited { success, status } => {
            if success && archive_present {
                return None;
            }
            let mut line = joined(
                "cargo:warning=Prebuilt liblbug download failed with status ",
                status.as_str(),
            );
            line.append("; building from source");
            Some(line)
        },
        ScriptRun::NotStarted { reason } => {
            let mut line = joined(
                "cargo:warning=Could not run prebuilt liblbug downloader (",
                reason.as_str(),
            );
            line.append("); building from source");
            Some(line)
        },
    }
}

/// The environment variables that a build depends on.
pub open spec fn watched_variables() -> Seq<Seq<char>> {
    seq![
        "LBUG_PRECOMPILED_RUN_ID"@,
        "LBUG_VERSION"@,
        "LBUG_GITHUB_REPOSITORY"@,
        "LBUG_LINUX_VARIANT"@,
        "LBUG_LIB_KIND"@,
        "LBUG_BUILD_FROM_SOURCE"@,
        "LBUG_RUST_BUILD_FROM_SOURCE"@,
        "LBUG_PREBUILT_CACHE_DIR"@,
        "LBUG_LOCALIZE_BUNDLED_SYMBOLS"@,
    ]
}

/// The lines that make a change of one of the variables trigger a new build.
pub fn rerun_lines() -> (res: Vec<String>)
    ensures
        texts(res@) == watched_variables().map_values(
            |name: Seq<char>| "cargo:rerun-if-env-changed="@ + name,
        ),
{
    let mut lines: Vec<String> = Vec::new();
    push_line(&mut lines, joined("cargo:rerun-if-env-changed=", "LBUG_PRECOMPILED_RUN_ID"));
    push_line(&mut lines, joined("cargo:rerun-if-env-changed=", "LBUG_VERSION"));
    push_line(&mut lines, joined("cargo:rerun-if-env-changed=", "LBUG_GITHUB_REPOSITORY"));
    push_line(&mut lines, joined("cargo:rerun-if-env-changed=", "LBUG_LINUX_VARIANT"));
    push_line(&mut lines, joined("cargo:rerun-if-env-changed=", "LBUG_LIB_KIND"));
    push_line(&mut lines, joined("cargo:rerun-if-env-changed=", "LBUG_BUILD_FROM_SOURCE"));
    push_line(&mut lines, joined("cargo:rerun-if-env-changed=", "LBUG_RUST_BUILD_FROM_SOURCE"));
    push_line(&mut lines, joined("cargo:rerun-if-env-changed=", "LBUG_PREBUILT_CACHE_DIR"));
    push_line(&mut lines, joined("cargo:rerun-if-env-changed=", "LBUG_LOCALIZE_BUNDLED_SYMBOLS"));
    lines
}

/// A cache directory's name is one plain path component: it holds letters, digits, hyphens,
/// underscores and dots only, and it is neither empty nor made of dots alone.
pub proof fn law_cache_key_is_one_component(run_id: Option<&str>, version: Option<&str>)
    ensures
        forall|i: int|
            0 <= i < cleaned(cache_source(run_id, version)).len() ==> is_key_char(
                #[trigger] cleaned(cache_source(run_id, version))[i],
            ),
        cleaned(cache_source(run_id, version)).len() > 0,
        cleaned(cache_source(run_id, version))[0] != '.',
{
    reveal_strlit("run-");
    reveal_strlit("version-");
    reveal_strlit("latest");
}

/// A version reads the same with and without its leading `v`.
pub proof fn law_version_prefix_ignored(repo: Option<&str>, bare: &str, prefixed: &str)
    requires
        prefixed@ == seq!['v'] + bare@,
        bare@.len() == 0 || bare@[0] != 'v',
    ensures
        source_desc(repo, None, Some(prefixed)) == source_desc(repo, None, Some(bare)),
{
    assert(prefixed@.skip(1) == bare@);
}

/// A cache directory's name keeps every letter, digit, hyphen, underscore and dot of the source in
/// its place, and has a hyphen for every other character.
pub proof fn law_key_keeps_plain_characters(source: Seq<char>, i: int)
    requires
        0 <= i < source.len(),
    ensures
        cleaned(source).len() == source.len(),
        ('a' <= source[i] <= 'z' || 'A' <= source[i] <= 'Z' || '0' <= source[i] <= '9' || source[i]
            == '-' || source[i] == '_' || source[i] == '.') ==> cleaned(source)[i] == source[i],
        !('a' <= source[i] <= 'z' || 'A' <= source[i] <= 'Z' || '0' <= source[i] <= '9' || source[i]
            == '-' || source[i] == '_' || source[i] == '.') ==> cleaned(source)[i] == '-',
{
}

/// Cleaning a cleaned name changes nothing.
pub proof fn law_cleaning_once_is_enough(source: Seq<char>)
    ensures
        cleaned(cleaned(source)) == cleaned(source),
{
}

/// A run id names the directory whatever the version is, a version names it where there is no run
/// id, and each stands in it in full.
pub proof fn law_run_goes_before_version(run_id: &str, other: Option<&str>, version: &str)
    ensures
        cache_source(Some(run_id), other) == "run-"@ + run_id@,
        cache_source(None, Some(version)) == "version-"@ + version@,
        cache_source(None, None) == "latest"@,
{
}

/// Two builds from different plain versions, or from different plain runs, have different cache
/// directories, and so have a run and a version.
pub proof fn law_cache_keys_distinct(run_id: &str, version: &str, other: &str)
    requires
        forall|i: int| 0 <= i < version@.len() ==> is_key_char(#[trigger] version@[i]),
        forall|i: int| 0 <= i < other@.len() ==> is_key_char(#[trigger] other@[i]),
    ensures
        cleaned(cache_source(None, Some(version))) == cleaned(cache_source(None, Some(other)))
            <==> version@ == other@,
        cleaned(cache_source(Some(version), None)) == cleaned(cache_source(Some(other), None))
            <==> version@ == other@,
        cleaned(cache_source(Some(run_id), None)) != cleaned(cache_source(None, Some(version))),
{
    reveal_strlit("run-");
    reveal_strlit("version-");
    let by_version = cleaned("version-"@ + version@);
    let by_other = cleaned("version-"@ + other@);
    if by_version == by_other {
        assert(by_version.len() == 8 + version@.len() && by_other.len() == 8 + other@.len());
        assert forall|i: int| 0 <= i < version@.len() implies version@[i] == other@[i] by {
            assert(by_version[i + 8] == version@[i]);
            assert(by_other[i + 8] == other@[i]);
        }
        assert(version@ == other@);
    }
    let run_version = cleaned("run-"@ + version@);
    let run_other = cleaned("run-"@ + other@);
    if run_version == run_other {
        assert(run_version.len() == 4 + version@.len() && run_other.len() == 4 + other@.len());
        assert forall|i: int| 0 <= i < version@.len() implies version@[i] == other@[i] by {
            assert(run_version[i + 4] == version@[i]);
            assert(run_other[i + 4] == other@[i]);
        }
        assert(version@ == other@);
    }
    assert(cleaned("run-"@ + run_id@)[0] == 'r');
    assert(by_version[0] == 'v');
}

/// The record of an archive's origin holds the repository, named or the engine's own, and then the
/// run, the version behind a single added `v`, or the latest release.
pub proof fn law_origin_told_in_full(
    repo: &str,
    run_id: &str,
    other: Option<&str>,
    version: &str,
)
    ensures
        source_desc(Some(repo), Some(run_id), other) == "run:"@ + repo@ + "/"@ + run_id@,
        source_desc(None, Some(run_id), other) == "run:"@ + "LadybugDB/ladybug"@ + "/"@ + run_id@,
        source_desc(Some(repo), None, None) == "release:"@ + repo@ + "/latest"@,
        source_desc(None, None, None) == "release:"@ + "LadybugDB/ladybug"@ + "/latest"@,
        version@.len() == 0 || version@[0] != 'v' ==> source_desc(Some(repo), None, Some(version))
            == "release:"@ + repo@ + "/v"@ + version@ && source_desc(None, None, Some(version))
            == "release:"@ + "LadybugDB/ladybug"@ + "/v"@ + version@,
        version@.len() > 0 && version@[0] == 'v' ==> source_desc(Some(repo), None, Some(version))
            == "release:"@ + repo@ + "/"@ + version@ && source_desc(None, None, Some(version))
            == "release:"@ + "LadybugDB/ladybug"@ + "/"@ + version@,
{
    reveal_strlit("/v");
    reveal_strlit("/");
    if version@.len() > 0 && version@[0] == 'v' {
        assert("/v"@ + version@.skip(1) =~= "/"@ + version@);
        let named = "release:"@ + repo@;
        let own = "release:"@ + "LadybugDB/ladybug"@;
        assert(named + "/v"@ + version@.skip(1) =~= named + ("/v"@ + version@.skip(1)));
        assert(named + ("/"@ + version@) =~= named + "/"@ + version@);
        assert(own + "/v"@ + version@.skip(1) =~= own + ("/v"@ + version@.skip(1)));
        assert(own + ("/"@ + version@) =~= own + "/"@ + version@);
    }
}

/// A download is passed over in silence exactly if the script succeeded and the archive is there.
/// Otherwise the warning holds the script's whole status, or the whole reason for which it could
/// not be started.
pub proof fn law_download_failure_told(
    success: bool,
    status: String,
    reason: String,
    archive_present: bool,
)
    ensures
        download_report(ScriptRun::Exited { success, status }, archive_present) is None <==> success
            && archive_present,
        !(success && archive_present) ==> download_report(
            ScriptRun::Exited { success, status },
            archive_present,
        ) == Some(
            "cargo:warning=Prebuilt liblbug download failed with status "@ + status@
                + "; building from source"@,
        ),
        download_report(ScriptRun::NotStarted { reason }, archive_present) == Some(
            "cargo:warning=Could not run prebuilt liblbug downloader ("@ + reason@
                + "); building from source"@,
        ),
{
}

/// The record for the crate that is built has the origin and the place in full, one to a line.
pub proof fn law_metadata_in_full(source: Seq<char>, lib_dir: Seq<char>)
    ensures
        metadata_lines(source, lib_dir).len() == 2,
        metadata_lines(source, lib_dir)[0] == "cargo:rustc-env=LBUG_PRECOMPILED_SOURCE="@ + source,
        metadata_lines(source, lib_dir)[1] == "cargo:rustc-env=LBUG_PRECOMPILED_LIBRARY_DIR="@
            + lib_dir,
{
}

/// An outside library is looked for in its own directory when it is linked and when it is loaded,
/// and its record is that of an origin outside.
pub proof fn law_outside_library_lines(lib_dir: Seq<char>)
    ensures
        outside_lines(lib_dir).len() == 4,
        outside_lines(lib_dir)[0] == "cargo:rustc-link-search=native="@ + lib_dir,
        outside_lines(lib_dir)[1] == "cargo:rustc-link-arg=-Wl,-rpath,"@ + lib_dir,
        outside_lines(lib_dir).skip(2) == metadata_lines("external"@, lib_dir),
{
    reveal_strlit("cargo:rustc-env=LBUG_PRECOMPILED_SOURCE=external");
    reveal_strlit("cargo:rustc-env=LBUG_PRECOMPILED_SOURCE=");
    reveal_strlit("external");
    assert("cargo:rustc-env=LBUG_PRECOMPILED_SOURCE=external"@
        =~= "cargo:rustc-env=LBUG_PRECOMPILED_SOURCE="@ + "external"@);
    assert(outside_lines(lib_dir).skip(2) =~= metadata_lines("external"@, lib_dir));
}

/// The variables that a build depends on are these nine.
pub proof fn law_nine_variables_watched()
    ensures
        watched_variables().len() == 9,
        watched_variables()[0] == "LBUG_PRECOMPILED_RUN_ID"@,
        watched_variables()[1] == "LBUG_VERSION"@,
        watched_variables()[2] == "LBUG_GITHUB_REPOSITORY"@,
        watched_variables()[3] == "LBUG_LINUX_VARIANT"@,
        watched_variables()[4] == "LBUG_LIB_KIND"@,
        watched_variables()[5] == "LBUG_BUILD_FROM_SOURCE"@,
        watched_variables()[6] == "LBUG_RUST_BUILD_FROM_SOURCE"@,
        watched_variables()[7] == "LBUG_PREBUILT_CACHE_DIR"@,
        watched_variables()[8] == "LBUG_LOCALIZE_BUNDLED_SYMBOLS"@,
{
}

} // verus!
