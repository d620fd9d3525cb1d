//! How the engine is linked: the directives that a build prints for cargo.

use crate::text::{joined, push_line, texts};
use vstd::prelude::*;

verus! {

/// How the engine library is linked.
#[derive(Debug, Clone, Copy, PartialEq, Eq, Structural)]
pub enum LinkMode {
    Static,
    Dylib,
}

/// The engine is linked as a shared library on request, and statically otherwise.
pub fn link_mode(shared_requested: bool) -> (res: LinkMode)
    ensures
        res == if shared_requested { LinkMode::Dylib } else { LinkMode::Static },
{
    if shared_requested {
        LinkMode::Dylib
    } else {
        LinkMode::Static
    }
}

/// The platform that is built for.
#[derive(Debug, Clone, Copy, PartialEq, Eq, Structural)]
pub enum Platform {
    Windows,
    MacOs,
    OtherUnix,
}

/// A directive that links the shared library `name`.
pub open spec fn dylib_line(name: Seq<char>) -> Seq<char> {
    "cargo:rustc-link-lib=dylib="@ + name
}

/// A directive that links the static library `name`, whole where the compiler has a way to say
/// so.
pub open spec fn static_line(whole_archive: bool, name: Seq<char>) -> Seq<char> {
    if whole_archive {
        "cargo:rustc-link-lib=static:+whole-archive="@ + name
    } else {
        "cargo:rustc-link-lib=static="@ + name
    }
}

/// A directive that adds a directory to those in which libraries are looked for.
pub open spec fn search_line(dir: Seq<char>) -> Seq<char> {
    "cargo:rustc-link-search=native="@ + dir
}

/// The shared libraries that the static engine library needs from the system.
pub open spec fn runtime_libraries(platform: Platform) -> Seq<Seq<char>> {
    match platform {
        Platform::Windows => seq![
            "msvcrt"@,
            "shell32"@,
            "ole32"@,
            "advapi32"@,
            "crypt32"@,
            "user32"@,
            "ws2_32"@,
        ],
        Platform::MacOs => seq!["c++"@],
        Platform::OtherUnix => seq!["stdc++"@],
    }
}

/// The two libraries of OpenSSL, as the platform names them.
pub open spec fn openssl_libraries(platform: Platform) -> Seq<Seq<char>> {
    if platform == Platform::Windows {
        seq!["libssl"@, "libcrypto"@]
    } else {
        seq!["ssl"@, "crypto"@]
    }
}

/// The third-party libraries that come with an engine built from source.
pub open spec fn bundled_libraries() -> Seq<Seq<char>> {
    seq![
        "utf8proc"@,
        "antlr4_cypher"@,
        "antlr4_runtime"@,
        "re2"@,
        "fastpfor"@,
        "parquet"@,
        "thrift"@,
        "snappy"@,
        "zstd"@,
        "miniz"@,
        "mbedtls"@,
        "brotlidec"@,
        "brotlicommon"@,
        "lz4"@,
        "roaring_bitmap"@,
        "simsimd"@,
        "yyjson"@,
    ]
}

/// The directives that link the engine itself. A static engine exports its symbols to the
/// extensions that are loaded later, except on Windows.
pub open spec fn engine_directives(platform: Platform, mode: LinkMode, whole_archive: bool) -> Seq<
    Seq<char>,
> {
    match mode {
        LinkMode::Dylib => seq![
            dylib_line(if platform == Platform::Windows { "lbug_shared"@ } else { "lbug"@ }),
        ],
        LinkMode::Static => {
            let engine = seq![static_line(whole_archive, "lbug"@)];
            let runtime = runtime_libraries(platform).map_values(|name: Seq<char>| dylib_line(name));
            if platform == Platform::Windows {
                engine + runtime
            } else {
                seq!["cargo:rustc-link-arg=-rdynamic"@] + engine + runtime
            }
        },
    }
}

/// The directives that link what a static engine needs besides: OpenSSL, and the bundled
/// libraries where they are linked one by one. A shared engine brings its own.
pub open spec fn dependency_directives(
    platform: Platform,
    mode: LinkMode,
    whole_archive: bool,
    link_bundled_deps: bool,
) -> Seq<Seq<char>> {
    if mode == LinkMode::Dylib {
        Seq::empty()
    } else {
        let openssl = openssl_libraries(platform).map_values(|name: Seq<char>| dylib_line(name));
        if link_bundled_deps {
            openssl + bundled_libraries().map_values(
                |name: Seq<char>| static_line(whole_archive, name),
            )
        } else {
            openssl
        }
    }
}

fn push_dylib(lines: &mut Vec<String>, name: &str)
    ensures
        texts(final(lines)@) == texts(old(lines)@).push(dylib_line(name@)),
{
    push_line(lines, joined("cargo:rustc-link-lib=dylib=", name));
}

fn push_static(lines: &mut Vec<String>, whole_archive: bool, name: &str)
    ensures
        texts(final(lines)@) == texts(old(lines)@).push(static_line(whole_archive, name@)),
{
    if whole_archive {
        push_line(lines, joined("cargo:rustc-link-lib=static:+whole-archive=", name));
    } else {
        push_line(lines, joined("cargo:rustc-link-lib=static=", name));
    }
}

/// Links the engine itself. `whole_archive` says whether the compiler can be told to take a
/// static library whole.
pub fn link_engine(platform: Platform, mode: LinkMode, whole_archive: bool) -> (res: Vec<String>)
    ensures
        texts(res@) == engine_directives(platform, mode, whole_archive),
{
    let mut lines: Vec<String> = Vec::new();
    match mode {
        LinkMode::Dylib => {
            if platform == Platform::Windows {
                push_dylib(&mut lines, "lbug_shared");
            } else {
                push_dylib(&mut lines, "lbug");
            }
        },
        LinkMode::Static => {
            if platform != Platform::Windows {
                push_line(&mut lines, "cargo:rustc-link-arg=-rdynamic".to_owned());
            }
            push_static(&mut lines, whole_archive, "lbug");
            match platform {
                Platform::Windows => {
                    push_dylib(&mut lines, "msvcrt");
                    push_dylib(&mut lines, "shell32");
                    push_dylib(&mut lines, "ole32");
                    push_dylib(&mut lines, "advapi32");
                    push_dylib(&mut lines, "crypt32");
                    push_dylib(&mut lines, "user32");
                    push_dylib(&mut lines, "ws2_32");
                },
                Platform::MacOs => push_dylib(&mut lines, "c++"),
                Platform::OtherUnix => push_dylib(&mut lines, "stdc++"),
            }
        },
    }
    assert(texts(lines@) == engine_directives(platform, mode, whole_archive));
    lines
}

/// Links what a static engine needs besides, once OpenSSL has been found.
pub fn link_dependencies(
    platform: Platform,
    mode: LinkMode,
    whole_archive: bool,
    link_bundled_deps: bool,
) -> (res: Vec<String>)
    ensures
        texts(res@) == dependency_directives(platform, mode, whole_archive, link_bundled_deps),
{
    let mut lines: Vec<String> = Vec::new();
    if mode == LinkMode::Dylib {
        assert(texts(lines@) == Seq::<Seq<char>>::empty());
        return lines;
    }
    if platform == Platform::Windows {
        push_dylib(&mut lines, "libssl");
        push_dylib(&mut lines, "libcrypto");
    } else {
        push_dylib(&mut lines, "ssl");
        push_dylib(&mut lines, "crypto");
    }
    if link_bundled_deps {
        push_static(&mut lines, whole_archive, "utf8proc");
        push_static(&mut lines, whole_archive, "antlr4_cypher");
        push_static(&mut lines, whole_archive, "antlr4_runtime");
        push_static(&mut lines, whole_archive, "re2");
        push_static(&mut lines, whole_archive, "fastpfor");
        push_static(&mut lines, whole_archive, "parquet");
        push_static(&mut lines, whole_archive, "thrift");
        push_static(&mut lines, whole_archive, "snappy");
        push_static(&mut lines, whole_archive, "zstd");
        push_static(&mut lines, whole_archive, "miniz");
        push_static(&mut lines, whole_archive, "mbedtls");
        push_static(&mut lines, whole_archive, "brotlidec");
        push_static(&mut lines, whole_archive, "brotlicommon");
        push_static(&mut lines, whole_archive, "lz4");
        push_static(&mut lines, whole_archive, "roaring_bitmap");
        push_static(&mut lines, whole_archive, "simsimd");
        push_static(&mut lines, whole_archive, "yyjson");
    }
    assert(texts(lines@) == dependency_directives(
        platform,
        mode,
        whole_archive,
        link_bundled_deps,
    ));
    lines
}

/// A directory that may hold OpenSSL, and whether it stands.
#[derive(Debug, PartialEq, Eq)]
pub struct SearchDir {
    pub path: String,
    pub stands: bool,
}

/// Where OpenSSL was found.
#[derive(Debug, PartialEq, Eq)]
pub enum OpensslFound {
    /// A variable names its root directory; its libraries stand in `lib` if that is a directory,
    /// and in the root itself otherwise.
    ByVariable { root: String, lib: String, lib_is_dir: bool },
    /// The package manager found it and printed its own directives.
    ByPackageManager,
    /// The package manager did not find it, for the given reason. What `pkg-config` names is
    /// searched, and so are the usual places.
    BySearch {
        reason: String,
        pkg_config: Option<SearchDir>,
        homebrew: Vec<SearchDir>,
        system: Vec<SearchDir>,
    },
}

/// Where Homebrew puts OpenSSL, in the order in which it is looked for.
pub open spec fn homebrew_places(platform: Platform) -> Seq<Seq<char>> {
    if platform == Platform::MacOs {
        seq!["/opt/homebrew/opt/openssl/lib"@, "/usr/local/opt/openssl/lib"@]
    } else {
        seq![]
    }
}

/// Where a Unix system puts OpenSSL.
pub open spec fn system_places(platform: Platform) -> Seq<Seq<char>> {
    if platform == Platform::Windows {
        seq![]
    } else {
        seq!["/usr/lib"@, "/usr/local/lib"@, "/usr/lib/x86_64-linux-gnu"@]
    }
}

/// The paths of the directories that stand.
pub open spec fn standing(dirs: Seq<SearchDir>) -> Seq<Seq<char>>
    decreases dirs.len(),
{
    if dirs.len() == 0 {
        seq![]
    } else if dirs.last().stands {
        standing(dirs.drop_last()).push(dirs.last().path@)
    } else {
        standing(dirs.drop_last())
    }
}

/// The path of the first directory that stands, if any does.
pub open spec fn first_standing(dirs: Seq<SearchDir>) -> Seq<Seq<char>> {
    standing(dirs).take(if standing(dirs).len() > 0 { 1 } else { 0 })
}

/// The directories that are searched: what `pkg-config` names, if it names a directory that
/// stands; the first of Homebrew's that stands; and all of the system's that stand.
pub open spec fn searched(
    pkg_config: Option<SearchDir>,
    homebrew: Seq<SearchDir>,
    system: Seq<SearchDir>,
) -> Seq<Seq<char>> {
    let named = match pkg_config {
        Some(dir) if dir.path@.len() > 0 && dir.stands => seq![dir.path@],
        _ => seq![],
    };
    named + first_standing(homebrew) + standing(system)
}

/// The directives for a search of OpenSSL.
pub open spec fn openssl_directives(found: OpensslFound) -> Seq<Seq<char>> {
    match found {
        OpensslFound::ByVariable { root, lib, lib_is_dir } => seq![
            search_line(if lib_is_dir { lib@ } else { root@ }),
        ],
        OpensslFound::ByPackageManager => Seq::empty(),
        OpensslFound::BySearch { reason, pkg_config, homebrew, system } => seq![
            "cargo:warning=vcpkg did not find openssl: "@ + reason@,
        ] + searched(pkg_config, homebrew@, system@).map_values(
            |dir: Seq<char>| search_line(dir),
        ),
    }
}

/// Where Homebrew puts OpenSSL, in the order in which it is looked for.
pub fn homebrew_dirs(platform: Platform) -> (res: Vec<String>)
    ensures
        texts(res@) == homebrew_places(platform),
{
    let mut dirs: Vec<String> = Vec::new();
    if platform == Platform::MacOs {
        push_line(&mut dirs, "/opt/homebrew/opt/openssl/lib".to_owned());
        push_line(&mut dirs, "/usr/local/opt/openssl/lib".to_owned());
    }
    assert(texts(dirs@) == homebrew_places(platform));
    dirs
}

/// Where a Unix system puts OpenSSL.
pub fn system_dirs(platform: Platform) -> (res: Vec<String>)
    ensures
        texts(res@) == system_places(platform),
{
    let mut dirs: Vec<String> = Vec::new();
    if platform != Platform::Windows {
        push_line(&mut dirs, "/usr/lib".to_owned());
        push_line(&mut dirs, "/usr/local/lib".to_owned());
        push_line(&mut dirs, "/usr/lib/x86_64-linux-gnu".to_owned());
    }
    assert(texts(dirs@) == system_places(platform));
    dirs
}

fn push_search(lines: &mut Vec<String>, dir: &str)
    ensures
        texts(final(lines)@) == texts(old(lines)@).push(search_line(dir@)),
{
    push_line(lines, joined("cargo:rustc-link-search=native=", dir));
}

/// Adds search directives for the directories that stand, at most `limit` of them.
fn push_standing(lines: &mut Vec<String>, dirs: &Vec<SearchDir>, limit: usize)
    ensures
        texts(final(lines)@) == texts(old(lines)@) + standing(dirs@).take(
            if limit < standing(dirs@).len() { limit as int } else { standing(dirs@).len() as int },
        ).map_values(|dir: Seq<char>| search_line(dir)),
{
    let ghost before = texts(lines@);
    let mut taken: usize = 0;
    let mut i: usize = 0;
    assert(dirs@.take(0).len() == 0);
    assert(texts(lines@) =~= before + standing(dirs@.take(0)).map_values(
        |dir: Seq<char>| search_line(dir),
    ));
    while i < dirs.len() && taken < limit
        invariant
            i <= dirs@.len(),
            taken <= limit,
            taken <= i,
            taken == standing(dirs@.take(i as int)).len(),
            texts(lines@) == before + standing(dirs@.take(i as int)).map_values(
                |dir: Seq<char>| search_line(dir),
            ),
        decreases dirs@.len() - i,
    {
        let ghost part = dirs@.take(i + 1);
        assert(part.drop_last() == dirs@.take(i as int));
        assert(part.last() == dirs@[i as int]);
        if dirs[i].stands {
            push_search(lines, dirs[i].path.as_str());
            taken = taken + 1;
        }
        i = i + 1;
        assert(texts(lines@) == before + standing(dirs@.take(i as int)).map_values(
            |dir: Seq<char>| search_line(dir),
        ));
    }
    proof {
        lemma_standing_prefix(dirs@, i as int);
        if i == dirs@.len() {
            assert(dirs@.take(i as int) == dirs@);
        }
    }
}

/// The standing directories among the first `n` are the first standing directories.
proof fn lemma_standing_prefix(dirs: Seq<SearchDir>, n: int)
    requires
        0 <= n <= dirs.len(),
    ensures
        standing(dirs.take(n)).len() <= standing(dirs).len(),
        standing(dirs.take(n)) == standing(dirs).take(standing(dirs.take(n)).len() as int),
    decreases dirs.len(),
{
    if n == dirs.len() {
        assert(dirs.take(n) == dirs);
    } else {
        lemma_standing_prefix(dirs.drop_last(), n);
        assert(dirs.drop_last().take(n) == dirs.take(n));
    }
}

/// Points the linker to OpenSSL.
pub fn link_openssl(found: OpensslFound) -> (res: Vec<String>)
    ensures
        texts(res@) == openssl_directives(found),
{
    let mut lines: Vec<String> = Vec::new();
    match &found {
        OpensslFound::ByVariable { root, lib, lib_is_dir } => {
            let dir = if *lib_is_dir { lib } else { root };
            push_search(&mut lines, dir.as_str());
        },
        OpensslFound::ByPackageManager => {},
        OpensslFound::BySearch { reason, pkg_config, homebrew, system } => {
            push_line(
                &mut lines,
                joined("cargo:warning=vcpkg did not find openssl: ", reason.as_str()),
            );
            if let Some(dir) = pkg_config {
                if dir.stands && !dir.path.as_str().is_empty() {
                    push_search(&mut lines, dir.path.as_str());
                }
            }
            push_standing(&mut lines, homebrew, 1);
            push_standing(&mut lines, system, system.len());
            proof {
                lemma_standing_len(system@);
                assert(standing(system@).take(standing(system@).len() as int) == standing(system@));
            }
        },
    }
    assert(texts(lines@) == openssl_directives(found));
    lines
}

/// No more directories stand than there are.
proof fn lemma_standing_len(dirs: Seq<SearchDir>)
    ensures
        standing(dirs).len() <= dirs.len(),
    decreases dirs.len(),
{
    if dirs.len() > 0 {
        lemma_standing_len(dirs.drop_last());
    }
}

/// A shared engine is linked by a single directive, under the name that its library has on the
/// platform, whatever the compiler can be told.
pub proof fn law_shared_engine_is_one_directive(platform: Platform, whole_archive: bool)
    ensures
        engine_directives(platform, LinkMode::Dylib, whole_archive).len() == 1,
        platform == Platform::Windows ==> engine_directives(
            platform,
            LinkMode::Dylib,
            whole_archive,
        )[0] == "cargo:rustc-link-lib=dylib="@ + "lbug_shared"@,
        platform != Platform::Windows ==> engine_directives(
            platform,
            LinkMode::Dylib,
            whole_archive,
        )[0] == "cargo:rustc-link-lib=dylib="@ + "lbug"@,
{
}

/// A static engine is linked whole exactly if the compiler can be told to, and then come the
/// system libraries that it needs on the platform. Except on Windows its symbols are exported
/// first.
pub proof fn law_static_engine_and_its_runtime(whole_archive: bool)
    ensures
        ({
            let engine = (if whole_archive {
                "cargo:rustc-link-lib=static:+whole-archive="@
            } else {
                "cargo:rustc-link-lib=static="@
            }) + "lbug"@;
            &&& engine_directives(Platform::Windows, LinkMode::Static, whole_archive) == seq![
                engine,
                "cargo:rustc-link-lib=dylib="@ + "msvcrt"@,
                "cargo:rustc-link-lib=dylib="@ + "shell32"@,
                "cargo:rustc-link-lib=dylib="@ + "ole32"@,
                "cargo:rustc-link-lib=dylib="@ + "advapi32"@,
                "cargo:rustc-link-lib=dylib="@ + "crypt32"@,
                "cargo:rustc-link-lib=dylib="@ + "user32"@,
                "cargo:rustc-link-lib=dylib="@ + "ws2_32"@,
            ]
            &&& engine_directives(Platform::MacOs, LinkMode::Static, whole_archive) == seq![
                "cargo:rustc-link-arg=-rdynamic"@,
                engine,
                "cargo:rustc-link-lib=dylib="@ + "c++"@,
            ]
            &&& engine_directives(Platform::OtherUnix, LinkMode::Static, whole_archive) == seq![
                "cargo:rustc-link-arg=-rdynamic"@,
                engine,
                "cargo:rustc-link-lib=dylib="@ + "stdc++"@,
            ]
        }),
{
}

/// A shared engine needs nothing besides. A static one always needs the two libraries of OpenSSL,
/// under their names on the platform, and behind them every bundled library exactly if they are
/// linked one by one, each whole exactly if the compiler can be told to.
pub proof fn law_dependencies_of_the_engine(
    platform: Platform,
    whole_archive: bool,
    link_bundled_deps: bool,
    i: int,
)
    ensures
        dependency_directives(platform, LinkMode::Dylib, whole_archive, link_bundled_deps).len()
            == 0,
        ({
            let lines = dependency_directives(
                platform,
                LinkMode::Static,
                whole_archive,
                link_bundled_deps,
            );
            &&& lines.len() == (if link_bundled_deps { 19int } else { 2 })
            &&& lines[0] == "cargo:rustc-link-lib=dylib="@ + (if platform == Platform::Windows {
                "libssl"@
            } else {
                "ssl"@
            })
            &&& lines[1] == "cargo:rustc-link-lib=dylib="@ + (if platform == Platform::Windows {
                "libcrypto"@
            } else {
                "crypto"@
            })
            &&& link_bundled_deps && 0 <= i < 17 ==> lines[i + 2] == (if whole_archive {
                "cargo:rustc-link-lib=static:+whole-archive="@
            } else {
                "cargo:rustc-link-lib=static="@
            }) + bundled_libraries()[i]
        }),
{
}

/// The libraries that an engine built from source comes with.
pub proof fn law_bundled_libraries()
    ensures
        bundled_libraries().len() == 17,
        bundled_libraries()[0] == "utf8proc"@,
        bundled_libraries()[1] == "antlr4_cypher"@,
        bundled_libraries()[2] == "antlr4_runtime"@,
        bundled_libraries()[3] == "re2"@,
        bundled_libraries()[4] == "fastpfor"@,
        bundled_libraries()[5] == "parquet"@,
        bundled_libraries()[6] == "thrift"@,
        bundled_libraries()[7] == "snappy"@,
        bundled_libraries()[8] == "zstd"@,
        bundled_libraries()[9] == "miniz"@,
        bundled_libraries()[10] == "mbedtls"@,
        bundled_libraries()[11] == "brotlidec"@,
        bundled_libraries()[12] == "brotlicommon"@,
        bundled_libraries()[13] == "lz4"@,
        bundled_libraries()[14] == "roaring_bitmap"@,
        bundled_libraries()[15] == "simsimd"@,
        bundled_libraries()[16] == "yyjson"@,
{
}

/// A directive holds the whole name or path that it is about.
pub proof fn law_directives_in_full(name: Seq<char>)
    ensures
        dylib_line(name) == "cargo:rustc-link-lib=dylib="@ + name,
        static_line(true, name) == "cargo:rustc-link-lib=static:+whole-archive="@ + name,
        static_line(false, name) == "cargo:rustc-link-lib=static="@ + name,
        search_line(name) == "cargo:rustc-link-search=native="@ + name,
{
}

/// Homebrew is looked through on macOS alone, and the system's directories everywhere but on
/// Windows.
pub proof fn law_places_per_platform(platform: Platform)
    ensures
        homebrew_places(platform) == (if platform == Platform::MacOs {
            seq!["/opt/homebrew/opt/openssl/lib"@, "/usr/local/opt/openssl/lib"@]
        } else {
            seq![]
        }),
        system_places(platform) == (if platform == Platform::Windows {
            seq![]
        } else {
            seq!["/usr/lib"@, "/usr/local/lib"@, "/usr/lib/x86_64-linux-gnu"@]
        }),
{
}

/// Each directory is kept by itself: of two lists, one behind the other, those of the first that
/// stand are kept and behind them those of the second. Of a single directory its path is kept
/// exactly if it stands.
pub proof fn law_directories_kept_one_by_one(
    first: Seq<SearchDir>,
    second: Seq<SearchDir>,
    dir: SearchDir,
)
    ensures
        standing(first + second) == standing(first) + standing(second),
        dir.stands ==> standing(seq![dir]) == seq![dir.path@],
        !dir.stands ==> standing(seq![dir]).len() == 0,
        standing(Seq::empty()).len() == 0,
    decreases second.len(),
{
    assert(seq![dir].drop_last() == Seq::<SearchDir>::empty());
    assert(seq![dir].last() == dir);
    assert(standing(Seq::<SearchDir>::empty()) == Seq::<Seq<char>>::empty());
    if second.len() == 0 {
        assert(first + second == first);
        assert(standing(first) + standing(second) == standing(first));
    } else {
        law_directories_kept_one_by_one(first, second.drop_last(), dir);
        assert((first + second).drop_last() == first + second.drop_last());
        assert((first + second).last() == second.last());
        assert(standing(first) + standing(second.drop_last()).push(second.last().path@) == (
        standing(first) + standing(second.drop_last())).push(second.last().path@));
    }
}

/// Of several directories the first that stands is taken alone, wherever it is, and none is taken
/// if none stands.
pub proof fn law_first_standing_alone(dirs: Seq<SearchDir>, i: int)
    requires
        0 <= i <= dirs.len(),
        forall|j: int| 0 <= j < i ==> !(#[trigger] dirs[j]).stands,
        i < dirs.len() ==> dirs[i].stands,
    ensures
        i < dirs.len() ==> first_standing(dirs) == seq![dirs[i].path@],
        i == dirs.len() ==> first_standing(dirs).len() == 0,
{
    lemma_none_standing(dirs.take(i));
    if i < dirs.len() {
        law_directories_kept_one_by_one(dirs.take(i), seq![dirs[i]], dirs[i]);
        assert(dirs.take(i + 1) == dirs.take(i) + seq![dirs[i]]);
        assert(standing(dirs.take(i + 1)) == seq![dirs[i].path@]);
        lemma_standing_prefix(dirs, i + 1);
        assert(standing(dirs)[0] == standing(dirs.take(i + 1))[0]);
    } else {
        assert(dirs.take(i) == dirs);
    }
}

proof fn lemma_none_standing(dirs: Seq<SearchDir>)
    requires
        forall|j: int| 0 <= j < dirs.len() ==> !(#[trigger] dirs[j]).stands,
    ensures
        standing(dirs).len() == 0,
    decreases dirs.len(),
{
    if dirs.len() > 0 {
        assert(!dirs[dirs.len() - 1].stands);
        lemma_none_standing(dirs.drop_last());
    }
}

/// What `pkg-config` names is searched first, exactly if the name is not empty and stands. It
/// changes nothing about the other places, and Homebrew's come before the system's.
pub proof fn law_search_order(
    dir: SearchDir,
    homebrew: Seq<SearchDir>,
    system: Seq<SearchDir>,
)
    ensures
        searched(None, homebrew, system) == first_standing(homebrew) + standing(system),
        dir.stands && dir.path@.len() > 0 ==> searched(Some(dir), homebrew, system) == seq![
            dir.path@,
        ] + searched(None, homebrew, system),
        !(dir.stands && dir.path@.len() > 0) ==> searched(Some(dir), homebrew, system) == searched(
            None,
            homebrew,
            system,
        ),
{
    let others = first_standing(homebrew) + standing(system);
    assert(searched(None, homebrew, system) == others);
    assert(Seq::<Seq<char>>::empty() + first_standing(homebrew) + standing(system) == others);
    assert(seq![dir.path@] + first_standing(homebrew) + standing(system) == seq![dir.path@]
        + others);
}

/// A variable's root is searched, or its `lib` if that is a directory. Where the package manager
/// found OpenSSL nothing is added. Where it did not, its whole reason is told first, and every
/// searched directory has its own directive behind that.
pub proof fn law_openssl_directives(
    root: String,
    lib: String,
    reason: String,
    pkg_config: Option<SearchDir>,
    homebrew: Vec<SearchDir>,
    system: Vec<SearchDir>,
    i: int,
)
    ensures
        openssl_directives(OpensslFound::ByVariable { root, lib, lib_is_dir: true }) == seq![
            "cargo:rustc-link-search=native="@ + lib@,
        ],
        openssl_directives(OpensslFound::ByVariable { root, lib, lib_is_dir: false }) == seq![
            "cargo:rustc-link-search=native="@ + root@,
        ],
        openssl_directives(OpensslFound::ByPackageManager).len() == 0,
        ({
            let lines = openssl_directives(
                OpensslFound::BySearch { reason, pkg_config, homebrew, system },
            );
            let dirs = searched(pkg_config, homebrew@, system@);
            &&& lines.len() == 1 + dirs.len()
            &&& lines[0] == "cargo:warning=vcpkg did not find openssl: "@ + reason@
            &&& 0 <= i < dirs.len() ==> lines[i + 1] == "cargo:rustc-link-search=native="@ + dirs[i]
        }),
{
}

} // verus!
