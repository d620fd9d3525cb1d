use lbug::engine::link::{
    homebrew_dirs, link_dependencies, link_engine, link_mode, link_openssl, system_dirs, LinkMode,
    OpensslFound, Platform, SearchDir,
};
use lbug::engine::prebuilt::{
    download_warning, emit_lbug_metadata, external_library_lines, prebuilt_cache_key,
    prebuilt_decision, prebuilt_place, prebuilt_source_desc, static_lbug_file_name,
    PrebuiltDecision, PrebuiltPlace, ScriptRun,
};
use lbug::engine::source::{
    defines, flags, get_lbug_root, source_archive_url, Define, FfiSetting, SourceCandidates,
    SourceRoot,
};
use lbug::engine::symbols::{should_localize, tool_warning, visible_symbols, Tool};
use lbug::engine::{prebuilt, source};

#[test]
fn cache_keys_are_cleaned() {
    assert_eq!(prebuilt_cache_key(None, None), "latest");
    assert_eq!(prebuilt_cache_key(None, Some("v0.20.1")), "version-v0.20.1");
    assert_eq!(prebuilt_cache_key(Some("17"), Some("v0.20.1")), "run-17");
    assert_eq!(prebuilt_cache_key(Some("../a b/\u{e9}"), None), "run-..-a-b--");
    assert_eq!(prebuilt_cache_key(None, Some("az_AZ-09.")), "version-az_AZ-09.");
}

#[test]
fn sources_are_described() {
    assert_eq!(prebuilt_source_desc(None, None, None), "release:LadybugDB/ladybug/latest");
    assert_eq!(prebuilt_source_desc(None, None, Some("0.20")), "release:LadybugDB/ladybug/v0.20");
    assert_eq!(prebuilt_source_desc(None, None, Some("v0.20")), "release:LadybugDB/ladybug/v0.20");
    assert_eq!(prebuilt_source_desc(None, None, Some("vv1")), "release:LadybugDB/ladybug/vv1");
    assert_eq!(prebuilt_source_desc(None, None, Some("")), "release:LadybugDB/ladybug/v");
    assert_eq!(prebuilt_source_desc(Some("me/fork"), Some("12"), Some("1")), "run:me/fork/12");
}

#[test]
fn metadata_lines() {
    assert_eq!(
        emit_lbug_metadata("source", ""),
        [
            "cargo:rustc-env=LBUG_PRECOMPILED_SOURCE=source",
            "cargo:rustc-env=LBUG_PRECOMPILED_LIBRARY_DIR="
        ]
    );
    assert_eq!(
        external_library_lines("/opt/lbug"),
        [
            "cargo:rustc-link-search=native=/opt/lbug",
            "cargo:rustc-link-arg=-Wl,-rpath,/opt/lbug",
            "cargo:rustc-env=LBUG_PRECOMPILED_SOURCE=external",
            "cargo:rustc-env=LBUG_PRECOMPILED_LIBRARY_DIR=/opt/lbug"
        ]
    );
    assert_eq!(static_lbug_file_name(true), "lbug.lib");
    assert_eq!(static_lbug_file_name(false), "liblbug.a");
}

#[test]
fn prebuilt_archives_are_for_static_linking() {
    assert_eq!(prebuilt_decision(LinkMode::Dylib, false), PrebuiltDecision::Skip(None));
    assert_eq!(prebuilt_decision(LinkMode::Dylib, true), PrebuiltDecision::Skip(None));
    assert_eq!(prebuilt_decision(LinkMode::Static, false), PrebuiltDecision::Look);
    assert_eq!(
        prebuilt_decision(LinkMode::Static, true),
        PrebuiltDecision::Skip(Some(
            "cargo:warning=Skipping prebuilt liblbug because source build was requested"
                .to_string()
        ))
    );
}

#[test]
fn download_ends() {
    let exited = |success| ScriptRun::Exited { success, status: "exit status: 3".to_string() };
    let failed =
        "cargo:warning=Prebuilt liblbug download failed with status exit status: 3; building from source";
    assert_eq!(download_warning(exited(true), true), None);
    assert_eq!(download_warning(exited(true), false), Some(failed.to_string()));
    assert_eq!(download_warning(exited(false), true), Some(failed.to_string()));
    assert_eq!(
        download_warning(ScriptRun::NotStarted { reason: "no sh".to_string() }, true),
        Some(
            "cargo:warning=Could not run prebuilt liblbug downloader (no sh); building from source"
                .to_string()
        )
    );
}

#[test]
fn watched_variables_in_order() {
    let lines = prebuilt::rerun_lines();
    assert_eq!(lines.len(), 9);
    assert_eq!(lines[0], "cargo:rerun-if-env-changed=LBUG_PRECOMPILED_RUN_ID");
    assert_eq!(lines[8], "cargo:rerun-if-env-changed=LBUG_LOCALIZE_BUNDLED_SYMBOLS");
}

#[test]
fn visible_symbols_of_a_listing() {
    let listing = "ZSTD_compress T 0000 0010\n\
                   _ZN4lbug4main8DatabaseE T 0010 0020\n\
                   lbug_database_init T 0030 0010\r\n\
                   DW.ref.__gxx_personality_v0 V 0040 0008\n\
                   table D 0 1\n\
                   zeros B 0 1\n\
                   constants R 0 1\n\
                   weak_helper W 0 1\n\
                   \n\
                   unparsable\n \
                   T 0 0\n\
                   last U";
    assert_eq!(
        visible_symbols(listing),
        "_ZN4lbug4main8DatabaseE\nlbug_database_init\nDW.ref.__gxx_personality_v0\nweak_helper\nlast"
    );
}

#[test]
fn visible_symbols_at_the_edges() {
    assert_eq!(visible_symbols(""), "");
    assert_eq!(visible_symbols("\n\n"), "");
    assert_eq!(visible_symbols("a"), "");
    assert_eq!(visible_symbols("a W"), "a");
    assert_eq!(visible_symbols("a W\n"), "a");
    assert_eq!(visible_symbols("a T\r\n"), "");
    assert_eq!(visible_symbols("a T\r"), "a");
    assert_eq!(visible_symbols("a \nb  T\n"), "a\nb");
    assert_eq!(visible_symbols("_ T\n_Z T\nlbug T\nlbug_ T"), "_Z\nlbug_");
    assert_eq!(visible_symbols("a TT\nb t\n\u{e9} D\n\u{e9} W"), "a\nb\n\u{e9}");
}

#[test]
fn localizing_is_opt_in() {
    assert!(should_localize(Some("1"), true, LinkMode::Static));
    assert!(should_localize(Some("00"), true, LinkMode::Static));
    assert!(!should_localize(Some("0"), true, LinkMode::Static));
    assert!(!should_localize(Some(""), true, LinkMode::Static));
    assert!(!should_localize(None, true, LinkMode::Static));
    assert!(!should_localize(Some("1"), false, LinkMode::Static));
    assert!(!should_localize(Some("1"), true, LinkMode::Dylib));
}

#[test]
fn tool_ends() {
    let exited = |success| ScriptRun::Exited { success, status: String::new() };
    let missing = || ScriptRun::NotStarted { reason: "not found".to_string() };
    for tool in [Tool::Ld, Tool::Nm, Tool::Objcopy, Tool::Ar] {
        assert_eq!(tool_warning(tool, exited(true)), None);
        assert_eq!(
            tool_warning(tool, exited(false)),
            Some(format!(
                "cargo:warning={} failed while localizing liblbug symbols; linking it as downloaded",
                tool.command()
            ))
        );
    }
    assert_eq!(
        tool_warning(Tool::Ld, missing()),
        Some("cargo:warning=Cannot run ld (not found); linking liblbug as downloaded".to_string())
    );
    assert_eq!(
        tool_warning(Tool::Objcopy, missing()),
        Some(
            "cargo:warning=objcopy failed while localizing liblbug symbols; linking it as downloaded"
                .to_string()
        )
    );
}

#[test]
fn link_directives() {
    assert_eq!(link_mode(true), LinkMode::Dylib);
    assert_eq!(link_mode(false), LinkMode::Static);
    assert_eq!(
        link_engine(Platform::OtherUnix, LinkMode::Static, true),
        [
            "cargo:rustc-link-arg=-rdynamic",
            "cargo:rustc-link-lib=static:+whole-archive=lbug",
            "cargo:rustc-link-lib=dylib=stdc++"
        ]
    );
    assert_eq!(
        link_engine(Platform::MacOs, LinkMode::Static, false),
        [
            "cargo:rustc-link-arg=-rdynamic",
            "cargo:rustc-link-lib=static=lbug",
            "cargo:rustc-link-lib=dylib=c++"
        ]
    );
    let windows = link_engine(Platform::Windows, LinkMode::Static, true);
    assert_eq!(windows.len(), 8);
    assert_eq!(windows[0], "cargo:rustc-link-lib=static:+whole-archive=lbug");
    assert_eq!(windows[7], "cargo:rustc-link-lib=dylib=ws2_32");
    assert_eq!(
        link_engine(Platform::Windows, LinkMode::Dylib, true),
        ["cargo:rustc-link-lib=dylib=lbug_shared"]
    );
    assert_eq!(
        link_engine(Platform::OtherUnix, LinkMode::Dylib, false),
        ["cargo:rustc-link-lib=dylib=lbug"]
    );
}

#[test]
fn dependency_directives_for_a_static_engine() {
    assert_eq!(
        link_dependencies(Platform::OtherUnix, LinkMode::Static, true, false),
        ["cargo:rustc-link-lib=dylib=ssl", "cargo:rustc-link-lib=dylib=crypto"]
    );
    assert_eq!(
        link_dependencies(Platform::Windows, LinkMode::Static, true, false),
        ["cargo:rustc-link-lib=dylib=libssl", "cargo:rustc-link-lib=dylib=libcrypto"]
    );
    let bundled = link_dependencies(Platform::MacOs, LinkMode::Static, false, true);
    assert_eq!(bundled.len(), 19);
    assert_eq!(bundled[2], "cargo:rustc-link-lib=static=utf8proc");
    assert_eq!(bundled[18], "cargo:rustc-link-lib=static=yyjson");
    assert!(link_dependencies(Platform::MacOs, LinkMode::Dylib, false, true).is_empty());
}

#[test]
fn openssl_directives() {
    let by_variable = |lib_is_dir| OpensslFound::ByVariable {
        root: "/ssl".to_string(),
        lib: "/ssl/lib".to_string(),
        lib_is_dir,
    };
    assert_eq!(link_openssl(by_variable(true)), ["cargo:rustc-link-search=native=/ssl/lib"]);
    assert_eq!(link_openssl(by_variable(false)), ["cargo:rustc-link-search=native=/ssl"]);
    assert!(link_openssl(OpensslFound::ByPackageManager).is_empty());
    let dir = |path: &str, stands| SearchDir { path: path.to_string(), stands };
    let search = |pkg_config, homebrew, system| {
        link_openssl(OpensslFound::BySearch {
            reason: "no root".to_string(),
            pkg_config,
            homebrew,
            system,
        })
    };
    assert_eq!(
        search(
            Some(dir("/pc", true)),
            vec![dir("/h1", false), dir("/h2", true), dir("/h3", true)],
            vec![dir("/s1", true), dir("/s2", false), dir("/s3", true)],
        ),
        [
            "cargo:warning=vcpkg did not find openssl: no root",
            "cargo:rustc-link-search=native=/pc",
            "cargo:rustc-link-search=native=/h2",
            "cargo:rustc-link-search=native=/s1",
            "cargo:rustc-link-search=native=/s3"
        ]
    );
    for pkg_config in [None, Some(dir("", true)), Some(dir("/pc", false))] {
        assert_eq!(
            search(pkg_config, Vec::new(), Vec::new()),
            ["cargo:warning=vcpkg did not find openssl: no root"]
        );
    }
    assert!(homebrew_dirs(Platform::OtherUnix).is_empty());
    assert_eq!(
        homebrew_dirs(Platform::MacOs),
        ["/opt/homebrew/opt/openssl/lib", "/usr/local/opt/openssl/lib"]
    );
    assert!(system_dirs(Platform::Windows).is_empty());
    assert_eq!(
        system_dirs(Platform::MacOs),
        ["/usr/lib", "/usr/local/lib", "/usr/lib/x86_64-linux-gnu"]
    );
}

#[test]
fn in_tree_archive_is_still_used() {
    assert_eq!(prebuilt_place(true, true), PrebuiltPlace::InTree);
    assert_eq!(prebuilt_place(true, false), PrebuiltPlace::InTree);
    assert_eq!(prebuilt_place(false, true), PrebuiltPlace::Shared);
    assert_eq!(prebuilt_place(false, false), PrebuiltPlace::BuildOutput);
}

#[test]
fn first_source_tree_wins() {
    let none = SourceCandidates { named: false, sibling: false, bundled: false, enclosing: false };
    let unix = Platform::OtherUnix;
    assert_eq!(get_lbug_root(none, unix), SourceRoot::Downloaded);
    let enclosing = SourceCandidates { enclosing: true, ..none };
    assert_eq!(get_lbug_root(enclosing, unix), SourceRoot::Downloaded);
    assert_eq!(get_lbug_root(enclosing, Platform::Windows), SourceRoot::Enclosing);
    let bundled = SourceCandidates { bundled: true, ..enclosing };
    assert_eq!(get_lbug_root(bundled, Platform::Windows), SourceRoot::Bundled);
    let sibling = SourceCandidates { sibling: true, ..bundled };
    assert_eq!(get_lbug_root(sibling, unix), SourceRoot::Sibling);
    let named = SourceCandidates { named: true, ..sibling };
    assert_eq!(get_lbug_root(named, unix), SourceRoot::Named);
}

#[test]
fn source_archives() {
    let base = "https://github.com/LadybugDB/ladybug/archive/refs";
    assert_eq!(source_archive_url(None), format!("{base}/heads/main.tar.gz"));
    assert_eq!(source_archive_url(Some("main")), format!("{base}/heads/main.tar.gz"));
    assert_eq!(source_archive_url(Some("v0.20")), format!("{base}/tags/v0.20.tar.gz"));
    assert_eq!(source_archive_url(Some("0.20")), format!("{base}/tags/v0.20.tar.gz"));
    assert_eq!(source_archive_url(Some("mainline")), format!("{base}/tags/vmainline.tar.gz"));
}

#[test]
fn bindings_are_compiled_for_their_setting() {
    let setting = FfiSetting {
        bridge_file: "src/ffi.rs",
        source_file: "src/lbug_rs.cpp",
        profile: "release",
        bundled: false,
        arrow: false,
        mode: LinkMode::Dylib,
        platform: Platform::OtherUnix,
    };
    assert!(defines(setting).is_empty());
    assert_eq!(
        source::rerun_lines(setting),
        [
            "cargo:rerun-if-env-changed=LBUG_SHARED",
            "cargo:rerun-if-changed=include/lbug_rs.h",
            "cargo:rerun-if-changed=src/lbug_rs.cpp",
            "cargo:rerun-if-changed=src/ffi.rs",
            "cargo:rerun-if-changed=src/lbug_rs.cpp"
        ]
    );
    let full = FfiSetting {
        profile: "relwithdebinfo",
        bundled: true,
        arrow: true,
        mode: LinkMode::Static,
        ..setting
    };
    assert_eq!(defines(full), [Define::Bundled, Define::RuntimeChecks, Define::Static]);
    let lines = source::rerun_lines(full);
    assert_eq!(lines.len(), 11);
    assert_eq!(lines[5], "cargo:rerun-if-changed=include/lbug_arrow.h");
    assert_eq!(lines[10], "cargo:rerun-if-changed=lbug-src/tools/CMakeLists.txt");
    assert_eq!(defines(FfiSetting { profile: "debug", ..setting }), [Define::RuntimeChecks]);
    assert_eq!(Define::RuntimeChecks.name(), "ENABLE_RUNTIME_CHECKS");
    assert_eq!(Define::RuntimeChecks.value(), Some("1"));
    assert_eq!(Define::Bundled.name(), "LBUG_BUNDLED");
    assert_eq!(Define::Static.name(), "LBUG_STATIC_DEFINE");
    assert_eq!(Define::Static.value(), None);
    assert_eq!(flags(Platform::Windows), ["/std:c++20", "/MD"]);
    assert_eq!(flags(Platform::MacOs), ["-std=c++2a"]);
}
