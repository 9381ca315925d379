use conic_launcher::error::Error;
use conic_launcher::folder::MinecraftLocation;
use conic_launcher::json::{Json, JsonMember};
use conic_launcher::named::{lookup_named, Named};
use conic_launcher::platform::{OsFamily, PlatformInfo};
use conic_launcher::version::argument::{resolve_argument, resolve_arguments};
use conic_launcher::version::checks::{check_allowed, check_features, check_os, check_os_given};
use conic_launcher::version::library::{
    coordinate_to_path, dedup_libraries, resolve_libraries, resolve_library, LibraryDownloadInfo,
    ResolvedLibrary,
};
use conic_launcher::version::model::{
    parse_version, Arguments, AssetIndex, Download, JavaVersion, MinecraftVersion, Version,
};
use conic_launcher::version::resolve::{
    default_game_args, default_jvm_args, parent_of, resolve_version,
};

fn text(s: &str) -> Json {
    Json::Text(s.to_string())
}

fn object(entries: Vec<(&str, Json)>) -> Json {
    Json::Object(
        entries
            .into_iter()
            .map(|(key, value)| JsonMember { key: key.to_string(), value })
            .collect(),
    )
}

fn platform(family: OsFamily, arch: &str, version: &str) -> PlatformInfo {
    PlatformInfo {
        arch: arch.to_string(),
        arch_from_uname: None,
        os_type: "test".to_string(),
        os_family: family,
        os_version: version.to_string(),
        edition: None,
    }
}

fn linux() -> PlatformInfo {
    platform(OsFamily::Linux, "x64", "6.1.0")
}

fn windows() -> PlatformInfo {
    platform(OsFamily::Windows, "x64", "10.0.19045")
}

fn blank_version(id: &str) -> Version {
    Version {
        id: id.to_string(),
        time: None,
        kind: None,
        release_time: None,
        inherits_from: None,
        minimum_launcher_version: None,
        minecraft_arguments: None,
        arguments: None,
        main_class: None,
        libraries: None,
        jar: None,
        asset_index: None,
        assets: None,
        downloads: None,
        client: None,
        server: None,
        logging: None,
        java_version: None,
        client_version: None,
    }
}

fn artifact_library(path: &str) -> Json {
    object(vec![(
        "downloads",
        object(vec![(
            "artifact",
            object(vec![
                ("url", text(&format!("https://libraries.minecraft.net/{path}"))),
                ("path", text(path)),
                ("sha1", text("abc")),
                ("size", Json::Number(Some(10))),
            ]),
        )]),
    )])
}

fn root_version(id: &str, launcher: i32) -> Version {
    let mut v = blank_version(id);
    v.minimum_launcher_version = Some(launcher);
    v.main_class = Some("net.minecraft.client.main.Main".to_string());
    v.assets = Some("17".to_string());
    v.asset_index = Some(AssetIndex {
        sha1: None,
        size: 1,
        url: "https://piston-meta.mojang.com/index.json".to_string(),
        id: "17".to_string(),
        total_size: 2,
    });
    v.downloads = Some(vec![Named {
        name: "client".to_string(),
        value: Download { sha1: "c0ffee".to_string(), size: 7, url: "https://x/client.jar".to_string() },
    }]);
    v.libraries = Some(vec![artifact_library("a/b/1/b-1.jar")]);
    v.arguments = Some(Arguments {
        game: Some(vec![text("--username"), text("${auth_player_name}")]),
        jvm: Some(vec![text("-cp"), text("${classpath}")]),
    });
    v
}

#[test]
fn rules_allow_then_disallow_linux() {
    let rules = vec![
        object(vec![("action", text("allow"))]),
        object(vec![("action", text("disallow")), ("os", object(vec![("name", text("linux"))]))]),
    ];
    assert!(!check_allowed(&rules, &linux(), &vec![]));
    assert!(check_allowed(&rules, &windows(), &vec![]));
}

#[test]
fn no_rules_allow_and_unmatched_rules_disallow() {
    assert!(check_allowed(&vec![], &linux(), &vec![]));
    let only_osx =
        vec![object(vec![("action", text("allow")), ("os", object(vec![("name", text("osx"))]))])];
    assert!(!check_allowed(&only_osx, &linux(), &vec![]));
    let no_action = vec![object(vec![("os", object(vec![("name", text("linux"))]))])];
    assert!(!check_allowed(&no_action, &linux(), &vec![]));
}

#[test]
fn os_rule_checks_arch_and_version_pattern() {
    let rule = object(vec![(
        "os",
        object(vec![("name", text("windows")), ("version", text("^10\\.")), ("arch", text("x64"))]),
    )]);
    assert!(check_os(&rule, &windows()));
    assert!(!check_os(&rule, &platform(OsFamily::Windows, "x86", "10.0.1")));
    assert!(!check_os(&rule, &platform(OsFamily::Windows, "x64", "6.1")));
    assert!(check_os_given(&rule, &windows(), true));
    assert!(!check_os_given(&rule, &windows(), false));
    let broken = object(vec![("os", object(vec![("version", text("(unclosed"))]))]);
    assert!(!check_os(&broken, &windows()));
    assert!(check_os(&object(vec![]), &windows()));
}

#[test]
fn the_pattern_is_matched_and_not_only_compared() {
    let rule = object(vec![("os", object(vec![("version", text("^1[0-9]\\.0"))]))]);
    assert!(check_os(&rule, &platform(OsFamily::Windows, "x64", "10.0.19045")));
    assert!(!check_os(&rule, &platform(OsFamily::Windows, "x64", "^1[0-9]\\.0")));
}

#[test]
fn feature_rules_need_enabled_true_features() {
    let rule = object(vec![("features", object(vec![("is_demo_user", Json::Bool(true))]))]);
    assert!(!check_features(&rule, &vec![]));
    assert!(check_features(&rule, &vec!["is_demo_user".to_string()]));
    let off = object(vec![("features", object(vec![("is_demo_user", Json::Bool(false))]))]);
    assert!(!check_features(&off, &vec!["is_demo_user".to_string()]));
    let two = object(vec![(
        "features",
        object(vec![("b", Json::Bool(true)), ("a", Json::Bool(true))]),
    )]);
    assert!(check_features(&two, &vec!["a".to_string(), "b".to_string()]));
    assert!(check_features(&object(vec![]), &vec![]));
}

#[test]
fn modloader_library_path_and_url() {
    let library = object(vec![
        ("name", text("net.fabricmc:tiny-mappings-parser:0.3.0+build.17")),
        ("url", text("https://maven.fabricmc.net/")),
    ]);
    let resolved = resolve_library(&library, &linux()).unwrap().unwrap();
    match resolved {
        ResolvedLibrary::Common(info) => {
            assert_eq!(
                info.path,
                "net/fabricmc/tiny-mappings-parser/0.3.0+build.17/tiny-mappings-parser-0.3.0+build.17.jar"
            );
            assert_eq!(
                info.url,
                "https://maven.fabricmc.net/net/fabricmc/tiny-mappings-parser/0.3.0+build.17/tiny-mappings-parser-0.3.0+build.17.jar"
            );
            assert!(info.sha1.is_none());
            assert!(info.size.is_none());
        }
        ResolvedLibrary::Native(_) => panic!("a coordinate is no native library"),
    }
}

#[test]
fn modloader_library_defaults_to_mojang_repository() {
    let library = object(vec![("name", text("org.ow2.asm:asm:9.6"))]);
    match resolve_library(&library, &linux()).unwrap().unwrap() {
        ResolvedLibrary::Common(info) => {
            assert_eq!(info.url, "https://libraries.minecraft.net/org/ow2/asm/asm/9.6/asm-9.6.jar");
        }
        ResolvedLibrary::Native(_) => panic!("a coordinate is no native library"),
    }
    assert_eq!(coordinate_to_path("a.b:c:1"), Some("a/b/c/1/c-1.jar".to_string()));
    assert_eq!(coordinate_to_path("a.b:c"), None);
    assert_eq!(coordinate_to_path("a:b:c:d"), None);
}

#[test]
fn bad_coordinate_is_invalid_version_json() {
    let no_name = object(vec![("url", text("https://maven.fabricmc.net/"))]);
    match resolve_library(&no_name, &linux()) {
        Err(Error::InvalidVersionJson(what)) => assert_eq!(what, "libraries"),
        _ => panic!("expected InvalidVersionJson"),
    }
    let two_parts = object(vec![("name", text("group:artifact"))]);
    assert!(matches!(resolve_library(&two_parts, &linux()), Err(Error::InvalidVersionJson(_))));
}

#[test]
fn malformed_artifact_is_invalid_version_json() {
    let library = object(vec![(
        "downloads",
        object(vec![("artifact", object(vec![("url", text("https://x/y.jar"))]))]),
    )]);
    match resolve_library(&library, &linux()) {
        Err(Error::InvalidVersionJson(what)) => assert_eq!(what, "downloads.artifact"),
        _ => panic!("expected InvalidVersionJson"),
    }
    let bad_size = object(vec![(
        "downloads",
        object(vec![(
            "artifact",
            object(vec![("url", text("u")), ("path", text("p")), ("size", text("12"))]),
        )]),
    )]);
    assert!(matches!(resolve_library(&bad_size, &linux()), Err(Error::InvalidVersionJson(_))));
}

#[test]
fn artifact_with_null_fields_resolves() {
    let library = object(vec![(
        "downloads",
        object(vec![(
            "artifact",
            object(vec![("url", text("u")), ("path", text("p")), ("sha1", Json::Null)]),
        )]),
    )]);
    match resolve_library(&library, &linux()).unwrap().unwrap() {
        ResolvedLibrary::Common(info) => {
            assert_eq!(info.url, "u");
            assert_eq!(info.path, "p");
            assert_eq!(info.sha1, None);
            assert_eq!(info.size, None);
        }
        ResolvedLibrary::Native(_) => panic!("an artifact is no native library"),
    }
}

#[test]
fn native_library_is_picked_by_os_family() {
    let library = object(vec![
        (
            "downloads",
            object(vec![
                (
                    "artifact",
                    object(vec![("url", text("https://x/lwjgl.jar")), ("path", text("lwjgl.jar"))]),
                ),
                (
                    "classifiers",
                    object(vec![
                        (
                            "natives-linux",
                            object(vec![
                                ("url", text("https://x/lwjgl-natives-linux.jar")),
                                ("path", text("lwjgl-natives-linux.jar")),
                                ("sha1", text("feed")),
                                ("size", Json::Number(Some(42))),
                            ]),
                        ),
                        (
                            "natives-windows",
                            object(vec![
                                ("url", text("https://x/lwjgl-natives-windows.jar")),
                                ("path", text("lwjgl-natives-windows.jar")),
                            ]),
                        ),
                    ]),
                ),
            ]),
        ),
        (
            "natives",
            object(vec![("linux", text("natives-linux")), ("windows", text("natives-windows"))]),
        ),
    ]);
    match resolve_library(&library, &linux()).unwrap().unwrap() {
        ResolvedLibrary::Native(info) => {
            assert_eq!(info.path, "lwjgl-natives-linux.jar");
            assert_eq!(info.sha1, Some("feed".to_string()));
            assert_eq!(info.size, Some(42));
        }
        ResolvedLibrary::Common(_) => panic!("expected the native archive"),
    }
    let mac = platform(OsFamily::Macos, "x64", "14");
    match resolve_library(&library, &mac).unwrap().unwrap() {
        ResolvedLibrary::Common(info) => assert_eq!(info.path, "lwjgl.jar"),
        ResolvedLibrary::Native(_) => panic!("macOS has no classifier here"),
    }
}

#[test]
fn disallowed_library_is_dropped() {
    let library = object(vec![
        ("name", text("a:b:1")),
        (
            "rules",
            Json::Array(vec![object(vec![
                ("action", text("allow")),
                ("os", object(vec![("name", text("windows"))])),
            ])]),
        ),
    ]);
    assert!(resolve_library(&library, &linux()).unwrap().is_none());
    assert!(resolve_library(&library, &windows()).unwrap().is_some());
    let libraries = vec![library, object(vec![("name", text("c:d:2"))])];
    assert_eq!(resolve_libraries(&libraries, &linux()).unwrap().len(), 1);
    assert_eq!(resolve_libraries(&libraries, &windows()).unwrap().len(), 2);
}

#[test]
fn arguments_resolve_literals_and_guarded_values() {
    let allow_linux = Json::Array(vec![object(vec![
        ("action", text("allow")),
        ("os", object(vec![("name", text("linux"))])),
    ])]);
    let guarded_list = object(vec![
        ("rules", allow_linux),
        ("value", Json::Array(vec![text("-Da"), text("-Db")])),
    ]);
    let feature_rule = Json::Array(vec![object(vec![
        ("action", text("allow")),
        ("features", object(vec![("has_custom_resolution", Json::Bool(true))])),
    ])]);
    let guarded_text = object(vec![("rules", feature_rule), ("value", text("--width"))]);
    let arguments = vec![text("-Xss1M"), guarded_list, guarded_text];
    assert_eq!(resolve_arguments(&arguments, &linux(), &vec![]), vec!["-Xss1M", "-Da", "-Db"]);
    assert_eq!(resolve_arguments(&arguments, &windows(), &vec![]), vec!["-Xss1M"]);
    assert_eq!(
        resolve_arguments(&arguments, &windows(), &vec!["has_custom_resolution".to_string()]),
        vec!["-Xss1M", "--width"]
    );
    let mixed = object(vec![
        ("rules", Json::Array(vec![])),
        ("value", Json::Array(vec![text("a"), Json::Bool(true)])),
    ]);
    assert!(resolve_argument(&mixed, &linux(), &vec![]).is_empty());
    assert!(resolve_argument(&object(vec![("value", text("x"))]), &linux(), &vec![]).is_empty());
    assert!(resolve_argument(&Json::Null, &linux(), &vec![]).is_empty());
}

#[test]
fn resolved_version_has_required_parts() {
    let location = MinecraftLocation::new("/data", OsFamily::Linux);
    let resolved =
        resolve_version(vec![root_version("1.20.1", 21)], &location, &linux(), &vec![]).unwrap();
    assert_eq!(resolved.id, "1.20.1");
    assert!(lookup_named(&resolved.downloads, "client").is_some());
    assert!(resolved.asset_index.is_some());
    assert!(!resolved.libraries.is_empty());
    assert!(!resolved.jvm_arguments.is_empty());
    assert_eq!(resolved.java_version.component, "jre-legacy");
    assert_eq!(resolved.java_version.major_version, 8);
    assert_eq!(resolved.jvm_arguments, vec!["-cp", "${classpath}"]);
    assert_eq!(resolved.game_arguments, vec!["--username", "${auth_player_name}"]);
    assert_eq!(resolved.minimum_launcher_version, 21);
    assert!(resolved.inheritances.is_empty());
}

#[test]
fn old_launcher_version_gets_legacy_arguments() {
    let location = MinecraftLocation::new("/data", OsFamily::Linux);
    let resolved =
        resolve_version(vec![root_version("1.12.2", 18)], &location, &linux(), &vec![]).unwrap();
    assert_eq!(resolved.jvm_arguments, default_jvm_args());
    assert_eq!(resolved.game_arguments, default_game_args());
    assert_eq!(resolved.jvm_arguments.len(), 16);
    assert_eq!(resolved.jvm_arguments[0], "\"-Djava.library.path=${natives_directory}\"");
    assert_eq!(resolved.jvm_arguments[14], "-cp");
    assert_eq!(resolved.jvm_arguments[15], "${classpath}");
    assert_eq!(resolved.game_arguments.len(), 26);
    assert_eq!(resolved.game_arguments[0], "--username");
    assert_eq!(resolved.game_arguments[25], "${resolution_height}");
}

#[test]
fn child_overrides_parent_and_libraries_follow_the_root() {
    let location = MinecraftLocation::new("/data", OsFamily::Linux);
    let mut child = blank_version("fabric-loader-0.15-1.20.1");
    child.inherits_from = Some("1.20.1".to_string());
    child.main_class = Some("net.fabricmc.loader.Main".to_string());
    child.libraries = Some(vec![object(vec![
        ("name", text("net.fabricmc:fabric-loader:0.15")),
        ("url", text("https://maven.fabricmc.net/")),
    ])]);
    child.arguments = Some(Arguments { game: None, jvm: Some(vec![text("-DFabric=1")]) });
    child.java_version =
        Some(JavaVersion { component: "java-runtime-gamma".to_string(), major_version: 17 });
    let parent = parent_of(&child, &location);
    assert_eq!(
        parent,
        Some(("1.20.1".to_string(), "/data/versions/1.20.1/1.20.1.json".to_string()))
    );
    let resolved =
        resolve_version(vec![child, root_version("1.20.1", 21)], &location, &linux(), &vec![])
            .unwrap();
    assert_eq!(resolved.id, "fabric-loader-0.15-1.20.1");
    assert_eq!(resolved.main_class, Some("net.fabricmc.loader.Main".to_string()));
    assert_eq!(resolved.inheritances, vec!["1.20.1"]);
    assert_eq!(resolved.path_chain, vec!["/data/versions/1.20.1/1.20.1.json"]);
    assert_eq!(resolved.jvm_arguments, vec!["-cp", "${classpath}", "-DFabric=1"]);
    assert_eq!(resolved.java_version.major_version, 17);
    assert_eq!(resolved.libraries.len(), 2);
    match &resolved.libraries[0] {
        ResolvedLibrary::Common(info) => assert_eq!(info.path, "a/b/1/b-1.jar"),
        ResolvedLibrary::Native(_) => panic!("expected a jar"),
    }
    match &resolved.libraries[1] {
        ResolvedLibrary::Common(info) => {
            assert_eq!(info.path, "net/fabricmc/fabric-loader/0.15/fabric-loader-0.15.jar")
        }
        ResolvedLibrary::Native(_) => panic!("expected a jar"),
    }
    assert_eq!(resolved.assets, Some("17".to_string()));
}

#[test]
fn missing_parts_are_reported_by_name() {
    let location = MinecraftLocation::new("/data", OsFamily::Linux);
    let check = |version: Version, part: &str| {
        match resolve_version(vec![version], &location, &linux(), &vec![]) {
            Err(Error::InvalidVersionJson(what)) => assert_eq!(what, part),
            _ => panic!("expected InvalidVersionJson({part})"),
        }
    };
    check(root_version("", 21), "id");
    let mut v = root_version("x", 21);
    v.downloads = None;
    check(v, "downloads.client");
    let mut v = root_version("x", 21);
    v.asset_index = None;
    check(v, "assetIndex");
    let mut v = root_version("x", 21);
    v.libraries = None;
    check(v, "libraries");
    let mut v = root_version("x", 21);
    v.arguments = None;
    check(v, "arguments.jvm");
    let mut v = root_version("x", 21);
    v.java_version = Some(JavaVersion { component: String::new(), major_version: 8 });
    check(v, "javaVersion.component");
    assert!(matches!(
        resolve_version(vec![], &location, &linux(), &vec![]),
        Err(Error::InvalidVersionJson(_))
    ));
}

#[test]
fn library_failure_wins_over_missing_parts() {
    let location = MinecraftLocation::new("/data", OsFamily::Linux);
    let mut v = root_version("", 21);
    v.libraries = Some(vec![object(vec![("name", text("broken"))])]);
    match resolve_version(vec![v], &location, &linux(), &vec![]) {
        Err(Error::InvalidVersionJson(what)) => assert_eq!(what, "libraries"),
        _ => panic!("expected the library failure"),
    }
}

#[test]
fn minecraft_versions_parse() {
    assert!(matches!(parse_version("1.20.1"), Ok(MinecraftVersion::Release(1, 20, Some(1)))));
    assert!(matches!(parse_version("1.21"), Ok(MinecraftVersion::Release(1, 21, None))));
    match parse_version("23w13a") {
        Ok(MinecraftVersion::Snapshot(23, 13, rest)) => assert_eq!(rest, "a"),
        _ => panic!("expected a snapshot"),
    }
    match parse_version("b1") {
        Ok(MinecraftVersion::Unknown(name)) => assert_eq!(name, "b1"),
        _ => panic!("expected a name"),
    }
    assert!(matches!(parse_version("1.x"), Err(Error::InvalidMinecraftVersion)));
    assert!(matches!(parse_version("1.300"), Err(Error::InvalidMinecraftVersion)));
    assert!(matches!(parse_version("23w1"), Err(Error::InvalidMinecraftVersion)));
    assert!(matches!(parse_version("1.2.z"), Err(Error::InvalidMinecraftVersion)));
}

#[test]
fn a_child_library_shadows_the_same_library_of_its_parent() {
    let location = MinecraftLocation::new("/data", OsFamily::Linux);
    let mut root = root_version("1.20.1", 21);
    root.libraries = Some(vec![
        artifact_library("org/ow2/asm/asm/9.6/asm-9.6.jar"),
        artifact_library("a/b/1/b-1.jar"),
    ]);
    let mut child = blank_version("loader");
    child.inherits_from = Some("1.20.1".to_string());
    child.libraries = Some(vec![
        object(vec![("name", text("c:d:2"))]),
        object(vec![("name", text("org.ow2.asm:asm:9.6")), ("url", text("https://maven.example/"))]),
    ]);
    let resolved = resolve_version(vec![child, root], &location, &linux(), &vec![]).unwrap();
    let paths: Vec<(String, String)> = resolved
        .libraries
        .iter()
        .map(|library| match library {
            ResolvedLibrary::Common(info) => (info.path.clone(), info.url.clone()),
            ResolvedLibrary::Native(info) => (info.path.clone(), info.url.clone()),
        })
        .collect();
    assert_eq!(
        paths,
        vec![
            (
                "a/b/1/b-1.jar".to_string(),
                "https://libraries.minecraft.net/a/b/1/b-1.jar".to_string()
            ),
            ("c/d/2/d-2.jar".to_string(), "https://libraries.minecraft.net/c/d/2/d-2.jar".to_string()),
            (
                "org/ow2/asm/asm/9.6/asm-9.6.jar".to_string(),
                "https://maven.example/org/ow2/asm/asm/9.6/asm-9.6.jar".to_string()
            ),
        ]
    );
}

#[test]
fn only_the_last_of_the_same_files_stays() {
    let info = |path: &str, url: &str| LibraryDownloadInfo {
        sha1: None,
        size: None,
        url: url.to_string(),
        path: path.to_string(),
    };
    let libraries = vec![
        ResolvedLibrary::Common(info("x.jar", "1")),
        ResolvedLibrary::Native(info("x.jar", "2")),
        ResolvedLibrary::Common(info("y.jar", "3")),
        ResolvedLibrary::Common(info("x.jar", "4")),
        ResolvedLibrary::Common(info("y.jar", "5")),
    ];
    let urls: Vec<String> = dedup_libraries(&libraries)
        .iter()
        .map(|library| match library {
            ResolvedLibrary::Common(info) => info.url.clone(),
            ResolvedLibrary::Native(info) => info.url.clone(),
        })
        .collect();
    assert_eq!(urls, vec!["4", "5"]);
    assert!(dedup_libraries(&vec![]).is_empty());
}
