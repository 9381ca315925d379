use conic_launcher::config::instance::{InstanceRuntime, ModLoaderType};
use conic_launcher::download::model::{Checksum, DownloadTask, DownloadType};
use conic_launcher::download::task::{Progress, Step};
use conic_launcher::error::Error;
use conic_launcher::folder::MinecraftLocation;
use conic_launcher::install::authlib_injector::{install_latest, latest_url};
use conic_launcher::install::forge;
use conic_launcher::install::java::{
    executable_mode, generate_downloads, group_install, java_platform, java_runtime_list_url,
    post_install_actions, Availability, JavaFileDownloads, JavaFileInfo, JavaFileRaw,
    JavaPlatform, JavaRuntimeInfo, JavaVersionName, ManifestDownloadInfo, MojangJavaVersionList,
    PostInstallAction,
};
use conic_launcher::install::neoforged::{version_fits, NeoforgedVersionList};
use conic_launcher::install::pipeline::{
    aborted, begin_install, cache_is_fresh, event_of, install_marker_contents,
    install_marker_path, install_mod_loader, java_directory, next_step, InstallEvent, InstallStep,
};
use conic_launcher::install::vanilla::{
    generate_assets_downloads, generate_client_download_task, generate_download_info,
    generate_libraries_downloads, get_version_json, override_log4j2_configuration_file,
    version_manifest_url, LatestVersion, VersionInfo, VersionManifest,
};
use conic_launcher::json::{Json, JsonMember};
use conic_launcher::named::Named;
use conic_launcher::platform::{OsFamily, PlatformInfo};
use conic_launcher::version::library::{LibraryDownloadInfo, ResolvedLibrary};
use conic_launcher::version::model::{AssetIndex, AssetIndexObjectInfo, Download};
use conic_launcher::version::resolve::ResolvedVersion;

fn platform(family: OsFamily, arch: &str) -> PlatformInfo {
    PlatformInfo {
        arch: arch.to_string(),
        arch_from_uname: None,
        os_type: "test".to_string(),
        os_family: family,
        os_version: "1".to_string(),
        edition: None,
    }
}

fn resolved() -> ResolvedVersion {
    let mut v = ResolvedVersion::new();
    v.id = "1.20.1".to_string();
    v.downloads = vec![Named {
        name: "client".to_string(),
        value: Download { sha1: "c0ffee".to_string(), size: 77, url: "https://ignored".to_string() },
    }];
    v.asset_index = Some(AssetIndex {
        sha1: None,
        size: 1,
        url: "https://piston-meta.mojang.com/v1/packages/x/5.json".to_string(),
        id: "5".to_string(),
        total_size: 9,
    });
    v.libraries = vec![
        ResolvedLibrary::Common(LibraryDownloadInfo {
            sha1: Some("aa".to_string()),
            size: Some(5),
            url: "https://libraries.minecraft.net/a/a.jar".to_string(),
            path: "a/a.jar".to_string(),
        }),
        ResolvedLibrary::Native(LibraryDownloadInfo {
            sha1: None,
            size: None,
            url: "https://libraries.minecraft.net/n/n.jar".to_string(),
            path: "n/n.jar".to_string(),
        }),
    ];
    v
}

fn sha1_of(task: &DownloadTask) -> Option<String> {
    match &task.checksum {
        Checksum::Sha1(h) => Some(h.clone()),
        _ => None,
    }
}

#[test]
fn neoforged_versions_are_filtered_by_minecraft_version() {
    assert!(version_fits("20.1.7", "1.20.1"));
    assert!(!version_fits("20.2.0", "1.20.1"));
    assert!(version_fits("21.0.5", "1.21"));
    assert!(!version_fits("21.1.5", "1.21"));
    assert!(!version_fits("20.1.7", "1.21"));
    assert!(!version_fits("20.1.7", "1"));
    assert!(version_fits("21", "1.21"));
    let list = NeoforgedVersionList {
        is_snapshot: false,
        versions: vec![
            "20.1.7".to_string(),
            "20.2.0".to_string(),
            "20.1.9-beta".to_string(),
            "21.0.1".to_string(),
        ],
    };
    assert_eq!(list.from_mcversion("1.20.1"), vec!["20.1.9-beta", "20.1.7"]);
    assert_eq!(list.from_mcversion("1.21"), vec!["21.0.1"]);
    assert!(list.from_mcversion("1.19.4").is_empty());
    assert_eq!(
        conic_launcher::install::neoforged::version_list_url(),
        "https://maven.neoforged.net/api/maven/versions/releases/net/neoforged/neoforge"
    );
    assert_eq!(
        conic_launcher::install::neoforged::download_installer("20.1.7"),
        "https://maven.neoforged.net/releases/net/neoforged/neoforge/20.1.7/neoforge-20.1.7-installer.jar"
    );
    assert_eq!(
        conic_launcher::install::neoforged::installer_arguments("/t/i.jar", "/data"),
        vec!["-jar", "/t/i.jar", "--installClient", "/data"]
    );
    assert!(conic_launcher::install::neoforged::reports_success(
        "x\nSuccessfully installed client into launcher.\n"
    ));
    assert!(!conic_launcher::install::neoforged::reports_success("failed"));
    assert!(conic_launcher::install::neoforged::install(true, true).is_ok());
    assert!(matches!(
        conic_launcher::install::neoforged::install(false, true),
        Err(Error::NeoforgedInstallerFailed)
    ));
    assert!(matches!(
        conic_launcher::install::neoforged::install(true, false),
        Err(Error::NeoforgedInstallerFailed)
    ));
}

#[test]
fn forge_installer_runs_with_bootstrap_from_25() {
    assert_eq!(forge::uses_bootstrapper("47.1.0").unwrap(), true);
    assert_eq!(forge::uses_bootstrapper("25.0.0").unwrap(), true);
    assert_eq!(forge::uses_bootstrapper("24.9").unwrap(), false);
    assert_eq!(forge::uses_bootstrapper("14").unwrap(), false);
    assert!(matches!(forge::uses_bootstrapper("x.1"), Err(Error::InvalidForgeVersion)));
    assert!(matches!(forge::uses_bootstrapper(""), Err(Error::InvalidForgeVersion)));
    assert_eq!(
        forge::download_installer("1.20.1", "47.1.0"),
        "https://maven.minecraftforge.net/net/minecraftforge/forge/1.20.1-47.1.0/forge-1.20.1-47.1.0-installer.jar"
    );
    assert_eq!(forge::version_list_url("1.20.1"), "https://bmclapi2.bangbang93.com/forge/minecraft/1.20.1");
    assert_eq!(
        forge::installer_arguments(Some("/t/boot.jar"), "/t/i.jar", "/data", ":"),
        vec!["-cp", "/t/boot.jar:/t/i.jar", "com.bangbang93.ForgeInstaller", "/data"]
    );
    assert_eq!(
        forge::installer_arguments(None, "/t/i.jar", "/data", ";"),
        vec!["-jar", "/t/i.jar", "--installClient", "/data"]
    );
    assert!(forge::reports_success("log\ntrue\n"));
    assert!(!forge::reports_success("log\ntrue"));
    assert!(forge::reports_success("true\n"));
    assert!(!forge::reports_success("untrue\n"));
    assert!(!forge::reports_success(""));
    assert!(forge::install(true, true, true).is_ok());
    assert!(forge::install(false, false, true).is_ok());
    assert!(matches!(forge::install(false, true, true), Err(Error::ForgeInstallerFailed)));
    assert!(matches!(forge::install(true, true, false), Err(Error::ForgeInstallerFailed)));
    assert!(matches!(forge::install(true, false, false), Err(Error::ForgeInstallerFailed)));
}

#[test]
fn fabric_and_quilt_descriptors() {
    let location = MinecraftLocation::new("/data", OsFamily::Linux);
    assert_eq!(
        conic_launcher::install::fabric::profile_url("1.20.1", "0.14.21"),
        "https://meta.fabricmc.net/v2/versions/loader/1.20.1/0.14.21/profile/json"
    );
    assert_eq!(
        conic_launcher::install::fabric::loader_list_url("1.20.1"),
        "https://meta.fabricmc.net/v2/versions/loader/1.20.1"
    );
    assert_eq!(
        conic_launcher::install::fabric::install("fabric-loader-0.14.21-1.20.1", &location),
        "/data/versions/fabric-loader-0.14.21-1.20.1/fabric-loader-0.14.21-1.20.1.json"
    );
    assert_eq!(
        conic_launcher::install::quilt::profile_url("1.20.1", "0.20.0"),
        "https://meta.quiltmc.org/v3/versions/loader/1.20.1/0.20.0/profile/json"
    );
    assert_eq!(
        conic_launcher::install::quilt::loader_list_url("1.20.1"),
        "https://meta.quiltmc.org/v3/versions/loader/1.20.1"
    );
    assert_eq!(
        conic_launcher::install::quilt::install("quilt-loader-0.20.0-1.20.1", &location),
        "/data/versions/quilt-loader-0.20.0-1.20.1/quilt-loader-0.20.0-1.20.1.json"
    );
}

#[test]
fn the_manifest_entry_of_a_version() {
    let entry = |id: &str, url: &str| VersionInfo {
        id: id.to_string(),
        kind: "release".to_string(),
        url: url.to_string(),
        time: String::new(),
        release_time: String::new(),
        sha1: String::new(),
        compliance_level: 1,
    };
    let manifest = VersionManifest {
        latest: LatestVersion { release: "1.21".to_string(), snapshot: "24w01a".to_string() },
        versions: vec![entry("1.21", "u1"), entry("1.20.1", "u2"), entry("1.20.1", "u3")],
    };
    assert_eq!(get_version_json(&manifest, "1.20.1").unwrap().url, "u2");
    assert_eq!(get_version_json(&manifest, "1.21").unwrap().url, "u1");
    assert!(matches!(get_version_json(&manifest, "1.0"), Err(Error::VersionMetadataNotfound)));
    assert_eq!(
        version_manifest_url(),
        "https://piston-meta.mojang.com/mc/game/version_manifest_v2.json"
    );
}

#[test]
fn the_tasks_of_a_vanilla_install() {
    let location = MinecraftLocation::new("/data", OsFamily::Linux);
    let v = resolved();
    let client = generate_client_download_task(&location, &v).unwrap();
    assert_eq!(client.url, "https://piston-data.mojang.com/v1/objects/c0ffee/client.jar");
    assert_eq!(client.file, "/data/versions/1.20.1/1.20.1.jar");
    assert_eq!(sha1_of(&client), Some("c0ffee".to_string()));
    assert_eq!(client.size_bytes, Some(77));

    let libraries = generate_libraries_downloads(&location, &v);
    assert_eq!(libraries.len(), 2);
    assert_eq!(libraries[0].url, "https://libraries.minecraft.net/a/a.jar");
    assert_eq!(libraries[0].file, "/data/libraries/a/a.jar");
    assert_eq!(sha1_of(&libraries[0]), Some("aa".to_string()));
    assert_eq!(libraries[0].kind, DownloadType::Libraries);
    assert_eq!(libraries[1].file, "/data/libraries/n/n.jar");
    assert!(matches!(libraries[1].checksum, Checksum::Unchecked));

    let objects = vec![
        AssetIndexObjectInfo { hash: "bdf48ef6b5d0d23bbb02e17d04865216179f510a".to_string(), size: 3 },
        AssetIndexObjectInfo { hash: "ab".to_string(), size: 1 },
    ];
    let assets = generate_assets_downloads(&location, &v, &objects).unwrap();
    assert_eq!(assets.len(), 3);
    assert_eq!(
        assets[0].url,
        "https://resources.download.minecraft.net/bd/bdf48ef6b5d0d23bbb02e17d04865216179f510a"
    );
    assert_eq!(
        assets[0].file,
        "/data/assets/objects/bd/bdf48ef6b5d0d23bbb02e17d04865216179f510a"
    );
    assert_eq!(sha1_of(&assets[0]), Some("bdf48ef6b5d0d23bbb02e17d04865216179f510a".to_string()));
    assert_eq!(assets[1].file, "/data/assets/objects/ab/ab");
    assert_eq!(assets[2].url, "https://piston-meta.mojang.com/v1/packages/x/5.json");
    assert_eq!(assets[2].file, "/data/assets/indexes/5.json");
    assert!(matches!(assets[2].checksum, Checksum::Unchecked));
    let mut recorded = resolved();
    if let Some(index) = recorded.asset_index.as_mut() {
        index.sha1 = Some("1d2c".to_string());
    }
    let with_digest = generate_assets_downloads(&location, &recorded, &vec![]).unwrap();
    assert_eq!(with_digest.len(), 1);
    assert_eq!(sha1_of(&with_digest[0]), Some("1d2c".to_string()));

    let all = generate_download_info(client, libraries, assets);
    assert_eq!(all.len(), 6);
    assert_eq!(all[0].file, "/data/versions/1.20.1/1.20.1.jar");
    assert_eq!(all[1].file, "/data/libraries/a/a.jar");
    assert_eq!(all[5].file, "/data/assets/indexes/5.json");
    assert_eq!(
        override_log4j2_configuration_file(&location, &v),
        "/data/versions/1.20.1/log4j2.xml"
    );
}

#[test]
fn a_vanilla_install_needs_client_index_and_hashes() {
    let location = MinecraftLocation::new("/data", OsFamily::Linux);
    let mut v = resolved();
    v.downloads = vec![];
    match generate_client_download_task(&location, &v) {
        Err(Error::InvalidVersionJson(what)) => assert_eq!(what, "client"),
        _ => panic!("expected InvalidVersionJson(client)"),
    }
    let short = vec![AssetIndexObjectInfo { hash: "a".to_string(), size: 1 }];
    match generate_assets_downloads(&location, &resolved(), &short) {
        Err(Error::JsonParse(what)) => assert_eq!(what, "objects"),
        _ => panic!("expected JsonParse(objects)"),
    }
    v.asset_index = None;
    match generate_assets_downloads(&location, &v, &vec![]) {
        Err(Error::InvalidVersionJson(what)) => assert_eq!(what, "assetIndex"),
        _ => panic!("expected InvalidVersionJson(assetIndex)"),
    }
}

fn file(url: &str, executable: bool) -> JavaFileInfo {
    JavaFileInfo::File {
        downloads: JavaFileDownloads {
            lzma: None,
            raw: JavaFileRaw { sha1: "s1".to_string(), size: 12, url: url.to_string() },
        },
        executable,
    }
}

#[test]
fn the_files_of_a_java_runtime() {
    let files = vec![
        Named { name: "bin".to_string(), value: JavaFileInfo::Directory },
        Named { name: "bin/java".to_string(), value: file("https://x/java", true) },
        Named { name: "lib/rt.jar".to_string(), value: file("https://x/rt", false) },
        Named { name: "bin/jre".to_string(), value: JavaFileInfo::Link { target: "java".to_string() } },
    ];
    let tasks = generate_downloads("/data/java/gamma", &files, '/');
    assert_eq!(tasks.len(), 2);
    assert_eq!(tasks[0].url, "https://x/java");
    assert_eq!(tasks[0].file, "/data/java/gamma/bin/java");
    assert_eq!(tasks[0].size_bytes, Some(12));
    assert_eq!(sha1_of(&tasks[0]), Some("s1".to_string()));
    assert_eq!(tasks[1].file, "/data/java/gamma/lib/rt.jar");

    let actions = post_install_actions("/data/java/gamma", &files, OsFamily::Linux);
    assert_eq!(actions.len(), 2);
    match &actions[0] {
        PostInstallAction::MakeExecutable { path } => assert_eq!(path, "/data/java/gamma/bin/java"),
        _ => panic!("expected the executable bits"),
    }
    match &actions[1] {
        PostInstallAction::Link { path, target } => {
            assert_eq!(path, "/data/java/gamma/bin/jre");
            assert_eq!(target, "java");
        }
        _ => panic!("expected the link"),
    }
    assert!(post_install_actions("C:\\java", &files, OsFamily::Windows).is_empty());
    assert_eq!(executable_mode(), 0o755);
    assert!(java_runtime_list_url().ends_with("/all.json"));
}

fn runtime(name: &str) -> JavaRuntimeInfo {
    JavaRuntimeInfo {
        availability: Availability { group: 1, progress: 100 },
        manifest: ManifestDownloadInfo { sha1: "s".to_string(), size: 1, url: format!("https://x/{name}") },
        version: JavaVersionName { name: name.to_string(), released: "2024".to_string() },
    }
}

fn runtimes(tag: &str) -> Vec<Named<Vec<JavaRuntimeInfo>>> {
    vec![
        Named { name: "java-runtime-gamma".to_string(), value: vec![runtime(tag), runtime("older")] },
        Named { name: "minecraft-java-exe".to_string(), value: vec![] },
    ]
}

fn list() -> MojangJavaVersionList {
    MojangJavaVersionList {
        gamecore: runtimes("gamecore"),
        linux: runtimes("linux"),
        linux_i386: runtimes("linux-i386"),
        mac_os: runtimes("mac-os"),
        mac_os_arm64: runtimes("mac-os-arm64"),
        windows_arm64: runtimes("windows-arm64"),
        windows_x64: runtimes("windows-x64"),
        windows_x86: runtimes("windows-x86"),
    }
}

#[test]
fn the_java_runtime_of_the_platform() {
    let pick = |family: OsFamily, arch: &str| {
        list()
            .get_current_platform(&platform(family, arch))
            .map(|map| map[0].value[0].version.name.clone())
    };
    assert_eq!(pick(OsFamily::Linux, "x64"), Some("linux".to_string()));
    assert_eq!(pick(OsFamily::Linux, "x86"), Some("linux-i386".to_string()));
    assert_eq!(pick(OsFamily::Linux, "aarch64"), None);
    assert_eq!(pick(OsFamily::Macos, "x64"), Some("mac-os".to_string()));
    assert_eq!(pick(OsFamily::Macos, "aarch64"), Some("mac-os-arm64".to_string()));
    assert_eq!(pick(OsFamily::Macos, "arm64"), Some("mac-os-arm64".to_string()));
    assert_eq!(pick(OsFamily::Windows, "x64"), Some("windows-x64".to_string()));
    assert_eq!(pick(OsFamily::Windows, "x86"), Some("windows-x86".to_string()));
    assert_eq!(pick(OsFamily::Windows, "arm64"), Some("windows-arm64".to_string()));
    assert_eq!(pick(OsFamily::Windows, "mips"), None);
    assert_eq!(java_platform(&platform(OsFamily::Linux, "x64")), Some(JavaPlatform::Linux));
    assert_eq!(java_platform(&platform(OsFamily::Linux, "arm")), None);

    let map = runtimes("linux");
    let (directory, first) = group_install("/data/java", &map, 0, '/').unwrap();
    assert_eq!(directory, "/data/java/java-runtime-gamma");
    assert_eq!(first.version.name, "linux");
    assert!(group_install("/data/java", &map, 1, '/').is_none());
}

#[test]
fn the_steps_of_an_install() {
    let mut step = InstallStep::Prepare;
    let mut seen = vec![step];
    while step != InstallStep::Finished {
        step = next_step(step, true);
        seen.push(step);
    }
    assert_eq!(
        seen,
        vec![
            InstallStep::Prepare,
            InstallStep::InstallGame,
            InstallStep::InstallJava,
            InstallStep::InstallModLoader,
            InstallStep::WriteMarker,
            InstallStep::Finished,
        ]
    );
    assert_eq!(next_step(InstallStep::InstallJava, false), InstallStep::WriteMarker);
    assert_eq!(next_step(InstallStep::Finished, true), InstallStep::Finished);
    assert_eq!(event_of(InstallStep::Prepare), Some(InstallEvent::Prepare));
    assert_eq!(
        event_of(InstallStep::InstallGame),
        Some(InstallEvent::InstallGame(Progress { completed: 0, total: 0, step: Step::DownloadFiles, speed: 0 }))
    );
    assert_eq!(event_of(InstallStep::InstallModLoader), Some(InstallEvent::InstallModLoader));
    assert_eq!(event_of(InstallStep::WriteMarker), None);
    assert!(begin_install(false).is_ok());
    assert!(matches!(begin_install(true), Err(Error::AlreadyInstalling)));
    assert!(matches!(aborted(), Error::Aborted));
    assert!(cache_is_fresh(1000, 1000 + 7199));
    assert!(!cache_is_fresh(1000, 1000 + 7200));
    assert!(!cache_is_fresh(1000, 999));
    assert_eq!(install_marker_path("/d/instances/i", '/'), "/d/instances/i/.install.lock");
    assert_eq!(install_marker_contents(), "ok");
    assert_eq!(java_directory("/d", '/'), "/d/java");
}

#[test]
fn the_mod_loader_of_an_instance() {
    let mut runtime = InstanceRuntime {
        minecraft: "1.20.1".to_string(),
        mod_loader_type: Some(ModLoaderType::Forge),
        mod_loader_version: Some("47.1.0".to_string()),
    };
    let plan = install_mod_loader(&runtime).unwrap();
    assert_eq!(plan.loader, ModLoaderType::Forge);
    assert_eq!(plan.loader_version, "47.1.0");
    assert_eq!(plan.minecraft, "1.20.1");
    runtime.mod_loader_version = None;
    assert!(matches!(install_mod_loader(&runtime), Err(Error::InstanceBroken)));
    runtime.mod_loader_type = None;
    runtime.mod_loader_version = Some("1".to_string());
    assert!(matches!(install_mod_loader(&runtime), Err(Error::InstanceBroken)));
}

#[test]
fn the_latest_authlib_injector() {
    let location = MinecraftLocation::new("/data", OsFamily::Linux);
    let member = |key: &str, value: Json| JsonMember { key: key.to_string(), value };
    let latest = Json::Object(vec![
        member("build_number", Json::Number(Some(53))),
        member("download_url", Json::Text("https://authlib-injector.yushi.moe/artifact/53/a.jar".to_string())),
        member("checksums", Json::Object(vec![member("sha256", Json::Text("beef".to_string()))])),
    ]);
    let task = install_latest(&location, "1.20.1", &latest).unwrap();
    assert_eq!(task.url, "https://authlib-injector.yushi.moe/artifact/53/a.jar");
    assert_eq!(task.file, "/data/versions/1.20.1/authlib-injector.jar");
    assert_eq!(task.kind, DownloadType::AuthlibInjector);
    match &task.checksum {
        Checksum::Sha256(h) => assert_eq!(h, "beef"),
        _ => panic!("expected a SHA-256 digest"),
    }
    let no_digest = Json::Object(vec![member("download_url", Json::Text("u".to_string()))]);
    assert!(matches!(install_latest(&location, "v", &no_digest), Err(Error::InvalidAuthlibResponse)));
    assert!(matches!(install_latest(&location, "v", &Json::Null), Err(Error::InvalidAuthlibResponse)));
    assert_eq!(latest_url(), "https://authlib-injector.yushi.moe/artifact/latest.json");
}
