use conic_launcher::config::instance::{InstanceConfig, ModLoaderType};
use conic_launcher::config::launch::{
    default_height, default_launcher_name, default_max_memory, default_width, LaunchConfig, GC,
};
use conic_launcher::config::settings::{
    default_auto_update, default_change_game_language, default_current_account,
    default_current_account_type, default_disable_animations, default_hide_latest_release,
    default_hide_latest_snapshot, default_high_contrast_mode, default_language,
    default_release_reminder, default_snapshot_reminder, default_theme, fallback_locale,
    load_config_file, AccessibilityConfig, AppearanceConfig, Config, UpdateChannel,
};
use conic_launcher::account::AccountType;
use conic_launcher::error::Error;
use conic_launcher::folder::{application_data_path, join_path, DataLocation, MinecraftLocation};
use conic_launcher::instance::{
    instance_config_path, instance_of_folder, instance_with_id, list_instances,
    new_instance_id, sort_instances, Instance, InstanceEntry, SortBy,
};
use conic_launcher::json::{lookup, Json, JsonMember};
use conic_launcher::named::{index_of_name, lookup_named, upsert_named, Named};
use conic_launcher::platform::{arch_name, OsFamily, PlatformInfo};
use conic_launcher::text::{replace_char, str_eq, str_le, to_ascii_lowercase};

#[test]
fn paths_are_joined_with_the_separator() {
    assert_eq!(join_path("/data", "versions", '/'), "/data/versions");
    assert_eq!(join_path("/data/", "versions", '/'), "/data/versions");
    assert_eq!(join_path("", "versions", '/'), "versions");
    assert_eq!(join_path("/data", "", '/'), "/data/");
    assert_eq!(join_path("C:\\data", "versions", '\\'), "C:\\data\\versions");
    assert_eq!(join_path("/data", "/etc", '/'), "/data//etc");
}

#[test]
fn the_layout_of_a_game_root() {
    let location = MinecraftLocation::new("/data", OsFamily::Linux);
    assert_eq!(location.root, "/data");
    assert_eq!(location.libraries, "/data/libraries");
    assert_eq!(location.assets, "/data/assets");
    assert_eq!(location.versions, "/data/versions");
    assert_eq!(location.get_version_root("1.20.1"), "/data/versions/1.20.1");
    assert_eq!(location.get_natives_root("1.20.1"), "/data/versions/1.20.1/conic-natives");
    assert_eq!(location.get_version_json("1.20.1"), "/data/versions/1.20.1/1.20.1.json");
    assert_eq!(location.get_version_jar("1.20.1", None), "/data/versions/1.20.1/1.20.1.jar");
    assert_eq!(location.get_version_jar("1.20.1", Some("client")), "/data/versions/1.20.1/1.20.1.jar");
    assert_eq!(
        location.get_version_jar("1.20.1", Some("server")),
        "/data/versions/1.20.1/1.20.1-server.jar"
    );
    assert_eq!(location.get_library_by_path("a/b.jar"), "/data/libraries/a/b.jar");
    assert_eq!(location.get_assets_index("5"), "/data/assets/indexes/5.json");
    assert_eq!(location.get_log_config("1.20.1"), "/data/versions/1.20.1/log4j2.xml");
    assert_eq!(
        location.get_authlib_injector("1.20.1"),
        "/data/versions/1.20.1/authlib-injector.jar"
    );
    let windows = MinecraftLocation::new("C:\\conic", OsFamily::Windows);
    assert_eq!(windows.get_version_json("1.20.1"), "C:\\conic\\versions\\1.20.1\\1.20.1.json");
}

#[test]
fn the_layout_of_the_data_directory() {
    let data = DataLocation::new(
        "/home/u/.conic",
        OsFamily::Linux,
        "/tmp",
        0xa1a2a3a4b1b2c1c2d1d2d3d4d5d6d7d8,
    );
    assert_eq!(data.root, "/home/u/.conic");
    assert_eq!(data.instances, "/home/u/.conic/instances");
    assert_eq!(data.cache, "/home/u/.conic/.cache");
    assert_eq!(data.logs, "/home/u/.conic/logs");
    assert_eq!(data.resources, "/home/u/.conic/resources");
    assert_eq!(data.config, "/home/u/.conic/config.toml");
    assert_eq!(data.default_jre, "/bin/java");
    assert_eq!(data.temp, "/tmp/conic-launcher-a1a2a3a4-b1b2-c1c2-d1d2-d3d4d5d6d7d8");
    assert_eq!(
        data.get_instance_root(114514),
        "/home/u/.conic/instances/00000000-0000-0000-0000-00000001bf52"
    );
    assert_eq!(data.launcher_profiles_path(), "/home/u/.conic/launcher_profiles.json");
    let mac = DataLocation::new("/Users/u/.conic", OsFamily::Macos, "/tmp", 1);
    assert_eq!(mac.cache, "/Users/u/.conic/.cache");
    for path in [&data.instances, &data.cache, &data.logs, &data.resources, &data.config] {
        assert!(path.starts_with("/home/u/.conic/"));
    }
    assert_eq!(application_data_path(OsFamily::Linux, "/home/u", false), "/home/u/.conic");
    assert_eq!(application_data_path(OsFamily::Linux, "/home/u", true), "/home/u/.conic-debug");
    assert_eq!(application_data_path(OsFamily::Macos, "/Users/u", false), "/Users/u/.conic");
    assert_eq!(
        application_data_path(OsFamily::Macos, "/Users/u", true),
        "/Users/u/.conic-debug"
    );
    assert_eq!(
        application_data_path(OsFamily::Windows, "C:\\Users\\u\\AppData\\Roaming", false),
        "C:\\Users\\u\\AppData\\Roaming\\conic"
    );
}

#[test]
fn the_platform_is_described() {
    let p = PlatformInfo::new("linux", "x86_64", "Ubuntu".to_string(), "22.04".to_string(), None, None)
        .unwrap();
    assert_eq!(p.os_family, OsFamily::Linux);
    assert_eq!(p.arch, "x64");
    assert_eq!(p.os_version, "22.04");
    assert!(PlatformInfo::new("freebsd", "x86_64", String::new(), String::new(), None, None).is_none());
    assert_eq!(OsFamily::from_target_os("windows"), Some(OsFamily::Windows));
    assert_eq!(OsFamily::from_target_os("macos"), Some(OsFamily::Macos));
    assert_eq!(OsFamily::Windows.to_string(), "windows");
    assert_eq!(OsFamily::Linux.to_string(), "linux");
    assert_eq!(OsFamily::Macos.to_string(), "macos");
    assert_eq!(OsFamily::Windows.delimiter(), ";");
    assert_eq!(OsFamily::Linux.delimiter(), ":");
    assert_eq!(OsFamily::Macos.delimiter(), ":");
    assert_eq!(OsFamily::Windows.path_separator(), '\\');
    assert_eq!(OsFamily::Linux.path_separator(), '/');
    assert_eq!(arch_name("x86"), "x86");
    assert_eq!(arch_name("aarch64"), "aarch64");
    assert_eq!(arch_name("powerpc64"), "powerpc64");
    assert_eq!(arch_name("riscv64"), "unknown");
}

#[test]
fn the_defaults_of_the_configuration() {
    let config = Config::with_defaults(Some(42), "de-DE.UTF-8");
    assert!(config.auto_update);
    assert_eq!(config.current_account_uuid, 42);
    assert_eq!(config.current_account_type, AccountType::Microsoft);
    assert_eq!(config.appearance.theme, "dark");
    assert_eq!(config.language, "de_de");
    assert_eq!(config.update_channel, UpdateChannel::Release);
    assert!(config.accessibility.release_reminder);
    assert!(config.accessibility.snapshot_reminder);
    assert!(!config.accessibility.hide_latest_release);
    assert!(!config.accessibility.hide_latest_snapshot);
    assert!(config.accessibility.change_game_language);
    assert!(!config.accessibility.disable_animations);
    assert!(!config.accessibility.high_contrast_mode);
    assert_eq!(config.launch.max_memory, 2048);
    assert_eq!(config.launch.gc, GC::G1);
    assert_eq!(Config::with_defaults(None, "en-US").current_account_uuid, 0);
    assert_eq!(default_language("en-US"), "en_us");
    assert_eq!(default_language("zh-Hans-CN.UTF-8@x"), "zh_hans_cn");
    assert_eq!(fallback_locale(), "en-US");
    assert_eq!(default_current_account(None), 0);
    assert_eq!(default_current_account(Some(9)), 9);
    assert_eq!(default_current_account_type(), AccountType::Microsoft);
    assert!(default_auto_update());
    assert!(default_release_reminder() && default_snapshot_reminder() && default_change_game_language());
    assert!(!default_hide_latest_release() && !default_hide_latest_snapshot());
    assert!(!default_disable_animations() && !default_high_contrast_mode());
    assert_eq!(default_theme(), "dark");
    assert_eq!(AppearanceConfig::default().theme, "dark");
    assert_eq!(AccessibilityConfig::default(), config.accessibility);
    assert_eq!(UpdateChannel::default(), UpdateChannel::Release);
    assert_eq!(GC::default(), GC::G1);
    let launch = LaunchConfig::default();
    assert_eq!((launch.min_memory, launch.max_memory, launch.width, launch.height), (0, 2048, 854, 480));
    assert_eq!((default_max_memory(), default_width(), default_height()), (2048, 854, 480));
    assert_eq!(default_launcher_name(), "Conic_Launcher");
    assert!(!launch.fullscreen && !launch.is_demo && !launch.skip_check_files);
}

#[test]
fn a_configuration_that_was_read_is_kept() {
    let mut stored = Config::with_defaults(Some(1), "fr-FR");
    stored.language = "custom".to_string();
    stored.launch.max_memory = 8192;
    let (config, fresh) = load_config_file(Some(stored), Some(2), "en-US");
    assert!(!fresh);
    assert_eq!(config.language, "custom");
    assert_eq!(config.launch.max_memory, 8192);
    assert_eq!(config.current_account_uuid, 1);
    let (config, fresh) = load_config_file(None, Some(2), "en-US");
    assert!(fresh);
    assert_eq!(config.language, "en_us");
    assert_eq!(config.current_account_uuid, 2);
}

fn instance(name: &str, id: u128) -> Instance {
    Instance { config: InstanceConfig::new(name, "1.20.1"), installed: false, id }
}

#[test]
fn the_version_that_an_instance_launches() {
    let mut i = instance("One", 1);
    assert_eq!(i.get_version_id().unwrap(), "1.20.1");
    i.config.runtime.mod_loader_version = Some("0.14.21".to_string());
    assert_eq!(i.get_version_id().unwrap(), "1.20.1");
    i.config.runtime.mod_loader_type = Some(ModLoaderType::Fabric);
    assert_eq!(i.get_version_id().unwrap(), "fabric-loader-0.14.21-1.20.1");
    i.config.runtime.mod_loader_type = Some(ModLoaderType::Quilt);
    assert_eq!(i.get_version_id().unwrap(), "quilt-loader-0.14.21-1.20.1");
    i.config.runtime.mod_loader_type = Some(ModLoaderType::Forge);
    assert_eq!(i.get_version_id().unwrap(), "1.20.1-forge-0.14.21");
    i.config.runtime.mod_loader_type = Some(ModLoaderType::Neoforged);
    assert_eq!(i.get_version_id().unwrap(), "neoforged-0.14.21");
    i.config.runtime.mod_loader_version = None;
    assert!(matches!(i.get_version_id(), Err(Error::InvalidInstanceConfig)));
    assert_eq!(ModLoaderType::Neoforged.to_string(), "Neoforged");
    assert_eq!(ModLoaderType::Fabric.to_string(), "Fabric");
    assert_eq!(ModLoaderType::Quilt.to_string(), "Quilt");
    assert_eq!(ModLoaderType::Forge.to_string(), "Forge");
}

#[test]
fn instances_are_recognised_and_sorted() {
    let found = instance_of_folder(
        "00000000-0000-0000-0000-00000001bf52",
        InstanceConfig::new("Latest Release", "1.21"),
        true,
    )
    .unwrap();
    assert_eq!(found.id, 114514);
    assert!(found.installed);
    assert_eq!(found.config.name, "Latest Release");
    assert!(instance_of_folder("mods", InstanceConfig::new("x", "1"), false).is_none());
    assert!(instance_with_id(None, InstanceConfig::new("x", "1"), false).is_none());
    assert_eq!(instance_with_id(Some(5), InstanceConfig::new("x", "1"), false).unwrap().id, 5);
    assert_eq!(new_instance_id("Latest Release", 77), 114514);
    assert_eq!(new_instance_id("Latest Snapshot", 77), 1919810);
    assert_eq!(new_instance_id("Mine", 77), 77);
    assert_eq!(instance_config_path("/d/instances/i", '/'), "/d/instances/i/instance.toml");

    let sorted = sort_instances(
        vec![instance("beta", 1), instance("Alpha", 2), instance("alpha", 3), instance("beta", 4), instance("", 5)],
        SortBy::Name,
    );
    let order: Vec<(String, u128)> = sorted.iter().map(|i| (i.config.name.clone(), i.id)).collect();
    assert_eq!(
        order,
        vec![
            ("".to_string(), 5),
            ("Alpha".to_string(), 2),
            ("alpha".to_string(), 3),
            ("beta".to_string(), 1),
            ("beta".to_string(), 4),
        ]
    );
    assert!(sort_instances(vec![], SortBy::Name).is_empty());
}

#[test]
fn texts_are_ordered_by_code_points() {
    assert!(str_le("", "a"));
    assert!(str_le("a", "a"));
    assert!(str_le("a", "ab"));
    assert!(!str_le("ab", "a"));
    assert!(str_le("Z", "a"));
    assert!(!str_le("b", "a"));
    assert!(str_le("é", "日"));
    assert!(str_eq("日本", "日本"));
    assert!(!str_eq("a", "b"));
    assert_eq!(to_ascii_lowercase("AbC-É"), "abc-É");
    assert_eq!(replace_char("a.b.c", '.', '/'), "a/b/c");
}

#[test]
fn errors_have_a_kind_and_a_message() {
    let check = |e: Error, kind: &str, message: &str| {
        assert_eq!(e.kind(), kind);
        assert_eq!(e.message(), message);
    };
    check(Error::Io("disk full".to_string()), "Io", "disk full");
    check(Error::Network("timed out".to_string()), "Network", "timed out");
    check(
        Error::HttpResponseNotSuccess(404, "Not Found".to_string()),
        "HttpResponseNotSuccess",
        "404 Not Found",
    );
    check(Error::Sha1Missmatch("https://x".to_string()), "Sha1Missmatch", "https://x");
    check(Error::ChunkLengthMismatch, "ChunkLengthMismatch", "Chunk length mismatch");
    check(Error::UrlParse("empty host".to_string()), "UrlParse", "empty host");
    check(Error::JsonParse("objects".to_string()), "JsonParse", "objects");
    check(
        Error::InvalidVersionJson("assetIndex".to_string()),
        "InvalidVersionJson",
        "Invalid version.json, missing assetIndex",
    );
    check(Error::InvalidMinecraftVersion, "InvalidMinecraftVersion", "Invalid Minecraft version");
    check(
        Error::VersionMetadataNotfound,
        "VersionMetadataNotfound",
        "Version metadata not found in version manifest",
    );
    check(Error::InstanceBroken, "InstanceBroken", "Bad instance.toml file");
    check(Error::InvalidInstanceConfig, "InvalidInstanceConfig", "Invalid instance config");
    check(Error::NoSupportedJavaRuntime, "NoSupportedJavaRuntime", "No supported java runtime");
    check(Error::InvalidForgeVersion, "InvalidForgeVersion", "Could not understand forge version");
    check(Error::ForgeInstallerFailed, "ForgeInstallerFailed", "Failed to run forge installer");
    check(
        Error::NeoforgedInstallerFailed,
        "NeoforgedInstallerFailed",
        "Failed to run neoforged installer",
    );
    check(Error::InvalidAuthlibResponse, "InvalidAuthlibResponse", "Invalid authlib-injector response");
    check(
        Error::AccountNotfound(255),
        "AccountNotfound",
        "Account not found: 00000000-0000-0000-0000-0000000000ff",
    );
    check(Error::OwnershipCheckFailed, "OwnershipCheckFailed", "Cannot check ownership");
    check(Error::ProfileUnavailable, "ProfileUnavailable", "This profile is no longer available");
    check(
        Error::MicrosoftResponseMissingKey("Token".to_string()),
        "MicrosoftResponseMissingKey",
        "Token",
    );
    check(Error::AlreadyInstalling, "AlreadyInstalling", "Another instance is installing");
    check(Error::AlreadyInLaunching, "AlreadyInLaunching", "Another instance is launching");
    check(Error::Aborted, "Aborted", "Aborted");
}

#[test]
fn json_values_are_read_by_key() {
    let member = |key: &str, value: Json| JsonMember { key: key.to_string(), value };
    let value = Json::Object(vec![
        member("a", Json::Text("first".to_string())),
        member("n", Json::Number(Some(7))),
        member("a", Json::Text("second".to_string())),
        member("f", Json::Number(None)),
        member("b", Json::Bool(true)),
        member("o", Json::Object(vec![member("inner", Json::Array(vec![Json::Null]))])),
    ]);
    assert_eq!(value.get_str("a"), Some("first"));
    assert_eq!(value.get_str("n"), None);
    assert_eq!(value.get_u64("n"), Some(7));
    assert_eq!(value.get_u64("f"), None);
    assert_eq!(value.get_u64("a"), None);
    assert_eq!(value.get("b").unwrap().as_bool(), Some(true));
    assert!(value.get("missing").is_none());
    assert_eq!(value.get2("o", "inner").unwrap().as_array().unwrap().len(), 1);
    assert!(value.get2("o", "other").is_none());
    assert!(value.get2("a", "inner").is_none());
    assert!(Json::Null.get("a").is_none());
    assert!(value.as_object().is_some());
    assert!(value.as_array().is_none());
    assert!(Json::Text("x".to_string()).as_str().is_some());
    assert!(lookup(value.as_object().unwrap(), "o").is_some());
}

#[test]
fn named_values_are_filed_once() {
    let mut items: Vec<Named<u32>> = vec![];
    upsert_named(&mut items, "a".to_string(), 1);
    upsert_named(&mut items, "b".to_string(), 2);
    upsert_named(&mut items, "a".to_string(), 3);
    assert_eq!(items.len(), 2);
    assert_eq!(lookup_named(&items, "a"), Some(&3));
    assert_eq!(lookup_named(&items, "b"), Some(&2));
    assert_eq!(lookup_named(&items, "c"), None);
    assert_eq!(index_of_name(&items, "b"), Some(1));
    assert_eq!(index_of_name(&items, "z"), None);
}

#[test]
fn the_listing_names_exactly_the_instances() {
    let entry = |folder: &str, is_dir: bool, name: Option<&str>| InstanceEntry {
        folder_name: folder.to_string(),
        is_dir,
        config: name.map(|n| InstanceConfig::new(n, "1.20.1")),
        installed: folder.ends_with('2'),
    };
    let entries = vec![
        entry("00000000-0000-0000-0000-000000000002", true, Some("zeta")),
        entry("not-an-identifier", true, Some("stray")),
        entry("00000000-0000-0000-0000-000000000003", false, Some("file")),
        entry("00000000-0000-0000-0000-000000000004", true, None),
        entry("00000000-0000-0000-0000-000000000006", true, Some("large")),
        entry("00000000-0000-0000-0000-000000000001", true, Some("alpha")),
    ];
    let listing = list_instances(entries, SortBy::Name);
    let found: Vec<(u128, String, bool)> =
        listing.iter().map(|i| (i.id, i.config.name.clone(), i.installed)).collect();
    assert_eq!(
        found,
        vec![
            (1, "alpha".to_string(), false),
            (6, "large".to_string(), false),
            (2, "zeta".to_string(), true),
        ]
    );
    assert!(list_instances(vec![], SortBy::Name).is_empty());
}

#[test]
fn an_identifier_is_listed_once() {
    let entry = |folder: &str, name: &str| InstanceEntry {
        folder_name: folder.to_string(),
        is_dir: true,
        config: Some(InstanceConfig::new(name, "1.20.1")),
        installed: false,
    };
    let entries = vec![
        entry("0000000000000000000000000000000A", "simple form"),
        entry("00000000-0000-0000-0000-00000000000a", "hyphenated form"),
        entry("00000000-0000-0000-0000-00000000000b", "another"),
        entry("00000000-0000-0000-0000-00000000000A", "upper case"),
    ];
    let listing = list_instances(entries, SortBy::Name);
    let found: Vec<(u128, String)> =
        listing.iter().map(|i| (i.id, i.config.name.clone())).collect();
    assert_eq!(found, vec![(11, "another".to_string()), (10, "simple form".to_string())]);
}

#[test]
fn identifiers_are_written_in_five_groups_of_hexadecimal_digits() {
    let data = DataLocation::new("/d", OsFamily::Linux, "/tmp", 0);
    for id in [
        0u128,
        1,
        0x0123_4567_89ab_cdef_0123_4567_89ab_cdef,
        0xffff_ffff_0000_0000_ffff_0000_ffff_0000,
        u128::MAX,
        1u128 << 127,
        114514,
        1919810,
    ] {
        let digits = format!("{id:032x}");
        let expected = format!(
            "/d/instances/{}-{}-{}-{}-{}",
            &digits[0..8],
            &digits[8..12],
            &digits[12..16],
            &digits[16..20],
            &digits[20..32]
        );
        assert_eq!(data.get_instance_root(id), expected);
        let folder = &expected["/d/instances/".len()..];
        let found = instance_of_folder(folder, InstanceConfig::new("n", "1"), false).unwrap();
        assert_eq!(found.id, id);
    }
}
