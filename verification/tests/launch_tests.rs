use conic_launcher::account::AccountLaunchInfo;
use conic_launcher::config::instance::InstanceConfig;
use conic_launcher::config::launch::{Server, GC};
use conic_launcher::config::settings::Config;
use conic_launcher::error::Error;
use conic_launcher::folder::MinecraftLocation;
use conic_launcher::instance::Instance;
use conic_launcher::launch::arguments::{
    generate_command_arguments, native_archives, physical_core_count, resolve_classpath,
    LaunchContext,
};
use conic_launcher::launch::complete::{
    assets_marker_path, complete_files, libraries_marker_path, save_lock_file, try_load_lock_file,
};
use conic_launcher::launch::options::{
    begin_launch, launch_plan, next_launch_step, LaunchOptions, LaunchPlan, LaunchStep,
};
use conic_launcher::launch::script::{
    is_launch_success, last_complete_line, launch_script, scrape_line, script_path, script_shell,
};
use conic_launcher::named::Named;
use conic_launcher::platform::OsFamily;
use conic_launcher::version::library::{LibraryDownloadInfo, ResolvedLibrary};
use conic_launcher::version::model::{AssetIndex, JavaVersion, Logging, LoggingFileDownload};
use conic_launcher::version::resolve::ResolvedVersion;

fn account() -> AccountLaunchInfo {
    AccountLaunchInfo {
        access_token: "token".to_string(),
        name: "Steve Smith".to_string(),
        uuid: "0000".to_string(),
    }
}

fn options(location: &MinecraftLocation) -> LaunchOptions {
    let config = Config::with_defaults(None, "en-US");
    let instance =
        Instance { config: InstanceConfig::new("One", "1.20.1"), installed: true, id: 7 };
    LaunchOptions::new(&config, &instance, account(), location.clone())
}

fn info(path: &str) -> LibraryDownloadInfo {
    LibraryDownloadInfo { sha1: None, size: None, url: format!("https://x/{path}"), path: path.to_string() }
}

fn version() -> ResolvedVersion {
    let mut v = ResolvedVersion::new();
    v.id = "1.20.1".to_string();
    v.assets = Some("5".to_string());
    v.asset_index = Some(AssetIndex {
        sha1: None,
        size: 1,
        url: "u".to_string(),
        id: "5".to_string(),
        total_size: 1,
    });
    v.main_class = Some("net.minecraft.client.main.Main".to_string());
    v.libraries = vec![
        ResolvedLibrary::Common(info("a/a.jar")),
        ResolvedLibrary::Native(info("n/n-natives.jar")),
        ResolvedLibrary::Common(info("b/b.jar")),
    ];
    v.jvm_arguments = vec![
        "-Djava.library.path=${natives_directory}".to_string(),
        "-cp".to_string(),
        "${classpath}".to_string(),
    ];
    v.game_arguments = vec![
        "--username".to_string(),
        "${auth_player_name}".to_string(),
        "--gameDir".to_string(),
        "${game_directory}".to_string(),
        "--clientId".to_string(),
        "${clientid}".to_string(),
    ];
    v.java_version = JavaVersion { component: "jre-legacy".to_string(), major_version: 8 };
    v
}

fn context(family: OsFamily) -> LaunchContext {
    LaunchContext {
        minecraft_version: "1.20.1".to_string(),
        game_directory: "/data/instances/i".to_string(),
        launcher_version: "1.2.3".to_string(),
        os_family: family,
        log_config_exists: false,
        physical_cores: 6,
    }
}

#[test]
fn completeness_marker_expires_after_ten_days() {
    assert!(!try_load_lock_file(Some("1700000000"), 1_700_864_000));
    assert!(try_load_lock_file(Some("1700000000"), 1_700_863_999));
    assert!(try_load_lock_file(Some("1700000000"), 1_700_000_000));
    assert!(!try_load_lock_file(Some("1700000000"), 1_699_999_999));
    assert!(!try_load_lock_file(Some("ok"), 1_700_000_000));
    assert!(!try_load_lock_file(Some(""), 1_700_000_000));
    assert!(!try_load_lock_file(None, 1_700_000_000));
    let plan = complete_files(Some("1700000000"), None, 1_700_864_000);
    assert!(plan.check_assets);
    assert!(plan.check_libraries);
    let plan = complete_files(Some("1700000000"), Some("1700000500"), 1_700_000_600);
    assert!(!plan.check_assets);
    assert!(!plan.check_libraries);
}

#[test]
fn a_marker_that_was_just_written_is_honoured() {
    let written = save_lock_file(1_700_000_000);
    assert_eq!(written, "1700000000");
    assert!(try_load_lock_file(Some(&written), 1_700_000_001));
    assert_eq!(assets_marker_path("/d/instances/i", '/'), "/d/instances/i/.conic-assets-ok");
    assert_eq!(libraries_marker_path("/d/instances/i", '/'), "/d/instances/i/.conic-libraries-ok");
}

#[test]
fn templates_are_filled_from_the_table() {
    let table = vec![
        ("a".to_string(), "1".to_string()),
        ("b c".to_string(), "two words".to_string()),
        ("a".to_string(), "shadowed".to_string()),
    ];
    let fill = |t: &str, quote: bool| conic_launcher::launch::template::format(t, &table, quote);
    assert_eq!(fill("${a}", false), "1");
    assert_eq!(fill("x${a}y${a}", false), "x1y1");
    assert_eq!(fill("${b c}", false), "two words");
    assert_eq!(fill("${b c}", true), "\"two words\"");
    assert_eq!(fill("${a}", true), "1");
    assert_eq!(fill("${unknown}", true), "${unknown}");
    assert_eq!(fill("${}", true), "${}");
    assert_eq!(fill("${a", true), "${a");
    assert_eq!(fill("$a} {a} $ {", true), "$a} {a} $ {");
    assert_eq!(fill("$${a}", true), "$1");
    assert_eq!(fill("${x${a}", true), "${x${a}");
    assert_eq!(fill("", true), "");
    assert_eq!(fill("${a}}", true), "1}");
}

#[test]
fn launch_options_prefer_the_instance() {
    let location = MinecraftLocation::new("/data", OsFamily::Linux);
    let mut config = Config::with_defaults(None, "en-US");
    config.launch.wrap_command = "global-wrap".to_string();
    config.launch.server = Some(Server { ip: "global".to_string(), port: None });
    let mut instance =
        Instance { config: InstanceConfig::new("One", "1.20.1"), installed: true, id: 7 };
    let plain = LaunchOptions::new(&config, &instance, account(), location.clone());
    assert_eq!(plain.max_memory, 2048);
    assert_eq!(plain.min_memory, 0);
    assert_eq!(plain.width, 854);
    assert_eq!(plain.height, 480);
    assert_eq!(plain.wrap_command, "global-wrap");
    assert_eq!(plain.launcher_name, "Conic_Launcher");
    assert_eq!(plain.gc, GC::G1);
    assert_eq!(plain.properties, "{}");
    assert_eq!(plain.server.as_ref().unwrap().ip, "global");
    assert_eq!(plain.account_launch_info.name, "Steve Smith");
    assert_eq!(plain.minecraft_location.root, "/data");

    instance.config.launch_config.max_memory = Some(4096);
    instance.config.launch_config.wrap_command = Some("own-wrap".to_string());
    instance.config.launch_config.gc = Some(GC::Z);
    instance.config.launch_config.fullscreen = Some(true);
    instance.config.launch_config.server = Some(Server { ip: "own".to_string(), port: Some(1) });
    let own = LaunchOptions::new(&config, &instance, account(), location);
    assert_eq!(own.max_memory, 4096);
    assert_eq!(own.wrap_command, "own-wrap");
    assert_eq!(own.gc, GC::Z);
    assert!(own.fullscreen);
    assert_eq!(own.server.as_ref().unwrap().ip, "own");
    assert_eq!(own.width, 854);
}

#[test]
fn launch_plan_follows_the_switches() {
    let mut config = Config::with_defaults(None, "en-US");
    let plan = launch_plan(&config);
    assert!(plan.refresh_account && plan.check_files);
    config.launch.skip_refresh_account = true;
    config.launch.skip_check_files = true;
    let plan = launch_plan(&config);
    assert!(!plan.refresh_account && !plan.check_files);
    assert!(begin_launch(false).is_ok());
    assert!(matches!(begin_launch(true), Err(Error::AlreadyInLaunching)));
}

#[test]
fn classpath_holds_jars_extra_and_client() {
    let location = MinecraftLocation::new("/data", OsFamily::Linux);
    let mut v = version();
    assert_eq!(
        resolve_classpath(&v, &location, "", OsFamily::Linux),
        "/data/libraries/a/a.jar:/data/libraries/b/b.jar:/data/versions/1.20.1/1.20.1.jar"
    );
    assert_eq!(
        resolve_classpath(&v, &location, "/extra.jar", OsFamily::Windows),
        "/data/libraries/a/a.jar;/data/libraries/b/b.jar;/extra.jar;/data/versions/1.20.1/1.20.1.jar"
    );
    v.inheritances = vec!["mid".to_string(), "1.19".to_string()];
    assert_eq!(
        resolve_classpath(&v, &location, "", OsFamily::Linux),
        "/data/libraries/a/a.jar:/data/libraries/b/b.jar:/data/versions/1.19/1.19.jar"
    );
    assert_eq!(native_archives(&v.libraries, &location), vec!["/data/libraries/n/n-natives.jar"]);
}

#[test]
fn command_line_on_linux() {
    let location = MinecraftLocation::new("/data", OsFamily::Linux);
    let mut o = options(&location);
    o.extra_jvm_args = " -Dx=1   -Dy=2 ".to_string();
    o.min_memory = 512;
    let arguments =
        generate_command_arguments(&location, &context(OsFamily::Linux), &o, &version()).unwrap();
    let expected: Vec<String> = vec![
        "\"-Dminecraft.client.jar=/data/versions/1.20.1/1.20.1.jar\"",
        "-Xms512M",
        "-Xmx2048M",
        "-XX:+UseG1GC",
        "-XX:+UnlockExperimentalVMOptions",
        "-XX:G1NewSizePercent=20",
        "-XX:G1ReservePercent=20",
        "-XX:MaxGCPauseMillis=50",
        "-XX:G1HeapRegionSize=16M",
        "-Dx=1",
        "-Dy=2",
        "-Djava.library.path=/data/versions/1.20.1/conic-natives",
        "-cp",
        "/data/libraries/a/a.jar:/data/libraries/b/b.jar:/data/versions/1.20.1/1.20.1.jar",
        "net.minecraft.client.main.Main",
        "--username",
        "\"Steve Smith\"",
        "--gameDir",
        "/data/instances/i",
        "--clientId",
        "${clientid}",
        "",
        "--width",
        "854",
        "--height",
        "480",
    ]
    .into_iter()
    .map(|s| s.to_string())
    .collect();
    assert_eq!(arguments, expected);
}

#[test]
fn command_line_with_every_option() {
    let location = MinecraftLocation::new("/data", OsFamily::Macos);
    let mut o = options(&location);
    o.max_memory = 0;
    o.gc = GC::Parallel;
    o.ignore_invalid_minecraft_certificates = true;
    o.ignore_patch_discrepancies = true;
    o.server = Some(Server { ip: "mc.example.org".to_string(), port: Some(25565) });
    o.fullscreen = true;
    o.is_demo = true;
    o.extra_mc_args = "--quickPlay".to_string();
    let mut v = version();
    v.main_class = None;
    v.game_arguments = vec!["--assetIndex".to_string(), "${asset_index}".to_string()];
    v.jvm_arguments = vec!["-Dname=${launcher_name}-${launcher_version}".to_string()];
    v.logging = vec![Named {
        name: "client".to_string(),
        value: Logging {
            file: LoggingFileDownload { id: "x".to_string(), sha1: "s".to_string(), size: 1, url: "u".to_string() },
            argument: "-Dlog4j.configurationFile=${path}".to_string(),
            kind: "log4j2-xml".to_string(),
        },
    }];
    let mut c = context(OsFamily::Macos);
    c.log_config_exists = true;
    let arguments = generate_command_arguments(&location, &c, &o, &v).unwrap();
    let expected: Vec<String> = vec![
        "\"-Dminecraft.client.jar=/data/versions/1.20.1/1.20.1.jar\"",
        "-Xdock:name=Minecraft",
        "-Xdock:icon=/data/assets/minecraft.icns",
        "-Dfml.ignoreInvalidMinecraftCertificates=true",
        "-Dfml.ignorePatchDiscrepancies=true",
        "-XX:+UseParallelGC",
        "-XX:ParallelGCThreads=6",
        "\"-Dlog4j.configurationFile=/data/versions/1.20.1/log4j2.xml\"",
        "-Dname=Conic_Launcher-1.2.3",
        "net.minecraft.client.main.Main",
        "--assetIndex",
        "5",
        "--quickPlay",
        "--server",
        "mc.example.org",
        "--port",
        "25565",
        "--fullscreen",
        "--demo",
    ]
    .into_iter()
    .map(|s| s.to_string())
    .collect();
    assert_eq!(arguments, expected);
    c.log_config_exists = false;
    let without_log = generate_command_arguments(&location, &c, &o, &v).unwrap();
    assert_eq!(without_log.len(), expected.len() - 1);
}

#[test]
fn a_width_among_the_arguments_is_not_repeated() {
    let location = MinecraftLocation::new("/data", OsFamily::Linux);
    let o = options(&location);
    let mut v = version();
    v.game_arguments = vec!["--width".to_string(), "${resolution_width}".to_string()];
    let arguments =
        generate_command_arguments(&location, &context(OsFamily::Linux), &o, &v).unwrap();
    assert_eq!(arguments.iter().filter(|a| *a == "--width").count(), 1);
    assert_eq!(arguments[arguments.len() - 2], "854");
    assert_eq!(arguments[arguments.len() - 1], "");
}

#[test]
fn command_line_needs_assets_and_index() {
    let location = MinecraftLocation::new("/data", OsFamily::Linux);
    let o = options(&location);
    let mut v = version();
    v.assets = None;
    match generate_command_arguments(&location, &context(OsFamily::Linux), &o, &v) {
        Err(Error::InvalidVersionJson(what)) => assert_eq!(what, "assets"),
        _ => panic!("expected InvalidVersionJson(assets)"),
    }
    let mut v = version();
    v.asset_index = None;
    match generate_command_arguments(&location, &context(OsFamily::Linux), &o, &v) {
        Err(Error::InvalidVersionJson(what)) => assert_eq!(what, "assetIndex"),
        _ => panic!("expected InvalidVersionJson(assetIndex)"),
    }
    assert!(physical_core_count() >= 1);
}

#[test]
fn launch_script_on_linux_and_windows() {
    let location = MinecraftLocation::new("/data", OsFamily::Linux);
    let mut o = options(&location);
    o.execute_before_launch = "echo before".to_string();
    o.execute_after_launch = "echo after".to_string();
    let arguments = vec!["-Xmx1M".to_string(), "Main".to_string()];
    let script = launch_script(OsFamily::Linux, "/data/instances/i", "/data/versions/v/conic-natives", &o, &arguments);
    assert_eq!(
        script,
        "#!/bin/bash\n\n# This file is automatically generated by Conic Launcher.\n# NOTE: Don't use this file to launch game.\n\ncd \"/data/instances/i\"\necho before\njava -Xmx1M Main\nrm -rf /data/versions/v/conic-natives\necho after\n"
    );
    o.wrap_command = "  ".to_string();
    let blank_wrap = launch_script(OsFamily::Macos, "/i", "/n", &o, &vec![]);
    assert_eq!(
        blank_wrap,
        "# This file is automatically generated by Conic Launcher.\n# NOTE: Don't use this file to launch game.\n\ncd \"/i\"\necho before\njava\nrm -rf /n\necho after\n"
    );
    o.wrap_command = "gamemoderun".to_string();
    let windows = launch_script(OsFamily::Windows, "C:\\i", "C:\\n", &o, &arguments);
    assert_eq!(
        windows,
        ":: This file is automatically generated by Conic Launcher.\n:: NOTE: Don't use this file to launch game.\n\ncd \"C:\\i\"\necho before\ngamemoderun java -Xmx1M Main\ndel /F /Q C:\\n\necho after\n"
    );
    assert_eq!(script_path(OsFamily::Linux, "/data/instances/i"), "/data/instances/i/.cache/launch.sh");
    assert_eq!(script_path(OsFamily::Windows, "C:\\i"), "C:\\i\\.cache\\launch.bat");
    assert_eq!(script_shell(OsFamily::Linux), Some("bash"));
    assert_eq!(script_shell(OsFamily::Macos), Some("bash"));
    assert_eq!(script_shell(OsFamily::Windows), None);
}

#[test]
fn the_game_output_shows_the_start() {
    assert!(is_launch_success("[12:00:00] [Render thread/INFO]: Backend library: LWJGL version 3.3.1"));
    assert!(is_launch_success("lwjgl version"));
    assert!(!is_launch_success("LWJGL  version"));
    assert!(!is_launch_success(""));
    assert_eq!(last_complete_line("a\nb\n"), Some("b".to_string()));
    assert_eq!(last_complete_line("a\nb\npartial"), Some("b".to_string()));
    assert_eq!(last_complete_line("only\n"), Some("only".to_string()));
    assert_eq!(last_complete_line("partial"), None);
    assert_eq!(last_complete_line(""), None);
}

#[test]
fn the_steps_of_a_launch() {
    let walk = |plan: LaunchPlan| {
        let mut steps = vec![];
        let mut step = next_launch_step(None, plan);
        while step != LaunchStep::Finished {
            steps.push(step);
            step = next_launch_step(Some(step), plan);
        }
        steps
    };
    assert_eq!(
        walk(LaunchPlan { refresh_account: true, check_files: true }),
        vec![
            LaunchStep::RefreshAccount,
            LaunchStep::CompleteFiles,
            LaunchStep::ResolveVersion,
            LaunchStep::UnpackNatives,
            LaunchStep::WriteScript,
            LaunchStep::RunGame,
        ]
    );
    assert_eq!(
        walk(LaunchPlan { refresh_account: false, check_files: true })[0],
        LaunchStep::CompleteFiles
    );
    assert_eq!(
        walk(LaunchPlan { refresh_account: true, check_files: false })[1],
        LaunchStep::ResolveVersion
    );
    assert_eq!(walk(LaunchPlan { refresh_account: false, check_files: false }).len(), 4);
    assert_eq!(
        next_launch_step(Some(LaunchStep::Finished), LaunchPlan { refresh_account: true, check_files: true }),
        LaunchStep::Finished
    );
    let (log, started) = scrape_line(7, "Backend library: LWJGL version 3.3.1".to_string());
    assert!(started);
    assert_eq!(log.instance_id, 7);
    assert_eq!(log.content, "Backend library: LWJGL version 3.3.1");
    assert!(!scrape_line(7, "Loading".to_string()).1);
}
