//! The command line of the Java runtime that starts the game.

use vstd::prelude::*;
use crate::config::launch::{Server, GC};
use crate::decimal::{decimal_digits, push_decimal};
use crate::download::mirror::{is_listed, listed};
use crate::error::Error;
use crate::folder::{jar_name_of, join_path, join_path_seq, version_root_of, MinecraftLocation};
use crate::launch::options::LaunchOptions;
use crate::launch::template::{entries, fill, fill_all, push_quoted, quoted};
use crate::named::{find_named, lookup_named};
use crate::outside::physical_cores;
use crate::platform::{delimiter_of, OsFamily};
use crate::text::{
    append_strings,
    join,
    join_seq,
    lemma_views_push,
    push_str,
    split_whitespace,
    string_of,
    views,
    words_seq,
};
use crate::version::library::{library_specs, LibrarySpec, ResolvedLibrary};
use crate::version::resolve::ResolvedVersion;

verus! {

/// What a command line is built from besides the options and the version.
#[derive(Debug)]
pub struct LaunchContext {
    /// The Minecraft version of the instance; its jar is named to the game.
    pub minecraft_version: String,
    /// The directory in which the game runs.
    pub game_directory: String,
    /// The version of the launcher.
    pub launcher_version: String,
    pub os_family: OsFamily,
    /// Whether the logging configuration of the version is on disk.
    pub log_config_exists: bool,
    /// The number of physical processor cores.
    pub physical_cores: usize,
}

/// The number of physical processor cores of this machine: at least one.
pub fn physical_core_count() -> (r: usize)
    ensures
        r >= 1,
{
    physical_cores()
}

/// The jar of a version.
pub open spec fn version_jar_of(location: MinecraftLocation, id: Seq<char>) -> Seq<char> {
    join_path_seq(
        version_root_of(location.versions@, id, location.separator),
        jar_name_of(id, None),
        location.separator,
    )
}

/// The directory into which the native libraries of a version are unpacked.
pub open spec fn natives_root_of(location: MinecraftLocation, id: Seq<char>) -> Seq<char> {
    join_path_seq(
        version_root_of(location.versions@, id, location.separator),
        "conic-natives"@,
        location.separator,
    )
}

/// The logging configuration of a version.
pub open spec fn log_config_of(location: MinecraftLocation, id: Seq<char>) -> Seq<char> {
    join_path_seq(
        version_root_of(location.versions@, id, location.separator),
        "log4j2.xml"@,
        location.separator,
    )
}

/// The icon that the game shows in the dock.
pub open spec fn icon_path_of(location: MinecraftLocation) -> Seq<char> {
    join_path_seq(location.assets@, "minecraft.icns"@, location.separator)
}

/// The system properties that come first: the client jar, and on macOS the
/// name and the icon for the dock.
pub open spec fn head_arguments(
    location: MinecraftLocation,
    minecraft_version: Seq<char>,
    family: OsFamily,
) -> Seq<Seq<char>> {
    seq!["\"-Dminecraft.client.jar="@ + version_jar_of(location, minecraft_version) + "\""@] + (
    if family == OsFamily::Macos {
        seq!["-Xdock:name=Minecraft"@, "-Xdock:icon="@ + quoted(icon_path_of(location), true)]
    } else {
        Seq::empty()
    })
}

/// The heap bounds: `-Xms` and `-Xmx` in megabytes, each only where it is
/// above zero.
pub open spec fn memory_arguments(min_memory: usize, max_memory: usize) -> Seq<Seq<char>> {
    (if min_memory > 0 {
        seq!["-Xms"@ + decimal_digits(min_memory as nat) + "M"@]
    } else {
        Seq::empty()
    }) + (if max_memory > 0 {
        seq!["-Xmx"@ + decimal_digits(max_memory as nat) + "M"@]
    } else {
        Seq::empty()
    })
}

/// The two switches for mod loaders of the Forge family.
pub open spec fn fml_arguments(ignore_certificates: bool, ignore_patches: bool) -> Seq<Seq<char>> {
    (if ignore_certificates {
        seq!["-Dfml.ignoreInvalidMinecraftCertificates=true"@]
    } else {
        Seq::empty()
    }) + (if ignore_patches {
        seq!["-Dfml.ignorePatchDiscrepancies=true"@]
    } else {
        Seq::empty()
    })
}

/// The flags that select a garbage collector.
pub open spec fn gc_arguments(gc: GC, cores: usize) -> Seq<Seq<char>> {
    match gc {
        GC::G1 => seq![
            "-XX:+UseG1GC"@,
            "-XX:+UnlockExperimentalVMOptions"@,
            "-XX:G1NewSizePercent=20"@,
            "-XX:G1ReservePercent=20"@,
            "-XX:MaxGCPauseMillis=50"@,
            "-XX:G1HeapRegionSize=16M"@,
        ],
        GC::Parallel => seq![
            "-XX:+UseParallelGC"@,
            "-XX:ParallelGCThreads="@ + decimal_digits(cores as nat),
        ],
        GC::ParallelOld => seq!["-XX:+UseParallelOldGC"@],
        GC::Serial => seq!["-XX:+UseSerialGC"@],
        GC::Z => seq!["-XX:+UseZGC"@],
    }
}

/// The class-path entries of the libraries: the jar of every library that
/// is no native archive, in order.
pub open spec fn library_entries(libraries: Seq<LibrarySpec>, location: MinecraftLocation) -> Seq<
    Seq<char>,
>
    decreases libraries.len(),
{
    if libraries.len() == 0 {
        Seq::empty()
    } else if libraries.last().native {
        library_entries(libraries.drop_last(), location)
    } else {
        library_entries(libraries.drop_last(), location).push(
            join_path_seq(location.libraries@, libraries.last().path, location.separator),
        )
    }
}

/// The archives of the native libraries, in order. They are unpacked
/// before the game starts.
pub open spec fn native_archives_of(libraries: Seq<LibrarySpec>, location: MinecraftLocation) -> Seq<
    Seq<char>,
>
    decreases libraries.len(),
{
    if libraries.len() == 0 {
        Seq::empty()
    } else if libraries.last().native {
        native_archives_of(libraries.drop_last(), location).push(
            join_path_seq(location.libraries@, libraries.last().path, location.separator),
        )
    } else {
        native_archives_of(libraries.drop_last(), location)
    }
}

/// The version whose client jar closes the class path: the root of the
/// inheritance chain where there is one, else the version itself.
pub open spec fn client_jar_owner(id: Seq<char>, inheritances: Seq<Seq<char>>) -> Seq<char> {
    if inheritances.len() > 0 {
        inheritances.last()
    } else {
        id
    }
}

/// The entries of the class path: the jars of the libraries, the extra
/// class path where it is not empty, and the client jar.
pub open spec fn classpath_entries(
    libraries: Seq<LibrarySpec>,
    id: Seq<char>,
    inheritances: Seq<Seq<char>>,
    location: MinecraftLocation,
    extra: Seq<char>,
) -> Seq<Seq<char>> {
    library_entries(libraries, location) + (if extra.len() > 0 {
        seq![extra]
    } else {
        Seq::empty()
    }) + seq![version_jar_of(location, client_jar_owner(id, inheritances))]
}

/// The jars of the libraries that go onto the class path.
pub fn library_classpath(libraries: &Vec<ResolvedLibrary>, location: &MinecraftLocation) -> (r: Vec<
    String,
>)
    ensures
        views(r@) == library_entries(library_specs(libraries@), *location),
{
    let mut out: Vec<String> = Vec::new();
    let mut i: usize = 0;
    let ghost specs = library_specs(libraries@);
    proof {
        assert(views(out@) =~= Seq::<Seq<char>>::empty());
    }
    while i < libraries.len()
        invariant
            i <= libraries.len(),
            specs == library_specs(libraries@),
            views(out@) == library_entries(specs.take(i as int), *location),
        decreases libraries.len() - i,
    {
        proof {
            assert(specs.take(i + 1).drop_last() == specs.take(i as int));
            assert(specs.take(i + 1).last() == libraries@[i as int]@);
        }
        match &libraries[i] {
            ResolvedLibrary::Common(info) => {
                let path = location.get_library_by_path(info.path.as_str());
                proof {
                    lemma_views_push(out@, path);
                }
                out.push(path);
            },
            ResolvedLibrary::Native(_) => {},
        }
        i += 1;
    }
    proof {
        assert(specs.take(specs.len() as int) == specs);
    }
    out
}

/// The archives of the native libraries of a version.
pub fn native_archives(libraries: &Vec<ResolvedLibrary>, location: &MinecraftLocation) -> (r: Vec<
    String,
>)
    ensures
        views(r@) == native_archives_of(library_specs(libraries@), *location),
{
    let mut out: Vec<String> = Vec::new();
    let mut i: usize = 0;
    let ghost specs = library_specs(libraries@);
    proof {
        assert(views(out@) =~= Seq::<Seq<char>>::empty());
    }
    while i < libraries.len()
        invariant
            i <= libraries.len(),
            specs == library_specs(libraries@),
            views(out@) == native_archives_of(specs.take(i as int), *location),
        decreases libraries.len() - i,
    {
        proof {
            assert(specs.take(i + 1).drop_last() == specs.take(i as int));
            assert(specs.take(i + 1).last() == libraries@[i as int]@);
        }
        match &libraries[i] {
            ResolvedLibrary::Native(info) => {
                let path = location.get_library_by_path(info.path.as_str());
                proof {
                    lemma_views_push(out@, path);
                }
                out.push(path);
            },
            ResolvedLibrary::Common(_) => {},
        }
        i += 1;
    }
    proof {
        assert(specs.take(specs.len() as int) == specs);
    }
    out
}

/// The class path of a version: its entries joined by the platform's
/// delimiter.
pub fn resolve_classpath(
    version: &ResolvedVersion,
    minecraft: &MinecraftLocation,
    extra_class_paths: &str,
    os_family: OsFamily,
) -> (r: String)
    ensures
        r@ == join_seq(
            classpath_entries(
                library_specs(version.libraries@),
                version.id@,
                views(version.inheritances@),
                *minecraft,
                extra_class_paths@,
            ),
            delimiter_of(os_family),
        ),
{
    let mut classpath = library_classpath(&version.libraries, minecraft);
    let ghost libs = views(classpath@);
    if !extra_class_paths.is_empty() {
        let extra = extra_class_paths.to_owned();
        proof {
            lemma_views_push(classpath@, extra);
        }
        classpath.push(extra);
    }
    let ghost middle = views(classpath@);
    let n = version.inheritances.len();
    let jar = if n > 0 {
        proof {
            assert(views(version.inheritances@).last() == version.inheritances@[n - 1]@);
        }
        minecraft.get_version_jar(version.inheritances[n - 1].as_str(), None)
    } else {
        minecraft.get_version_jar(version.id.as_str(), None)
    };
    proof {
        lemma_views_push(classpath@, jar);
        assert(views(classpath@.push(jar)) =~= classpath_entries(
            library_specs(version.libraries@),
            version.id@,
            views(version.inheritances@),
            *minecraft,
            extra_class_paths@,
        ));
    }
    classpath.push(jar);
    join(&classpath, os_family.delimiter())
}

/// The table from which the JVM arguments are filled.
pub open spec fn jvm_table(
    location: MinecraftLocation,
    version_id: Seq<char>,
    launcher_name: Seq<char>,
    launcher_version: Seq<char>,
    classpath: Seq<char>,
) -> Seq<(Seq<char>, Seq<char>)> {
    seq![
        ("natives_directory"@, natives_root_of(location, version_id)),
        ("launcher_name"@, launcher_name),
        ("launcher_version"@, launcher_version),
        ("classpath"@, classpath),
        ("version_name"@, version_id),
        ("library_directory"@, location.libraries@),
    ]
}

/// The table from which the game arguments are filled.
pub open spec fn game_table(
    location: MinecraftLocation,
    version_id: Seq<char>,
    asset_index_id: Seq<char>,
    assets: Seq<char>,
    game_directory: Seq<char>,
    options: LaunchOptions,
) -> Seq<(Seq<char>, Seq<char>)> {
    seq![
        ("version_name"@, version_id),
        ("version_type"@, options.launcher_name@),
        ("assets_root"@, location.assets@),
        ("asset_index"@, asset_index_id),
        ("assets_index_name"@, assets),
        ("game_directory"@, game_directory),
        ("auth_player_name"@, options.account_launch_info.name@),
        ("auth_uuid"@, options.account_launch_info.uuid@),
        ("auth_access_token"@, options.account_launch_info.access_token@),
        ("user_properties"@, options.properties@),
        ("user_type"@, "msa"@),
        ("resolution_width"@, decimal_digits(options.width as nat)),
        ("resolution_height"@, decimal_digits(options.height as nat)),
    ]
}

/// The argument that points the game's logging at the configuration file,
/// where the version has a logging configuration for the client and the
/// file is on disk.
pub open spec fn logging_arguments(
    version: ResolvedVersion,
    location: MinecraftLocation,
    log_config_exists: bool,
) -> Seq<Seq<char>> {
    match find_named(version.logging@, "client"@) {
        Some(logging) => if log_config_exists {
            seq![
                "\""@ + fill(
                    logging.argument@,
                    seq![("path"@, log_config_of(location, version.id@))],
                    false,
                ) + "\""@,
            ]
        } else {
            Seq::empty()
        },
        None => Seq::empty(),
    }
}

/// The arguments that make the game join a server.
pub open spec fn server_arguments(server: Option<Server>) -> Seq<Seq<char>> {
    match server {
        Some(server) => seq!["--server"@, server.ip@] + (match server.port {
            Some(port) => seq!["--port"@, decimal_digits(port as nat)],
            None => Seq::empty(),
        }),
        None => Seq::empty(),
    }
}

/// The arguments for the window: full screen where that is asked for, else
/// the size of the window unless the arguments before already give a width.
pub open spec fn window_arguments(
    before: Seq<Seq<char>>,
    fullscreen: bool,
    width: usize,
    height: usize,
) -> Seq<Seq<char>> {
    if fullscreen {
        seq!["--fullscreen"@]
    } else if !listed(before, "--width"@) {
        seq![
            "--width"@,
            decimal_digits(width as nat),
            "--height"@,
            decimal_digits(height as nat),
        ]
    } else {
        Seq::empty()
    }
}

/// The main class that is started where the version names none.
pub open spec fn default_main_class() -> Seq<char> {
    "net.minecraft.client.main.Main"@
}

/// The command line up to the window arguments: system properties, heap
/// bounds, Forge switches, garbage collector, the user's extra JVM
/// arguments split at white space, the logging argument and the version's
/// JVM arguments filled from the JVM table, the main class, the version's
/// game arguments filled from the game table with values that hold a blank
/// in quotes, the user's extra game arguments, and the server.
pub open spec fn arguments_before_window(
    location: MinecraftLocation,
    context: LaunchContext,
    options: LaunchOptions,
    version: ResolvedVersion,
    asset_index_id: Seq<char>,
    assets: Seq<char>,
) -> Seq<Seq<char>> {
    let classpath = join_seq(
        classpath_entries(
            library_specs(version.libraries@),
            version.id@,
            views(version.inheritances@),
            location,
            options.extra_class_paths@,
        ),
        delimiter_of(context.os_family),
    );
    head_arguments(location, context.minecraft_version@, context.os_family) + memory_arguments(
        options.min_memory,
        options.max_memory,
    ) + fml_arguments(
        options.ignore_invalid_minecraft_certificates,
        options.ignore_patch_discrepancies,
    ) + gc_arguments(options.gc, context.physical_cores) + words_seq(options.extra_jvm_args@)
        + fill_all(
        logging_arguments(version, location, context.log_config_exists) + views(
            version.jvm_arguments@,
        ),
        jvm_table(
            location,
            version.id@,
            options.launcher_name@,
            context.launcher_version@,
            classpath,
        ),
        false,
    ) + seq![
        match version.main_class {
            Some(main_class) => main_class@,
            None => default_main_class(),
        },
    ] + fill_all(
        views(version.game_arguments@),
        game_table(location, version.id@, asset_index_id, assets, context.game_directory@, options),
        true,
    ) + seq![options.extra_mc_args@] + server_arguments(options.server)
}

/// The whole command line: what comes before the window arguments, the
/// window arguments, and `--demo` for a demo launch.
pub open spec fn command_line(
    location: MinecraftLocation,
    context: LaunchContext,
    options: LaunchOptions,
    version: ResolvedVersion,
    asset_index_id: Seq<char>,
    assets: Seq<char>,
) -> Seq<Seq<char>> {
    let before = arguments_before_window(
        location,
        context,
        options,
        version,
        asset_index_id,
        assets,
    );
    before + window_arguments(before, options.fullscreen, options.width, options.height) + (
    if options.is_demo {
        seq!["--demo"@]
    } else {
        Seq::empty()
    })
}

/// The text of a number.
fn number_text(prefix: &str, n: u64, suffix: &str) -> (r: String)
    ensures
        r@ == prefix@ + decimal_digits(n as nat) + suffix@,
{
    let mut out: Vec<char> = Vec::new();
    push_str(&mut out, prefix);
    push_decimal(&mut out, n);
    push_str(&mut out, suffix);
    string_of(&out)
}

/// The system properties that come first.
pub fn head_section(location: &MinecraftLocation, minecraft_version: &str, os_family: OsFamily) -> (r:
    Vec<String>)
    ensures
        views(r@) == head_arguments(*location, minecraft_version@, os_family),
{
    let mut out: Vec<String> = Vec::new();
    let jar = location.get_version_jar(minecraft_version, None);
    let mut first: Vec<char> = Vec::new();
    push_str(&mut first, "\"-Dminecraft.client.jar=");
    push_str(&mut first, jar.as_str());
    push_str(&mut first, "\"");
    out.push(string_of(&first));
    if os_family == OsFamily::Macos {
        out.push("-Xdock:name=Minecraft".to_owned());
        let icon = join_path(location.assets.as_str(), "minecraft.icns", location.separator);
        let mut dock: Vec<char> = Vec::new();
        push_str(&mut dock, "-Xdock:icon=");
        push_quoted(&mut dock, icon.as_str(), true);
        out.push(string_of(&dock));
    }
    proof {
        assert(views(out@) =~= head_arguments(*location, minecraft_version@, os_family));
    }
    out
}

/// The heap bounds.
pub fn memory_section(min_memory: usize, max_memory: usize) -> (r: Vec<String>)
    ensures
        views(r@) == memory_arguments(min_memory, max_memory),
{
    let mut out: Vec<String> = Vec::new();
    if min_memory > 0 {
        out.push(number_text("-Xms", min_memory as u64, "M"));
    }
    if max_memory > 0 {
        out.push(number_text("-Xmx", max_memory as u64, "M"));
    }
    proof {
        assert(views(out@) =~= memory_arguments(min_memory, max_memory));
    }
    out
}

/// The two switches for mod loaders of the Forge family.
pub fn fml_section(ignore_certificates: bool, ignore_patches: bool) -> (r: Vec<String>)
    ensures
        views(r@) == fml_arguments(ignore_certificates, ignore_patches),
{
    let mut out: Vec<String> = Vec::new();
    if ignore_certificates {
        out.push("-Dfml.ignoreInvalidMinecraftCertificates=true".to_owned());
    }
    if ignore_patches {
        out.push("-Dfml.ignorePatchDiscrepancies=true".to_owned());
    }
    proof {
        assert(views(out@) =~= fml_arguments(ignore_certificates, ignore_patches));
    }
    out
}

/// The flags that select a garbage collector.
pub fn gc_section(gc: GC, cores: usize) -> (r: Vec<String>)
    ensures
        views(r@) == gc_arguments(gc, cores),
{
    let mut out: Vec<String> = Vec::new();
    match gc {
        GC::G1 => {
            out.push("-XX:+UseG1GC".to_owned());
            out.push("-XX:+UnlockExperimentalVMOptions".to_owned());
            out.push("-XX:G1NewSizePercent=20".to_owned());
            out.push("-XX:G1ReservePercent=20".to_owned());
            out.push("-XX:MaxGCPauseMillis=50".to_owned());
            out.push("-XX:G1HeapRegionSize=16M".to_owned());
        },
        GC::Parallel => {
            out.push("-XX:+UseParallelGC".to_owned());
            out.push(number_text("-XX:ParallelGCThreads=", cores as u64, ""));
            proof {
                assert("-XX:ParallelGCThreads="@ + decimal_digits(cores as nat) + ""@
                    =~= "-XX:ParallelGCThreads="@ + decimal_digits(cores as nat)) by {
                    reveal_strlit("");
                }
            }
        },
        GC::ParallelOld => {
            out.push("-XX:+UseParallelOldGC".to_owned());
        },
        GC::Serial => {
            out.push("-XX:+UseSerialGC".to_owned());
        },
        GC::Z => {
            out.push("-XX:+UseZGC".to_owned());
        },
    }
    proof {
        assert(views(out@) =~= gc_arguments(gc, cores));
    }
    out
}

/// The arguments that make the game join a server.
pub fn server_section(server: &Option<Server>) -> (r: Vec<String>)
    ensures
        views(r@) == server_arguments(*server),
{
    let mut out: Vec<String> = Vec::new();
    if let Some(server) = server {
        out.push("--server".to_owned());
        out.push(server.ip.clone());
        if let Some(port) = server.port {
            out.push("--port".to_owned());
            out.push(number_text("", port as u64, ""));
            proof {
                assert(""@ + decimal_digits(port as nat) + ""@ =~= decimal_digits(port as nat))
                    by {
                    reveal_strlit("");
                }
            }
        }
    }
    proof {
        assert(views(out@) =~= server_arguments(*server));
    }
    out
}

/// The arguments for the window.
pub fn window_section(before: &Vec<String>, fullscreen: bool, width: usize, height: usize) -> (r: Vec<
    String,
>)
    ensures
        views(r@) == window_arguments(views(before@), fullscreen, width, height),
{
    let mut out: Vec<String> = Vec::new();
    if fullscreen {
        out.push("--fullscreen".to_owned());
    } else if !is_listed(before, "--width") {
        out.push("--width".to_owned());
        out.push(number_text("", width as u64, ""));
        out.push("--height".to_owned());
        out.push(number_text("", height as u64, ""));
        proof {
            reveal_strlit("");
            assert(""@ + decimal_digits(width as nat) + ""@ =~= decimal_digits(width as nat));
            assert(""@ + decimal_digits(height as nat) + ""@ =~= decimal_digits(height as nat));
        }
    }
    proof {
        assert(views(out@) =~= window_arguments(views(before@), fullscreen, width, height));
    }
    out
}

/// Each template filled from a table.
pub fn format_all(templates: &Vec<String>, table: &Vec<(String, String)>, is_game_option: bool) -> (r:
    Vec<String>)
    ensures
        views(r@) == fill_all(views(templates@), entries(table@), is_game_option),
{
    let mut out: Vec<String> = Vec::new();
    let mut i: usize = 0;
    while i < templates.len()
        invariant
            i <= templates.len(),
            out@.len() == i,
            forall|j: int|
                0 <= j < i ==> (#[trigger] out@[j])@ == fill(
                    templates@[j]@,
                    entries(table@),
                    is_game_option,
                ),
        decreases templates.len() - i,
    {
        out.push(crate::launch::template::format(templates[i].as_str(), table, is_game_option));
        i += 1;
    }
    proof {
        assert(views(out@) =~= fill_all(views(templates@), entries(table@), is_game_option));
    }
    out
}

/// The logging argument of a version, if it has one and its file is there.
pub fn logging_section(version: &ResolvedVersion, location: &MinecraftLocation, log_config_exists: bool) -> (r:
    Vec<String>)
    ensures
        views(r@) == logging_arguments(*version, *location, log_config_exists),
{
    let mut out: Vec<String> = Vec::new();
    if let Some(logging) = lookup_named(&version.logging, "client") {
        if log_config_exists {
            let path = location.get_log_config(version.id.as_str());
            let mut table: Vec<(String, String)> = Vec::new();
            table.push(("path".to_owned(), path));
            proof {
                assert(entries(table@) =~= seq![("path"@, log_config_of(*location, version.id@))]);
            }
            let filled = crate::launch::template::format(logging.argument.as_str(), &table, false);
            let mut text: Vec<char> = Vec::new();
            push_str(&mut text, "\"");
            push_str(&mut text, filled.as_str());
            push_str(&mut text, "\"");
            out.push(string_of(&text));
        }
    }
    proof {
        assert(views(out@) =~= logging_arguments(*version, *location, log_config_exists));
    }
    out
}

/// The command line with which the Java runtime starts the game.
///
/// It fails where the version names no assets or has no asset index.
pub fn generate_command_arguments(
    minecraft_location: &MinecraftLocation,
    context: &LaunchContext,
    launch_options: &LaunchOptions,
    version: &ResolvedVersion,
) -> (r: Result<Vec<String>, Error>)
    ensures
        match r {
            Ok(arguments) => version.assets matches Some(assets) && version.asset_index matches Some(
                index,
            ) && views(arguments@) == command_line(
                *minecraft_location,
                *context,
                *launch_options,
                *version,
                index.id@,
                assets@,
            ),
            Err(e) => e matches Error::InvalidVersionJson(what) && (if version.assets is None {
                what@ == "assets"@
            } else {
                version.asset_index is None && what@ == "assetIndex"@
            }),
        },
{
    let assets = match &version.assets {
        Some(assets) => assets,
        None => {
            return Err(Error::InvalidVersionJson("assets".to_owned()));
        },
    };
    let asset_index = match &version.asset_index {
        Some(index) => index,
        None => {
            return Err(Error::InvalidVersionJson("assetIndex".to_owned()));
        },
    };
    let family = context.os_family;
    let mut command = head_section(
        minecraft_location,
        context.minecraft_version.as_str(),
        family,
    );
    append_strings(
        &mut command,
        memory_section(launch_options.min_memory, launch_options.max_memory),
    );
    append_strings(
        &mut command,
        fml_section(
            launch_options.ignore_invalid_minecraft_certificates,
            launch_options.ignore_patch_discrepancies,
        ),
    );
    append_strings(&mut command, gc_section(launch_options.gc, context.physical_cores));
    append_strings(&mut command, split_whitespace(launch_options.extra_jvm_args.as_str()));

    let classpath = resolve_classpath(
        version,
        minecraft_location,
        launch_options.extra_class_paths.as_str(),
        family,
    );
    let mut jvm_options: Vec<(String, String)> = Vec::new();
    jvm_options.push(
        (
            "natives_directory".to_owned(),
            minecraft_location.get_natives_root(version.id.as_str()),
        ),
    );
    jvm_options.push(("launcher_name".to_owned(), launch_options.launcher_name.clone()));
    jvm_options.push(("launcher_version".to_owned(), context.launcher_version.clone()));
    jvm_options.push(("classpath".to_owned(), classpath));
    jvm_options.push(("version_name".to_owned(), version.id.clone()));
    jvm_options.push(("library_directory".to_owned(), minecraft_location.libraries.clone()));
    proof {
        assert(entries(jvm_options@) =~= jvm_table(
            *minecraft_location,
            version.id@,
            launch_options.launcher_name@,
            context.launcher_version@,
            classpath@,
        ));
    }
    let mut jvm_templates = logging_section(version, minecraft_location, context.log_config_exists);
    let mut i: usize = 0;
    let ghost logging = views(jvm_templates@);
    proof {
        assert(views(version.jvm_arguments@).take(0) =~= Seq::<Seq<char>>::empty());
        assert(logging + Seq::<Seq<char>>::empty() =~= logging);
    }
    while i < version.jvm_arguments.len()
        invariant
            i <= version.jvm_arguments.len(),
            views(jvm_templates@) == logging + views(version.jvm_arguments@).take(i as int),
        decreases version.jvm_arguments.len() - i,
    {
        let text = version.jvm_arguments[i].clone();
        proof {
            lemma_views_push(jvm_templates@, text);
            assert(views(version.jvm_arguments@).take(i + 1) =~= views(
                version.jvm_arguments@,
            ).take(i as int).push(text@));
            assert((logging + views(version.jvm_arguments@).take(i as int)).push(text@)
                =~= logging + views(version.jvm_arguments@).take(i + 1));
        }
        jvm_templates.push(text);
        i += 1;
    }
    proof {
        assert(views(version.jvm_arguments@).take(version.jvm_arguments@.len() as int) =~= views(
            version.jvm_arguments@,
        ));
    }
    append_strings(&mut command, format_all(&jvm_templates, &jvm_options, false));

    let main_class = match &version.main_class {
        Some(main_class) => main_class.clone(),
        None => "net.minecraft.client.main.Main".to_owned(),
    };
    proof {
        lemma_views_push(command@, main_class);
    }
    command.push(main_class);

    let mut game_options: Vec<(String, String)> = Vec::new();
    game_options.push(("version_name".to_owned(), version.id.clone()));
    game_options.push(("version_type".to_owned(), launch_options.launcher_name.clone()));
    game_options.push(("assets_root".to_owned(), minecraft_location.assets.clone()));
    game_options.push(("asset_index".to_owned(), asset_index.id.clone()));
    game_options.push(("assets_index_name".to_owned(), assets.clone()));
    game_options.push(("game_directory".to_owned(), context.game_directory.clone()));
    game_options.push(
        ("auth_player_name".to_owned(), launch_options.account_launch_info.name.clone()),
    );
    game_options.push(("auth_uuid".to_owned(), launch_options.account_launch_info.uuid.clone()));
    game_options.push(
        ("auth_access_token".to_owned(), launch_options.account_launch_info.access_token.clone()),
    );
    game_options.push(("user_properties".to_owned(), launch_options.properties.clone()));
    game_options.push(("user_type".to_owned(), "msa".to_owned()));
    game_options.push(
        ("resolution_width".to_owned(), number_text("", launch_options.width as u64, "")),
    );
    game_options.push(
        ("resolution_height".to_owned(), number_text("", launch_options.height as u64, "")),
    );
    proof {
        reveal_strlit("");
        assert(""@ + decimal_digits(launch_options.width as nat) + ""@ =~= decimal_digits(
            launch_options.width as nat,
        ));
        assert(""@ + decimal_digits(launch_options.height as nat) + ""@ =~= decimal_digits(
            launch_options.height as nat,
        ));
        assert(entries(game_options@) =~= game_table(
            *minecraft_location,
            version.id@,
            asset_index.id@,
            assets@,
            context.game_directory@,
            *launch_options,
        ));
    }
    append_strings(&mut command, format_all(&version.game_arguments, &game_options, true));
    let extra_mc = launch_options.extra_mc_args.clone();
    proof {
        lemma_views_push(command@, extra_mc);
    }
    command.push(extra_mc);
    append_strings(&mut command, server_section(&launch_options.server));
    proof {
        assert(views(command@) =~= arguments_before_window(
            *minecraft_location,
            *context,
            *launch_options,
            *version,
            asset_index.id@,
            assets@,
        ));
    }
    let window = window_section(
        &command,
        launch_options.fullscreen,
        launch_options.width,
        launch_options.height,
    );
    append_strings(&mut command, window);
    if launch_options.is_demo {
        let demo = "--demo".to_owned();
        proof {
            lemma_views_push(command@, demo);
        }
        command.push(demo);
    }
    proof {
        assert(views(command@) =~= command_line(
            *minecraft_location,
            *context,
            *launch_options,
            *version,
            asset_index.id@,
            assets@,
        ));
    }
    Ok(command)
}

} // verus!
