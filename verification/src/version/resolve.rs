//! Resolution of a descriptor and its ancestors into one flat manifest.
//!
//! The chain of descriptors is merged root first, so that what a child says
//! overrides what its parent said.

use vstd::prelude::*;
use crate::error::Error;
use crate::folder::{join_path_seq, version_root_of, MinecraftLocation};
use crate::json::Json;
use crate::named::{distinct_names, find_named, lookup_named, upsert_named, Named};
use crate::platform::PlatformInfo;
use crate::text::{lemma_views_push, views};
use crate::version::argument::{resolve_arguments, resolve_arguments_spec};
use crate::version::library::{
    all_distinct,
    dedup_libraries,
    deduped,
    library_specs,
    reports_library_failure,
    resolve_libraries,
    resolve_libraries_spec,
    LibrariesOutcome,
    LibrarySpec,
    ResolvedLibrary,
};
use crate::version::model::{Arguments, AssetIndex, Download, JavaVersion, Logging, Version};

verus! {

/// A descriptor with all its ancestors merged in, ready to install and
/// launch from.
#[derive(Debug)]
pub struct ResolvedVersion {
    pub id: String,
    pub game_arguments: Vec<String>,
    pub jvm_arguments: Vec<String>,
    pub main_class: Option<String>,
    pub asset_index: Option<AssetIndex>,
    pub assets: Option<String>,
    pub downloads: Vec<Named<Download>>,
    pub libraries: Vec<ResolvedLibrary>,
    pub minimum_launcher_version: i32,
    pub release_time: Option<String>,
    pub time: Option<String>,
    pub version_type: Option<String>,
    pub logging: Vec<Named<Logging>>,
    pub java_version: JavaVersion,
    /// The ancestors in walk order: the parent first, the root last.
    pub inheritances: Vec<String>,
    /// The descriptor files of the ancestors, in the same order.
    pub path_chain: Vec<String>,
}

/// The game arguments of a descriptor older than launcher version 21.
pub open spec fn legacy_game_arguments() -> Seq<Seq<char>> {
    seq![
        "--username"@,
        "${auth_player_name}"@,
        "--version"@,
        "${version_name}"@,
        "--gameDir"@,
        "${game_directory}"@,
        "--assetsDir"@,
        "${assets_root}"@,
        "--assetIndex"@,
        "${asset_index}"@,
        "--uuid"@,
        "${auth_uuid}"@,
        "--accessToken"@,
        "${auth_access_token}"@,
        "--clientId"@,
        "${clientid}"@,
        "--xuid"@,
        "${auth_xuid}"@,
        "--userType"@,
        "${user_type}"@,
        "--versionType"@,
        "${version_type}"@,
        "--width"@,
        "${resolution_width}"@,
        "--height"@,
        "${resolution_height}"@,
    ]
}

/// The JVM arguments of a descriptor older than launcher version 21.
pub open spec fn legacy_jvm_arguments() -> Seq<Seq<char>> {
    seq![
        "\"-Djava.library.path=${natives_directory}\""@,
        "\"-Dminecraft.launcher.brand=${launcher_name}\""@,
        "\"-Dminecraft.launcher.version=${launcher_version}\""@,
        "\"-Dfile.encoding=UTF-8\""@,
        "\"-Dsun.stdout.encoding=UTF-8\""@,
        "\"-Dsun.stderr.encoding=UTF-8\""@,
        "\"-Djava.rmi.server.useCodebaseOnly=true\""@,
        "\"-XX:MaxInlineSize=420\""@,
        "\"-XX:-UseAdaptiveSizePolicy\""@,
        "\"-XX:-OmitStackTraceInFastThrow\""@,
        "\"-XX:-DontCompileHugeMethods\""@,
        "\"-Dcom.sun.jndi.rmi.object.trustURLCodebase=false\""@,
        "\"-Dcom.sun.jndi.cosnaming.object.trustURLCodebase=false\""@,
        "\"-Dlog4j2.formatMsgNoLookups=true\""@,
        "-cp"@,
        "${classpath}"@,
    ]
}

/// The legacy game arguments.
pub fn default_game_args() -> (r: Vec<String>)
    ensures
        views(r@) == legacy_game_arguments(),
{
    let mut out: Vec<String> = Vec::new();
    out.push("--username".to_owned());
    out.push("${auth_player_name}".to_owned());
    out.push("--version".to_owned());
    out.push("${version_name}".to_owned());
    out.push("--gameDir".to_owned());
    out.push("${game_directory}".to_owned());
    out.push("--assetsDir".to_owned());
    out.push("${assets_root}".to_owned());
    out.push("--assetIndex".to_owned());
    out.push("${asset_index}".to_owned());
    out.push("--uuid".to_owned());
    out.push("${auth_uuid}".to_owned());
    out.push("--accessToken".to_owned());
    out.push("${auth_access_token}".to_owned());
    out.push("--clientId".to_owned());
    out.push("${clientid}".to_owned());
    out.push("--xuid".to_owned());
    out.push("${auth_xuid}".to_owned());
    out.push("--userType".to_owned());
    out.push("${user_type}".to_owned());
    out.push("--versionType".to_owned());
    out.push("${version_type}".to_owned());
    out.push("--width".to_owned());
    out.push("${resolution_width}".to_owned());
    out.push("--height".to_owned());
    out.push("${resolution_height}".to_owned());
    proof {
        assert(views(out@) =~= legacy_game_arguments());
    }
    out
}

/// The legacy JVM arguments.
pub fn default_jvm_args() -> (r: Vec<String>)
    ensures
        views(r@) == legacy_jvm_arguments(),
{
    let mut out: Vec<String> = Vec::new();
    out.push("\"-Djava.library.path=${natives_directory}\"".to_owned());
    out.push("\"-Dminecraft.launcher.brand=${launcher_name}\"".to_owned());
    out.push("\"-Dminecraft.launcher.version=${launcher_version}\"".to_owned());
    out.push("\"-Dfile.encoding=UTF-8\"".to_owned());
    out.push("\"-Dsun.stdout.encoding=UTF-8\"".to_owned());
    out.push("\"-Dsun.stderr.encoding=UTF-8\"".to_owned());
    out.push("\"-Djava.rmi.server.useCodebaseOnly=true\"".to_owned());
    out.push("\"-XX:MaxInlineSize=420\"".to_owned());
    out.push("\"-XX:-UseAdaptiveSizePolicy\"".to_owned());
    out.push("\"-XX:-OmitStackTraceInFastThrow\"".to_owned());
    out.push("\"-XX:-DontCompileHugeMethods\"".to_owned());
    out.push("\"-Dcom.sun.jndi.rmi.object.trustURLCodebase=false\"".to_owned());
    out.push("\"-Dcom.sun.jndi.cosnaming.object.trustURLCodebase=false\"".to_owned());
    out.push("\"-Dlog4j2.formatMsgNoLookups=true\"".to_owned());
    out.push("-cp".to_owned());
    out.push("${classpath}".to_owned());
    proof {
        assert(views(out@) =~= legacy_jvm_arguments());
    }
    out
}

/// What the merge of some descriptors has come to, over plain values.
pub struct Merged {
    pub id: Seq<char>,
    pub minimum_launcher_version: i32,
    pub release_time: Option<String>,
    pub time: Option<String>,
    pub version_type: Option<String>,
    pub main_class: Option<String>,
    pub assets: Option<String>,
    pub asset_index: Option<AssetIndex>,
    pub java_component: Seq<char>,
    pub java_major_version: i32,
    pub logging: Seq<Named<Logging>>,
    pub libraries: LibrariesOutcome,
    pub jvm_arguments: Seq<Seq<char>>,
    pub game_arguments: Seq<Seq<char>>,
}

/// The merge of no descriptors.
pub open spec fn merged_nothing() -> Merged {
    Merged {
        id: Seq::empty(),
        minimum_launcher_version: 0,
        release_time: None,
        time: None,
        version_type: None,
        main_class: None,
        assets: None,
        asset_index: None,
        java_component: "jre-legacy"@,
        java_major_version: 8,
        logging: Seq::empty(),
        libraries: LibrariesOutcome::Resolved(Seq::empty()),
        jvm_arguments: Seq::empty(),
        game_arguments: Seq::empty(),
    }
}

/// `newer` where it says something, else `older`.
pub open spec fn overriding<T>(older: Option<T>, newer: Option<T>) -> Option<T> {
    if newer is Some {
        newer
    } else {
        older
    }
}

/// The larger of `older` and what `newer` says, if it says something.
pub open spec fn raised(older: i32, newer: Option<i32>) -> i32 {
    match newer {
        Some(own) => if own > older {
            own
        } else {
            older
        },
        None => older,
    }
}

/// What the JVM argument list of a descriptor contributes.
pub open spec fn jvm_contribution(
    arguments: Option<Arguments>,
    platform: PlatformInfo,
    enabled: Seq<Seq<char>>,
) -> Seq<Seq<char>> {
    match arguments {
        Some(Arguments { jvm: Some(items), .. }) => resolve_arguments_spec(
            items@,
            platform,
            enabled,
        ),
        _ => Seq::empty(),
    }
}

/// What the game argument list of a descriptor contributes.
pub open spec fn game_contribution(
    arguments: Option<Arguments>,
    platform: PlatformInfo,
    enabled: Seq<Seq<char>>,
) -> Seq<Seq<char>> {
    match arguments {
        Some(Arguments { game: Some(items), .. }) => resolve_arguments_spec(
            items@,
            platform,
            enabled,
        ),
        _ => Seq::empty(),
    }
}

/// The libraries so far with those of one more descriptor behind them; a
/// failure once met stays.
pub open spec fn libraries_joined(
    sofar: LibrariesOutcome,
    libraries: Option<Vec<Json>>,
    platform: PlatformInfo,
) -> LibrariesOutcome {
    match (sofar, libraries) {
        (LibrariesOutcome::Resolved(before), Some(records)) => match resolve_libraries_spec(
            records@,
            platform,
        ) {
            LibrariesOutcome::Resolved(more) => LibrariesOutcome::Resolved(before + more),
            failed => failed,
        },
        _ => sofar,
    }
}

/// The merge `acc` with one more descriptor merged in, the descriptor
/// overriding what it speaks of: identifier, times, type, main class,
/// assets, asset index and Java version are replaced where the descriptor
/// has them; the minimum launcher version is the larger one; a non-empty
/// logging replaces; libraries and arguments are added behind.
pub open spec fn merge_step(
    acc: Merged,
    v: Version,
    platform: PlatformInfo,
    enabled: Seq<Seq<char>>,
) -> Merged {
    Merged {
        id: if v.id@.len() > 0 {
            v.id@
        } else {
            acc.id
        },
        minimum_launcher_version: raised(acc.minimum_launcher_version, v.minimum_launcher_version),
        release_time: overriding(acc.release_time, v.release_time),
        time: overriding(acc.time, v.time),
        version_type: overriding(acc.version_type, v.kind),
        main_class: overriding(acc.main_class, v.main_class),
        assets: overriding(acc.assets, v.assets),
        asset_index: overriding(acc.asset_index, v.asset_index),
        java_component: match v.java_version {
            Some(java) => java.component@,
            None => acc.java_component,
        },
        java_major_version: match v.java_version {
            Some(java) => java.major_version,
            None => acc.java_major_version,
        },
        logging: match v.logging {
            Some(logging) => if logging@.len() > 0 {
                logging@
            } else {
                acc.logging
            },
            None => acc.logging,
        },
        libraries: libraries_joined(acc.libraries, v.libraries, platform),
        jvm_arguments: acc.jvm_arguments + jvm_contribution(v.arguments, platform, enabled),
        game_arguments: acc.game_arguments + game_contribution(v.arguments, platform, enabled),
    }
}

/// The merge of the descriptors of `order`, the root first.
pub open spec fn merged(order: Seq<Version>, platform: PlatformInfo, enabled: Seq<Seq<char>>) -> Merged
    decreases order.len(),
{
    if order.len() == 0 {
        merged_nothing()
    } else {
        merge_step(merged(order.drop_last(), platform, enabled), order.last(), platform, enabled)
    }
}

/// The download filed under `name` after the merge of `order`: that of the
/// last descriptor that has one.
pub open spec fn merged_download(order: Seq<Version>, name: Seq<char>) -> Option<Download>
    decreases order.len(),
{
    if order.len() == 0 {
        None
    } else {
        match order.last().downloads {
            Some(downloads) => overriding(
                merged_download(order.drop_last(), name),
                find_named(downloads@, name),
            ),
            None => merged_download(order.drop_last(), name),
        }
    }
}

/// The libraries of a finished merge: those that were merged, without the
/// ones that a later one shadows.
pub open spec fn final_libraries(m: Merged) -> LibrariesOutcome {
    match m.libraries {
        LibrariesOutcome::Resolved(libraries) => LibrariesOutcome::Resolved(deduped(libraries)),
        failed => failed,
    }
}

/// The JVM arguments of a finished merge: the legacy list below launcher
/// version 21, else what was merged.
pub open spec fn final_jvm_arguments(m: Merged) -> Seq<Seq<char>> {
    if m.minimum_launcher_version < 21 {
        legacy_jvm_arguments()
    } else {
        m.jvm_arguments
    }
}

/// The game arguments of a finished merge: the legacy list below launcher
/// version 21, else what was merged.
pub open spec fn final_game_arguments(m: Merged) -> Seq<Seq<char>> {
    if m.minimum_launcher_version < 21 {
        legacy_game_arguments()
    } else {
        m.game_arguments
    }
}

/// The first required part that a finished merge lacks, if it lacks one.
pub open spec fn missing_part(m: Merged, client: Option<Download>) -> Option<Seq<char>> {
    if m.id.len() == 0 {
        Some("id"@)
    } else if client is None {
        Some("downloads.client"@)
    } else if m.asset_index is None {
        Some("assetIndex"@)
    } else if !(m.libraries matches LibrariesOutcome::Resolved(libraries) && libraries.len() > 0) {
        Some("libraries"@)
    } else if final_jvm_arguments(m).len() == 0 {
        Some("arguments.jvm"@)
    } else if m.java_component.len() == 0 {
        Some("javaVersion.component"@)
    } else {
        None
    }
}

/// The ancestors that the descriptors of a chain name, in walk order.
pub open spec fn inheritances_of(walk: Seq<Version>) -> Seq<Seq<char>>
    decreases walk.len(),
{
    if walk.len() == 0 {
        Seq::empty()
    } else {
        match walk.last().inherits_from {
            Some(parent) => inheritances_of(walk.drop_last()).push(parent@),
            None => inheritances_of(walk.drop_last()),
        }
    }
}

/// The descriptor file of the version `id`.
pub open spec fn version_json_of(minecraft: MinecraftLocation, id: Seq<char>) -> Seq<char> {
    join_path_seq(
        version_root_of(minecraft.versions@, id, minecraft.separator),
        id + ".json"@,
        minecraft.separator,
    )
}

/// The descriptor files of a list of versions.
pub open spec fn version_jsons_of(minecraft: MinecraftLocation, ids: Seq<Seq<char>>) -> Seq<Seq<char>> {
    Seq::new(ids.len(), |i: int| version_json_of(minecraft, ids[i]))
}

impl ResolvedVersion {
    /// The record over plain values.
    pub open spec fn summary(self) -> Merged {
        Merged {
            id: self.id@,
            minimum_launcher_version: self.minimum_launcher_version,
            release_time: self.release_time,
            time: self.time,
            version_type: self.version_type,
            main_class: self.main_class,
            assets: self.assets,
            asset_index: self.asset_index,
            java_component: self.java_version.component@,
            java_major_version: self.java_version.major_version,
            logging: self.logging@,
            libraries: LibrariesOutcome::Resolved(library_specs(self.libraries@)),
            jvm_arguments: views(self.jvm_arguments@),
            game_arguments: views(self.game_arguments@),
        }
    }

    /// What holds of every resolved version: it has an identifier, a client
    /// download among downloads of which no two have the same name, an
    /// asset index, libraries of which no two are the same file, JVM
    /// arguments and a Java component.
    pub open spec fn wf(self) -> bool {
        &&& self.id@.len() > 0
        &&& find_named(self.downloads@, "client"@) is Some
        &&& distinct_names(self.downloads@)
        &&& self.asset_index is Some
        &&& self.libraries@.len() > 0
        &&& all_distinct(library_specs(self.libraries@))
        &&& self.jvm_arguments@.len() > 0
        &&& self.java_version.component@.len() > 0
    }

    /// The record before anything is merged into it.
    pub fn new() -> (r: ResolvedVersion)
        ensures
            r.summary() == merged_nothing(),
            r.downloads@.len() == 0,
            r.inheritances@.len() == 0,
            r.path_chain@.len() == 0,
    {
        let r = ResolvedVersion {
            id: String::new(),
            game_arguments: Vec::new(),
            jvm_arguments: Vec::new(),
            main_class: None,
            asset_index: None,
            assets: None,
            downloads: Vec::new(),
            libraries: Vec::new(),
            minimum_launcher_version: 0,
            release_time: None,
            time: None,
            version_type: None,
            logging: Vec::new(),
            java_version: JavaVersion::default(),
            inheritances: Vec::new(),
            path_chain: Vec::new(),
        };
        proof {
            assert(library_specs(r.libraries@) =~= Seq::<LibrarySpec>::empty());
            assert(views(r.jvm_arguments@) =~= Seq::<Seq<char>>::empty());
            assert(views(r.game_arguments@) =~= Seq::<Seq<char>>::empty());
            assert(r.logging@ =~= Seq::<Named<Logging>>::empty());
        }
        r
    }

    /// Takes the identifier of a descriptor unless it is empty.
    pub fn join_id(&mut self, id: String)
        ensures
            *final(self) == (ResolvedVersion {
                id: if id@.len() > 0 {
                    id
                } else {
                    old(self).id
                },
                ..*old(self)
            }),
    {
        if !id.as_str().is_empty() {
            self.id = id;
        }
    }

    /// Raises the minimum launcher version to that of a descriptor.
    pub fn join_minimum_launcher_version(&mut self, version: Option<i32>)
        ensures
            *final(self) == (ResolvedVersion {
                minimum_launcher_version: raised(old(self).minimum_launcher_version, version),
                ..*old(self)
            }),
    {
        if let Some(own) = version {
            if own > self.minimum_launcher_version {
                self.minimum_launcher_version = own;
            }
        }
    }

    /// Takes the release time of a descriptor that has one.
    pub fn join_release_time(&mut self, release_time: Option<String>)
        ensures
            *final(self) == (ResolvedVersion {
                release_time: overriding(old(self).release_time, release_time),
                ..*old(self)
            }),
    {
        if release_time.is_some() {
            self.release_time = release_time;
        }
    }

    /// Takes the time of a descriptor that has one.
    pub fn join_time(&mut self, time: Option<String>)
        ensures
            *final(self) == (ResolvedVersion { time: overriding(old(self).time, time), ..*old(self) }),
    {
        if time.is_some() {
            self.time = time;
        }
    }

    /// Takes the logging configurations of a descriptor that has some.
    pub fn join_logging(&mut self, logging: Option<Vec<Named<Logging>>>)
        ensures
            *final(self) == (ResolvedVersion {
                logging: match logging {
                    Some(own) => if own@.len() > 0 {
                        own
                    } else {
                        old(self).logging
                    },
                    None => old(self).logging,
                },
                ..*old(self)
            }),
    {
        if let Some(own) = logging {
            if own.len() > 0 {
                self.logging = own;
            }
        }
    }

    /// Takes the assets name of a descriptor that has one.
    pub fn join_assets(&mut self, assets: Option<String>)
        ensures
            *final(self) == (ResolvedVersion {
                assets: overriding(old(self).assets, assets),
                ..*old(self)
            }),
    {
        if assets.is_some() {
            self.assets = assets;
        }
    }

    /// Takes the type of a descriptor that has one.
    pub fn join_version_type(&mut self, version_type: Option<String>)
        ensures
            *final(self) == (ResolvedVersion {
                version_type: overriding(old(self).version_type, version_type),
                ..*old(self)
            }),
    {
        if version_type.is_some() {
            self.version_type = version_type;
        }
    }

    /// Takes the main class of a descriptor that has one.
    pub fn join_main_class(&mut self, main_class: Option<String>)
        ensures
            *final(self) == (ResolvedVersion {
                main_class: overriding(old(self).main_class, main_class),
                ..*old(self)
            }),
    {
        if main_class.is_some() {
            self.main_class = main_class;
        }
    }

    /// Takes the Java version of a descriptor that has one.
    pub fn join_java_version(&mut self, java_version: Option<JavaVersion>)
        ensures
            *final(self) == (ResolvedVersion {
                java_version: match java_version {
                    Some(own) => own,
                    None => old(self).java_version,
                },
                ..*old(self)
            }),
    {
        if let Some(own) = java_version {
            self.java_version = own;
        }
    }

    /// Takes the asset index of a descriptor that has one.
    pub fn join_asset_index(&mut self, asset_index: Option<AssetIndex>)
        ensures
            *final(self) == (ResolvedVersion {
                asset_index: overriding(old(self).asset_index, asset_index),
                ..*old(self)
            }),
    {
        if asset_index.is_some() {
            self.asset_index = asset_index;
        }
    }

    /// Files the downloads of a descriptor, each in place of what was filed
    /// under its name before.
    pub fn join_downloads(&mut self, downloads: Option<Vec<Named<Download>>>)
        ensures
            forall|name: Seq<char>|
                find_named(final(self).downloads@, name) == (match downloads {
                    Some(own) => overriding(
                        find_named(old(self).downloads@, name),
                        find_named(own@, name),
                    ),
                    None => find_named(old(self).downloads@, name),
                }),
            *final(self) == (ResolvedVersion { downloads: final(self).downloads, ..*old(self) }),
            distinct_names(old(self).downloads@) ==> distinct_names(final(self).downloads@),
    {
        let ghost before = self.downloads@;
        if let Some(own) = downloads {
            let ghost all = own@;
            let mut rest = own;
            proof {
                assert(all.skip(all.len() as int) =~= Seq::<Named<Download>>::empty());
            }
            while rest.len() > 0
                invariant
                    rest@.len() <= all.len(),
                    rest@ == all.take(rest@.len() as int),
                    forall|name: Seq<char>|
                        find_named(self.downloads@, name) == overriding(
                            find_named(before, name),
                            find_named(all.skip(rest@.len() as int), name),
                        ),
                    *self == (ResolvedVersion { downloads: self.downloads, ..*old(self) }),
                    distinct_names(before) ==> distinct_names(self.downloads@),
                decreases rest.len(),
            {
                let ghost n = rest@.len() as int;
                let ghost current = self.downloads@;
                let entry = rest.pop().unwrap();
                proof {
                    assert(entry == all[n - 1]);
                    assert(all.skip(n - 1).drop_first() =~= all.skip(n));
                    assert(all.skip(n - 1)[0] == entry);
                    assert(rest@ =~= all.take(n - 1));
                }
                let Named { name, value } = entry;
                upsert_named(&mut self.downloads, name, value);
            }
            proof {
                assert(all.skip(0) =~= all);
            }
        }
    }

    /// Adds the resolved JVM arguments of a descriptor.
    pub fn join_jvm_arguments(
        &mut self,
        arguments: &Option<Arguments>,
        platform: &PlatformInfo,
        enabled_features: &Vec<String>,
    )
        ensures
            views(final(self).jvm_arguments@) == views(old(self).jvm_arguments@)
                + jvm_contribution(*arguments, *platform, views(enabled_features@)),
            *final(self) == (ResolvedVersion {
                jvm_arguments: final(self).jvm_arguments,
                ..*old(self)
            }),
    {
        let ghost before = self.jvm_arguments@;
        if let Some(arguments) = arguments {
            if let Some(items) = &arguments.jvm {
                let mut more = resolve_arguments(items, platform, enabled_features);
                let ghost added = more@;
                self.jvm_arguments.append(&mut more);
                proof {
                    assert(views(self.jvm_arguments@) =~= views(before) + views(added));
                }
                return ;
            }
        }
        proof {
            assert(views(before) + Seq::<Seq<char>>::empty() =~= views(before));
        }
    }

    /// Adds the resolved game arguments of a descriptor.
    pub fn join_game_arguments(
        &mut self,
        arguments: &Option<Arguments>,
        platform: &PlatformInfo,
        enabled_features: &Vec<String>,
    )
        ensures
            views(final(self).game_arguments@) == views(old(self).game_arguments@)
                + game_contribution(*arguments, *platform, views(enabled_features@)),
            *final(self) == (ResolvedVersion {
                game_arguments: final(self).game_arguments,
                ..*old(self)
            }),
    {
        let ghost before = self.game_arguments@;
        if let Some(arguments) = arguments {
            if let Some(items) = &arguments.game {
                let mut more = resolve_arguments(items, platform, enabled_features);
                let ghost added = more@;
                self.game_arguments.append(&mut more);
                proof {
                    assert(views(self.game_arguments@) =~= views(before) + views(added));
                }
                return ;
            }
        }
        proof {
            assert(views(before) + Seq::<Seq<char>>::empty() =~= views(before));
        }
    }

    /// Adds the resolved libraries of a descriptor behind those that are
    /// there. Where a record fails, the record is left as it was.
    pub fn join_libraries(&mut self, libraries: &Option<Vec<Json>>, platform: &PlatformInfo) -> (r:
        Result<(), Error>)
        ensures
            match r {
                Ok(()) => LibrariesOutcome::Resolved(library_specs(final(self).libraries@))
                    == libraries_joined(
                    LibrariesOutcome::Resolved(library_specs(old(self).libraries@)),
                    *libraries,
                    *platform,
                ) && *final(self) == (ResolvedVersion {
                    libraries: final(self).libraries,
                    ..*old(self)
                }),
                Err(e) => *final(self) == *old(self) && reports_library_failure(
                    e,
                    libraries_joined(
                        LibrariesOutcome::Resolved(library_specs(old(self).libraries@)),
                        *libraries,
                        *platform,
                    ),
                ),
            },
    {
        let ghost before = self.libraries@;
        if let Some(records) = libraries {
            match resolve_libraries(records, platform) {
                Ok(resolved) => {
                    let mut more = resolved;
                    let ghost added = more@;
                    self.libraries.append(&mut more);
                    proof {
                        assert(library_specs(self.libraries@) =~= library_specs(before)
                            + library_specs(added));
                    }
                    Ok(())
                },
                Err(e) => Err(e),
            }
        } else {
            Ok(())
        }
    }
}

/// Once the libraries of a leading part of the merge have failed, the
/// whole merge fails in the same way.
pub proof fn lemma_merge_failure_stays(
    order: Seq<Version>,
    platform: PlatformInfo,
    enabled: Seq<Seq<char>>,
    k: int,
)
    requires
        0 <= k <= order.len(),
        !(merged(order.take(k), platform, enabled).libraries is Resolved),
    ensures
        merged(order, platform, enabled).libraries == merged(
            order.take(k),
            platform,
            enabled,
        ).libraries,
    decreases order.len() - k,
{
    if k == order.len() {
        assert(order.take(k) == order);
    } else {
        assert(order.take(k + 1).drop_last() == order.take(k));
        lemma_merge_failure_stays(order, platform, enabled, k + 1);
    }
}

/// The descriptor that a descriptor inherits from, with the file it is
/// read from; nothing where the descriptor is a root.
pub fn parent_of(version: &Version, minecraft: &MinecraftLocation) -> (r: Option<(String, String)>)
    ensures
        match r {
            Some((id, path)) => version.inherits_from matches Some(parent) && id@ == parent@
                && path@ == version_json_of(*minecraft, parent@),
            None => version.inherits_from is None,
        },
{
    match &version.inherits_from {
        Some(parent) => Some((parent.clone(), minecraft.get_version_json(parent.as_str()))),
        None => None,
    }
}

/// Resolves a descriptor together with its ancestors.
///
/// `versions` is the chain in walk order: the descriptor itself, then its
/// parent, and so on to the root. The chain is merged root first. The
/// result is the merge, with the legacy argument lists in place of the
/// merged ones below launcher version 21, and without the libraries that a
/// later library shadows. It fails where a library record fails to resolve,
/// and else where the merge lacks a required part.
pub fn resolve_version(
    versions: Vec<Version>,
    minecraft: &MinecraftLocation,
    platform: &PlatformInfo,
    enabled_features: &Vec<String>,
) -> (r: Result<ResolvedVersion, Error>)
    ensures
        ({
            let order = versions@.reverse();
            let m = merged(order, *platform, views(enabled_features@));
            match r {
                Ok(v) => {
                    &&& m.libraries is Resolved
                    &&& missing_part(m, merged_download(order, "client"@)) is None
                    &&& v.summary() == (Merged {
                        libraries: final_libraries(m),
                        jvm_arguments: final_jvm_arguments(m),
                        game_arguments: final_game_arguments(m),
                        ..m
                    })
                    &&& forall|name: Seq<char>|
                        find_named(v.downloads@, name) == merged_download(order, name)
                    &&& m.minimum_launcher_version < 21 ==> views(v.jvm_arguments@)
                        == legacy_jvm_arguments() && views(v.game_arguments@)
                        == legacy_game_arguments()
                    &&& views(v.inheritances@) == inheritances_of(versions@)
                    &&& views(v.path_chain@) == version_jsons_of(
                        *minecraft,
                        inheritances_of(versions@),
                    )
                    &&& v.wf()
                },
                Err(e) => e is InvalidVersionJson && (if m.libraries is Resolved {
                    missing_part(m, merged_download(order, "client"@)) matches Some(part)
                        && e matches Error::InvalidVersionJson(what) && what@ == part
                } else {
                    reports_library_failure(e, m.libraries)
                }),
            }
        }),
{
    let ghost walk = versions@;
    let ghost order = walk.reverse();
    let ghost enabled = views(enabled_features@);
    let mut resolved = ResolvedVersion::new();
    let ghost fresh = resolved;
    let mut i: usize = 0;
    proof {
        assert(views(resolved.inheritances@) =~= Seq::<Seq<char>>::empty());
        assert(views(resolved.path_chain@) =~= version_jsons_of(*minecraft, Seq::empty()));
    }
    while i < versions.len()
        invariant
            i <= versions.len(),
            versions@ == walk,
            views(resolved.inheritances@) == inheritances_of(walk.take(i as int)),
            views(resolved.path_chain@) == version_jsons_of(
                *minecraft,
                inheritances_of(walk.take(i as int)),
            ),
            resolved == (ResolvedVersion {
                inheritances: resolved.inheritances,
                path_chain: resolved.path_chain,
                ..fresh
            }),
        decreases versions.len() - i,
    {
        proof {
            assert(walk.take(i + 1).drop_last() == walk.take(i as int));
            assert(walk.take(i + 1).last() == walk[i as int]);
        }
        match parent_of(&versions[i], minecraft) {
            Some((id, path)) => {
                proof {
                    lemma_views_push(resolved.inheritances@, id);
                    lemma_views_push(resolved.path_chain@, path);
                }
                let ghost before = inheritances_of(walk.take(i as int));
                resolved.inheritances.push(id);
                resolved.path_chain.push(path);
                proof {
                    assert(version_jsons_of(*minecraft, before.push(id@)) =~= version_jsons_of(
                        *minecraft,
                        before,
                    ).push(version_json_of(*minecraft, id@)));
                }
            },
            None => {},
        }
        i += 1;
    }
    proof {
        assert(walk.take(walk.len() as int) == walk);
        assert(order.take(0) =~= Seq::<Version>::empty());
    }
    let mut rest = versions;
    while rest.len() > 0
        invariant
            rest@.len() <= walk.len(),
            rest@ == walk.take(rest@.len() as int),
            walk == versions@,
            order == walk.reverse(),
            enabled == views(enabled_features@),
            resolved.summary() == merged(
                order.take(walk.len() - rest@.len()),
                *platform,
                enabled,
            ),
            forall|name: Seq<char>|
                find_named(resolved.downloads@, name) == merged_download(
                    order.take(walk.len() - rest@.len()),
                    name,
                ),
            distinct_names(resolved.downloads@),
            views(resolved.inheritances@) == inheritances_of(walk),
            views(resolved.path_chain@) == version_jsons_of(*minecraft, inheritances_of(walk)),
        decreases rest.len(),
    {
        let ghost j = walk.len() - rest@.len();
        let ghost start = resolved;
        let version = rest.pop().unwrap();
        let ghost level = version;
        proof {
            assert(version == walk[walk.len() - 1 - j]);
            assert(order[j] == version);
            assert(order.take(j + 1).drop_last() == order.take(j));
            assert(order.take(j + 1).last() == version);
            assert(rest@ =~= walk.take(rest@.len() as int));
        }
        let Version {
            id,
            time,
            kind,
            release_time,
            minimum_launcher_version,
            arguments,
            main_class,
            libraries,
            asset_index,
            assets,
            downloads,
            logging,
            java_version,
            ..
        } = version;
        resolved.join_id(id);
        resolved.join_minimum_launcher_version(minimum_launcher_version);
        resolved.join_release_time(release_time);
        resolved.join_time(time);
        resolved.join_logging(logging);
        resolved.join_assets(assets);
        resolved.join_version_type(kind);
        resolved.join_main_class(main_class);
        resolved.join_java_version(java_version);
        resolved.join_asset_index(asset_index);
        resolved.join_downloads(downloads);
        resolved.join_jvm_arguments(&arguments, platform, enabled_features);
        resolved.join_game_arguments(&arguments, platform, enabled_features);
        match resolved.join_libraries(&libraries, platform) {
            Ok(()) => {},
            Err(e) => {
                proof {
                    let prev = merged(order.take(j), *platform, enabled);
                    let next = merged(order.take(j + 1), *platform, enabled);
                    assert(next == merge_step(prev, level, *platform, enabled));
                    assert(prev.libraries == start.summary().libraries);
                    assert(resolved.libraries == start.libraries);
                    assert(next.libraries == libraries_joined(
                        prev.libraries,
                        level.libraries,
                        *platform,
                    ));
                    assert(!(next.libraries is Resolved));
                    lemma_merge_failure_stays(order, *platform, enabled, j + 1);
                }
                return Err(e);
            },
        }
    }
    proof {
        assert(order.take(walk.len() as int) == order);
    }
    if resolved.minimum_launcher_version < 21 {
        resolved.jvm_arguments = default_jvm_args();
        resolved.game_arguments = default_game_args();
    }
    let ghost merged_libraries = library_specs(resolved.libraries@);
    resolved.libraries = dedup_libraries(&resolved.libraries);
    proof {
        if merged_libraries.len() == 0 {
            assert(deduped(merged_libraries).len() == 0);
        }
    }
    if resolved.id.as_str().is_empty() {
        return Err(Error::InvalidVersionJson("id".to_owned()));
    }
    if lookup_named(&resolved.downloads, "client").is_none() {
        return Err(Error::InvalidVersionJson("downloads.client".to_owned()));
    }
    if resolved.asset_index.is_none() {
        return Err(Error::InvalidVersionJson("assetIndex".to_owned()));
    }
    if resolved.libraries.len() == 0 {
        return Err(Error::InvalidVersionJson("libraries".to_owned()));
    }
    if resolved.jvm_arguments.len() == 0 {
        return Err(Error::InvalidVersionJson("arguments.jvm".to_owned()));
    }
    if resolved.java_version.component.as_str().is_empty() {
        return Err(Error::InvalidVersionJson("javaVersion.component".to_owned()));
    }
    Ok(resolved)
}

} // verus!
