//! Where the launcher keeps its files. A path is a text whose components are
//! joined by the platform's separator; every path below is made by adding
//! components to a root, so it starts with that root.

use vstd::prelude::*;
use crate::outside::{uuid_text, uuid_to_text};
use crate::platform::{path_separator_of, OsFamily};
use crate::text::{chars_of, has_prefix, push_str, str_eq, string_of};

verus! {

/// `base` with the component `name` added: the separator stands between
/// them unless `base` is empty or already ends with it.
pub open spec fn join_path_seq(base: Seq<char>, name: Seq<char>, sep: char) -> Seq<char> {
    if base.len() == 0 || base.last() == sep {
        base + name
    } else {
        base.push(sep) + name
    }
}

/// A joined path starts with its base.
pub proof fn lemma_join_keeps_base(base: Seq<char>, name: Seq<char>, sep: char)
    ensures
        has_prefix(join_path_seq(base, name, sep), base),
{
    let joined = join_path_seq(base, name, sep);
    assert(joined.subrange(0, base.len() as int) =~= base);
}

/// Being a leading part carries over from one path to a longer one.
pub proof fn lemma_prefix_transitive(a: Seq<char>, b: Seq<char>, c: Seq<char>)
    requires
        has_prefix(b, a),
        has_prefix(c, b),
    ensures
        has_prefix(c, a),
{
    assert(c.subrange(0, a.len() as int) =~= b.subrange(0, a.len() as int));
}

/// Adds the component `name` to the path `base`.
pub fn join_path(base: &str, name: &str, sep: char) -> (r: String)
    ensures
        r@ == join_path_seq(base@, name@, sep),
{
    let mut out = chars_of(base);
    if out.len() > 0 && out[out.len() - 1] != sep {
        out.push(sep);
    }
    push_str(&mut out, name);
    string_of(&out)
}

/// The directory of one version below the versions directory.
pub open spec fn version_root_of(versions: Seq<char>, id: Seq<char>, sep: char) -> Seq<char> {
    join_path_seq(versions, id, sep)
}

/// The name of a version's jar: `<id>.jar` for the client, `<id>-<kind>.jar`
/// for any other kind.
pub open spec fn jar_name_of(id: Seq<char>, kind: Option<Seq<char>>) -> Seq<char> {
    match kind {
        Some(k) => if k != "client"@ {
            id + "-"@ + k + ".jar"@
        } else {
            id + ".jar"@
        },
        None => id + ".jar"@,
    }
}

/// The directories of one game root.
#[derive(Clone, Debug)]
pub struct MinecraftLocation {
    pub root: String,
    pub libraries: String,
    pub assets: String,
    pub versions: String,
    /// The separator between path components on this platform.
    pub separator: char,
}

impl MinecraftLocation {
    /// The three directories stand directly below the root.
    pub open spec fn wf(&self) -> bool {
        &&& self.libraries@ == join_path_seq(self.root@, "libraries"@, self.separator)
        &&& self.assets@ == join_path_seq(self.root@, "assets"@, self.separator)
        &&& self.versions@ == join_path_seq(self.root@, "versions"@, self.separator)
    }

    /// The layout below `root` on a platform of the given family.
    pub fn new(root: &str, os_family: OsFamily) -> (r: MinecraftLocation)
        ensures
            r.root@ == root@,
            r.separator == path_separator_of(os_family),
            r.wf(),
    {
        let separator = os_family.path_separator();
        MinecraftLocation {
            root: root.to_owned(),
            libraries: join_path(root, "libraries", separator),
            assets: join_path(root, "assets", separator),
            versions: join_path(root, "versions", separator),
            separator,
        }
    }

    /// Where the native libraries of a version are unpacked.
    pub fn get_natives_root(&self, version_id: &str) -> (r: String)
        ensures
            r@ == join_path_seq(
                version_root_of(self.versions@, version_id@, self.separator),
                "conic-natives"@,
                self.separator,
            ),
    {
        let root = self.get_version_root(version_id);
        join_path(root.as_str(), "conic-natives", self.separator)
    }

    /// The directory of one version.
    pub fn get_version_root(&self, version_id: &str) -> (r: String)
        ensures
            r@ == version_root_of(self.versions@, version_id@, self.separator),
    {
        join_path(self.versions.as_str(), version_id, self.separator)
    }

    /// The descriptor of one version: `versions/<id>/<id>.json`.
    pub fn get_version_json(&self, version_id: &str) -> (r: String)
        ensures
            r@ == join_path_seq(
                version_root_of(self.versions@, version_id@, self.separator),
                version_id@ + ".json"@,
                self.separator,
            ),
    {
        let root = self.get_version_root(version_id);
        let mut name = chars_of(version_id);
        push_str(&mut name, ".json");
        let name = string_of(&name);
        join_path(root.as_str(), name.as_str(), self.separator)
    }

    /// The jar of one version: `versions/<id>/<id>.jar`, or
    /// `versions/<id>/<id>-<kind>.jar` for a kind other than the client.
    pub fn get_version_jar(&self, version: &str, version_jar_type: Option<&str>) -> (r: String)
        ensures
            r@ == join_path_seq(
                version_root_of(self.versions@, version@, self.separator),
                jar_name_of(
                    version@,
                    match version_jar_type {
                        Some(k) => Some(k@),
                        None => None,
                    },
                ),
                self.separator,
            ),
    {
        let root = self.get_version_root(version);
        let mut name = chars_of(version);
        match version_jar_type {
            Some(kind) => {
                if !str_eq(kind, "client") {
                    push_str(&mut name, "-");
                    push_str(&mut name, kind);
                }
            },
            None => {},
        }
        push_str(&mut name, ".jar");
        let name = string_of(&name);
        join_path(root.as_str(), name.as_str(), self.separator)
    }

    /// The file of a library, given its path below the libraries directory.
    pub fn get_library_by_path(&self, library_path: &str) -> (r: String)
        ensures
            r@ == join_path_seq(self.libraries@, library_path@, self.separator),
    {
        join_path(self.libraries.as_str(), library_path, self.separator)
    }

    /// The asset index of the given name: `assets/indexes/<name>.json`.
    pub fn get_assets_index(&self, version_assets: &str) -> (r: String)
        ensures
            r@ == join_path_seq(
                join_path_seq(self.assets@, "indexes"@, self.separator),
                version_assets@ + ".json"@,
                self.separator,
            ),
    {
        let indexes = join_path(self.assets.as_str(), "indexes", self.separator);
        let mut name = chars_of(version_assets);
        push_str(&mut name, ".json");
        let name = string_of(&name);
        join_path(indexes.as_str(), name.as_str(), self.separator)
    }

    /// The logging configuration of one version.
    pub fn get_log_config(&self, version_id: &str) -> (r: String)
        ensures
            r@ == join_path_seq(
                version_root_of(self.versions@, version_id@, self.separator),
                "log4j2.xml"@,
                self.separator,
            ),
    {
        let root = self.get_version_root(version_id);
        join_path(root.as_str(), "log4j2.xml", self.separator)
    }

    /// The authlib-injector jar of one version.
    pub fn get_authlib_injector(&self, version_id: &str) -> (r: String)
        ensures
            r@ == join_path_seq(
                version_root_of(self.versions@, version_id@, self.separator),
                "authlib-injector.jar"@,
                self.separator,
            ),
    {
        let root = self.get_version_root(version_id);
        join_path(root.as_str(), "authlib-injector.jar", self.separator)
    }
}

/// Every directory of a well-formed layout lies below its root, and so does
/// every file that the layout names.
pub proof fn lemma_layout_below_root(location: MinecraftLocation, name: Seq<char>)
    requires
        location.wf(),
    ensures
        has_prefix(location.libraries@, location.root@),
        has_prefix(location.assets@, location.root@),
        has_prefix(location.versions@, location.root@),
        has_prefix(join_path_seq(location.libraries@, name, location.separator), location.root@),
        has_prefix(join_path_seq(location.assets@, name, location.separator), location.root@),
        has_prefix(join_path_seq(location.versions@, name, location.separator), location.root@),
{
    let sep = location.separator;
    lemma_join_keeps_base(location.root@, "libraries"@, sep);
    lemma_join_keeps_base(location.root@, "assets"@, sep);
    lemma_join_keeps_base(location.root@, "versions"@, sep);
    lemma_join_keeps_base(location.libraries@, name, sep);
    lemma_join_keeps_base(location.assets@, name, sep);
    lemma_join_keeps_base(location.versions@, name, sep);
    lemma_prefix_transitive(
        location.root@,
        location.libraries@,
        join_path_seq(location.libraries@, name, sep),
    );
    lemma_prefix_transitive(
        location.root@,
        location.assets@,
        join_path_seq(location.assets@, name, sep),
    );
    lemma_prefix_transitive(
        location.root@,
        location.versions@,
        join_path_seq(location.versions@, name, sep),
    );
}

/// The name of the launcher's data directory.
pub open spec fn application_folder_name(debug: bool) -> Seq<char> {
    if debug {
        "conic-debug"@
    } else {
        "conic"@
    }
}

/// The launcher's data directory: below `%APPDATA%` on Windows, and a hidden
/// directory below the home directory on Linux and macOS. `env_dir` is
/// `%APPDATA%` or the home directory.
pub open spec fn application_data_path_of(family: OsFamily, env_dir: Seq<char>, debug: bool) -> Seq<
    char,
> {
    match family {
        OsFamily::Windows => join_path_seq(
            env_dir,
            application_folder_name(debug),
            path_separator_of(family),
        ),
        _ => join_path_seq(
            env_dir,
            "."@ + application_folder_name(debug),
            path_separator_of(family),
        ),
    }
}

/// The launcher's data directory on this platform.
pub fn application_data_path(os_family: OsFamily, env_dir: &str, debug: bool) -> (r: String)
    ensures
        r@ == application_data_path_of(os_family, env_dir@, debug),
{
    let name: &str = if debug {
        "conic-debug"
    } else {
        "conic"
    };
    let sep = os_family.path_separator();
    match os_family {
        OsFamily::Windows => join_path(env_dir, name, sep),
        _ => {
            let mut hidden: Vec<char> = Vec::new();
            push_str(&mut hidden, ".");
            push_str(&mut hidden, name);
            let hidden = string_of(&hidden);
            join_path(env_dir, hidden.as_str(), sep)
        },
    }
}

/// The directories of the launcher's own data.
#[derive(Clone, Debug)]
pub struct DataLocation {
    pub root: String,
    pub instances: String,
    pub cache: String,
    pub default_jre: String,
    pub logs: String,
    pub resources: String,
    pub temp: String,
    pub config: String,
    /// The separator between path components on this platform.
    pub separator: char,
}

impl DataLocation {
    /// Every directory but the temporary one stands directly below the
    /// root.
    pub open spec fn wf(&self) -> bool {
        &&& self.instances@ == join_path_seq(self.root@, "instances"@, self.separator)
        &&& self.cache@ == join_path_seq(self.root@, ".cache"@, self.separator)
        &&& self.resources@ == join_path_seq(self.root@, "resources"@, self.separator)
        &&& self.logs@ == join_path_seq(self.root@, "logs"@, self.separator)
        &&& self.config@ == join_path_seq(self.root@, "config.toml"@, self.separator)
    }

    /// The layout of the data directory `data_folder`. The temporary
    /// directory is `conic-launcher-<unique>` below `temp_dir`, with
    /// `unique` written as a hyphenated identifier; everything else lies
    /// below the data directory.
    pub fn new(data_folder: &str, os_family: OsFamily, temp_dir: &str, unique: u128) -> (r:
        DataLocation)
        ensures
            r.wf(),
            r.root@ == data_folder@,
            r.separator == path_separator_of(os_family),
            r.instances@ == join_path_seq(data_folder@, "instances"@, r.separator),
            r.cache@ == join_path_seq(data_folder@, ".cache"@, r.separator),
            r.default_jre@ == "/bin/java"@,
            r.resources@ == join_path_seq(data_folder@, "resources"@, r.separator),
            r.logs@ == join_path_seq(data_folder@, "logs"@, r.separator),
            r.temp@ == join_path_seq(
                temp_dir@,
                "conic-launcher-"@ + uuid_text(unique),
                r.separator,
            ),
            r.config@ == join_path_seq(data_folder@, "config.toml"@, r.separator),
    {
        let separator = os_family.path_separator();
        let mut temp_name: Vec<char> = Vec::new();
        push_str(&mut temp_name, "conic-launcher-");
        let unique_text = uuid_to_text(unique);
        push_str(&mut temp_name, unique_text.as_str());
        let temp_name = string_of(&temp_name);
        let cache = join_path(data_folder, ".cache", separator);
        DataLocation {
            root: data_folder.to_owned(),
            instances: join_path(data_folder, "instances", separator),
            cache,
            default_jre: "/bin/java".to_owned(),
            logs: join_path(data_folder, "logs", separator),
            resources: join_path(data_folder, "resources", separator),
            temp: join_path(temp_dir, temp_name.as_str(), separator),
            config: join_path(data_folder, "config.toml", separator),
            separator,
        }
    }

    /// The directory of one instance: `instances/<id>`, with the identifier
    /// in its hyphenated form.
    pub fn get_instance_root(&self, instance_id: u128) -> (r: String)
        ensures
            r@ == join_path_seq(self.instances@, uuid_text(instance_id), self.separator),
    {
        let id = uuid_to_text(instance_id);
        join_path(self.instances.as_str(), id.as_str(), self.separator)
    }

    /// The file of the launcher profiles that mod-loader installers expect
    /// below the data directory.
    pub fn launcher_profiles_path(&self) -> (r: String)
        ensures
            r@ == join_path_seq(self.root@, "launcher_profiles.json"@, self.separator),
    {
        join_path(self.root.as_str(), "launcher_profiles.json", self.separator)
    }
}

/// Every directory of the launcher's data but the temporary one lies below
/// the data root, and so does the directory of every instance.
pub proof fn lemma_data_below_root(location: DataLocation, instance_id: u128)
    requires
        location.wf(),
    ensures
        has_prefix(location.instances@, location.root@),
        has_prefix(location.cache@, location.root@),
        has_prefix(location.resources@, location.root@),
        has_prefix(location.logs@, location.root@),
        has_prefix(location.config@, location.root@),
        has_prefix(
            join_path_seq(location.instances@, uuid_text(instance_id), location.separator),
            location.root@,
        ),
{
    let sep = location.separator;
    lemma_join_keeps_base(location.root@, "instances"@, sep);
    lemma_join_keeps_base(location.root@, ".cache"@, sep);
    lemma_join_keeps_base(location.root@, "resources"@, sep);
    lemma_join_keeps_base(location.root@, "logs"@, sep);
    lemma_join_keeps_base(location.root@, "config.toml"@, sep);
    lemma_join_keeps_base(location.instances@, uuid_text(instance_id), sep);
    lemma_prefix_transitive(
        location.root@,
        location.instances@,
        join_path_seq(location.instances@, uuid_text(instance_id), sep),
    );
}

} // verus!
