//! The files of a plain Minecraft version.

use vstd::prelude::*;
use crate::download::model::{
    Checksum,
    ChecksumSpec,
    DownloadTask,
    DownloadType,
    TaskSpec,
};
use crate::error::Error;
use crate::folder::{jar_name_of, join_path, join_path_seq, version_root_of, MinecraftLocation};
use crate::named::{find_named, lookup_named};
use crate::text::{chars_of, push_str, str_eq, string_of};
use crate::version::library::{LibrarySpec, ResolvedLibrary};
use crate::version::model::AssetIndexObjectInfo;
use crate::version::resolve::ResolvedVersion;

verus! {

/// The versions that Mojang publishes.
#[derive(Debug)]
pub struct VersionManifest {
    pub latest: LatestVersion,
    pub versions: Vec<VersionInfo>,
}

/// The latest release and the latest snapshot.
#[derive(Debug)]
pub struct LatestVersion {
    pub release: String,
    pub snapshot: String,
}

/// One entry of the version manifest.
#[derive(Debug)]
pub struct VersionInfo {
    pub id: String,
    /// The `type` of the version.
    pub kind: String,
    pub url: String,
    pub time: String,
    pub release_time: String,
    pub sha1: String,
    pub compliance_level: u8,
}

/// Where the version manifest is published.
pub fn version_manifest_url() -> (r: &'static str)
    ensures
        r@ == "https://piston-meta.mojang.com/mc/game/version_manifest_v2.json"@,
{
    "https://piston-meta.mojang.com/mc/game/version_manifest_v2.json"
}

/// The first entry of `versions` with the identifier `id`.
pub open spec fn entry_of(versions: Seq<VersionInfo>, id: Seq<char>) -> Option<VersionInfo>
    decreases versions.len(),
{
    if versions.len() == 0 {
        None
    } else if versions[0].id@ == id {
        Some(versions[0])
    } else {
        entry_of(versions.drop_first(), id)
    }
}

/// The entry of the manifest for a version: where its descriptor is found.
pub fn get_version_json<'a>(manifest: &'a VersionManifest, version_id: &str) -> (r: Result<
    &'a VersionInfo,
    Error,
>)
    ensures
        match r {
            Ok(info) => entry_of(manifest.versions@, version_id@) == Some(*info),
            Err(e) => entry_of(manifest.versions@, version_id@) is None && e
                is VersionMetadataNotfound,
        },
{
    let versions = &manifest.versions;
    let mut i: usize = 0;
    proof {
        assert(versions@.skip(0) =~= versions@);
    }
    while i < versions.len()
        invariant
            i <= versions.len(),
            *versions == manifest.versions,
            entry_of(versions@, version_id@) == entry_of(versions@.skip(i as int), version_id@),
        decreases versions.len() - i,
    {
        proof {
            assert(versions@.skip(i as int).drop_first() =~= versions@.skip(i + 1));
            assert(versions@.skip(i as int)[0] == versions@[i as int]);
        }
        if str_eq(versions[i].id.as_str(), version_id) {
            return Ok(&versions[i]);
        }
        i += 1;
    }
    Err(Error::VersionMetadataNotfound)
}

/// The address from which a client jar with the given digest is fetched.
pub open spec fn client_url_of(sha1: Seq<char>) -> Seq<char> {
    "https://piston-data.mojang.com/v1/objects/"@ + sha1 + "/client.jar"@
}

/// The task that fetches the client jar of a version.
pub open spec fn client_task_of(location: MinecraftLocation, id: Seq<char>, sha1: Seq<char>, size: u64) -> TaskSpec {
    TaskSpec {
        url: client_url_of(sha1),
        file: join_path_seq(
            version_root_of(location.versions@, id, location.separator),
            jar_name_of(id, None),
            location.separator,
        ),
        size_bytes: Some(size),
        checksum: ChecksumSpec::Sha1(sha1),
        kind: DownloadType::Unknown,
    }
}

/// The task that fetches the client jar of a version into
/// `versions/<id>/<id>.jar`, held to the digest that the version records.
/// Fails where the version has no client download.
pub fn generate_client_download_task(
    minecraft_location: &MinecraftLocation,
    resolved_version: &ResolvedVersion,
) -> (r: Result<DownloadTask, Error>)
    ensures
        match r {
            Ok(task) => find_named(resolved_version.downloads@, "client"@) matches Some(client)
                && task@ == client_task_of(
                *minecraft_location,
                resolved_version.id@,
                client.sha1@,
                client.size,
            ),
            Err(e) => e matches Error::InvalidVersionJson(what) && what@ == "client"@
                && find_named(resolved_version.downloads@, "client"@) is None,
        },
{
    let client = match lookup_named(&resolved_version.downloads, "client") {
        Some(client) => client,
        None => {
            return Err(Error::InvalidVersionJson("client".to_owned()));
        },
    };
    let mut url: Vec<char> = Vec::new();
    push_str(&mut url, "https://piston-data.mojang.com/v1/objects/");
    push_str(&mut url, client.sha1.as_str());
    push_str(&mut url, "/client.jar");
    Ok(
        DownloadTask {
            url: string_of(&url),
            file: minecraft_location.get_version_jar(resolved_version.id.as_str(), None),
            size_bytes: Some(client.size),
            checksum: Checksum::Sha1(client.sha1.clone()),
            kind: DownloadType::Unknown,
        },
    )
}

/// The task that fetches one library into the libraries directory.
pub open spec fn library_task_of(location: MinecraftLocation, library: LibrarySpec) -> TaskSpec {
    TaskSpec {
        url: library.url,
        file: join_path_seq(location.libraries@, library.path, location.separator),
        size_bytes: library.size,
        checksum: match library.sha1 {
            Some(sha1) => ChecksumSpec::Sha1(sha1),
            None => ChecksumSpec::Unchecked,
        },
        kind: DownloadType::Libraries,
    }
}

/// The tasks that fetch the libraries of a version, one for each library
/// and in their order.
pub fn generate_libraries_downloads(
    minecraft_location: &MinecraftLocation,
    resolved_version: &ResolvedVersion,
) -> (r: Vec<DownloadTask>)
    ensures
        r@.len() == resolved_version.libraries@.len(),
        forall|i: int|
            0 <= i < r@.len() ==> (#[trigger] r@[i])@ == library_task_of(
                *minecraft_location,
                resolved_version.libraries@[i]@,
            ),
{
    let libraries = &resolved_version.libraries;
    let mut out: Vec<DownloadTask> = Vec::new();
    let mut i: usize = 0;
    while i < libraries.len()
        invariant
            i <= libraries.len(),
            out@.len() == i,
            forall|j: int|
                0 <= j < i ==> (#[trigger] out@[j])@ == library_task_of(
                    *minecraft_location,
                    libraries@[j]@,
                ),
        decreases libraries.len() - i,
    {
        let info = match &libraries[i] {
            ResolvedLibrary::Native(info) => info,
            ResolvedLibrary::Common(info) => info,
        };
        let checksum = match &info.sha1 {
            Some(sha1) => Checksum::Sha1(sha1.clone()),
            None => Checksum::Unchecked,
        };
        out.push(
            DownloadTask {
                url: info.url.clone(),
                file: minecraft_location.get_library_by_path(info.path.as_str()),
                size_bytes: info.size,
                checksum,
                kind: DownloadType::Libraries,
            },
        );
        i += 1;
    }
    out
}

/// The task that fetches one asset: from `<hh>/<hash>` on the asset host
/// into `assets/objects/<hh>/<hash>`, where `hh` are the first two
/// characters of the hash.
pub open spec fn asset_task_of(location: MinecraftLocation, hash: Seq<char>, size: u64) -> TaskSpec {
    TaskSpec {
        url: "https://resources.download.minecraft.net/"@ + hash.take(2) + "/"@ + hash,
        file: join_path_seq(
            join_path_seq(
                join_path_seq(location.assets@, "objects"@, location.separator),
                hash.take(2),
                location.separator,
            ),
            hash,
            location.separator,
        ),
        size_bytes: Some(size),
        checksum: ChecksumSpec::Sha1(hash),
        kind: DownloadType::Unknown,
    }
}

/// The task that stores the asset index itself, held to the digest that
/// the descriptor records for it, if it records one.
pub open spec fn asset_index_task_of(
    location: MinecraftLocation,
    url: Seq<char>,
    id: Seq<char>,
    sha1: Option<Seq<char>>,
) -> TaskSpec {
    TaskSpec {
        url,
        file: join_path_seq(
            join_path_seq(location.assets@, "indexes"@, location.separator),
            id + ".json"@,
            location.separator,
        ),
        size_bytes: None,
        checksum: match sha1 {
            Some(digest) => ChecksumSpec::Sha1(digest),
            None => ChecksumSpec::Unchecked,
        },
        kind: DownloadType::Unknown,
    }
}

/// Every object has a hash of at least two characters.
pub open spec fn hashes_are_well_formed(objects: Seq<AssetIndexObjectInfo>) -> bool {
    forall|i: int| 0 <= i < objects.len() ==> (#[trigger] objects[i]).hash@.len() >= 2
}

/// The task that fetches one asset.
pub fn asset_task(location: &MinecraftLocation, object: &AssetIndexObjectInfo) -> (r: Option<
    DownloadTask,
>)
    ensures
        match r {
            Some(task) => object.hash@.len() >= 2 && task@ == asset_task_of(
                *location,
                object.hash@,
                object.size,
            ),
            None => object.hash@.len() < 2,
        },
{
    let hash = chars_of(object.hash.as_str());
    if hash.len() < 2 {
        return None;
    }
    let mut prefix: Vec<char> = Vec::new();
    prefix.push(hash[0]);
    prefix.push(hash[1]);
    proof {
        assert(prefix@ =~= object.hash@.take(2));
    }
    let prefix = string_of(&prefix);
    let mut url: Vec<char> = Vec::new();
    push_str(&mut url, "https://resources.download.minecraft.net/");
    push_str(&mut url, prefix.as_str());
    push_str(&mut url, "/");
    push_str(&mut url, object.hash.as_str());
    let sep = location.separator;
    let objects = join_path(location.assets.as_str(), "objects", sep);
    let bucket = join_path(objects.as_str(), prefix.as_str(), sep);
    Some(
        DownloadTask {
            url: string_of(&url),
            file: join_path(bucket.as_str(), object.hash.as_str(), sep),
            size_bytes: Some(object.size),
            checksum: Checksum::Sha1(object.hash.clone()),
            kind: DownloadType::Unknown,
        },
    )
}

/// The tasks that fetch the assets of a version: one for each object of
/// the asset index, in their order, and last the one that stores the index
/// itself. Fails where the version has no asset index, or where the hash of
/// an object has fewer than two characters.
pub fn generate_assets_downloads(
    minecraft_location: &MinecraftLocation,
    resolved_version: &ResolvedVersion,
    objects: &Vec<AssetIndexObjectInfo>,
) -> (r: Result<Vec<DownloadTask>, Error>)
    ensures
        match r {
            Ok(tasks) => {
                &&& resolved_version.asset_index matches Some(index)
                &&& hashes_are_well_formed(objects@)
                &&& tasks@.len() == objects@.len() + 1
                &&& forall|i: int|
                    0 <= i < objects@.len() ==> (#[trigger] tasks@[i])@ == asset_task_of(
                        *minecraft_location,
                        objects@[i].hash@,
                        objects@[i].size,
                    )
                &&& tasks@[objects@.len() as int]@ == asset_index_task_of(
                    *minecraft_location,
                    index.url@,
                    index.id@,
                    crate::version::library::option_text(index.sha1),
                )
            },
            Err(e) => if resolved_version.asset_index is None {
                e matches Error::InvalidVersionJson(what) && what@ == "assetIndex"@
            } else {
                e matches Error::JsonParse(what) && what@ == "objects"@
                    && !hashes_are_well_formed(objects@)
            },
        },
{
    let index = match &resolved_version.asset_index {
        Some(index) => index,
        None => {
            return Err(Error::InvalidVersionJson("assetIndex".to_owned()));
        },
    };
    let mut out: Vec<DownloadTask> = Vec::new();
    let mut i: usize = 0;
    while i < objects.len()
        invariant
            i <= objects.len(),
            out@.len() == i,
            resolved_version.asset_index == Some(*index),
            forall|j: int| 0 <= j < i ==> (#[trigger] objects@[j]).hash@.len() >= 2,
            forall|j: int|
                0 <= j < i ==> (#[trigger] out@[j])@ == asset_task_of(
                    *minecraft_location,
                    objects@[j].hash@,
                    objects@[j].size,
                ),
        decreases objects.len() - i,
    {
        match asset_task(minecraft_location, &objects[i]) {
            Some(task) => {
                out.push(task);
            },
            None => {
                proof {
                    assert(objects@[i as int].hash@.len() < 2);
                }
                return Err(Error::JsonParse("objects".to_owned()));
            },
        }
        i += 1;
    }
    out.push(
        DownloadTask {
            url: index.url.clone(),
            file: minecraft_location.get_assets_index(index.id.as_str()),
            size_bytes: None,
            checksum: match &index.sha1 {
                Some(digest) => Checksum::Sha1(digest.clone()),
                None => Checksum::Unchecked,
            },
            kind: DownloadType::Unknown,
        },
    );
    Ok(out)
}

/// All the tasks of a version: the client jar, then the libraries, then
/// the assets.
pub fn generate_download_info(
    client: DownloadTask,
    libraries: Vec<DownloadTask>,
    assets: Vec<DownloadTask>,
) -> (r: Vec<DownloadTask>)
    ensures
        r@ == seq![client] + libraries@ + assets@,
{
    let mut out: Vec<DownloadTask> = Vec::new();
    out.push(client);
    let ghost all_libraries = libraries@;
    let ghost all_assets = assets@;
    let mut libraries = libraries;
    let mut assets = assets;
    out.append(&mut libraries);
    out.append(&mut assets);
    proof {
        assert(out@ =~= seq![client] + all_libraries + all_assets);
    }
    out
}

/// Where the logging configuration of a version is written.
pub fn override_log4j2_configuration_file(minecraft_location: &MinecraftLocation, version: &ResolvedVersion) -> (r:
    String)
    ensures
        r@ == join_path_seq(
            version_root_of(minecraft_location.versions@, version.id@, minecraft_location.separator),
            "log4j2.xml"@,
            minecraft_location.separator,
        ),
{
    minecraft_location.get_log_config(version.id.as_str())
}

} // verus!
