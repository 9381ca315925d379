//! The authlib-injector jar: where its latest build is announced and how
//! it is fetched.

use vstd::prelude::*;
use crate::download::model::{Checksum, ChecksumSpec, DownloadTask, DownloadType, TaskSpec};
use crate::error::Error;
use crate::folder::{join_path_seq, version_root_of, MinecraftLocation};
use crate::json::Json;

verus! {

/// Where the latest build is announced.
pub fn latest_url() -> (r: &'static str)
    ensures
        r@ == "https://authlib-injector.yushi.moe/artifact/latest.json"@,
{
    "https://authlib-injector.yushi.moe/artifact/latest.json"
}

/// The task that fetches the jar that an announcement advertises: from
/// its `download_url` into the directory of the version, held to its
/// `checksums.sha256`.
pub open spec fn latest_task_of(location: MinecraftLocation, version_id: Seq<char>, latest: Json) -> Option<
    TaskSpec,
> {
    match (latest.member_text("download_url"@), latest.member2("checksums"@, "sha256"@)) {
        (Some(url), Some(Json::Text(sha256))) => Some(
            TaskSpec {
                url,
                file: join_path_seq(
                    version_root_of(location.versions@, version_id, location.separator),
                    "authlib-injector.jar"@,
                    location.separator,
                ),
                size_bytes: None,
                checksum: ChecksumSpec::Sha256(sha256@),
                kind: DownloadType::AuthlibInjector,
            },
        ),
        _ => None,
    }
}

/// The task that fetches the latest authlib-injector jar for a version.
/// Fails where the announcement lacks the address or the digest.
pub fn install_latest(minecraft_location: &MinecraftLocation, version_id: &str, latest: &Json) -> (r:
    Result<DownloadTask, Error>)
    ensures
        match r {
            Ok(task) => latest_task_of(*minecraft_location, version_id@, *latest) == Some(task@),
            Err(e) => latest_task_of(*minecraft_location, version_id@, *latest) is None && e
                is InvalidAuthlibResponse,
        },
{
    let url = match latest.get_str("download_url") {
        Some(url) => url,
        None => {
            return Err(Error::InvalidAuthlibResponse);
        },
    };
    let sha256 = match latest.get2("checksums", "sha256") {
        Some(Json::Text(sha256)) => sha256,
        _ => {
            return Err(Error::InvalidAuthlibResponse);
        },
    };
    Ok(
        DownloadTask {
            url: url.to_owned(),
            file: minecraft_location.get_authlib_injector(version_id),
            size_bytes: None,
            checksum: Checksum::Sha256(sha256.clone()),
            kind: DownloadType::AuthlibInjector,
        },
    )
}

} // verus!
