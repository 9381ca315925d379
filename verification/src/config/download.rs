//! Settings of the download engine.

use vstd::prelude::*;
use crate::text::views;

verus! {

/// The mirrors that serve libraries and assets.
#[derive(Clone, Debug)]
pub struct MirrorConfig {
    pub libraries: Vec<String>,
    pub assets: Vec<String>,
}

/// The default library mirrors: Mojang's host and BMCLAPI.
pub open spec fn default_libraries_spec() -> Seq<Seq<char>> {
    seq!["https://libraries.minecraft.net"@, "https://bmclapi2.bangbang93.com/maven"@]
}

/// The default asset mirrors: Mojang's host and BMCLAPI.
pub open spec fn default_assets_spec() -> Seq<Seq<char>> {
    seq!["https://resources.download.minecraft.net"@, "https://bmclapi2.bangbang93.com/assets"@]
}

/// The default number of files in transfer at once.
pub fn default_max_connections() -> (r: usize)
    ensures
        r == 100,
{
    100
}

/// The default asset mirrors.
pub fn default_assets() -> (r: Vec<String>)
    ensures
        views(r@) == default_assets_spec(),
{
    let mut out: Vec<String> = Vec::new();
    out.push("https://resources.download.minecraft.net".to_owned());
    out.push("https://bmclapi2.bangbang93.com/assets".to_owned());
    proof {
        assert(views(out@) =~= default_assets_spec());
    }
    out
}

/// The default library mirrors.
pub fn default_libraries() -> (r: Vec<String>)
    ensures
        views(r@) == default_libraries_spec(),
{
    let mut out: Vec<String> = Vec::new();
    out.push("https://libraries.minecraft.net".to_owned());
    out.push("https://bmclapi2.bangbang93.com/maven".to_owned());
    proof {
        assert(views(out@) =~= default_libraries_spec());
    }
    out
}

impl Default for MirrorConfig {
    fn default() -> (r: MirrorConfig)
        ensures
            views(r.libraries@) == default_libraries_spec(),
            views(r.assets@) == default_assets_spec(),
    {
        MirrorConfig { libraries: default_libraries(), assets: default_assets() }
    }
}

/// How the download engine behaves.
#[derive(Clone, Debug)]
pub struct DownloadConfig {
    /// How many files may be in transfer at once.
    pub max_connections: usize,
    /// The speed limit in bytes per second; 0 switches the limit off.
    pub max_download_speed: u64,
    pub mirror: MirrorConfig,
}

impl Default for DownloadConfig {
    fn default() -> (r: DownloadConfig)
        ensures
            r.max_connections == 100,
            r.max_download_speed == 0,
            views(r.mirror.libraries@) == default_libraries_spec(),
            views(r.mirror.assets@) == default_assets_spec(),
    {
        DownloadConfig {
            max_connections: default_max_connections(),
            max_download_speed: 0,
            mirror: MirrorConfig::default(),
        }
    }
}

} // verus!
