//! The Fabric loader: its published records and where its descriptor comes
//! from.

use vstd::prelude::*;
use crate::folder::MinecraftLocation;
use crate::json::Json;
use crate::text::{push_str, string_of};
use crate::version::resolve::version_json_of;

verus! {

/// One version of a Fabric artifact.
#[derive(Debug)]
pub struct FabricArtifactVersion {
    pub game_version: Option<String>,
    pub separator: Option<String>,
    pub build: Option<usize>,
    pub maven: String,
    pub version: String,
    pub stable: bool,
}

/// The mappings and the loaders that Fabric publishes.
#[derive(Debug)]
pub struct FabricArtifacts {
    pub mappings: Vec<FabricArtifactVersion>,
    pub loader: Vec<FabricArtifactVersion>,
}

/// One loader with what it is built from.
#[derive(Debug)]
pub struct FabricLoaderArtifact {
    pub loader: FabricArtifactVersion,
    pub intermediary: FabricArtifactVersion,
    pub launcher_meta: LauncherMeta,
}

/// The Yarn mappings that Fabric publishes.
#[derive(Debug)]
pub struct YarnArtifactList {
    pub versions: Vec<FabricArtifactVersion>,
}

/// The loaders for one Minecraft version.
#[derive(Debug)]
pub struct LoaderArtifactList {
    pub items: Vec<FabricLoaderArtifact>,
}

/// What a loader tells a launcher.
#[derive(Debug)]
pub struct LauncherMeta {
    pub version: usize,
    pub libraries: LauncherMetaLibraries,
    pub main_class: Json,
}

/// The libraries of a loader by the side that needs them.
#[derive(Debug)]
pub struct LauncherMetaLibraries {
    pub client: Vec<LauncherMetaLibrariesItems>,
    pub common: Vec<LauncherMetaLibrariesItems>,
    pub server: Vec<LauncherMetaLibrariesItems>,
}

/// One library of a loader.
#[derive(Debug)]
pub struct LauncherMetaLibrariesItems {
    pub name: Option<String>,
    pub url: Option<String>,
}

/// Where the loaders for a Minecraft version are listed.
pub fn loader_list_url(mcversion: &str) -> (r: String)
    ensures
        r@ == "https://meta.fabricmc.net/v2/versions/loader/"@ + mcversion@,
{
    let mut out: Vec<char> = Vec::new();
    push_str(&mut out, "https://meta.fabricmc.net/v2/versions/loader/");
    push_str(&mut out, mcversion);
    string_of(&out)
}

/// Where the descriptor of a loader for a Minecraft version is published.
pub fn profile_url(mcversion: &str, fabric_version: &str) -> (r: String)
    ensures
        r@ == "https://meta.fabricmc.net/v2/versions/loader/"@ + mcversion@ + "/"@
            + fabric_version@ + "/profile/json"@,
{
    let mut out: Vec<char> = Vec::new();
    push_str(&mut out, "https://meta.fabricmc.net/v2/versions/loader/");
    push_str(&mut out, mcversion);
    push_str(&mut out, "/");
    push_str(&mut out, fabric_version);
    push_str(&mut out, "/profile/json");
    string_of(&out)
}

/// Where the descriptor of a loader is written: the descriptor file of the
/// version that the descriptor names itself.
pub fn install(descriptor_id: &str, minecraft: &MinecraftLocation) -> (r: String)
    ensures
        r@ == version_json_of(*minecraft, descriptor_id@),
{
    minecraft.get_version_json(descriptor_id)
}

} // verus!
