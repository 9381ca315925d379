//! The Quilt loader: its published records and where its descriptor comes
//! from.

use vstd::prelude::*;
use crate::folder::MinecraftLocation;
use crate::text::{push_str, string_of};
use crate::version::resolve::version_json_of;

verus! {

/// One version of a Quilt artifact.
#[derive(Debug)]
pub struct QuiltArtifactVersion {
    pub separator: String,
    pub build: u32,
    pub maven: String,
    pub version: String,
}

/// The hashed mappings of a Quilt version.
#[derive(Debug)]
pub struct QuiltVersionHashed {
    pub maven: String,
    pub version: String,
}

/// The intermediary mappings of a Quilt version.
#[derive(Debug)]
pub struct QuiltVersionIntermediary {
    pub maven: String,
    pub version: String,
}

/// One library of a Quilt loader.
#[derive(Debug)]
pub struct QuiltLibrary {
    pub name: String,
    pub url: String,
}

/// The libraries of a Quilt loader by the side that needs them.
#[derive(Debug)]
pub struct QuiltLibraries {
    pub client: Vec<QuiltLibrary>,
    pub common: Vec<QuiltLibrary>,
    pub server: Vec<QuiltLibrary>,
}

/// The main classes of a Quilt loader.
#[derive(Debug)]
pub struct QuiltMainClass {
    pub client: Option<String>,
    pub server: Option<String>,
    pub server_launcher: Option<String>,
}

/// What a Quilt loader tells a launcher.
#[derive(Debug)]
pub struct QuiltLauncherMeta {
    pub version: u32,
    pub libraries: QuiltLibraries,
    pub main_class: QuiltMainClass,
}

/// One Quilt loader with what it is built from.
#[derive(Debug)]
pub struct QuiltVersion {
    pub loader: QuiltArtifactVersion,
    pub hashed: QuiltVersionHashed,
    pub intermediary: QuiltVersionIntermediary,
    pub launcher_meta: QuiltLauncherMeta,
}

/// The Quilt loaders for one Minecraft version.
#[derive(Debug)]
pub struct QuiltVersionList {
    pub items: Vec<QuiltVersion>,
}

/// Where the loaders for a Minecraft version are listed.
pub fn loader_list_url(mcversion: &str) -> (r: String)
    ensures
        r@ == "https://meta.quiltmc.org/v3/versions/loader/"@ + mcversion@,
{
    let mut out: Vec<char> = Vec::new();
    push_str(&mut out, "https://meta.quiltmc.org/v3/versions/loader/");
    push_str(&mut out, mcversion);
    string_of(&out)
}

/// Where the descriptor of a loader for a Minecraft version is published.
pub fn profile_url(mcversion: &str, quilt_version: &str) -> (r: String)
    ensures
        r@ == "https://meta.quiltmc.org/v3/versions/loader/"@ + mcversion@ + "/"@
            + quilt_version@ + "/profile/json"@,
{
    let mut out: Vec<char> = Vec::new();
    push_str(&mut out, "https://meta.quiltmc.org/v3/versions/loader/");
    push_str(&mut out, mcversion);
    push_str(&mut out, "/");
    push_str(&mut out, quilt_version);
    push_str(&mut out, "/profile/json");
    string_of(&out)
}

/// Where the descriptor of a loader is written: the descriptor file of the
/// version that the descriptor names itself.
pub fn install(descriptor_id: &str, minecraft: &MinecraftLocation) -> (r: String)
    ensures
        r@ == version_json_of(*minecraft, descriptor_id@),
{
    minecraft.get_version_json(descriptor_id)
}

} // verus!
