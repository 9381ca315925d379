//! The Forge installer: which way it is run and how its outcome is read.

use vstd::prelude::*;
use crate::decimal::{parse_u64, parse_u64_spec};
use crate::error::Error;
use crate::json::Json;
use crate::text::{
    ends_with,
    has_suffix,
    push_str,
    split,
    split_seq,
    str_eq,
    string_of,
    views,
};

verus! {

/// One file of a Forge version.
#[derive(Debug)]
pub struct ForgeInstallerFile {
    pub format: String,
    pub category: String,
    pub hash: Option<String>,
}

/// One Forge version as the version list writes it.
#[derive(Debug)]
pub struct ForgeVersionListItem {
    pub id: String,
    pub build: u32,
    pub revision: u32,
    pub version: String,
    pub modified: String,
    pub mcversion: String,
    pub files: Vec<ForgeInstallerFile>,
    pub branch: Option<Json>,
}

/// The Forge versions for one Minecraft version.
#[derive(Debug)]
pub struct ForgeVersionList {
    pub items: Vec<ForgeVersionListItem>,
}

/// Where the Forge versions for a Minecraft version are listed.
pub fn version_list_url(mcversion: &str) -> (r: String)
    ensures
        r@ == "https://bmclapi2.bangbang93.com/forge/minecraft/"@ + mcversion@,
{
    let mut out: Vec<char> = Vec::new();
    push_str(&mut out, "https://bmclapi2.bangbang93.com/forge/minecraft/");
    push_str(&mut out, mcversion);
    string_of(&out)
}

/// The first version of Forge whose installer needs the bootstrap jar.
pub open spec fn bootstrap_from() -> u64 {
    25
}

/// The major version of a Forge version: the number before its first dot.
pub open spec fn forge_major_of(forge_version: Seq<char>) -> Option<u64> {
    parse_u64_spec(split_seq(forge_version, '.')[0])
}

/// Whether the installer of a Forge version is run through the bootstrap
/// jar: from major version 25 on. Fails where the version does not start
/// with a number.
pub fn uses_bootstrapper(forge_version: &str) -> (r: Result<bool, Error>)
    ensures
        match r {
            Ok(b) => forge_major_of(forge_version@) matches Some(major) && b == (major
                >= bootstrap_from()),
            Err(e) => forge_major_of(forge_version@) is None && e is InvalidForgeVersion,
        },
{
    let parts = split(forge_version, '.');
    proof {
        assert(views(parts@)[0] == parts@[0]@);
    }
    match parse_u64(parts[0].as_str()) {
        Some(major) => Ok(major >= 25),
        None => Err(Error::InvalidForgeVersion),
    }
}

/// Where the installer of a Forge version is fetched from.
pub open spec fn installer_url_of(mcversion: Seq<char>, forge_version: Seq<char>) -> Seq<char> {
    "https://maven.minecraftforge.net/net/minecraftforge/forge/"@ + mcversion + "-"@
        + forge_version + "/forge-"@ + mcversion + "-"@ + forge_version + "-installer.jar"@
}

/// The address of the installer of a Forge version.
pub fn download_installer(mcversion: &str, forge_version: &str) -> (r: String)
    ensures
        r@ == installer_url_of(mcversion@, forge_version@),
{
    let mut out: Vec<char> = Vec::new();
    push_str(&mut out, "https://maven.minecraftforge.net/net/minecraftforge/forge/");
    push_str(&mut out, mcversion);
    push_str(&mut out, "-");
    push_str(&mut out, forge_version);
    push_str(&mut out, "/forge-");
    push_str(&mut out, mcversion);
    push_str(&mut out, "-");
    push_str(&mut out, forge_version);
    push_str(&mut out, "-installer.jar");
    string_of(&out)
}

/// The arguments with which the Java runtime runs the installer: through
/// the bootstrap jar where one is given, else the installer by itself.
pub open spec fn installer_arguments_of(
    bootstrapper: Option<Seq<char>>,
    installer: Seq<char>,
    install_dir: Seq<char>,
    delimiter: Seq<char>,
) -> Seq<Seq<char>> {
    match bootstrapper {
        Some(jar) => seq![
            "-cp"@,
            jar + delimiter + installer,
            "com.bangbang93.ForgeInstaller"@,
            install_dir,
        ],
        None => seq!["-jar"@, installer, "--installClient"@, install_dir],
    }
}

/// The arguments with which the Java runtime runs the installer.
pub fn installer_arguments(
    bootstrapper: Option<&str>,
    installer: &str,
    install_dir: &str,
    delimiter: &str,
) -> (r: Vec<String>)
    ensures
        views(r@) == installer_arguments_of(
            match bootstrapper {
                Some(jar) => Some(jar@),
                None => None,
            },
            installer@,
            install_dir@,
            delimiter@,
        ),
{
    let mut out: Vec<String> = Vec::new();
    match bootstrapper {
        Some(jar) => {
            out.push("-cp".to_owned());
            let mut class_path: Vec<char> = Vec::new();
            push_str(&mut class_path, jar);
            push_str(&mut class_path, delimiter);
            push_str(&mut class_path, installer);
            out.push(string_of(&class_path));
            out.push("com.bangbang93.ForgeInstaller".to_owned());
            out.push(install_dir.to_owned());
        },
        None => {
            out.push("-jar".to_owned());
            out.push(installer.to_owned());
            out.push("--installClient".to_owned());
            out.push(install_dir.to_owned());
        },
    }
    proof {
        assert(views(out@) =~= installer_arguments_of(
            match bootstrapper {
                Some(jar) => Some(jar@),
                None => None,
            },
            installer@,
            install_dir@,
            delimiter@,
        ));
    }
    out
}

/// The output of the installer reports success: its last line reads
/// `true`, and nothing follows that line.
pub open spec fn ends_with_true(output: Seq<char>) -> bool {
    output == "true\n"@ || has_suffix(output, "\ntrue\n"@)
}

/// Whether the output of the installer reports success.
pub fn reports_success(output: &str) -> (r: bool)
    ensures
        r == ends_with_true(output@),
{
    str_eq(output, "true\n") || ends_with(output, "\ntrue\n")
}

/// The outcome of a run of the installer. It has failed where the process
/// ended with an error, and where it ran through the bootstrap jar without
/// reporting success. Either way the installer jar is deleted afterwards.
pub fn install(reported_success: bool, used_bootstrapper: bool, exit_ok: bool) -> (r: Result<
    (),
    Error,
>)
    ensures
        r is Err <==> ((!reported_success && used_bootstrapper) || !exit_ok),
        r matches Err(e) ==> e is ForgeInstallerFailed,
{
    if (!reported_success && used_bootstrapper) || !exit_ok {
        Err(Error::ForgeInstallerFailed)
    } else {
        Ok(())
    }
}

} // verus!
