//! The NeoForged installer: which versions fit a Minecraft version, and
//! how the installer is run.

use vstd::prelude::*;
use crate::error::Error;
use crate::text::{contains, has_infix, push_str, split, split_seq, str_eq, string_of, views};

verus! {

/// The NeoForged versions as the repository lists them.
#[derive(Debug)]
pub struct NeoforgedVersionList {
    pub is_snapshot: bool,
    pub versions: Vec<String>,
}

/// Where the NeoForged versions are listed.
pub fn version_list_url() -> (r: &'static str)
    ensures
        r@ == "https://maven.neoforged.net/api/maven/versions/releases/net/neoforged/neoforge"@,
{
    "https://maven.neoforged.net/api/maven/versions/releases/net/neoforged/neoforge"
}

/// The piece at position `i` of a dotted version, if it has one.
pub open spec fn piece(parts: Seq<Seq<char>>, i: int) -> Option<Seq<char>> {
    if 0 <= i < parts.len() {
        Some(parts[i])
    } else {
        None
    }
}

/// A NeoForged version fits a Minecraft version `1.<minor>.<patch>`: its
/// first piece is the minor version, and its second piece is the patch
/// version, or `0` where the Minecraft version has no patch version.
pub open spec fn fits(version: Seq<char>, mcversion: Seq<char>) -> bool {
    let own = split_seq(version, '.');
    let mc = split_seq(mcversion, '.');
    piece(own, 0) == piece(mc, 1) && (piece(own, 1) == piece(mc, 2) || (piece(own, 1) == Some(
        "0"@,
    ) && piece(mc, 2) is None))
}

/// The versions that fit, the latest first: the list in reverse, without
/// the versions that do not fit.
pub open spec fn fitting(versions: Seq<Seq<char>>, mcversion: Seq<char>) -> Seq<Seq<char>>
    decreases versions.len(),
{
    if versions.len() == 0 {
        Seq::empty()
    } else if fits(versions[0], mcversion) {
        fitting(versions.drop_first(), mcversion).push(versions[0])
    } else {
        fitting(versions.drop_first(), mcversion)
    }
}

/// Whether two optional pieces are the same.
fn same_piece(a: Option<&String>, b: Option<&String>) -> (r: bool)
    ensures
        r == ((match a {
            Some(s) => Some(s@),
            None => None,
        }) == (match b {
            Some(s) => Some(s@),
            None => None,
        })),
{
    match (a, b) {
        (Some(x), Some(y)) => str_eq(x.as_str(), y.as_str()),
        (None, None) => true,
        _ => false,
    }
}

/// The piece at position `i`.
fn piece_at(parts: &Vec<String>, i: usize) -> (r: Option<&String>)
    ensures
        (match r {
            Some(s) => Some(s@),
            None => None,
        }) == piece(views(parts@), i as int),
{
    if i < parts.len() {
        proof {
            assert(views(parts@)[i as int] == parts@[i as int]@);
        }
        Some(&parts[i])
    } else {
        None
    }
}

/// Whether a NeoForged version fits a Minecraft version.
pub fn version_fits(version: &str, mcversion: &str) -> (r: bool)
    ensures
        r == fits(version@, mcversion@),
{
    let own = split(version, '.');
    let mc = split(mcversion, '.');
    let first = same_piece(piece_at(&own, 0), piece_at(&mc, 1));
    let second = same_piece(piece_at(&own, 1), piece_at(&mc, 2));
    let zero = match piece_at(&own, 1) {
        Some(s) => str_eq(s.as_str(), "0"),
        None => false,
    };
    let no_patch = piece_at(&mc, 2).is_none();
    first && (second || (zero && no_patch))
}

impl NeoforgedVersionList {
    /// The versions of the list that fit a Minecraft version, the latest
    /// first.
    pub fn from_mcversion(&self, mcversion: &str) -> (r: Vec<String>)
        ensures
            views(r@) == fitting(views(self.versions@), mcversion@),
    {
        let versions = &self.versions;
        let ghost all = views(self.versions@);
        let mut out: Vec<String> = Vec::new();
        let mut i: usize = versions.len();
        proof {
            assert(all.skip(all.len() as int) =~= Seq::<Seq<char>>::empty());
            assert(views(out@) =~= Seq::<Seq<char>>::empty());
        }
        while i > 0
            invariant
                i <= versions.len(),
                *versions == self.versions,
                all == views(self.versions@),
                views(out@) == fitting(all.skip(i as int), mcversion@),
            decreases i,
        {
            i -= 1;
            proof {
                assert(all.skip(i as int).drop_first() =~= all.skip(i + 1));
                assert(all.skip(i as int)[0] == versions@[i as int]@);
            }
            if version_fits(versions[i].as_str(), mcversion) {
                let ghost before = out@;
                let text = versions[i].clone();
                out.push(text);
                proof {
                    assert(views(out@) =~= views(before).push(text@));
                }
            }
        }
        proof {
            assert(all.skip(0) =~= all);
        }
        out
    }
}

/// Where the installer of a NeoForged version is fetched from.
pub open spec fn installer_url_of(version: Seq<char>) -> Seq<char> {
    "https://maven.neoforged.net/releases/net/neoforged/neoforge/"@ + version + "/neoforge-"@
        + version + "-installer.jar"@
}

/// The address of the installer of a NeoForged version.
pub fn download_installer(neoforged_version: &str) -> (r: String)
    ensures
        r@ == installer_url_of(neoforged_version@),
{
    let mut out: Vec<char> = Vec::new();
    push_str(&mut out, "https://maven.neoforged.net/releases/net/neoforged/neoforge/");
    push_str(&mut out, neoforged_version);
    push_str(&mut out, "/neoforge-");
    push_str(&mut out, neoforged_version);
    push_str(&mut out, "-installer.jar");
    string_of(&out)
}

/// The arguments with which the Java runtime runs the installer.
pub fn installer_arguments(installer: &str, install_dir: &str) -> (r: Vec<String>)
    ensures
        views(r@) == seq!["-jar"@, installer@, "--installClient"@, install_dir@],
{
    let mut out: Vec<String> = Vec::new();
    out.push("-jar".to_owned());
    out.push(installer.to_owned());
    out.push("--installClient".to_owned());
    out.push(install_dir.to_owned());
    proof {
        assert(views(out@) =~= seq!["-jar"@, installer@, "--installClient"@, install_dir@]);
    }
    out
}

/// Whether the output of the installer reports success.
pub fn reports_success(output: &str) -> (r: bool)
    ensures
        r == has_infix(output@, "Successfully installed client into launcher"@),
{
    contains(output, "Successfully installed client into launcher")
}

/// The outcome of a run of the installer: it has failed unless it reported
/// success and the process ended without an error. Either way the
/// installer jar is deleted afterwards.
pub fn install(reported_success: bool, exit_ok: bool) -> (r: Result<(), Error>)
    ensures
        r is Ok <==> (reported_success && exit_ok),
        r matches Err(e) ==> e is NeoforgedInstallerFailed,
{
    if !reported_success || !exit_ok {
        Err(Error::NeoforgedInstallerFailed)
    } else {
        Ok(())
    }
}

} // verus!
