//! The records of a version descriptor as Mojang and the mod loaders
//! publish it.

use vstd::prelude::*;
use crate::decimal::{parse_u64, parse_u64_spec};
use crate::error::Error;
use crate::json::{Json, JsonMember};
use crate::named::Named;
use crate::text::{chars_of, split, split_seq, string_of, views};

verus! {

/// The game and JVM argument lists of a descriptor, unresolved.
#[derive(Debug)]
pub struct Arguments {
    pub game: Option<Vec<Json>>,
    pub jvm: Option<Vec<Json>>,
}

/// The reference to an asset index.
#[derive(Clone, Debug)]
pub struct AssetIndex {
    /// The SHA-1 digest of the index file, where the descriptor records it.
    pub sha1: Option<String>,
    pub size: u64,
    pub url: String,
    pub id: String,
    pub total_size: u64,
}

/// One entry of a descriptor's `downloads`.
#[derive(Clone, Debug)]
pub struct Download {
    pub sha1: String,
    pub size: u64,
    pub url: String,
}

/// The Java runtime that a version asks for.
#[derive(Clone, Debug)]
pub struct JavaVersion {
    pub component: String,
    pub major_version: i32,
}

impl Default for JavaVersion {
    /// The legacy runtime, Java 8.
    fn default() -> (r: JavaVersion)
        ensures
            r.component@ == "jre-legacy"@,
            r.major_version == 8,
    {
        JavaVersion { component: "jre-legacy".to_owned(), major_version: 8 }
    }
}

/// The file of a logging configuration.
#[derive(Clone, Debug)]
pub struct LoggingFileDownload {
    pub id: String,
    pub sha1: String,
    pub size: u64,
    pub url: String,
}

/// One logging configuration of a descriptor.
#[derive(Clone, Debug)]
pub struct Logging {
    pub file: LoggingFileDownload,
    pub argument: String,
    /// The `type` of the configuration.
    pub kind: String,
}

/// A version descriptor as it is published.
#[derive(Debug)]
pub struct Version {
    pub id: String,
    pub time: Option<String>,
    /// The `type` of the version, such as `release`.
    pub kind: Option<String>,
    pub release_time: Option<String>,
    pub inherits_from: Option<String>,
    pub minimum_launcher_version: Option<i32>,
    pub minecraft_arguments: Option<String>,
    pub arguments: Option<Arguments>,
    pub main_class: Option<String>,
    pub libraries: Option<Vec<Json>>,
    pub jar: Option<String>,
    pub asset_index: Option<AssetIndex>,
    pub assets: Option<String>,
    pub downloads: Option<Vec<Named<Download>>>,
    pub client: Option<String>,
    pub server: Option<String>,
    pub logging: Option<Vec<Named<Logging>>>,
    pub java_version: Option<JavaVersion>,
    pub client_version: Option<String>,
}

/// One object of an asset index.
#[derive(Clone, Debug)]
pub struct AssetIndexObjectInfo {
    pub hash: String,
    pub size: u64,
}

/// A logging file as older descriptors write it.
#[derive(Clone, Debug)]
pub struct LoggingFile {
    pub size: u64,
    pub url: String,
    pub id: String,
}

/// One element of an argument list: a literal or a guarded value.
#[derive(Debug)]
pub enum LaunchArgument {
    Text(String),
    Object(Vec<JsonMember>),
}

/// The operating system that a rule names.
#[derive(Clone, Debug)]
pub struct Platform {
    pub name: String,
    pub version: Option<String>,
}

/// A Minecraft version number.
#[derive(Clone, Debug)]
pub enum MinecraftVersion {
    /// `major.minor` or `major.minor.patch`.
    Release(u8, u8, Option<u8>),
    /// A weekly snapshot: year, week and the letter that follows.
    Snapshot(u8, u8, String),
    /// Any other name.
    Unknown(String),
}

/// A Minecraft version number over plain values.
pub enum VersionNumber {
    Release(u8, u8, Option<u8>),
    Snapshot(u8, u8, Seq<char>),
    Unknown(Seq<char>),
}

impl View for MinecraftVersion {
    type V = VersionNumber;

    open spec fn view(&self) -> VersionNumber {
        match *self {
            MinecraftVersion::Release(major, minor, patch) => VersionNumber::Release(
                major,
                minor,
                patch,
            ),
            MinecraftVersion::Snapshot(year, week, rest) => VersionNumber::Snapshot(
                year,
                week,
                rest@,
            ),
            MinecraftVersion::Unknown(name) => VersionNumber::Unknown(name@),
        }
    }
}

/// What reading `s` as an unsigned 8-bit number gives.
pub open spec fn parse_u8_spec(s: Seq<char>) -> Option<u8> {
    match parse_u64_spec(s) {
        Some(v) => if v <= 255 {
            Some(v as u8)
        } else {
            None
        },
        None => None,
    }
}

/// Reads `s` as an unsigned 8-bit decimal number.
pub fn parse_u8(s: &str) -> (r: Option<u8>)
    ensures
        r == parse_u8_spec(s@),
{
    match parse_u64(s) {
        Some(v) => if v <= 255 {
            Some(v as u8)
        } else {
            None
        },
        None => None,
    }
}

/// The release number in a text with a dot: the first two pieces between
/// the dots are numbers, and so is the third where there is one.
pub open spec fn release_number(parts: Seq<Seq<char>>) -> Option<VersionNumber>
    recommends
        parts.len() >= 2,
{
    match (parse_u8_spec(parts[0]), parse_u8_spec(parts[1])) {
        (Some(major), Some(minor)) => if parts.len() >= 3 {
            match parse_u8_spec(parts[2]) {
                Some(patch) => Some(VersionNumber::Release(major, minor, Some(patch))),
                None => None,
            }
        } else {
            Some(VersionNumber::Release(major, minor, None))
        },
        _ => None,
    }
}

/// The snapshot number in a text with a `w`: a year before the first `w`,
/// then a week of two characters and the rest.
pub open spec fn snapshot_number(parts: Seq<Seq<char>>) -> Option<VersionNumber>
    recommends
        parts.len() >= 2,
{
    if parts[1].len() < 2 {
        None
    } else {
        match (parse_u8_spec(parts[0]), parse_u8_spec(parts[1].take(2))) {
            (Some(year), Some(week)) => Some(
                VersionNumber::Snapshot(year, week, parts[1].skip(2)),
            ),
            _ => None,
        }
    }
}

/// The version number that a text denotes: a release where it has a dot, a
/// snapshot where it has a `w`, else a name; nothing where a release or a
/// snapshot is malformed.
pub open spec fn parse_version_spec(raw: Seq<char>) -> Option<VersionNumber> {
    if split_seq(raw, '.').len() >= 2 {
        release_number(split_seq(raw, '.'))
    } else if split_seq(raw, 'w').len() >= 2 {
        snapshot_number(split_seq(raw, 'w'))
    } else {
        Some(VersionNumber::Unknown(raw))
    }
}

/// Reads a Minecraft version number.
pub fn parse_version(raw: &str) -> (r: Result<MinecraftVersion, Error>)
    ensures
        match r {
            Ok(v) => parse_version_spec(raw@) == Some(v@),
            Err(e) => parse_version_spec(raw@) is None && e is InvalidMinecraftVersion,
        },
{
    let dotted = split(raw, '.');
    if dotted.len() >= 2 {
        proof {
            assert(views(dotted@)[0] == dotted@[0]@);
            assert(views(dotted@)[1] == dotted@[1]@);
        }
        let major = match parse_u8(dotted[0].as_str()) {
            Some(v) => v,
            None => {
                return Err(Error::InvalidMinecraftVersion);
            },
        };
        let minor = match parse_u8(dotted[1].as_str()) {
            Some(v) => v,
            None => {
                return Err(Error::InvalidMinecraftVersion);
            },
        };
        if dotted.len() >= 3 {
            proof {
                assert(views(dotted@)[2] == dotted@[2]@);
            }
            return match parse_u8(dotted[2].as_str()) {
                Some(patch) => Ok(MinecraftVersion::Release(major, minor, Some(patch))),
                None => Err(Error::InvalidMinecraftVersion),
            };
        }
        return Ok(MinecraftVersion::Release(major, minor, None));
    }
    let weekly = split(raw, 'w');
    if weekly.len() >= 2 {
        proof {
            assert(views(weekly@)[0] == weekly@[0]@);
            assert(views(weekly@)[1] == weekly@[1]@);
        }
        let tail = chars_of(weekly[1].as_str());
        if tail.len() < 2 {
            return Err(Error::InvalidMinecraftVersion);
        }
        let mut week_text: Vec<char> = Vec::new();
        week_text.push(tail[0]);
        week_text.push(tail[1]);
        let mut rest: Vec<char> = Vec::new();
        let mut i: usize = 2;
        while i < tail.len()
            invariant
                2 <= i <= tail.len(),
                rest@ == tail@.subrange(2, i as int),
            decreases tail.len() - i,
        {
            rest.push(tail[i]);
            i += 1;
            proof {
                assert(rest@ =~= tail@.subrange(2, i as int));
            }
        }
        proof {
            assert(week_text@ =~= tail@.take(2));
            assert(rest@ =~= tail@.skip(2));
        }
        let week_text = string_of(&week_text);
        let year = match parse_u8(weekly[0].as_str()) {
            Some(v) => v,
            None => {
                return Err(Error::InvalidMinecraftVersion);
            },
        };
        let week = match parse_u8(week_text.as_str()) {
            Some(v) => v,
            None => {
                return Err(Error::InvalidMinecraftVersion);
            },
        };
        return Ok(MinecraftVersion::Snapshot(year, week, string_of(&rest)));
    }
    Ok(MinecraftVersion::Unknown(raw.to_owned()))
}

} // verus!
