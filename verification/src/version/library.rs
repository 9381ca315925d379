//! Library records of a version descriptor and what each resolves to.

use vstd::prelude::*;
use crate::error::Error;
use crate::json::{find_member, lookup, Json};
use crate::named::Named;
use crate::platform::{os_family_name, PlatformInfo};
use crate::text::{push_str, replace_char, replace_char_seq, split, split_seq, string_of, views};
use crate::version::checks::{check_allowed, rules_allow};

verus! {

/// Where a library is fetched from and where it is kept.
#[derive(Debug)]
pub struct LibraryDownloadInfo {
    pub sha1: Option<String>,
    pub size: Option<u64>,
    pub url: String,
    /// The path of the file below the libraries directory.
    pub path: String,
}

impl Clone for LibraryDownloadInfo {
    fn clone(&self) -> (r: LibraryDownloadInfo)
        ensures
            r == *self,
    {
        LibraryDownloadInfo {
            sha1: match &self.sha1 {
                Some(sha1) => Some(sha1.clone()),
                None => None,
            },
            size: self.size,
            url: self.url.clone(),
            path: self.path.clone(),
        }
    }
}

/// A library after resolution: a native archive to unpack, or a jar for the
/// class path.
#[derive(Debug)]
pub enum ResolvedLibrary {
    Native(LibraryDownloadInfo),
    Common(LibraryDownloadInfo),
}

impl Clone for ResolvedLibrary {
    fn clone(&self) -> (r: ResolvedLibrary)
        ensures
            r == *self,
    {
        match self {
            ResolvedLibrary::Native(info) => ResolvedLibrary::Native(info.clone()),
            ResolvedLibrary::Common(info) => ResolvedLibrary::Common(info.clone()),
        }
    }
}

/// A library record with named downloads.
#[derive(Debug)]
pub struct NormalLibrary {
    pub name: String,
    pub downloads: Vec<Named<LibraryDownloadInfo>>,
}

/// A library record with per-platform native archives.
#[derive(Debug)]
pub struct NativeLibrary {
    pub name: String,
    pub downloads: Vec<Named<LibraryDownloadInfo>>,
    pub classifiers: Vec<Named<LibraryDownloadInfo>>,
    pub rules: Vec<Json>,
    pub extract: Json,
    pub natives: Vec<Named<String>>,
}

/// A library record that rules restrict to some platforms.
#[derive(Debug)]
pub struct PlatformSpecificLibrary {
    pub name: String,
    pub downloads: Vec<Named<LibraryDownloadInfo>>,
    pub rules: Vec<Json>,
}

/// A library record in the form that mod loaders use: a coordinate and the
/// root of a Maven repository.
#[derive(Clone, Debug)]
pub struct LegacyLibrary {
    pub name: String,
    pub url: Option<String>,
    pub clientreq: Option<bool>,
    pub serverreq: Option<bool>,
    pub checksums: Option<Vec<String>>,
}

/// The forms in which a descriptor writes a library.
#[derive(Debug)]
pub enum Library {
    Normal(NormalLibrary),
    Native(NativeLibrary),
    PlatformSpecific(PlatformSpecificLibrary),
    Legacy(LegacyLibrary),
}

/// A resolved library over plain values.
pub struct LibrarySpec {
    pub native: bool,
    pub sha1: Option<Seq<char>>,
    pub size: Option<u64>,
    pub url: Seq<char>,
    pub path: Seq<char>,
}

/// The characters of an optional string.
pub open spec fn option_text(s: Option<String>) -> Option<Seq<char>> {
    match s {
        Some(s) => Some(s@),
        None => None,
    }
}

impl View for ResolvedLibrary {
    type V = LibrarySpec;

    open spec fn view(&self) -> LibrarySpec {
        match *self {
            ResolvedLibrary::Native(info) => LibrarySpec {
                native: true,
                sha1: option_text(info.sha1),
                size: info.size,
                url: info.url@,
                path: info.path@,
            },
            ResolvedLibrary::Common(info) => LibrarySpec {
                native: false,
                sha1: option_text(info.sha1),
                size: info.size,
                url: info.url@,
                path: info.path@,
            },
        }
    }
}

/// The plain values of a list of resolved libraries.
pub open spec fn library_specs(libraries: Seq<ResolvedLibrary>) -> Seq<LibrarySpec> {
    Seq::new(libraries.len(), |i: int| libraries[i]@)
}

/// The repository that serves a coordinate which names none.
pub open spec fn default_repository() -> Seq<char> {
    "https://libraries.minecraft.net/"@
}

/// The native archive of a record for this platform: the classifier that
/// `natives` maps the operating-system family to, where that classifier
/// has a URL and a path.
pub open spec fn native_spec(library: Json, platform: PlatformInfo) -> Option<LibrarySpec> {
    match (library.member2("downloads"@, "classifiers"@), library.member("natives"@)) {
        (Some(Json::Object(classifiers)), Some(Json::Object(natives))) => match find_member(
            natives@,
            os_family_name(platform.os_family),
        ) {
            Some(Json::Text(key)) => match find_member(classifiers@, key@) {
                Some(classifier) => match (
                    classifier.member_text("url"@),
                    classifier.member_text("path"@),
                ) {
                    (Some(url), Some(path)) => Some(
                        LibrarySpec {
                            native: true,
                            sha1: classifier.member_text("sha1"@),
                            size: classifier.member_u64("size"@),
                            url,
                            path,
                        },
                    ),
                    _ => None,
                },
                None => None,
            },
            _ => None,
        },
        _ => None,
    }
}

/// An optional string field of an artifact: absent or `null` is no string;
/// any value other than a string is malformed.
pub open spec fn optional_text_field(v: Option<Json>) -> Option<Option<Seq<char>>> {
    match v {
        None => Some(None),
        Some(Json::Null) => Some(None),
        Some(Json::Text(s)) => Some(Some(s@)),
        _ => None,
    }
}

/// An optional number field of an artifact: absent or `null` is no number;
/// any value other than an unsigned integer is malformed.
pub open spec fn optional_u64_field(v: Option<Json>) -> Option<Option<u64>> {
    match v {
        None => Some(None),
        Some(Json::Null) => Some(None),
        Some(Json::Number(Some(n))) => Some(Some(n)),
        _ => None,
    }
}

/// The jar that an artifact object describes; nothing where the object is
/// malformed: `url` and `path` must be strings, `sha1` a string if present,
/// `size` an unsigned integer if present.
pub open spec fn artifact_spec(artifact: Json) -> Option<LibrarySpec> {
    match (
        artifact.member_text("url"@),
        artifact.member_text("path"@),
        optional_text_field(artifact.member("sha1"@)),
        optional_u64_field(artifact.member("size"@)),
    ) {
        (Some(url), Some(path), Some(sha1), Some(size)) => Some(
            LibrarySpec { native: false, sha1, size, url, path },
        ),
        _ => None,
    }
}

/// The path of a Maven coordinate `group:artifact:version` in a repository:
/// `group/artifact/version/artifact-version.jar`, the dots of the group
/// written as slashes. A text of another shape has no path.
pub open spec fn coordinate_path(name: Seq<char>) -> Option<Seq<char>> {
    let parts = split_seq(name, ':');
    if parts.len() == 3 {
        Some(
            replace_char_seq(parts[0], '.', '/') + "/"@ + parts[1] + "/"@ + parts[2] + "/"@
                + parts[1] + "-"@ + parts[2] + ".jar"@,
        )
    } else {
        None
    }
}

/// The jar of a record that only gives a coordinate and perhaps a
/// repository; nothing where the record has no name of the right shape.
pub open spec fn modloader_spec(library: Json) -> Option<LibrarySpec> {
    match library.member_text("name"@) {
        Some(name) => match coordinate_path(name) {
            Some(path) => Some(
                LibrarySpec {
                    native: false,
                    sha1: None,
                    size: None,
                    url: (match library.member_text("url"@) {
                        Some(root) => root,
                        None => default_repository(),
                    }) + path,
                    path,
                },
            ),
            None => None,
        },
        None => None,
    }
}

/// The artifact of a record, where `downloads.artifact` is an object.
pub open spec fn artifact_object(library: Json) -> Option<Json> {
    match library.member2("downloads"@, "artifact"@) {
        Some(artifact) => if artifact is Object {
            Some(artifact)
        } else {
            None
        },
        None => None,
    }
}

/// What one library record comes to.
pub enum LibraryOutcome {
    /// Its rules do not allow it here.
    Skipped,
    /// It resolves to this library.
    Resolved(LibrarySpec),
    /// Its artifact object is malformed.
    BadArtifact,
    /// It is a coordinate record without a well-formed name.
    BadCoordinate,
}

/// What one library record comes to on `platform`: dropped where its rules
/// disallow it with no features enabled; else its native archive for this
/// platform; else its artifact; else the jar of its coordinate.
pub open spec fn resolve_library_spec(library: Json, platform: PlatformInfo) -> LibraryOutcome {
    if library.member("rules"@) matches Some(Json::Array(rules)) && !rules_allow(
        rules@,
        platform,
        Seq::empty(),
    ) {
        LibraryOutcome::Skipped
    } else if native_spec(library, platform) is Some {
        LibraryOutcome::Resolved(native_spec(library, platform)->0)
    } else if artifact_object(library) is Some {
        match artifact_spec(artifact_object(library)->0) {
            Some(spec) => LibraryOutcome::Resolved(spec),
            None => LibraryOutcome::BadArtifact,
        }
    } else {
        match modloader_spec(library) {
            Some(spec) => LibraryOutcome::Resolved(spec),
            None => LibraryOutcome::BadCoordinate,
        }
    }
}

/// What a list of library records comes to.
pub enum LibrariesOutcome {
    /// The libraries of the records that are kept, in order.
    Resolved(Seq<LibrarySpec>),
    /// The first record that fails has a malformed artifact.
    BadArtifact,
    /// The first record that fails has no well-formed coordinate.
    BadCoordinate,
}

/// What a list of library records comes to: the resolved libraries in the
/// order of their records, or the failure of the first record that fails.
pub open spec fn resolve_libraries_spec(libraries: Seq<Json>, platform: PlatformInfo) -> LibrariesOutcome
    decreases libraries.len(),
{
    if libraries.len() == 0 {
        LibrariesOutcome::Resolved(Seq::empty())
    } else {
        match resolve_libraries_spec(libraries.drop_last(), platform) {
            LibrariesOutcome::Resolved(sofar) => match resolve_library_spec(
                libraries.last(),
                platform,
            ) {
                LibraryOutcome::Skipped => LibrariesOutcome::Resolved(sofar),
                LibraryOutcome::Resolved(spec) => LibrariesOutcome::Resolved(sofar.push(spec)),
                LibraryOutcome::BadArtifact => LibrariesOutcome::BadArtifact,
                LibraryOutcome::BadCoordinate => LibrariesOutcome::BadCoordinate,
            },
            failed => failed,
        }
    }
}

/// The error that reports a failed record.
pub open spec fn reports_library_failure(e: Error, outcome: LibrariesOutcome) -> bool {
    match outcome {
        LibrariesOutcome::Resolved(_) => false,
        LibrariesOutcome::BadArtifact => e matches Error::InvalidVersionJson(what) && what@
            == "downloads.artifact"@,
        LibrariesOutcome::BadCoordinate => e matches Error::InvalidVersionJson(what) && what@
            == "libraries"@,
    }
}

/// The native archive of a record for this platform, if it has one.
pub fn resolve_native_libraries(library: &Json, platform: &PlatformInfo) -> (r: Option<ResolvedLibrary>)
    ensures
        match r {
            Some(lib) => native_spec(*library, *platform) == Some(lib@),
            None => native_spec(*library, *platform) is None,
        },
{
    let classifiers = match library.get2("downloads", "classifiers") {
        Some(Json::Object(classifiers)) => classifiers,
        _ => {
            return None;
        },
    };
    let natives = match library.get("natives") {
        Some(Json::Object(natives)) => natives,
        _ => {
            return None;
        },
    };
    let family = platform.os_family.to_string();
    let key = match lookup(natives, family.as_str()) {
        Some(Json::Text(key)) => key,
        _ => {
            return None;
        },
    };
    let classifier = match lookup(classifiers, key.as_str()) {
        Some(classifier) => classifier,
        None => {
            return None;
        },
    };
    let url = match classifier.get_str("url") {
        Some(url) => url,
        None => {
            return None;
        },
    };
    let path = match classifier.get_str("path") {
        Some(path) => path,
        None => {
            return None;
        },
    };
    let sha1 = match classifier.get_str("sha1") {
        Some(sha1) => Some(sha1.to_owned()),
        None => None,
    };
    Some(
        ResolvedLibrary::Native(
            LibraryDownloadInfo {
                sha1,
                size: classifier.get_u64("size"),
                url: url.to_owned(),
                path: path.to_owned(),
            },
        ),
    )
}

/// The jar that an artifact object describes, or nothing where the object
/// is malformed.
pub fn decode_artifact(artifact: &Json) -> (r: Option<ResolvedLibrary>)
    ensures
        match r {
            Some(lib) => artifact_spec(*artifact) == Some(lib@),
            None => artifact_spec(*artifact) is None,
        },
{
    let url = match artifact.get_str("url") {
        Some(url) => url,
        None => {
            return None;
        },
    };
    let path = match artifact.get_str("path") {
        Some(path) => path,
        None => {
            return None;
        },
    };
    let sha1 = match artifact.get("sha1") {
        None => None,
        Some(Json::Null) => None,
        Some(Json::Text(s)) => Some(s.clone()),
        _ => {
            return None;
        },
    };
    let size = match artifact.get("size") {
        None => None,
        Some(Json::Null) => None,
        Some(Json::Number(Some(n))) => Some(*n),
        _ => {
            return None;
        },
    };
    Some(
        ResolvedLibrary::Common(
            LibraryDownloadInfo { sha1, size, url: url.to_owned(), path: path.to_owned() },
        ),
    )
}

/// The jar of a record's artifact: nothing where the record has no artifact
/// object, an error where the object is malformed.
pub fn resolve_common_libraries(library: &Json) -> (r: Result<Option<ResolvedLibrary>, Error>)
    ensures
        match r {
            Ok(Some(lib)) => artifact_object(*library) is Some && artifact_spec(
                artifact_object(*library)->0,
            ) == Some(lib@),
            Ok(None) => artifact_object(*library) is None,
            Err(e) => artifact_object(*library) is Some && artifact_spec(
                artifact_object(*library)->0,
            ) is None && reports_library_failure(e, LibrariesOutcome::BadArtifact),
        },
{
    match library.get2("downloads", "artifact") {
        Some(artifact) => {
            if let Json::Object(_) = artifact {
                match decode_artifact(artifact) {
                    Some(lib) => Ok(Some(lib)),
                    None => Err(Error::InvalidVersionJson("downloads.artifact".to_owned())),
                }
            } else {
                Ok(None)
            }
        },
        None => Ok(None),
    }
}

/// The path of a Maven coordinate in a repository.
pub fn coordinate_to_path(name: &str) -> (r: Option<String>)
    ensures
        match r {
            Some(path) => coordinate_path(name@) == Some(path@),
            None => coordinate_path(name@) is None,
        },
{
    let parts = split(name, ':');
    if parts.len() != 3 {
        return None;
    }
    proof {
        assert(views(parts@)[0] == parts@[0]@);
        assert(views(parts@)[1] == parts@[1]@);
        assert(views(parts@)[2] == parts@[2]@);
    }
    let package = replace_char(parts[0].as_str(), '.', '/');
    let artifact = parts[1].as_str();
    let version = parts[2].as_str();
    let mut out: Vec<char> = Vec::new();
    push_str(&mut out, package.as_str());
    push_str(&mut out, "/");
    push_str(&mut out, artifact);
    push_str(&mut out, "/");
    push_str(&mut out, version);
    push_str(&mut out, "/");
    push_str(&mut out, artifact);
    push_str(&mut out, "-");
    push_str(&mut out, version);
    push_str(&mut out, ".jar");
    proof {
        assert(out@ =~= coordinate_path(name@)->0);
    }
    Some(string_of(&out))
}

/// The jar of a record that only gives a coordinate and perhaps a
/// repository.
pub fn resolve_modloader_libraries(library: &Json) -> (r: Result<ResolvedLibrary, Error>)
    ensures
        match r {
            Ok(lib) => modloader_spec(*library) == Some(lib@),
            Err(e) => modloader_spec(*library) is None && reports_library_failure(
                e,
                LibrariesOutcome::BadCoordinate,
            ),
        },
{
    let name = match library.get_str("name") {
        Some(name) => name,
        None => {
            return Err(Error::InvalidVersionJson("libraries".to_owned()));
        },
    };
    let path = match coordinate_to_path(name) {
        Some(path) => path,
        None => {
            return Err(Error::InvalidVersionJson("libraries".to_owned()));
        },
    };
    let root: &str = match library.get_str("url") {
        Some(root) => root,
        None => "https://libraries.minecraft.net/",
    };
    let mut url: Vec<char> = Vec::new();
    push_str(&mut url, root);
    push_str(&mut url, path.as_str());
    Ok(
        ResolvedLibrary::Common(
            LibraryDownloadInfo { sha1: None, size: None, url: string_of(&url), path },
        ),
    )
}

/// Resolves one library record: nothing where its rules drop it.
pub fn resolve_library(library: &Json, platform: &PlatformInfo) -> (r: Result<
    Option<ResolvedLibrary>,
    Error,
>)
    ensures
        match r {
            Ok(Some(lib)) => resolve_library_spec(*library, *platform) == LibraryOutcome::Resolved(
                lib@,
            ),
            Ok(None) => resolve_library_spec(*library, *platform) is Skipped,
            Err(e) => match resolve_library_spec(*library, *platform) {
                LibraryOutcome::BadArtifact => reports_library_failure(
                    e,
                    LibrariesOutcome::BadArtifact,
                ),
                LibraryOutcome::BadCoordinate => reports_library_failure(
                    e,
                    LibrariesOutcome::BadCoordinate,
                ),
                _ => false,
            },
        },
{
    if let Some(Json::Array(rules)) = library.get("rules") {
        let no_features: Vec<String> = Vec::new();
        proof {
            assert(views(no_features@) =~= Seq::<Seq<char>>::empty());
        }
        if !check_allowed(rules, platform, &no_features) {
            return Ok(None);
        }
    }
    if let Some(native) = resolve_native_libraries(library, platform) {
        return Ok(Some(native));
    }
    match resolve_common_libraries(library) {
        Ok(Some(common)) => Ok(Some(common)),
        Ok(None) => match resolve_modloader_libraries(library) {
            Ok(lib) => Ok(Some(lib)),
            Err(e) => Err(e),
        },
        Err(e) => Err(e),
    }
}

/// Resolves the library records of one descriptor, in order.
pub fn resolve_libraries(libraries: &Vec<Json>, platform: &PlatformInfo) -> (r: Result<
    Vec<ResolvedLibrary>,
    Error,
>)
    ensures
        match r {
            Ok(libs) => resolve_libraries_spec(libraries@, *platform)
                == LibrariesOutcome::Resolved(library_specs(libs@)),
            Err(e) => reports_library_failure(e, resolve_libraries_spec(libraries@, *platform)),
        },
{
    let mut out: Vec<ResolvedLibrary> = Vec::new();
    let mut i: usize = 0;
    proof {
        assert(library_specs(out@) =~= Seq::<LibrarySpec>::empty());
    }
    while i < libraries.len()
        invariant
            i <= libraries.len(),
            resolve_libraries_spec(libraries@.take(i as int), *platform)
                == LibrariesOutcome::Resolved(library_specs(out@)),
        decreases libraries.len() - i,
    {
        proof {
            assert(libraries@.take(i + 1).drop_last() == libraries@.take(i as int));
            assert(libraries@.take(i + 1).last() == libraries@[i as int]);
        }
        match resolve_library(&libraries[i], platform) {
            Ok(Some(lib)) => {
                let ghost before = out@;
                out.push(lib);
                proof {
                    assert(library_specs(out@) =~= library_specs(before).push(lib@));
                }
            },
            Ok(None) => {},
            Err(e) => {
                proof {
                    lemma_failure_stays(libraries@, *platform, i + 1);
                }
                return Err(e);
            },
        }
        i += 1;
    }
    proof {
        assert(libraries@.take(libraries@.len() as int) == libraries@);
    }
    Ok(out)
}

/// Once a leading part of a list of records has failed, the whole list
/// fails in the same way.
pub proof fn lemma_failure_stays(libraries: Seq<Json>, platform: PlatformInfo, k: int)
    requires
        0 <= k <= libraries.len(),
        !(resolve_libraries_spec(libraries.take(k), platform) is Resolved),
    ensures
        resolve_libraries_spec(libraries, platform) == resolve_libraries_spec(
            libraries.take(k),
            platform,
        ),
    decreases libraries.len() - k,
{
    if k == libraries.len() {
        assert(libraries.take(k) == libraries);
    } else {
        assert(libraries.take(k + 1).drop_last() == libraries.take(k));
        lemma_failure_stays(libraries, platform, k + 1);
    }
}

/// Two libraries are the same file: they have the same path below the
/// libraries directory.
pub open spec fn same_file(a: LibrarySpec, b: LibrarySpec) -> bool {
    a.path == b.path
}

/// `library` is the same file as one of `others`.
pub open spec fn occurs_among(library: LibrarySpec, others: Seq<LibrarySpec>) -> bool {
    exists|j: int| 0 <= j < others.len() && same_file(library, #[trigger] others[j])
}

/// `libraries` without the entries that a later entry shadows: of the
/// entries that are the same file only the last one stays, in its place.
/// So a library of a child takes the place of the same library of its
/// parent, and stands among the libraries of the child.
pub open spec fn deduped(libraries: Seq<LibrarySpec>) -> Seq<LibrarySpec>
    decreases libraries.len(),
{
    if libraries.len() == 0 {
        Seq::empty()
    } else if occurs_among(libraries[0], libraries.drop_first()) {
        deduped(libraries.drop_first())
    } else {
        seq![libraries[0]] + deduped(libraries.drop_first())
    }
}

/// No two entries of `libraries` are the same file.
pub open spec fn all_distinct(libraries: Seq<LibrarySpec>) -> bool {
    forall|i: int, j: int|
        0 <= i < j < libraries.len() ==> !same_file(
            #[trigger] libraries[i],
            #[trigger] libraries[j],
        )
}

/// What is left after the shadowed entries are taken out was there before,
/// and the last entry is always left.
pub proof fn lemma_deduped_within(libraries: Seq<LibrarySpec>)
    ensures
        forall|i: int|
            0 <= i < deduped(libraries).len() ==> exists|j: int|
                0 <= j < libraries.len() && libraries[j] == #[trigger] deduped(libraries)[i],
        libraries.len() > 0 ==> deduped(libraries).len() > 0,
    decreases libraries.len(),
{
    if libraries.len() > 0 {
        let rest = libraries.drop_first();
        lemma_deduped_within(rest);
        let out = deduped(libraries);
        assert forall|i: int| 0 <= i < out.len() implies exists|j: int|
            0 <= j < libraries.len() && libraries[j] == #[trigger] out[i] by {
            if occurs_among(libraries[0], rest) {
                let j = choose|j: int| 0 <= j < rest.len() && rest[j] == deduped(rest)[i];
                assert(libraries[j + 1] == out[i]);
            } else if i == 0 {
                assert(libraries[0] == out[0]);
            } else {
                assert(out[i] == deduped(rest)[i - 1]);
                let j = choose|j: int| 0 <= j < rest.len() && rest[j] == deduped(rest)[i - 1];
                assert(libraries[j + 1] == out[i]);
            }
        }
        if occurs_among(libraries[0], rest) {
            assert(rest.len() > 0);
        }
    }
}

/// After the shadowed entries are taken out, no two entries are the same
/// file.
pub proof fn lemma_deduped_distinct(libraries: Seq<LibrarySpec>)
    ensures
        all_distinct(deduped(libraries)),
    decreases libraries.len(),
{
    if libraries.len() > 0 {
        let rest = libraries.drop_first();
        lemma_deduped_distinct(rest);
        lemma_deduped_within(rest);
        let out = deduped(libraries);
        if !occurs_among(libraries[0], rest) {
            assert forall|i: int, j: int| 0 <= i < j < out.len() implies !same_file(
                #[trigger] out[i],
                #[trigger] out[j],
            ) by {
                assert(out[j] == deduped(rest)[j - 1]);
                if i == 0 {
                    let k = choose|k: int| 0 <= k < rest.len() && rest[k] == deduped(rest)[j - 1];
                    assert(!same_file(libraries[0], rest[k]));
                } else {
                    assert(out[i] == deduped(rest)[i - 1]);
                }
            }
        }
    }
}

/// The path of a library below the libraries directory.
pub fn library_path(library: &ResolvedLibrary) -> (r: &str)
    ensures
        r@ == library@.path,
{
    match library {
        ResolvedLibrary::Native(info) => info.path.as_str(),
        ResolvedLibrary::Common(info) => info.path.as_str(),
    }
}

/// Whether two libraries are the same file.
pub fn is_same_file(a: &ResolvedLibrary, b: &ResolvedLibrary) -> (r: bool)
    ensures
        r == same_file(a@, b@),
{
    crate::text::str_eq(library_path(a), library_path(b))
}

/// Takes out the libraries that a later one shadows.
pub fn dedup_libraries(libraries: &Vec<ResolvedLibrary>) -> (r: Vec<ResolvedLibrary>)
    ensures
        library_specs(r@) == deduped(library_specs(libraries@)),
        all_distinct(library_specs(r@)),
        libraries@.len() > 0 ==> r@.len() > 0,
{
    let ghost specs = library_specs(libraries@);
    let mut out: Vec<ResolvedLibrary> = Vec::new();
    let mut i: usize = 0;
    proof {
        assert(specs.skip(0) =~= specs);
        assert(library_specs(out@) =~= Seq::<LibrarySpec>::empty());
        assert(Seq::<LibrarySpec>::empty() + deduped(specs) =~= deduped(specs));
    }
    while i < libraries.len()
        invariant
            i <= libraries.len(),
            specs == library_specs(libraries@),
            library_specs(out@) + deduped(specs.skip(i as int)) == deduped(specs),
        decreases libraries.len() - i,
    {
        let ghost rest = specs.skip(i + 1);
        proof {
            assert(specs.skip(i as int).drop_first() =~= rest);
            assert(specs.skip(i as int)[0] == libraries@[i as int]@);
        }
        let mut shadowed = false;
        let mut j: usize = i + 1;
        while j < libraries.len() && !shadowed
            invariant
                i < j <= libraries.len(),
                specs == library_specs(libraries@),
                rest == specs.skip(i + 1),
                shadowed ==> occurs_among(libraries@[i as int]@, rest),
                !shadowed ==> forall|k: int|
                    0 <= k < j - i - 1 ==> !same_file(libraries@[i as int]@, #[trigger] rest[k]),
            decreases libraries.len() - j + (if shadowed {
                0int
            } else {
                1int
            }),
        {
            proof {
                assert(rest[j - i - 1] == libraries@[j as int]@);
            }
            if is_same_file(&libraries[i], &libraries[j]) {
                shadowed = true;
            } else {
                j += 1;
            }
        }
        if !shadowed {
            let ghost before = out@;
            let kept = libraries[i].clone();
            out.push(kept);
            proof {
                assert(!occurs_among(libraries@[i as int]@, rest));
                assert(library_specs(out@) =~= library_specs(before).push(kept@));
                assert(library_specs(out@) + deduped(rest) =~= library_specs(before) + (seq![
                    kept@,
                ] + deduped(rest)));
            }
        }
        i += 1;
    }
    proof {
        assert(specs.skip(specs.len() as int) =~= Seq::<LibrarySpec>::empty());
        assert(library_specs(out@) + Seq::<LibrarySpec>::empty() =~= library_specs(out@));
        lemma_deduped_distinct(specs);
        lemma_deduped_within(specs);
    }
    out
}

} // verus!
