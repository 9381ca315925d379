//! The Java runtimes that Mojang publishes: which one fits the platform,
//! which files it consists of, and what is done to them after the
//! download.

use vstd::prelude::*;
use crate::download::model::{Checksum, ChecksumSpec, DownloadTask, DownloadType, TaskSpec};
use crate::folder::{join_path, join_path_seq};
use crate::named::Named;
use crate::platform::{OsFamily, PlatformInfo};
use crate::text::str_eq;

verus! {

/// How far a runtime has been rolled out.
#[derive(Debug)]
pub struct Availability {
    pub group: usize,
    pub progress: usize,
}

/// Where the file list of a runtime is found.
#[derive(Debug)]
pub struct ManifestDownloadInfo {
    pub sha1: String,
    pub size: usize,
    pub url: String,
}

/// The name and the date of a runtime.
#[derive(Debug)]
pub struct JavaVersionName {
    pub name: String,
    pub released: String,
}

/// One published runtime.
#[derive(Debug)]
pub struct JavaRuntimeInfo {
    pub availability: Availability,
    pub manifest: ManifestDownloadInfo,
    pub version: JavaVersionName,
}

/// The runtimes of all platforms, each platform with its runtimes by name.
#[derive(Debug)]
pub struct MojangJavaVersionList {
    pub gamecore: Vec<Named<Vec<JavaRuntimeInfo>>>,
    pub linux: Vec<Named<Vec<JavaRuntimeInfo>>>,
    pub linux_i386: Vec<Named<Vec<JavaRuntimeInfo>>>,
    pub mac_os: Vec<Named<Vec<JavaRuntimeInfo>>>,
    pub mac_os_arm64: Vec<Named<Vec<JavaRuntimeInfo>>>,
    pub windows_arm64: Vec<Named<Vec<JavaRuntimeInfo>>>,
    pub windows_x64: Vec<Named<Vec<JavaRuntimeInfo>>>,
    pub windows_x86: Vec<Named<Vec<JavaRuntimeInfo>>>,
}

/// The platforms for which runtimes are published.
#[derive(Clone, Copy, Debug, PartialEq, Eq, Structural)]
pub enum JavaPlatform {
    Linux,
    LinuxI386,
    MacOs,
    MacOsArm64,
    WindowsArm64,
    WindowsX64,
    WindowsX86,
}

/// `arch` names the 64-bit ARM architecture.
pub open spec fn is_arm64(arch: Seq<char>) -> bool {
    arch == "arm64"@ || arch == "aarch64"@
}

/// The published platform that fits a family and an architecture, if one
/// does.
pub open spec fn java_platform_of(family: OsFamily, arch: Seq<char>) -> Option<JavaPlatform> {
    match family {
        OsFamily::Linux => if arch == "x64"@ {
            Some(JavaPlatform::Linux)
        } else if arch == "x86"@ {
            Some(JavaPlatform::LinuxI386)
        } else {
            None
        },
        OsFamily::Macos => if arch == "x64"@ {
            Some(JavaPlatform::MacOs)
        } else if is_arm64(arch) {
            Some(JavaPlatform::MacOsArm64)
        } else {
            None
        },
        OsFamily::Windows => if arch == "x64"@ {
            Some(JavaPlatform::WindowsX64)
        } else if arch == "x86"@ {
            Some(JavaPlatform::WindowsX86)
        } else if is_arm64(arch) {
            Some(JavaPlatform::WindowsArm64)
        } else {
            None
        },
    }
}

/// The published platform that fits `platform`.
pub fn java_platform(platform: &PlatformInfo) -> (r: Option<JavaPlatform>)
    ensures
        r == java_platform_of(platform.os_family, platform.arch@),
{
    let arch = platform.arch.as_str();
    let arm64 = str_eq(arch, "arm64") || str_eq(arch, "aarch64");
    match platform.os_family {
        OsFamily::Linux => if str_eq(arch, "x64") {
            Some(JavaPlatform::Linux)
        } else if str_eq(arch, "x86") {
            Some(JavaPlatform::LinuxI386)
        } else {
            None
        },
        OsFamily::Macos => if str_eq(arch, "x64") {
            Some(JavaPlatform::MacOs)
        } else if arm64 {
            Some(JavaPlatform::MacOsArm64)
        } else {
            None
        },
        OsFamily::Windows => if str_eq(arch, "x64") {
            Some(JavaPlatform::WindowsX64)
        } else if str_eq(arch, "x86") {
            Some(JavaPlatform::WindowsX86)
        } else if arm64 {
            Some(JavaPlatform::WindowsArm64)
        } else {
            None
        },
    }
}

impl MojangJavaVersionList {
    /// The runtimes of one published platform.
    pub open spec fn of(self, platform: JavaPlatform) -> Vec<Named<Vec<JavaRuntimeInfo>>> {
        match platform {
            JavaPlatform::Linux => self.linux,
            JavaPlatform::LinuxI386 => self.linux_i386,
            JavaPlatform::MacOs => self.mac_os,
            JavaPlatform::MacOsArm64 => self.mac_os_arm64,
            JavaPlatform::WindowsArm64 => self.windows_arm64,
            JavaPlatform::WindowsX64 => self.windows_x64,
            JavaPlatform::WindowsX86 => self.windows_x86,
        }
    }

    /// The runtimes for the platform the launcher runs on; none where no
    /// runtime is published for it.
    pub fn get_current_platform(self, platform: &PlatformInfo) -> (r: Option<
        Vec<Named<Vec<JavaRuntimeInfo>>>,
    >)
        ensures
            r == (match java_platform_of(platform.os_family, platform.arch@) {
                Some(p) => Some(self.of(p)),
                None => None,
            }),
    {
        match java_platform(platform) {
            Some(JavaPlatform::Linux) => Some(self.linux),
            Some(JavaPlatform::LinuxI386) => Some(self.linux_i386),
            Some(JavaPlatform::MacOs) => Some(self.mac_os),
            Some(JavaPlatform::MacOsArm64) => Some(self.mac_os_arm64),
            Some(JavaPlatform::WindowsArm64) => Some(self.windows_arm64),
            Some(JavaPlatform::WindowsX64) => Some(self.windows_x64),
            Some(JavaPlatform::WindowsX86) => Some(self.windows_x86),
            None => None,
        }
    }
}

/// Where the list of runtimes is published.
pub fn java_runtime_list_url() -> (r: &'static str)
    ensures
        r@
            == "https://launchermeta.mojang.com/v1/products/java-runtime/2ec0cc96c44e5a76b9c8b7c39df7210883d12871/all.json"@,
{
    "https://launchermeta.mojang.com/v1/products/java-runtime/2ec0cc96c44e5a76b9c8b7c39df7210883d12871/all.json"
}

/// A file of a runtime as it is served.
#[derive(Debug)]
pub struct JavaFileRaw {
    pub sha1: String,
    pub size: usize,
    pub url: String,
}

/// A file of a runtime in its compressed form.
#[derive(Debug)]
pub struct JavaFileLZMA {
    pub sha1: String,
    pub size: usize,
    pub url: String,
}

/// The two forms in which a file of a runtime is served.
#[derive(Debug)]
pub struct JavaFileDownloads {
    pub lzma: Option<JavaFileLZMA>,
    pub raw: JavaFileRaw,
}

/// One entry of the file list of a runtime.
#[derive(Debug)]
pub enum JavaFileInfo {
    File { downloads: JavaFileDownloads, executable: bool },
    Directory,
    Link { target: String },
}

/// The file list of a runtime: each entry under its path.
#[derive(Debug)]
pub struct Manifest {
    pub files: Vec<Named<JavaFileInfo>>,
}

/// The task that fetches one file of a runtime.
pub open spec fn java_task_of(
    install_directory: Seq<char>,
    path: Seq<char>,
    raw: JavaFileRaw,
    sep: char,
) -> TaskSpec {
    TaskSpec {
        url: raw.url@,
        file: join_path_seq(install_directory, path, sep),
        size_bytes: Some(raw.size as u64),
        checksum: ChecksumSpec::Sha1(raw.sha1@),
        kind: DownloadType::Unknown,
    }
}

/// The tasks of a file list: one for each entry that is a file, in order.
pub open spec fn java_tasks_of(
    install_directory: Seq<char>,
    files: Seq<Named<JavaFileInfo>>,
    sep: char,
) -> Seq<TaskSpec>
    decreases files.len(),
{
    if files.len() == 0 {
        Seq::empty()
    } else {
        match files.last().value {
            JavaFileInfo::File { downloads, .. } => java_tasks_of(
                install_directory,
                files.drop_last(),
                sep,
            ).push(java_task_of(install_directory, files.last().name@, downloads.raw, sep)),
            _ => java_tasks_of(install_directory, files.drop_last(), sep),
        }
    }
}

/// The tasks that fetch the files of a runtime into `install_directory`.
pub fn generate_downloads(install_directory: &str, files: &Vec<Named<JavaFileInfo>>, sep: char) -> (r:
    Vec<DownloadTask>)
    ensures
        crate::download::model::task_specs(r@) == java_tasks_of(install_directory@, files@, sep),
{
    let mut out: Vec<DownloadTask> = Vec::new();
    let mut i: usize = 0;
    proof {
        assert(crate::download::model::task_specs(out@) =~= Seq::<TaskSpec>::empty());
    }
    while i < files.len()
        invariant
            i <= files.len(),
            crate::download::model::task_specs(out@) == java_tasks_of(
                install_directory@,
                files@.take(i as int),
                sep,
            ),
        decreases files.len() - i,
    {
        proof {
            assert(files@.take(i + 1).drop_last() =~= files@.take(i as int));
            assert(files@.take(i + 1).last() == files@[i as int]);
        }
        if let JavaFileInfo::File { downloads, .. } = &files[i].value {
            let ghost before = out@;
            let task = DownloadTask {
                url: downloads.raw.url.clone(),
                file: join_path(install_directory, files[i].name.as_str(), sep),
                size_bytes: Some(downloads.raw.size as u64),
                checksum: Checksum::Sha1(downloads.raw.sha1.clone()),
                kind: DownloadType::Unknown,
            };
            out.push(task);
            proof {
                assert(crate::download::model::task_specs(out@)
                    =~= crate::download::model::task_specs(before).push(task@));
            }
        }
        i += 1;
    }
    proof {
        assert(files@.take(files@.len() as int) =~= files@);
    }
    out
}

/// What is done to a file of a runtime after the download.
#[derive(Debug)]
pub enum PostInstallAction {
    /// A symbolic link is made at `path` that points to `target`.
    Link { path: String, target: String },
    /// The file at `path` gets the permission bits `0o755`.
    MakeExecutable { path: String },
}

/// What is done to a file of a runtime after the download, over plain
/// values.
pub enum ActionSpec {
    Link { path: Seq<char>, target: Seq<char> },
    MakeExecutable { path: Seq<char> },
}

impl View for PostInstallAction {
    type V = ActionSpec;

    open spec fn view(&self) -> ActionSpec {
        match *self {
            PostInstallAction::Link { path, target } => ActionSpec::Link {
                path: path@,
                target: target@,
            },
            PostInstallAction::MakeExecutable { path } => ActionSpec::MakeExecutable { path: path@ },
        }
    }
}

/// The plain values of a list of actions.
pub open spec fn action_specs(actions: Seq<PostInstallAction>) -> Seq<ActionSpec> {
    Seq::new(actions.len(), |i: int| actions[i]@)
}

/// The actions after the download of a file list, in the order of its
/// entries: a link for each link, the executable bits for each file that
/// is marked executable.
pub open spec fn actions_of(install_directory: Seq<char>, files: Seq<Named<JavaFileInfo>>, sep: char) -> Seq<
    ActionSpec,
>
    decreases files.len(),
{
    if files.len() == 0 {
        Seq::empty()
    } else {
        let before = actions_of(install_directory, files.drop_last(), sep);
        let path = join_path_seq(install_directory, files.last().name@, sep);
        match files.last().value {
            JavaFileInfo::Link { target } => before.push(ActionSpec::Link { path, target: target@ }),
            JavaFileInfo::File { executable, .. } => if executable {
                before.push(ActionSpec::MakeExecutable { path })
            } else {
                before
            },
            JavaFileInfo::Directory => before,
        }
    }
}

/// The permission bits of an executable file of a runtime.
pub fn executable_mode() -> (r: u32)
    ensures
        r == 0o755,
{
    0o755
}

/// What has to be done after the files of a runtime have been fetched.
/// Nothing is done on Windows.
pub fn post_install_actions(
    install_directory: &str,
    files: &Vec<Named<JavaFileInfo>>,
    os_family: OsFamily,
) -> (r: Vec<PostInstallAction>)
    ensures
        action_specs(r@) == (if os_family == OsFamily::Windows {
            Seq::empty()
        } else {
            actions_of(install_directory@, files@, crate::platform::path_separator_of(os_family))
        }),
{
    let mut out: Vec<PostInstallAction> = Vec::new();
    proof {
        assert(action_specs(out@) =~= Seq::<ActionSpec>::empty());
    }
    if os_family == OsFamily::Windows {
        return out;
    }
    let sep = os_family.path_separator();
    let mut i: usize = 0;
    while i < files.len()
        invariant
            i <= files.len(),
            action_specs(out@) == actions_of(install_directory@, files@.take(i as int), sep),
        decreases files.len() - i,
    {
        proof {
            assert(files@.take(i + 1).drop_last() =~= files@.take(i as int));
            assert(files@.take(i + 1).last() == files@[i as int]);
        }
        let ghost before = out@;
        match &files[i].value {
            JavaFileInfo::Link { target } => {
                let action = PostInstallAction::Link {
                    path: join_path(install_directory, files[i].name.as_str(), sep),
                    target: target.clone(),
                };
                out.push(action);
                proof {
                    assert(action_specs(out@) =~= action_specs(before).push(action@));
                }
            },
            JavaFileInfo::File { executable, .. } => {
                if *executable {
                    let action = PostInstallAction::MakeExecutable {
                        path: join_path(install_directory, files[i].name.as_str(), sep),
                    };
                    out.push(action);
                    proof {
                        assert(action_specs(out@) =~= action_specs(before).push(action@));
                    }
                }
            },
            JavaFileInfo::Directory => {},
        }
        i += 1;
    }
    proof {
        assert(files@.take(files@.len() as int) =~= files@);
    }
    out
}

/// Where the runtime at position `index` is installed below the directory
/// of the runtimes, and which of its published builds is taken: the first.
/// There is nothing to install for a name without builds.
pub fn group_install<'a>(
    install_directory: &str,
    java_runtimes: &'a Vec<Named<Vec<JavaRuntimeInfo>>>,
    index: usize,
    sep: char,
) -> (r: Option<(String, &'a JavaRuntimeInfo)>)
    ensures
        match r {
            Some((directory, runtime)) => index < java_runtimes@.len()
                && java_runtimes@[index as int].value@.len() > 0 && *runtime
                == java_runtimes@[index as int].value@[0] && directory@ == join_path_seq(
                install_directory@,
                java_runtimes@[index as int].name@,
                sep,
            ),
            None => index >= java_runtimes@.len() || java_runtimes@[index as int].value@.len()
                == 0,
        },
{
    if index >= java_runtimes.len() {
        return None;
    }
    let entry = &java_runtimes[index];
    if entry.value.len() > 0 {
        Some((join_path(install_directory, entry.name.as_str(), sep), &entry.value[0]))
    } else {
        None
    }
}

} // verus!
