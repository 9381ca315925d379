//! The order of an install and what guards it.

use vstd::prelude::*;
use crate::config::instance::{InstanceRuntime, ModLoaderType};
use crate::download::task::Progress;
use crate::error::Error;
use crate::folder::{join_path, join_path_seq};

verus! {

/// What an install is doing, as it is told to whoever listens.
#[derive(Clone, Copy, Debug, PartialEq, Eq, Structural)]
pub enum InstallEvent {
    Prepare,
    InstallGame(Progress),
    InstallJava(Progress),
    InstallModLoader,
}

/// The steps of an install.
#[derive(Clone, Copy, Debug, PartialEq, Eq, Structural)]
pub enum InstallStep {
    /// The list of the game's files is made.
    Prepare,
    /// The game's files are fetched.
    InstallGame,
    /// The Java runtime is fetched and set up.
    InstallJava,
    /// The installer of the mod loader is run.
    InstallModLoader,
    /// The marker of a finished install is written.
    WriteMarker,
    /// Nothing is left to do.
    Finished,
}

/// The step that follows a step that has succeeded. The mod loader is
/// installed only where the instance has one.
pub open spec fn step_after(step: InstallStep, has_mod_loader: bool) -> InstallStep {
    match step {
        InstallStep::Prepare => InstallStep::InstallGame,
        InstallStep::InstallGame => InstallStep::InstallJava,
        InstallStep::InstallJava => if has_mod_loader {
            InstallStep::InstallModLoader
        } else {
            InstallStep::WriteMarker
        },
        InstallStep::InstallModLoader => InstallStep::WriteMarker,
        InstallStep::WriteMarker => InstallStep::Finished,
        InstallStep::Finished => InstallStep::Finished,
    }
}

/// How many steps are left before an install is finished.
pub open spec fn steps_left(step: InstallStep) -> nat {
    match step {
        InstallStep::Prepare => 5,
        InstallStep::InstallGame => 4,
        InstallStep::InstallJava => 3,
        InstallStep::InstallModLoader => 2,
        InstallStep::WriteMarker => 1,
        InstallStep::Finished => 0,
    }
}

/// The step that follows a step that has succeeded.
pub fn next_step(step: InstallStep, has_mod_loader: bool) -> (r: InstallStep)
    ensures
        r == step_after(step, has_mod_loader),
        step != InstallStep::Finished ==> steps_left(r) < steps_left(step),
{
    match step {
        InstallStep::Prepare => InstallStep::InstallGame,
        InstallStep::InstallGame => InstallStep::InstallJava,
        InstallStep::InstallJava => if has_mod_loader {
            InstallStep::InstallModLoader
        } else {
            InstallStep::WriteMarker
        },
        InstallStep::InstallModLoader => InstallStep::WriteMarker,
        InstallStep::WriteMarker => InstallStep::Finished,
        InstallStep::Finished => InstallStep::Finished,
    }
}

/// What is told of a step that has just begun, if anything: the two
/// downloads start with fresh counters.
pub fn event_of(step: InstallStep) -> (r: Option<InstallEvent>)
    ensures
        r == (match step {
            InstallStep::Prepare => Some(InstallEvent::Prepare),
            InstallStep::InstallGame => Some(
                InstallEvent::InstallGame(
                    Progress {
                        completed: 0,
                        total: 0,
                        step: crate::download::task::Step::DownloadFiles,
                        speed: 0,
                    },
                ),
            ),
            InstallStep::InstallJava => Some(
                InstallEvent::InstallJava(
                    Progress {
                        completed: 0,
                        total: 0,
                        step: crate::download::task::Step::DownloadFiles,
                        speed: 0,
                    },
                ),
            ),
            InstallStep::InstallModLoader => Some(InstallEvent::InstallModLoader),
            _ => None,
        }),
{
    match step {
        InstallStep::Prepare => Some(InstallEvent::Prepare),
        InstallStep::InstallGame => Some(InstallEvent::InstallGame(Progress::new())),
        InstallStep::InstallJava => Some(InstallEvent::InstallJava(Progress::new())),
        InstallStep::InstallModLoader => Some(InstallEvent::InstallModLoader),
        _ => None,
    }
}

/// Whether an install may start: only one runs at a time.
pub fn begin_install(already_installing: bool) -> (r: Result<(), Error>)
    ensures
        r is Ok <==> !already_installing,
        r matches Err(e) ==> e is AlreadyInstalling,
{
    if already_installing {
        Err(Error::AlreadyInstalling)
    } else {
        Ok(())
    }
}

/// The outcome of an install that was cancelled.
pub fn aborted() -> (r: Error)
    ensures
        r is Aborted,
{
    Error::Aborted
}

/// For how many seconds a fetched version list is used again: two hours.
pub open spec fn cache_lifetime() -> u64 {
    7200
}

/// Whether a version list that was fetched at `fetched_at` is still used
/// at `now`: less than two hours have passed.
pub fn cache_is_fresh(fetched_at: u64, now: u64) -> (r: bool)
    ensures
        r == (fetched_at <= now && now - fetched_at < cache_lifetime()),
{
    fetched_at <= now && now - fetched_at < 7200
}

/// The marker of a finished install.
pub fn install_marker_path(instance_root: &str, sep: char) -> (r: String)
    ensures
        r@ == join_path_seq(instance_root@, ".install.lock"@, sep),
{
    join_path(instance_root, ".install.lock", sep)
}

/// What the marker of a finished install holds.
pub fn install_marker_contents() -> (r: &'static str)
    ensures
        r@ == "ok"@,
{
    "ok"
}

/// The mod loader to install, with what its installer is given.
#[derive(Debug)]
pub struct ModLoaderInstall {
    pub loader: ModLoaderType,
    pub loader_version: String,
    pub minecraft: String,
}

/// The mod loader that an instance asks for. Fails where the instance
/// names no loader or no version of it.
pub fn install_mod_loader(runtime: &InstanceRuntime) -> (r: Result<ModLoaderInstall, Error>)
    ensures
        match r {
            Ok(plan) => runtime.mod_loader_type == Some(plan.loader)
                && runtime.mod_loader_version == Some(plan.loader_version) && plan.minecraft
                == runtime.minecraft,
            Err(e) => (runtime.mod_loader_type is None || runtime.mod_loader_version is None) && e
                is InstanceBroken,
        },
{
    let loader = match runtime.mod_loader_type {
        Some(loader) => loader,
        None => {
            return Err(Error::InstanceBroken);
        },
    };
    let loader_version = match &runtime.mod_loader_version {
        Some(version) => version.clone(),
        None => {
            return Err(Error::InstanceBroken);
        },
    };
    Ok(ModLoaderInstall { loader, loader_version, minecraft: runtime.minecraft.clone() })
}

/// Where the Java runtimes are installed: `java` below the data directory.
pub fn java_directory(data_root: &str, sep: char) -> (r: String)
    ensures
        r@ == join_path_seq(data_root@, "java"@, sep),
{
    join_path(data_root, "java", sep)
}

} // verus!
