//! The options of one launch: the launcher's settings with the instance's
//! own settings in place of them wherever the instance makes one.

use vstd::prelude::*;
use crate::account::AccountLaunchInfo;
use crate::config::launch::{Server, GC};
use crate::config::settings::Config;
use crate::folder::MinecraftLocation;
use crate::instance::Instance;

verus! {

/// All that a launch is started with.
#[derive(Debug)]
pub struct LaunchOptions {
    pub account_launch_info: AccountLaunchInfo,
    /// The user properties handed to the game, as JSON text.
    pub properties: String,
    pub min_memory: usize,
    pub max_memory: usize,
    pub server: Option<Server>,
    pub width: usize,
    pub height: usize,
    pub fullscreen: bool,
    pub extra_jvm_args: String,
    pub extra_mc_args: String,
    pub is_demo: bool,
    pub ignore_invalid_minecraft_certificates: bool,
    pub ignore_patch_discrepancies: bool,
    pub extra_class_paths: String,
    pub gc: GC,
    pub minecraft_location: MinecraftLocation,
    pub launcher_name: String,
    pub wrap_command: String,
    pub execute_before_launch: String,
    pub execute_after_launch: String,
}

/// The instance's own setting where it makes one, else the launcher's.
pub open spec fn chosen<T>(own: Option<T>, global: T) -> T {
    match own {
        Some(value) => value,
        None => global,
    }
}

/// The instance's own text where it sets one, else the launcher's.
pub fn choose_text(own: &Option<String>, global: &String) -> (r: String)
    ensures
        r == chosen(*own, *global),
{
    match own {
        Some(value) => value.clone(),
        None => global.clone(),
    }
}

/// The instance's own number where it sets one, else the launcher's.
pub fn choose_number(own: Option<usize>, global: usize) -> (r: usize)
    ensures
        r == chosen(own, global),
{
    match own {
        Some(value) => value,
        None => global,
    }
}

/// The instance's own switch where it sets one, else the launcher's.
pub fn choose_switch(own: Option<bool>, global: bool) -> (r: bool)
    ensures
        r == chosen(own, global),
{
    match own {
        Some(value) => value,
        None => global,
    }
}

impl LaunchOptions {
    /// The options of a launch of `instance` with `account`: every setting
    /// is the instance's own where the instance makes it, else the
    /// launcher's. The user properties are the empty JSON object.
    pub fn new(
        config: &Config,
        instance: &Instance,
        account: AccountLaunchInfo,
        minecraft_location: MinecraftLocation,
    ) -> (r: LaunchOptions)
        ensures
            r.account_launch_info == account,
            r.minecraft_location == minecraft_location,
            r.properties@ == "{}"@,
            r.wrap_command == chosen(
                instance.config.launch_config.wrap_command,
                config.launch.wrap_command,
            ),
            r.execute_before_launch == chosen(
                instance.config.launch_config.execute_before_launch,
                config.launch.execute_before_launch,
            ),
            r.execute_after_launch == chosen(
                instance.config.launch_config.execute_after_launch,
                config.launch.execute_after_launch,
            ),
            r.launcher_name == chosen(
                instance.config.launch_config.launcher_name,
                config.launch.launcher_name,
            ),
            r.min_memory == chosen(instance.config.launch_config.min_memory, config.launch.min_memory),
            r.max_memory == chosen(instance.config.launch_config.max_memory, config.launch.max_memory),
            r.server == (if instance.config.launch_config.server is Some {
                instance.config.launch_config.server
            } else {
                config.launch.server
            }),
            r.width == chosen(instance.config.launch_config.width, config.launch.width),
            r.height == chosen(instance.config.launch_config.height, config.launch.height),
            r.fullscreen == chosen(instance.config.launch_config.fullscreen, config.launch.fullscreen),
            r.extra_jvm_args == chosen(
                instance.config.launch_config.extra_jvm_args,
                config.launch.extra_jvm_args,
            ),
            r.extra_mc_args == chosen(
                instance.config.launch_config.extra_mc_args,
                config.launch.extra_mc_args,
            ),
            r.is_demo == chosen(instance.config.launch_config.is_demo, config.launch.is_demo),
            r.ignore_invalid_minecraft_certificates == chosen(
                instance.config.launch_config.ignore_invalid_minecraft_certificates,
                config.launch.ignore_invalid_minecraft_certificates,
            ),
            r.ignore_patch_discrepancies == chosen(
                instance.config.launch_config.ignore_patch_discrepancies,
                config.launch.ignore_patch_discrepancies,
            ),
            r.extra_class_paths == chosen(
                instance.config.launch_config.extra_class_paths,
                config.launch.extra_class_paths,
            ),
            r.gc == chosen(instance.config.launch_config.gc, config.launch.gc),
    {
        let global = &config.launch;
        let own = &instance.config.launch_config;
        let server = match &own.server {
            Some(server) => Some(server.clone()),
            None => match &global.server {
                Some(server) => Some(server.clone()),
                None => None,
            },
        };
        LaunchOptions {
            account_launch_info: account,
            wrap_command: choose_text(&own.wrap_command, &global.wrap_command),
            execute_before_launch: choose_text(
                &own.execute_before_launch,
                &global.execute_before_launch,
            ),
            execute_after_launch: choose_text(
                &own.execute_after_launch,
                &global.execute_after_launch,
            ),
            launcher_name: choose_text(&own.launcher_name, &global.launcher_name),
            min_memory: choose_number(own.min_memory, global.min_memory),
            max_memory: choose_number(own.max_memory, global.max_memory),
            server,
            width: choose_number(own.width, global.width),
            height: choose_number(own.height, global.height),
            fullscreen: choose_switch(own.fullscreen, global.fullscreen),
            extra_jvm_args: choose_text(&own.extra_jvm_args, &global.extra_jvm_args),
            extra_mc_args: choose_text(&own.extra_mc_args, &global.extra_mc_args),
            is_demo: choose_switch(own.is_demo, global.is_demo),
            ignore_invalid_minecraft_certificates: choose_switch(
                own.ignore_invalid_minecraft_certificates,
                global.ignore_invalid_minecraft_certificates,
            ),
            ignore_patch_discrepancies: choose_switch(
                own.ignore_patch_discrepancies,
                global.ignore_patch_discrepancies,
            ),
            extra_class_paths: choose_text(&own.extra_class_paths, &global.extra_class_paths),
            gc: match own.gc {
                Some(gc) => gc,
                None => global.gc,
            },
            minecraft_location,
            properties: "{}".to_owned(),
        }
    }
}

/// What a launch does before it builds the command line.
#[derive(Clone, Copy, Debug, PartialEq, Eq, Structural)]
pub struct LaunchPlan {
    /// The account's tokens are checked and refreshed where they are about
    /// to expire.
    pub refresh_account: bool,
    /// The files of the instance are checked and completed.
    pub check_files: bool,
}

/// What a launch with these settings does first: each of the two checks is
/// made unless the settings switch it off.
pub fn launch_plan(config: &Config) -> (r: LaunchPlan)
    ensures
        r.refresh_account == !config.launch.skip_refresh_account,
        r.check_files == !config.launch.skip_check_files,
{
    LaunchPlan {
        refresh_account: !config.launch.skip_refresh_account,
        check_files: !config.launch.skip_check_files,
    }
}

/// Whether a launch may start: only one runs at a time.
pub fn begin_launch(already_launching: bool) -> (r: Result<(), crate::error::Error>)
    ensures
        r is Ok <==> !already_launching,
        r matches Err(e) ==> e is AlreadyInLaunching,
{
    if already_launching {
        Err(crate::error::Error::AlreadyInLaunching)
    } else {
        Ok(())
    }
}

/// The steps of a launch.
#[derive(Clone, Copy, Debug, PartialEq, Eq, Structural)]
pub enum LaunchStep {
    /// The tokens of the account are checked and refreshed where due.
    RefreshAccount,
    /// The files of the instance are checked and completed.
    CompleteFiles,
    /// The version of the instance is read and resolved.
    ResolveVersion,
    /// The native libraries are unpacked.
    UnpackNatives,
    /// The command line is built and the script is written.
    WriteScript,
    /// The script is run and the game's output is read.
    RunGame,
    /// Nothing is left to do.
    Finished,
}

/// The step that follows `step`, or the first step where `step` is none.
/// The two checks are left out where the plan says so.
pub open spec fn launch_step_after(step: Option<LaunchStep>, plan: LaunchPlan) -> LaunchStep {
    match step {
        None => if plan.refresh_account {
            LaunchStep::RefreshAccount
        } else if plan.check_files {
            LaunchStep::CompleteFiles
        } else {
            LaunchStep::ResolveVersion
        },
        Some(LaunchStep::RefreshAccount) => if plan.check_files {
            LaunchStep::CompleteFiles
        } else {
            LaunchStep::ResolveVersion
        },
        Some(LaunchStep::CompleteFiles) => LaunchStep::ResolveVersion,
        Some(LaunchStep::ResolveVersion) => LaunchStep::UnpackNatives,
        Some(LaunchStep::UnpackNatives) => LaunchStep::WriteScript,
        Some(LaunchStep::WriteScript) => LaunchStep::RunGame,
        Some(LaunchStep::RunGame) => LaunchStep::Finished,
        Some(LaunchStep::Finished) => LaunchStep::Finished,
    }
}

/// The step with which a launch goes on after `step` has succeeded; the
/// first step where no step has been made.
pub fn next_launch_step(step: Option<LaunchStep>, plan: LaunchPlan) -> (r: LaunchStep)
    ensures
        r == launch_step_after(step, plan),
        r == LaunchStep::RefreshAccount ==> plan.refresh_account,
        r == LaunchStep::CompleteFiles ==> plan.check_files,
{
    match step {
        None => if plan.refresh_account {
            LaunchStep::RefreshAccount
        } else if plan.check_files {
            LaunchStep::CompleteFiles
        } else {
            LaunchStep::ResolveVersion
        },
        Some(LaunchStep::RefreshAccount) => if plan.check_files {
            LaunchStep::CompleteFiles
        } else {
            LaunchStep::ResolveVersion
        },
        Some(LaunchStep::CompleteFiles) => LaunchStep::ResolveVersion,
        Some(LaunchStep::ResolveVersion) => LaunchStep::UnpackNatives,
        Some(LaunchStep::UnpackNatives) => LaunchStep::WriteScript,
        Some(LaunchStep::WriteScript) => LaunchStep::RunGame,
        Some(LaunchStep::RunGame) => LaunchStep::Finished,
        Some(LaunchStep::Finished) => LaunchStep::Finished,
    }
}

} // verus!
