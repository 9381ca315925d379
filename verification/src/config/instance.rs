//! The configuration of one instance.

use vstd::prelude::*;
use crate::config::launch::{Server, GC};

verus! {

/// The mod loaders that the launcher can install.
#[derive(Clone, Copy, Debug, PartialEq, Eq, Structural)]
pub enum ModLoaderType {
    Fabric,
    Quilt,
    Forge,
    Neoforged,
}

/// The name of a mod loader as it is shown.
pub open spec fn mod_loader_name(loader: ModLoaderType) -> Seq<char> {
    match loader {
        ModLoaderType::Fabric => "Fabric"@,
        ModLoaderType::Quilt => "Quilt"@,
        ModLoaderType::Forge => "Forge"@,
        ModLoaderType::Neoforged => "Neoforged"@,
    }
}

impl ModLoaderType {
    /// The name of the mod loader as it is shown.
    pub fn to_string(&self) -> (r: String)
        ensures
            r@ == mod_loader_name(*self),
    {
        match self {
            ModLoaderType::Fabric => "Fabric".to_owned(),
            ModLoaderType::Quilt => "Quilt".to_owned(),
            ModLoaderType::Forge => "Forge".to_owned(),
            ModLoaderType::Neoforged => "Neoforged".to_owned(),
        }
    }
}

/// What an instance runs: a Minecraft version and perhaps a mod loader.
#[derive(Clone, Debug)]
pub struct InstanceRuntime {
    pub minecraft: String,
    pub mod_loader_type: Option<ModLoaderType>,
    pub mod_loader_version: Option<String>,
}

/// The launch settings that an instance sets for itself. A setting that is
/// absent leaves the launcher's own setting in force.
#[derive(Clone, Debug)]
pub struct InstanceLaunchConfig {
    pub enable_instance_specific_settings: bool,
    pub min_memory: Option<usize>,
    pub max_memory: Option<usize>,
    pub server: Option<Server>,
    pub width: Option<usize>,
    pub height: Option<usize>,
    pub fullscreen: Option<bool>,
    pub extra_jvm_args: Option<String>,
    pub extra_mc_args: Option<String>,
    pub is_demo: Option<bool>,
    pub ignore_invalid_minecraft_certificates: Option<bool>,
    pub ignore_patch_discrepancies: Option<bool>,
    pub extra_class_paths: Option<String>,
    pub gc: Option<GC>,
    pub launcher_name: Option<String>,
    pub wrap_command: Option<String>,
    pub execute_before_launch: Option<String>,
    pub execute_after_launch: Option<String>,
}

impl InstanceLaunchConfig {
    /// No setting is made.
    pub open spec fn is_unset(self) -> bool {
        &&& !self.enable_instance_specific_settings
        &&& self.min_memory is None
        &&& self.max_memory is None
        &&& self.server is None
        &&& self.width is None
        &&& self.height is None
        &&& self.fullscreen is None
        &&& self.extra_jvm_args is None
        &&& self.extra_mc_args is None
        &&& self.is_demo is None
        &&& self.ignore_invalid_minecraft_certificates is None
        &&& self.ignore_patch_discrepancies is None
        &&& self.extra_class_paths is None
        &&& self.gc is None
        &&& self.launcher_name is None
        &&& self.wrap_command is None
        &&& self.execute_before_launch is None
        &&& self.execute_after_launch is None
    }
}

impl Default for InstanceLaunchConfig {
    fn default() -> (r: InstanceLaunchConfig)
        ensures
            r.is_unset(),
    {
        InstanceLaunchConfig {
            enable_instance_specific_settings: false,
            min_memory: None,
            max_memory: None,
            server: None,
            width: None,
            height: None,
            fullscreen: None,
            extra_jvm_args: None,
            extra_mc_args: None,
            is_demo: None,
            ignore_invalid_minecraft_certificates: None,
            ignore_patch_discrepancies: None,
            extra_class_paths: None,
            gc: None,
            launcher_name: None,
            wrap_command: None,
            execute_before_launch: None,
            execute_after_launch: None,
        }
    }
}

/// The configuration of one instance, as its `instance.toml` holds it.
#[derive(Clone, Debug)]
pub struct InstanceConfig {
    pub name: String,
    pub runtime: InstanceRuntime,
    pub group: Option<Vec<String>>,
    pub launch_config: InstanceLaunchConfig,
}

impl InstanceConfig {
    /// A plain instance of the given name: the given Minecraft version, no
    /// mod loader, no group and no launch settings of its own.
    pub fn new(instance_name: &str, minecraft_version: &str) -> (r: InstanceConfig)
        ensures
            r.name@ == instance_name@,
            r.runtime.minecraft@ == minecraft_version@,
            r.runtime.mod_loader_type is None,
            r.runtime.mod_loader_version is None,
            r.group is None,
            r.launch_config.is_unset(),
    {
        InstanceConfig {
            name: instance_name.to_owned(),
            runtime: InstanceRuntime {
                minecraft: minecraft_version.to_owned(),
                mod_loader_type: None,
                mod_loader_version: None,
            },
            group: None,
            launch_config: InstanceLaunchConfig::default(),
        }
    }
}

} // verus!
