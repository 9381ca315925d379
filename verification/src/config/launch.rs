//! Settings of a launch that hold for every instance.

use vstd::prelude::*;

verus! {

/// A server to join right after the game has started.
#[derive(Debug)]
pub struct Server {
    pub ip: String,
    pub port: Option<u16>,
}

impl Clone for Server {
    fn clone(&self) -> (r: Server)
        ensures
            r == *self,
    {
        Server { ip: self.ip.clone(), port: self.port }
    }
}

/// The garbage collectors of the Java runtime that can be chosen.
#[derive(Clone, Copy, Debug, PartialEq, Eq, Structural)]
pub enum GC {
    Serial,
    Parallel,
    ParallelOld,
    G1,
    Z,
}

impl Default for GC {
    fn default() -> (r: GC)
        ensures
            r == GC::G1,
    {
        GC::G1
    }
}

/// The launch settings of the launcher as a whole.
#[derive(Clone, Debug)]
pub struct LaunchConfig {
    pub min_memory: usize,
    pub max_memory: usize,
    pub server: Option<Server>,
    pub width: usize,
    pub height: usize,
    pub fullscreen: bool,
    pub extra_jvm_args: String,
    pub extra_mc_args: String,
    pub is_demo: bool,
    pub ignore_invalid_minecraft_certificates: bool,
    pub ignore_patch_discrepancies: bool,
    pub extra_class_paths: String,
    pub gc: GC,
    pub launcher_name: String,
    pub wrap_command: String,
    pub execute_before_launch: String,
    pub execute_after_launch: String,
    pub skip_refresh_account: bool,
    pub skip_check_files: bool,
}

/// The default upper bound of the heap, in megabytes.
pub fn default_max_memory() -> (r: usize)
    ensures
        r == 2048,
{
    2048
}

/// The default width of the game window.
pub fn default_width() -> (r: usize)
    ensures
        r == 854,
{
    854
}

/// The default height of the game window.
pub fn default_height() -> (r: usize)
    ensures
        r == 480,
{
    480
}

/// The name under which the launcher presents itself to the game.
pub fn default_launcher_name() -> (r: String)
    ensures
        r@ == "Conic_Launcher"@,
{
    "Conic_Launcher".to_owned()
}

impl Default for LaunchConfig {
    fn default() -> (r: LaunchConfig)
        ensures
            r.min_memory == 0,
            r.max_memory == 2048,
            r.server is None,
            r.width == 854,
            r.height == 480,
            !r.fullscreen,
            r.extra_jvm_args@.len() == 0,
            r.extra_mc_args@.len() == 0,
            !r.is_demo,
            !r.ignore_invalid_minecraft_certificates,
            !r.ignore_patch_discrepancies,
            r.extra_class_paths@.len() == 0,
            r.gc == GC::G1,
            r.launcher_name@ == "Conic_Launcher"@,
            r.wrap_command@.len() == 0,
            r.execute_before_launch@.len() == 0,
            r.execute_after_launch@.len() == 0,
            !r.skip_refresh_account,
            !r.skip_check_files,
    {
        LaunchConfig {
            min_memory: 0,
            max_memory: default_max_memory(),
            server: None,
            width: default_width(),
            height: default_height(),
            fullscreen: false,
            extra_jvm_args: String::new(),
            extra_mc_args: String::new(),
            is_demo: false,
            ignore_invalid_minecraft_certificates: false,
            ignore_patch_discrepancies: false,
            extra_class_paths: String::new(),
            gc: GC::default(),
            launcher_name: default_launcher_name(),
            wrap_command: String::new(),
            execute_after_launch: String::new(),
            execute_before_launch: String::new(),
            skip_refresh_account: false,
            skip_check_files: false,
        }
    }
}

} // verus!
