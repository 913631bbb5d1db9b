//! What a plugin may do and how much it may use.
use vstd::prelude::*;

verus! {

/// What a plugin may do. A plugin may do nothing that it is not granted.
#[derive(Clone, Copy, Debug, PartialEq, Eq, Structural)]
pub struct PluginPermissions {
    pub http: bool,
    pub fs_read: bool,
    pub fs_write: bool,
    pub env: bool,
    pub kv: bool,
}

/// How much a plugin may use.
#[derive(Clone, Copy, Debug, PartialEq, Eq, Structural)]
pub struct PluginLimits {
    pub max_memory_bytes: usize,
    pub max_instances: usize,
    pub max_tables: usize,
    pub max_memories: usize,
}

/// The settings of a plugin.
#[derive(Clone, Copy, Debug, PartialEq, Eq, Structural)]
pub struct PluginConfig {
    pub permissions: PluginPermissions,
    pub limits: PluginLimits,
}

/// The permissions of a plugin that is granted none.
pub open spec fn no_permissions() -> PluginPermissions {
    PluginPermissions { http: false, fs_read: false, fs_write: false, env: false, kv: false }
}

/// The limits of a plugin that sets none of its own: 64 MiB of memory, ten
/// instances, ten tables and one memory.
pub open spec fn default_limits() -> PluginLimits {
    PluginLimits {
        max_memory_bytes: 67_108_864,
        max_instances: 10,
        max_tables: 10,
        max_memories: 1,
    }
}

/// The settings of a plugin that has none of its own.
pub open spec fn default_config() -> PluginConfig {
    PluginConfig { permissions: no_permissions(), limits: default_limits() }
}

/// The memory that a plugin may use unless it sets a limit of its own.
pub fn default_max_memory_bytes() -> (r: usize)
    ensures
        r == default_limits().max_memory_bytes,
{
    64 * 1024 * 1024
}

/// The instances that a plugin may have unless it sets a limit of its own.
pub fn default_max_instances() -> (r: usize)
    ensures
        r == default_limits().max_instances,
{
    10
}

/// The tables that a plugin may have unless it sets a limit of its own.
pub fn default_max_tables() -> (r: usize)
    ensures
        r == default_limits().max_tables,
{
    10
}

/// The memories that a plugin may have unless it sets a limit of its own.
pub fn default_max_memories() -> (r: usize)
    ensures
        r == default_limits().max_memories,
{
    1
}

impl Default for PluginPermissions {
    fn default() -> (r: PluginPermissions)
        ensures
            r == no_permissions(),
    {
        PluginPermissions { http: false, fs_read: false, fs_write: false, env: false, kv: false }
    }
}

impl Default for PluginLimits {
    fn default() -> (r: PluginLimits)
        ensures
            r == default_limits(),
    {
        PluginLimits {
            max_memory_bytes: default_max_memory_bytes(),
            max_instances: default_max_instances(),
            max_tables: default_max_tables(),
            max_memories: default_max_memories(),
        }
    }
}

impl Default for PluginConfig {
    fn default() -> (r: PluginConfig)
        ensures
            r == default_config(),
    {
        PluginConfig { permissions: PluginPermissions::default(), limits: PluginLimits::default() }
    }
}

/// What was found where the settings of a plugin are kept.
#[derive(Clone, Copy, Debug, PartialEq, Eq, Structural)]
pub enum ConfigFile {
    Missing,
    Unreadable,
    /// It does not describe settings.
    Invalid,
    Read(PluginConfig),
}

/// The settings of a plugin: those in its file, and the default ones where the
/// file is missing or of no use.
pub fn load_plugin_config(file: ConfigFile) -> (r: PluginConfig)
    ensures
        r == match file {
            ConfigFile::Read(config) => config,
            _ => default_config(),
        },
{
    match file {
        ConfigFile::Read(config) => config,
        _ => PluginConfig::default(),
    }
}

/// Holds a plugin to its limits.
#[derive(Clone, Copy, Debug)]
pub struct PluginResourceLimiter {
    limits: PluginLimits,
}

impl PluginResourceLimiter {
    /// The limits that the plugin is held to.
    pub closed spec fn limits(self) -> PluginLimits {
        self.limits
    }

    /// A limiter for the given limits.
    pub fn new(limits: PluginLimits) -> (r: PluginResourceLimiter)
        ensures
            r.limits() == limits,
    {
        PluginResourceLimiter { limits }
    }

    /// Whether a memory may grow to `desired` bytes.
    pub fn memory_growing(&self, _current: usize, desired: usize, _maximum: Option<usize>) -> (r:
        bool)
        ensures
            r == (desired <= self.limits().max_memory_bytes),
    {
        desired <= self.limits.max_memory_bytes
    }

    /// Whether a table may grow: it always may.
    pub fn table_growing(&self, _current: usize, _desired: usize, _maximum: Option<usize>) -> (r:
        bool)
        ensures
            r,
    {
        true
    }

    /// How many instances there may be.
    pub fn instances(&self) -> (r: usize)
        ensures
            r == self.limits().max_instances,
    {
        self.limits.max_instances
    }

    /// How many memories there may be.
    pub fn memories(&self) -> (r: usize)
        ensures
            r == self.limits().max_memories,
    {
        self.limits.max_memories
    }

    /// How many tables there may be.
    pub fn tables(&self) -> (r: usize)
        ensures
            r == self.limits().max_tables,
    {
        self.limits.max_tables
    }
}

} // verus!
