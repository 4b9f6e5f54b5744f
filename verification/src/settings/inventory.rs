//! Inventory loader settings.
use vstd::prelude::*;
use super::env_defaults::{env_or, get_inventory_plugin_config, opt_as_str, EnvDefaults};
use crate::errors::{InventoryFileKind, InventoryLoadError};
use crate::inventory::transform::TransformFunctionOptions;
use crate::inventory::models::{as_deref, opt_str};
use crate::text::{ends_with, ends_with_exec, opt_view};

verus! {

/// Optional file paths of the hosts, groups and defaults inventory sources.
#[derive(Debug, Clone)]
pub struct OptionsConfig {
    pub hosts_file: Option<String>,
    pub groups_file: Option<String>,
    pub defaults_file: Option<String>,
}

impl OptionsConfig {
    /// A builder with no path set.
    pub fn builder() -> (res: OptionsConfigBuilder)
        ensures
            res.hosts_file is None && res.groups_file is None && res.defaults_file is None,
    {
        OptionsConfigBuilder { hosts_file: None, groups_file: None, defaults_file: None }
    }

    pub fn hosts_file(&self) -> (res: Option<&str>)
        ensures
            opt_str(res) == opt_view(self.hosts_file),
    {
        as_deref(&self.hosts_file)
    }

    pub fn groups_file(&self) -> (res: Option<&str>)
        ensures
            opt_str(res) == opt_view(self.groups_file),
    {
        as_deref(&self.groups_file)
    }

    pub fn defaults_file(&self) -> (res: Option<&str>)
        ensures
            opt_str(res) == opt_view(self.defaults_file),
    {
        as_deref(&self.defaults_file)
    }
}

impl Default for OptionsConfig {
    fn default() -> (res: Self)
        ensures
            res.hosts_file is None && res.groups_file is None && res.defaults_file is None,
    {
        OptionsConfig { hosts_file: None, groups_file: None, defaults_file: None }
    }
}

/// Builder for [`OptionsConfig`].
pub struct OptionsConfigBuilder {
    pub hosts_file: Option<String>,
    pub groups_file: Option<String>,
    pub defaults_file: Option<String>,
}

impl OptionsConfigBuilder {
    pub fn hosts_file(self, path: &str) -> (res: Self)
        ensures
            opt_view(res.hosts_file) == Some(path@),
            res.groups_file == self.groups_file && res.defaults_file == self.defaults_file,
    {
        OptionsConfigBuilder { hosts_file: Some(String::from_str(path)), ..self }
    }

    pub fn groups_file(self, path: &str) -> (res: Self)
        ensures
            opt_view(res.groups_file) == Some(path@),
            res.hosts_file == self.hosts_file && res.defaults_file == self.defaults_file,
    {
        OptionsConfigBuilder { groups_file: Some(String::from_str(path)), ..self }
    }

    pub fn defaults_file(self, path: &str) -> (res: Self)
        ensures
            opt_view(res.defaults_file) == Some(path@),
            res.hosts_file == self.hosts_file && res.groups_file == self.groups_file,
    {
        OptionsConfigBuilder { defaults_file: Some(String::from_str(path)), ..self }
    }

    pub fn build(self) -> (res: OptionsConfig)
        ensures
            res.hosts_file == self.hosts_file && res.groups_file == self.groups_file
                && res.defaults_file == self.defaults_file,
    {
        OptionsConfig {
            hosts_file: self.hosts_file,
            groups_file: self.groups_file,
            defaults_file: self.defaults_file,
        }
    }
}

impl Default for OptionsConfigBuilder {
    fn default() -> (res: Self)
        ensures
            res.hosts_file is None && res.groups_file is None && res.defaults_file is None,
    {
        OptionsConfigBuilder { hosts_file: None, groups_file: None, defaults_file: None }
    }
}

/// Inventory loader configuration. When `transform_function` is present, the
/// named transform is attached to the built inventory and applied lazily.
#[derive(Debug, Clone)]
pub struct InventoryConfig {
    pub plugin: String,
    pub options: OptionsConfig,
    pub transform_function: Option<String>,
    pub transform_function_options: Option<TransformFunctionOptions>,
}

/// Whether `c` holds the inventory-loader defaults for `env`.
pub open spec fn inventory_is_default(c: InventoryConfig, env: EnvDefaults) -> bool {
    &&& c.plugin@ == env_or(opt_view(env.inventory_plugin), "FileInventoryPlugin"@)
    &&& c.options.hosts_file is None
    &&& c.options.groups_file is None
    &&& c.options.defaults_file is None
    &&& c.transform_function is None
    &&& c.transform_function_options is None
}

impl InventoryConfig {
    /// The defaults: plugin from `GENJA_INVENTORY_PLUGIN` (else `FileInventoryPlugin`),
    /// no files, no transform.
    pub fn from_env(env: &EnvDefaults) -> (res: Self)
        ensures
            inventory_is_default(res, *env),
    {
        InventoryConfig {
            plugin: get_inventory_plugin_config(opt_as_str(&env.inventory_plugin)),
            options: OptionsConfig::default(),
            transform_function: None,
            transform_function_options: None,
        }
    }

    /// A builder with no field set.
    pub fn builder() -> (res: InventoryConfigBuilder)
        ensures
            res.plugin is None && res.options is None && res.transform_function is None
                && res.transform_function_options is None,
    {
        InventoryConfigBuilder {
            plugin: None,
            options: None,
            transform_function: None,
            transform_function_options: None,
        }
    }

    pub fn plugin(&self) -> (res: &str)
        ensures
            res@ == self.plugin@,
    {
        self.plugin.as_str()
    }

    pub fn options(&self) -> (res: &OptionsConfig)
        ensures
            *res == self.options,
    {
        &self.options
    }

    pub fn transform_function(&self) -> (res: Option<&str>)
        ensures
            opt_str(res) == opt_view(self.transform_function),
    {
        as_deref(&self.transform_function)
    }

    pub fn transform_function_options(&self) -> (res: Option<&TransformFunctionOptions>)
        ensures
            res == match self.transform_function_options {
                Some(o) => Some(&o),
                None => None::<&TransformFunctionOptions>,
            },
    {
        self.transform_function_options.as_ref()
    }
}

/// Builder for [`InventoryConfig`].
pub struct InventoryConfigBuilder {
    pub plugin: Option<String>,
    pub options: Option<OptionsConfig>,
    pub transform_function: Option<String>,
    pub transform_function_options: Option<TransformFunctionOptions>,
}

impl InventoryConfigBuilder {
    pub fn plugin(self, plugin: &str) -> (res: Self)
        ensures
            opt_view(res.plugin) == Some(plugin@),
            res.options == self.options && res.transform_function == self.transform_function
                && res.transform_function_options == self.transform_function_options,
    {
        InventoryConfigBuilder { plugin: Some(String::from_str(plugin)), ..self }
    }

    pub fn options(self, options: OptionsConfig) -> (res: Self)
        ensures
            res == (InventoryConfigBuilder { options: Some(options), ..self }),
    {
        InventoryConfigBuilder { options: Some(options), ..self }
    }

    pub fn transform_function(self, transform: &str) -> (res: Self)
        ensures
            opt_view(res.transform_function) == Some(transform@),
            res.plugin == self.plugin && res.options == self.options
                && res.transform_function_options == self.transform_function_options,
    {
        InventoryConfigBuilder { transform_function: Some(String::from_str(transform)), ..self }
    }

    pub fn transform_function_options(self, options: TransformFunctionOptions) -> (res: Self)
        ensures
            res == (InventoryConfigBuilder { transform_function_options: Some(options), ..self }),
    {
        InventoryConfigBuilder { transform_function_options: Some(options), ..self }
    }

    /// The built configuration; an unset plugin comes from `env`, unset options are empty.
    pub fn build(self, env: &EnvDefaults) -> (res: InventoryConfig)
        ensures
            res.plugin@ == match opt_view(self.plugin) {
                Some(p) => p,
                None => env_or(opt_view(env.inventory_plugin), "FileInventoryPlugin"@),
            },
            match self.options {
                Some(o) => res.options == o,
                None => res.options.hosts_file is None && res.options.groups_file is None
                    && res.options.defaults_file is None,
            },
            res.transform_function == self.transform_function,
            res.transform_function_options == self.transform_function_options,
    {
        InventoryConfig {
            plugin: match self.plugin {
                Some(p) => p,
                None => get_inventory_plugin_config(opt_as_str(&env.inventory_plugin)),
            },
            options: match self.options {
                Some(o) => o,
                None => OptionsConfig::default(),
            },
            transform_function: self.transform_function,
            transform_function_options: self.transform_function_options,
        }
    }
}

impl Default for InventoryConfigBuilder {
    fn default() -> (res: Self)
        ensures
            res.plugin is None && res.options is None && res.transform_function is None
                && res.transform_function_options is None,
    {
        InventoryConfig::builder()
    }
}

/// The syntax of a data file, chosen by its extension.
#[derive(Debug, Clone, Copy, PartialEq, Eq, Structural)]
pub enum FileFormat {
    Json,
    Yaml,
}

/// The format a path's extension selects: `.json` is JSON, `.yaml` and `.yml` are YAML.
pub open spec fn format_of(path: Seq<char>) -> Option<FileFormat> {
    if ends_with(path, ".json"@) {
        Some(FileFormat::Json)
    } else if ends_with(path, ".yaml"@) || ends_with(path, ".yml"@) {
        Some(FileFormat::Yaml)
    } else {
        None
    }
}

/// The format of a data file at `path`, by extension.
pub fn file_format(path: &str) -> (res: Option<FileFormat>)
    ensures
        res == format_of(path@),
{
    if ends_with_exec(path, ".json") {
        Some(FileFormat::Json)
    } else if ends_with_exec(path, ".yaml") || ends_with_exec(path, ".yml") {
        Some(FileFormat::Yaml)
    } else {
        None
    }
}

/// The format of the `kind` inventory file at `path`, or the error for an
/// unsupported extension.
pub fn inventory_file_format(kind: InventoryFileKind, path: &str) -> (res: Result<FileFormat, InventoryLoadError>)
    ensures
        match format_of(path@) {
            Some(f) => res == Ok::<FileFormat, InventoryLoadError>(f),
            None => res matches Err(InventoryLoadError::UnsupportedFormat { kind: k, path: p }) && k == kind && p@ == path@,
        },
{
    match file_format(path) {
        Some(f) => Ok(f),
        None => Err(InventoryLoadError::UnsupportedFormat { kind, path: String::from_str(path) }),
    }
}

} // verus!
