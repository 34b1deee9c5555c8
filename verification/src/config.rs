//! The tool's own settings (`mutools_config.json`) and where its data lives.
use vstd::prelude::*;

use crate::paths::{path1, PathSpec};
use crate::text::{same_text, trim, trimmed};

verus! {

/// The directories the running application works in.
pub struct AppState {
    pub log_dir: String,
    pub resource_dir: String,
}

/// The settings stored in `mutools_config.json`.
pub struct DataConfig {
    pub data_dir_mode: String,
    pub data_dir_custom: String,
    pub admin_elevation: bool,
    pub aria2_max_connections: u32,
    pub aria2_split: u32,
    pub auto_delete_installer: bool,
}

/// The aria2 download settings as the settings page shows them.
pub struct Aria2Settings {
    pub max_connections: u32,
    pub split: u32,
}

/// Whether `c` holds the settings used when no configuration file is read.
pub open spec fn is_default_config(c: DataConfig) -> bool {
    &&& c.data_dir_mode@ == "appdata"@
    &&& c.data_dir_custom@ == Seq::<char>::empty()
    &&& c.admin_elevation
    &&& c.aria2_max_connections == 5
    &&& c.aria2_split == 5
    &&& !c.auto_delete_installer
}

/// The data directory mode used when the file does not name one.
pub fn default_data_dir_mode() -> (r: String)
    ensures
        r@ == "appdata"@,
{
    String::from_str("appdata")
}

/// Elevation to administrator is asked for unless the file says otherwise.
pub fn default_admin_elevation() -> (r: bool)
    ensures
        r,
{
    true
}

/// aria2 opens five connections per server unless the file says otherwise.
pub fn default_aria2_max_connections() -> (r: u32)
    ensures
        r == 5,
{
    5
}

/// aria2 splits a download in five unless the file says otherwise.
pub fn default_aria2_split() -> (r: u32)
    ensures
        r == 5,
{
    5
}

/// Installers are kept after installing unless the file says otherwise.
pub fn default_auto_delete_installer() -> (r: bool)
    ensures
        !r,
{
    false
}

impl Default for DataConfig {
    fn default() -> (r: Self)
        ensures
            is_default_config(r),
    {
        DataConfig {
            data_dir_mode: default_data_dir_mode(),
            data_dir_custom: String::new(),
            admin_elevation: default_admin_elevation(),
            aria2_max_connections: default_aria2_max_connections(),
            aria2_split: default_aria2_split(),
            auto_delete_installer: default_auto_delete_installer(),
        }
    }
}

/// Where the data directory is.
pub enum DataDir {
    /// The directory that holds the executable.
    ExeDir,
    /// A directory the user chose (already trimmed, never empty).
    Custom(String),
    /// The per-user application data directory.
    AppData,
}

/// Which data directory the configuration selects.
pub fn resolve_data_dir(config: &DataConfig) -> (r: DataDir)
    ensures
        config.data_dir_mode@ == "exe_dir"@ ==> r is ExeDir,
        config.data_dir_mode@ == "custom"@ && trimmed(config.data_dir_custom@).len() > 0 ==> (
        r matches DataDir::Custom(p) && p@ == trimmed(config.data_dir_custom@)),
        config.data_dir_mode@ == "custom"@ && trimmed(config.data_dir_custom@).len() == 0 ==> r is AppData,
        config.data_dir_mode@ != "exe_dir"@ && config.data_dir_mode@ != "custom"@ ==> r is AppData,
{
    proof {
        reveal_strlit("exe_dir");
        reveal_strlit("custom");
        assert("custom"@.len() == 6);
        assert("custom"@ != "exe_dir"@);
    }
    if same_text(config.data_dir_mode.as_str(), "exe_dir") {
        DataDir::ExeDir
    } else if same_text(config.data_dir_mode.as_str(), "custom") {
        let custom = trim(config.data_dir_custom.as_str());
        if custom.as_str().is_empty() {
            DataDir::AppData
        } else {
            DataDir::Custom(custom)
        }
    } else {
        DataDir::AppData
    }
}

/// The application data directory: `MuTools` below `%APPDATA%` when that is
/// set, else `.mutools` below `%USERPROFILE%`, else the current directory.
pub fn appdata_data_dir(appdata: Option<String>, user_profile: Option<String>) -> (r: PathSpec)
    ensures
        appdata matches Some(a) ==> r.base@ == a@ && r.spec_parts() == seq!["MuTools"@],
        appdata is None && user_profile is Some ==> r.base@ == user_profile->0@ && r.spec_parts()
            == seq![".mutools"@],
        appdata is None && user_profile is None ==> r.base@ == "."@ && r.spec_parts() =~= Seq::<
            Seq<char>,
        >::empty(),
{
    match appdata {
        Some(a) => path1(a.as_str(), "MuTools"),
        None => match user_profile {
            Some(h) => path1(h.as_str(), ".mutools"),
            None => {
                let r = PathSpec { base: String::from_str("."), parts: Vec::new() };
                assert(r.spec_parts() =~= Seq::<Seq<char>>::empty());
                r
            },
        },
    }
}

/// The configuration with a new data directory mode and custom path; the
/// other settings are kept.
pub fn with_data_dir(config: DataConfig, data_dir_mode: String, data_dir_custom: String) -> (r:
    DataConfig)
    ensures
        r.data_dir_mode@ == data_dir_mode@,
        r.data_dir_custom@ == data_dir_custom@,
        r.admin_elevation == config.admin_elevation,
        r.aria2_max_connections == config.aria2_max_connections,
        r.aria2_split == config.aria2_split,
        r.auto_delete_installer == config.auto_delete_installer,
{
    DataConfig {
        data_dir_mode,
        data_dir_custom,
        admin_elevation: config.admin_elevation,
        aria2_max_connections: config.aria2_max_connections,
        aria2_split: config.aria2_split,
        auto_delete_installer: config.auto_delete_installer,
    }
}

/// The configuration with the elevation setting changed; the rest is kept.
pub fn with_admin_elevation(config: DataConfig, enabled: bool) -> (r: DataConfig)
    ensures
        r.admin_elevation == enabled,
        r.data_dir_mode == config.data_dir_mode,
        r.data_dir_custom == config.data_dir_custom,
        r.aria2_max_connections == config.aria2_max_connections,
        r.aria2_split == config.aria2_split,
        r.auto_delete_installer == config.auto_delete_installer,
{
    let mut c = config;
    c.admin_elevation = enabled;
    c
}

/// The configuration with new aria2 settings; the rest is kept.
pub fn with_aria2(config: DataConfig, max_connections: u32, split: u32) -> (r: DataConfig)
    ensures
        r.aria2_max_connections == max_connections,
        r.aria2_split == split,
        r.data_dir_mode == config.data_dir_mode,
        r.data_dir_custom == config.data_dir_custom,
        r.admin_elevation == config.admin_elevation,
        r.auto_delete_installer == config.auto_delete_installer,
{
    let mut c = config;
    c.aria2_max_connections = max_connections;
    c.aria2_split = split;
    c
}

/// The configuration with the installer-removal setting changed; the rest
/// is kept.
pub fn with_auto_delete_installer(config: DataConfig, enabled: bool) -> (r: DataConfig)
    ensures
        r.auto_delete_installer == enabled,
        r.data_dir_mode == config.data_dir_mode,
        r.data_dir_custom == config.data_dir_custom,
        r.admin_elevation == config.admin_elevation,
        r.aria2_max_connections == config.aria2_max_connections,
        r.aria2_split == config.aria2_split,
{
    let mut c = config;
    c.auto_delete_installer = enabled;
    c
}

/// The aria2 settings held in a configuration.
pub fn aria2_settings(config: &DataConfig) -> (r: Aria2Settings)
    ensures
        r.max_connections == config.aria2_max_connections,
        r.split == config.aria2_split,
{
    Aria2Settings { max_connections: config.aria2_max_connections, split: config.aria2_split }
}

} // verus!
