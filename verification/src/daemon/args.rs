//! The arguments of the daemon and the directories it uses when it is given
//! none.

use vstd::prelude::*;
use vstd::string::StringExecFns;

verus! {

/// The arguments of the daemon.
#[derive(Debug, PartialEq, Eq)]
pub struct CliArgs {
    /// Address of Station's built-in Filecoin wallet.
    pub wallet_address: String,
    /// Unique identifier of the Filecoin Station.
    pub station_id: String,
    /// The type of Station Core deployment.
    pub deployment_type: String,
    /// Directory where to keep state files.
    pub state_root: String,
    /// Directory where to keep temporary files like cached data.
    pub cache_root: String,
    /// The modules to run, each a single JavaScript file.
    pub files: Vec<String>,
}

/// The commands of the daemon.
#[derive(Debug, PartialEq, Eq)]
pub enum Commands {
    /// Run the Station Module in the given JavaScript file.
    Run { file: String },
}

/// The kind of operating system.
#[derive(Clone, Copy, Debug, PartialEq, Eq, Structural)]
pub enum Platform {
    Macos,
    Linux,
    Windows,
}

/// The variables of the environment that name directories.
#[derive(Debug)]
pub struct Environment {
    pub home: Option<String>,
    pub xdg_state_home: Option<String>,
    pub xdg_cache_home: Option<String>,
    pub local_app_data: Option<String>,
    pub temp: Option<String>,
}

/// The text of an optional string.
pub open spec fn opt_text(s: Option<String>) -> Option<Seq<char>> {
    match s {
        Some(s) => Some(s@),
        None => None,
    }
}

/// The default directory for state files; `None` where the variable that it
/// is built from is not set.
pub open spec fn spec_default_state_dir(platform: Platform, env: Environment) -> Option<Seq<char>> {
    match platform {
        Platform::Macos => match env.home {
            Some(home) => Some(home@ + "/Library/Application Support/app.filstation.zinniad"@),
            None => None,
        },
        Platform::Linux => match env.xdg_state_home {
            Some(state_home) => Some(state_home@ + "/zinniad"@),
            None => match env.home {
                Some(home) => Some(home@ + "/.local/state/zinniad"@),
                None => None,
            },
        },
        Platform::Windows => match env.local_app_data {
            Some(app_data) => Some(app_data@ + "\\zinniad"@),
            None => None,
        },
    }
}

/// The default directory for cached data; `None` where the variable that it
/// is built from is not set.
pub open spec fn spec_default_cache_dir(platform: Platform, env: Environment) -> Option<Seq<char>> {
    match platform {
        Platform::Macos => match env.home {
            Some(home) => Some(home@ + "/Library/Caches/app.filstation.zinniad"@),
            None => None,
        },
        Platform::Linux => match env.xdg_cache_home {
            Some(cache_home) => Some(cache_home@ + "/zinniad"@),
            None => match env.home {
                Some(home) => Some(home@ + "/.cache/zinniad"@),
                None => None,
            },
        },
        Platform::Windows => match env.temp {
            Some(temp) => Some(temp@ + "\\zinniad"@),
            None => None,
        },
    }
}

/// `base` followed by `tail`.
fn under(base: &String, tail: &str) -> (dir: String)
    ensures
        dir@ == base@ + tail@,
{
    let mut dir = base.clone();
    dir.append(tail);
    dir
}

/// The directory for state files where none is given. The variable that it
/// is built from must be set: `HOME` on macOS, `XDG_STATE_HOME` or `HOME` on
/// Linux, `LOCALAPPDATA` on Windows.
pub fn get_default_state_dir(platform: Platform, env: &Environment) -> (dir: String)
    requires
        spec_default_state_dir(platform, *env) is Some,
    ensures
        Some(dir@) == spec_default_state_dir(platform, *env),
{
    match platform {
        Platform::Macos => match &env.home {
            Some(home) => under(home, "/Library/Application Support/app.filstation.zinniad"),
            None => String::new(),
        },
        Platform::Linux => match &env.xdg_state_home {
            Some(state_home) => under(state_home, "/zinniad"),
            None => match &env.home {
                Some(home) => under(home, "/.local/state/zinniad"),
                None => String::new(),
            },
        },
        Platform::Windows => match &env.local_app_data {
            Some(app_data) => under(app_data, "\\zinniad"),
            None => String::new(),
        },
    }
}

/// The directory for cached data where none is given. The variable that it
/// is built from must be set: `HOME` on macOS, `XDG_CACHE_HOME` or `HOME` on
/// Linux, `TEMP` on Windows.
pub fn get_default_cache_dir(platform: Platform, env: &Environment) -> (dir: String)
    requires
        spec_default_cache_dir(platform, *env) is Some,
    ensures
        Some(dir@) == spec_default_cache_dir(platform, *env),
{
    match platform {
        Platform::Macos => match &env.home {
            Some(home) => under(home, "/Library/Caches/app.filstation.zinniad"),
            None => String::new(),
        },
        Platform::Linux => match &env.xdg_cache_home {
            Some(cache_home) => under(cache_home, "/zinniad"),
            None => match &env.home {
                Some(home) => under(home, "/.cache/zinniad"),
                None => String::new(),
            },
        },
        Platform::Windows => match &env.temp {
            Some(temp) => under(temp, "\\zinniad"),
            None => String::new(),
        },
    }
}

/// The directory for state files where none is given, or `None` where the
/// variable that it is built from is not set.
pub fn find_default_state_dir(platform: Platform, env: &Environment) -> (dir: Option<String>)
    ensures
        opt_text(dir) == spec_default_state_dir(platform, *env),
{
    let known = match platform {
        Platform::Macos => env.home.is_some(),
        Platform::Linux => env.xdg_state_home.is_some() || env.home.is_some(),
        Platform::Windows => env.local_app_data.is_some(),
    };
    if known {
        Some(get_default_state_dir(platform, env))
    } else {
        None
    }
}

/// The directory for cached data where none is given, or `None` where the
/// variable that it is built from is not set.
pub fn find_default_cache_dir(platform: Platform, env: &Environment) -> (dir: Option<String>)
    ensures
        opt_text(dir) == spec_default_cache_dir(platform, *env),
{
    let known = match platform {
        Platform::Macos => env.home.is_some(),
        Platform::Linux => env.xdg_cache_home.is_some() || env.home.is_some(),
        Platform::Windows => env.temp.is_some(),
    };
    if known {
        Some(get_default_cache_dir(platform, env))
    } else {
        None
    }
}

} // verus!
