//! Operating-system families, environment snapshots, and the per-platform
//! base-root resolvers.
//!
//! Every resolver follows the same fallback chain: read an environment
//! variable from the snapshot, else derive a default from the home directory,
//! else use a hard-coded last resort.  All resolvers are total: they return a
//! path value for every snapshot, set or unset.

use vstd::prelude::*;

use crate::dir::{Dir, PathModel, spec_join, spec_root_only};

verus! {

/// The operating-system family a build targets.  Exactly one family's
/// conventions govern any given running instance.
#[derive(Debug, Clone, Copy, PartialEq, Eq, Structural)]
pub enum OsFamily {
    Windows,
    MacOs,
    Unix,
}

/// The model of an environment snapshot: each relevant variable either
/// set to a character sequence or unset.
pub ghost struct EnvModel {
    pub local_app_data: Option<Seq<char>>,
    pub user_profile: Option<Seq<char>>,
    pub home: Option<Seq<char>>,
    pub xdg_config_home: Option<Seq<char>>,
    pub xdg_data_home: Option<Seq<char>>,
    pub xdg_state_home: Option<Seq<char>>,
}

/// A snapshot of the environment variables the resolvers consult.  The
/// library never reads the process environment itself; the caller captures
/// the variables it cares about and hands them in.
#[derive(Debug, Clone, PartialEq, Eq)]
pub struct Env {
    /// `LOCALAPPDATA` (Windows family).
    pub local_app_data: Option<String>,
    /// `USERPROFILE` (Windows family).
    pub user_profile: Option<String>,
    /// `HOME` (all families).
    pub home: Option<String>,
    /// `XDG_CONFIG_HOME` (Unix-like family).
    pub xdg_config_home: Option<String>,
    /// `XDG_DATA_HOME` (Unix-like family).
    pub xdg_data_home: Option<String>,
    /// `XDG_STATE_HOME` (Unix-like family).
    pub xdg_state_home: Option<String>,
}

impl View for Env {
    type V = EnvModel;

    open spec fn view(&self) -> EnvModel {
        EnvModel {
            local_app_data: self.local_app_data.deep_view(),
            user_profile: self.user_profile.deep_view(),
            home: self.home.deep_view(),
            xdg_config_home: self.xdg_config_home.deep_view(),
            xdg_data_home: self.xdg_data_home.deep_view(),
            xdg_state_home: self.xdg_state_home.deep_view(),
        }
    }
}

impl Env {
    /// A snapshot with every variable unset.
    pub fn unset() -> (r: Env)
        ensures
            r@ == (EnvModel {
                local_app_data: None,
                user_profile: None,
                home: None,
                xdg_config_home: None,
                xdg_data_home: None,
                xdg_state_home: None,
            }),
    {
        Env {
            local_app_data: None,
            user_profile: None,
            home: None,
            xdg_config_home: None,
            xdg_data_home: None,
            xdg_state_home: None,
        }
    }
}

/// The home-directory root: on the Windows family `USERPROFILE`, else
/// `HOME`; on every other family `HOME`; if unset, the filesystem root.
pub open spec fn spec_home_root(family: OsFamily, env: EnvModel) -> Seq<char> {
    match family {
        OsFamily::Windows => match env.user_profile {
            Some(v) => v,
            None => match env.home {
                Some(v) => v,
                None => "/"@,
            },
        },
        _ => match env.home {
            Some(v) => v,
            None => "/"@,
        },
    }
}

/// The home directory as a path value.
pub open spec fn spec_home(family: OsFamily, env: EnvModel) -> PathModel {
    spec_root_only(spec_home_root(family, env))
}

/// Resolves the user's home directory from the snapshot, per family, with
/// the filesystem root as a guaranteed fallback.
pub fn home(family: OsFamily, env: &Env) -> (r: Dir)
    ensures
        r@ == spec_home(family, env@),
{
    let root: String = match family {
        OsFamily::Windows => match &env.user_profile {
            Some(v) => v.clone(),
            None => match &env.home {
                Some(v) => v.clone(),
                None => "/".to_owned(),
            },
        },
        _ => match &env.home {
            Some(v) => v.clone(),
            None => "/".to_owned(),
        },
    };
    Dir::from_root(root)
}

/// The Windows local-application-data root: `LOCALAPPDATA`, else a
/// hard-coded default profile fallback.
pub open spec fn spec_win_localappdata_base(env: EnvModel) -> PathModel {
    match env.local_app_data {
        Some(v) => spec_root_only(v),
        None => spec_root_only("C:\\Users\\Default\\AppData\\Local"@),
    }
}

pub(crate) fn win_localappdata_base(env: &Env) -> (r: Dir)
    ensures
        r@ == spec_win_localappdata_base(env@),
{
    match &env.local_app_data {
        Some(v) => Dir::from_root(v.clone()),
        None => Dir::from_root("C:\\Users\\Default\\AppData\\Local".to_owned()),
    }
}

/// The Windows saved-games root: the home directory plus `Saved Games`.
/// (The platform's known-folder lookup is out of scope; this derivation
/// from the home directory is a documented simplification.)
pub open spec fn spec_win_saved_games_base(env: EnvModel) -> PathModel {
    spec_join(spec_home(OsFamily::Windows, env), "Saved Games"@)
}

pub(crate) fn win_saved_games_base(env: &Env) -> (r: Dir)
    ensures
        r@ == spec_win_saved_games_base(env@),
{
    home(OsFamily::Windows, env).join("Saved Games")
}

/// The macOS application-support root: home plus `Library` plus
/// `Application Support`.
pub open spec fn spec_mac_app_support_base(env: EnvModel) -> PathModel {
    spec_join(spec_join(spec_home(OsFamily::MacOs, env), "Library"@), "Application Support"@)
}

pub(crate) fn mac_app_support_base(env: &Env) -> (r: Dir)
    ensures
        r@ == spec_mac_app_support_base(env@),
{
    home(OsFamily::MacOs, env).join("Library").join("Application Support")
}

/// The macOS logs root: home plus `Library` plus `Logs`.
pub open spec fn spec_mac_logs_base(env: EnvModel) -> PathModel {
    spec_join(spec_join(spec_home(OsFamily::MacOs, env), "Library"@), "Logs"@)
}

pub(crate) fn mac_logs_base(env: &Env) -> (r: Dir)
    ensures
        r@ == spec_mac_logs_base(env@),
{
    home(OsFamily::MacOs, env).join("Library").join("Logs")
}

/// The Unix-like config-home root: `XDG_CONFIG_HOME`, else home plus
/// `.config`.
pub open spec fn spec_xdg_config_home_base(env: EnvModel) -> PathModel {
    match env.xdg_config_home {
        Some(v) => spec_root_only(v),
        None => spec_join(spec_home(OsFamily::Unix, env), ".config"@),
    }
}

pub(crate) fn xdg_config_home_base(env: &Env) -> (r: Dir)
    ensures
        r@ == spec_xdg_config_home_base(env@),
{
    match &env.xdg_config_home {
        Some(v) => Dir::from_root(v.clone()),
        None => home(OsFamily::Unix, env).join(".config"),
    }
}

/// The Unix-like data-home root: `XDG_DATA_HOME`, else home plus
/// `.local` plus `share`.
pub open spec fn spec_xdg_data_home_base(env: EnvModel) -> PathModel {
    match env.xdg_data_home {
        Some(v) => spec_root_only(v),
        None => spec_join(spec_join(spec_home(OsFamily::Unix, env), ".local"@), "share"@),
    }
}

pub(crate) fn xdg_data_home_base(env: &Env) -> (r: Dir)
    ensures
        r@ == spec_xdg_data_home_base(env@),
{
    match &env.xdg_data_home {
        Some(v) => Dir::from_root(v.clone()),
        None => home(OsFamily::Unix, env).join(".local").join("share"),
    }
}

/// The Unix-like state-home root: `XDG_STATE_HOME`, else home plus
/// `.local` plus `state`.
pub open spec fn spec_xdg_state_home_base(env: EnvModel) -> PathModel {
    match env.xdg_state_home {
        Some(v) => spec_root_only(v),
        None => spec_join(spec_join(spec_home(OsFamily::Unix, env), ".local"@), "state"@),
    }
}

pub(crate) fn xdg_state_home_base(env: &Env) -> (r: Dir)
    ensures
        r@ == spec_xdg_state_home_base(env@),
{
    match &env.xdg_state_home {
        Some(v) => Dir::from_root(v.clone()),
        None => home(OsFamily::Unix, env).join(".local").join("state"),
    }
}

} // verus!
