//! The application identity and the per-purpose directory resolvers.
//!
//! A `BaseDirs` value stores lowercase-normalized company, app and
//! bundle-identifier strings.  Every resolver is a total, deterministic pure
//! function of that identity, the operating-system family and an environment
//! snapshot: it never fails and never touches the filesystem.

use vstd::prelude::*;

use crate::casing::{lower_of, lowercase};
use crate::dir::{Dir, PathModel, spec_join};
use crate::platform::{
    Env, EnvModel, OsFamily, mac_app_support_base, mac_logs_base, spec_mac_app_support_base,
    spec_mac_logs_base, spec_win_localappdata_base, spec_win_saved_games_base,
    spec_xdg_config_home_base, spec_xdg_data_home_base, spec_xdg_state_home_base,
    win_localappdata_base, win_saved_games_base, xdg_config_home_base, xdg_data_home_base,
    xdg_state_home_base,
};

verus! {

/// The model of an application identity: the three lowercase name parts.
pub ghost struct IdentityModel {
    pub company: Seq<char>,
    pub app: Seq<char>,
    pub bundle_id: Seq<char>,
}

/// An application identity.  All three parts are lowercased once, at
/// construction, and never change afterwards.
#[derive(Debug, Clone)]
pub struct BaseDirs {
    /// Lowercased company name (Windows and Unix-like path segment).
    company: String,
    /// Lowercased application name (Windows and Unix-like path segment).
    app: String,
    /// Lowercased reverse-DNS identifier (macOS path segment).
    bundle_id: String,
}

impl View for BaseDirs {
    type V = IdentityModel;

    closed spec fn view(&self) -> IdentityModel {
        IdentityModel { company: self.company@, app: self.app@, bundle_id: self.bundle_id@ }
    }
}

/// A base root extended with the company and app segments and an optional
/// purpose suffix, in that fixed order.
pub open spec fn spec_app_path(
    base: PathModel,
    company: Seq<char>,
    app: Seq<char>,
    suffix: Option<Seq<char>>,
) -> PathModel {
    match suffix {
        Some(s) => spec_join(spec_join(spec_join(base, company), app), s),
        None => spec_join(spec_join(base, company), app),
    }
}

/// A base root extended with the bundle-identifier segment and an optional
/// purpose suffix.
pub open spec fn spec_bundle_path(
    base: PathModel,
    bundle_id: Seq<char>,
    suffix: Option<Seq<char>>,
) -> PathModel {
    match suffix {
        Some(s) => spec_join(spec_join(base, bundle_id), s),
        None => spec_join(base, bundle_id),
    }
}

/// Builds `base / company / app [/ suffix]`.
fn app_path(base: Dir, company: &str, app: &str, suffix: Option<&str>) -> (r: Dir)
    ensures
        r@ == spec_app_path(base@, company@, app@, suffix.deep_view()),
{
    let with_app = base.join(company).join(app);
    match suffix {
        Some(s) => with_app.join(s),
        None => with_app,
    }
}

/// Builds `base / bundle_id [/ suffix]`.
fn bundle_path(base: Dir, bundle_id: &str, suffix: Option<&str>) -> (r: Dir)
    ensures
        r@ == spec_bundle_path(base@, bundle_id@, suffix.deep_view()),
{
    let with_bundle = base.join(bundle_id);
    match suffix {
        Some(s) => with_bundle.join(s),
        None => with_bundle,
    }
}

/// The base root the settings directory is built under, per family.
pub open spec fn spec_settings_base(family: OsFamily, env: EnvModel) -> PathModel {
    match family {
        OsFamily::Windows => spec_win_localappdata_base(env),
        OsFamily::MacOs => spec_mac_app_support_base(env),
        OsFamily::Unix => spec_xdg_config_home_base(env),
    }
}

/// The base root the saves directory is built under, per family.
pub open spec fn spec_saves_base(family: OsFamily, env: EnvModel) -> PathModel {
    match family {
        OsFamily::Windows => spec_win_saved_games_base(env),
        OsFamily::MacOs => spec_mac_app_support_base(env),
        OsFamily::Unix => spec_xdg_data_home_base(env),
    }
}

/// The base root the logs directory is built under, per family.
pub open spec fn spec_logs_base(family: OsFamily, env: EnvModel) -> PathModel {
    match family {
        OsFamily::Windows => spec_win_localappdata_base(env),
        OsFamily::MacOs => spec_mac_logs_base(env),
        OsFamily::Unix => spec_xdg_state_home_base(env),
    }
}

/// The settings directory, per family.
pub open spec fn spec_settings_dir(
    id: IdentityModel,
    family: OsFamily,
    env: EnvModel,
) -> PathModel {
    match family {
        OsFamily::Windows => spec_app_path(
            spec_win_localappdata_base(env),
            id.company,
            id.app,
            Some("settings"@),
        ),
        OsFamily::MacOs => spec_bundle_path(
            spec_mac_app_support_base(env),
            id.bundle_id,
            Some("settings"@),
        ),
        OsFamily::Unix => spec_app_path(spec_xdg_config_home_base(env), id.company, id.app, None),
    }
}

/// The saves directory, per family.
pub open spec fn spec_saves_dir(id: IdentityModel, family: OsFamily, env: EnvModel) -> PathModel {
    match family {
        OsFamily::Windows => spec_app_path(spec_win_saved_games_base(env), id.company, id.app, None),
        OsFamily::MacOs => spec_bundle_path(
            spec_mac_app_support_base(env),
            id.bundle_id,
            Some("saves"@),
        ),
        OsFamily::Unix => spec_app_path(
            spec_xdg_data_home_base(env),
            id.company,
            id.app,
            Some("saves"@),
        ),
    }
}

/// The logs directory, per family.
pub open spec fn spec_logs_dir(id: IdentityModel, family: OsFamily, env: EnvModel) -> PathModel {
    match family {
        OsFamily::Windows => spec_app_path(
            spec_win_localappdata_base(env),
            id.company,
            id.app,
            Some("logs"@),
        ),
        OsFamily::MacOs => spec_bundle_path(spec_mac_logs_base(env), id.bundle_id, None),
        OsFamily::Unix => spec_app_path(
            spec_xdg_state_home_base(env),
            id.company,
            id.app,
            Some("logs"@),
        ),
    }
}

impl BaseDirs {
    /// Stores lowercase-normalized copies of the three identity parts.
    /// Empty strings are accepted; no other validation is done.
    pub fn new(company: &str, app: &str, bundle_id: &str) -> (r: Self)
        ensures
            r@.company == lower_of(company@),
            r@.app == lower_of(app@),
            r@.bundle_id == lower_of(bundle_id@),
    {
        BaseDirs {
            company: lowercase(company),
            app: lowercase(app),
            bundle_id: lowercase(bundle_id),
        }
    }

    /// The stored lowercase company name.
    pub fn company(&self) -> (r: &str)
        ensures
            r@ == self@.company,
    {
        self.company.as_str()
    }

    /// The stored lowercase application name.
    pub fn app(&self) -> (r: &str)
        ensures
            r@ == self@.app,
    {
        self.app.as_str()
    }

    /// The stored lowercase bundle identifier.
    pub fn bundle_id(&self) -> (r: &str)
        ensures
            r@ == self@.bundle_id,
    {
        self.bundle_id.as_str()
    }

    /// Settings (device-local).
    /// - Windows family: local-app-data root / company / app / `settings`
    /// - macOS family: app-support root / bundle_id / `settings`
    /// - Unix-like family: config-home root / company / app (no suffix)
    pub fn settings_dir(&self, family: OsFamily, env: &Env) -> (r: Dir)
        ensures
            r@ == spec_settings_dir(self@, family, env@),
    {
        match family {
            OsFamily::Windows => app_path(
                win_localappdata_base(env),
                &self.company,
                &self.app,
                Some("settings"),
            ),
            OsFamily::MacOs => bundle_path(
                mac_app_support_base(env),
                &self.bundle_id,
                Some("settings"),
            ),
            OsFamily::Unix => app_path(xdg_config_home_base(env), &self.company, &self.app, None),
        }
    }

    /// Saves (synced / backed up).
    /// - Windows family: saved-games root / company / app
    /// - macOS family: app-support root / bundle_id / `saves`
    /// - Unix-like family: data-home root / company / app / `saves`
    pub fn saves_dir(&self, family: OsFamily, env: &Env) -> (r: Dir)
        ensures
            r@ == spec_saves_dir(self@, family, env@),
    {
        match family {
            OsFamily::Windows => app_path(win_saved_games_base(env), &self.company, &self.app, None),
            OsFamily::MacOs => bundle_path(
                mac_app_support_base(env),
                &self.bundle_id,
                Some("saves"),
            ),
            OsFamily::Unix => app_path(
                xdg_data_home_base(env),
                &self.company,
                &self.app,
                Some("saves"),
            ),
        }
    }

    /// Logs and debug output (not synced).
    /// - Windows family: local-app-data root / company / app / `logs`
    /// - macOS family: logs root / bundle_id
    /// - Unix-like family: state-home root / company / app / `logs`
    pub fn logs_dir(&self, family: OsFamily, env: &Env) -> (r: Dir)
        ensures
            r@ == spec_logs_dir(self@, family, env@),
    {
        match family {
            OsFamily::Windows => app_path(
                win_localappdata_base(env),
                &self.company,
                &self.app,
                Some("logs"),
            ),
            OsFamily::MacOs => bundle_path(mac_logs_base(env), &self.bundle_id, None),
            OsFamily::Unix => app_path(
                xdg_state_home_base(env),
                &self.company,
                &self.app,
                Some("logs"),
            ),
        }
    }

    /// The settings directory joined with one filename segment.  Pure:
    /// never creates anything.
    pub fn settings_path(&self, family: OsFamily, env: &Env, name: &str) -> (r: Dir)
        ensures
            r@ == spec_join(spec_settings_dir(self@, family, env@), name@),
    {
        self.settings_dir(family, env).join(name)
    }

    /// The saves directory joined with one filename segment.
    pub fn saves_path(&self, family: OsFamily, env: &Env, name: &str) -> (r: Dir)
        ensures
            r@ == spec_join(spec_saves_dir(self@, family, env@), name@),
    {
        self.saves_dir(family, env).join(name)
    }

    /// The logs directory joined with one filename segment.
    pub fn logs_path(&self, family: OsFamily, env: &Env, name: &str) -> (r: Dir)
        ensures
            r@ == spec_join(spec_logs_dir(self@, family, env@), name@),
    {
        self.logs_dir(family, env).join(name)
    }
}

} // verus!
