//! The library-wide laws, stated and proved once over the resolver models.
//!
//! Each proof function here holds for every identity, every family and every
//! environment snapshot its `requires` admits.

use vstd::prelude::*;

use crate::dir::{PathModel, spec_root_only, strictly_under};
use crate::dirs::{
    IdentityModel, spec_app_path, spec_bundle_path, spec_logs_base, spec_logs_dir, spec_saves_base,
    spec_saves_dir, spec_settings_base, spec_settings_dir,
};
use crate::platform::{EnvModel, OsFamily, spec_home, spec_home_root};

verus! {

/// An identity-segment path lies strictly below the base it extends.
proof fn lemma_app_path_strictly_under(
    base: PathModel,
    company: Seq<char>,
    app: Seq<char>,
    suffix: Option<Seq<char>>,
)
    ensures
        strictly_under(spec_app_path(base, company, app, suffix), base),
{
    let child = spec_app_path(base, company, app, suffix);
    assert(base.segments =~= child.segments.subrange(0, base.segments.len() as int));
}

/// A bundle-segment path lies strictly below the base it extends.
proof fn lemma_bundle_path_strictly_under(
    base: PathModel,
    bundle_id: Seq<char>,
    suffix: Option<Seq<char>>,
)
    ensures
        strictly_under(spec_bundle_path(base, bundle_id, suffix), base),
{
    let child = spec_bundle_path(base, bundle_id, suffix);
    assert(base.segments =~= child.segments.subrange(0, base.segments.len() as int));
}

/// Every purpose directory is a strict subdirectory of the base root it
/// is built under, on every family and for every environment snapshot.
pub proof fn lemma_purpose_dirs_strictly_under_base(
    id: IdentityModel,
    family: OsFamily,
    env: EnvModel,
)
    ensures
        strictly_under(spec_settings_dir(id, family, env), spec_settings_base(family, env)),
        strictly_under(spec_saves_dir(id, family, env), spec_saves_base(family, env)),
        strictly_under(spec_logs_dir(id, family, env), spec_logs_base(family, env)),
{
    match family {
        OsFamily::Windows => {
            lemma_app_path_strictly_under(
                spec_settings_base(family, env),
                id.company,
                id.app,
                Some("settings"@),
            );
            lemma_app_path_strictly_under(spec_saves_base(family, env), id.company, id.app, None);
            lemma_app_path_strictly_under(
                spec_logs_base(family, env),
                id.company,
                id.app,
                Some("logs"@),
            );
        },
        OsFamily::MacOs => {
            lemma_bundle_path_strictly_under(
                spec_settings_base(family, env),
                id.bundle_id,
                Some("settings"@),
            );
            lemma_bundle_path_strictly_under(
                spec_saves_base(family, env),
                id.bundle_id,
                Some("saves"@),
            );
            lemma_bundle_path_strictly_under(spec_logs_base(family, env), id.bundle_id, None);
        },
        OsFamily::Unix => {
            lemma_app_path_strictly_under(spec_settings_base(family, env), id.company, id.app, None);
            lemma_app_path_strictly_under(
                spec_saves_base(family, env),
                id.company,
                id.app,
                Some("saves"@),
            );
            lemma_app_path_strictly_under(
                spec_logs_base(family, env),
                id.company,
                id.app,
                Some("logs"@),
            );
        },
    }
}

/// What each purpose directory appends to its base root: on the Windows
/// and Unix-like families exactly the (company, app) pair plus the
/// family's purpose suffix, on the macOS family exactly the bundle
/// identifier plus its suffix — never both identity forms at once.
pub proof fn lemma_identity_segments(id: IdentityModel, env: EnvModel)
    ensures
        spec_settings_dir(id, OsFamily::Windows, env).segments
            == spec_settings_base(OsFamily::Windows, env).segments
            + seq![id.company, id.app, "settings"@],
        spec_saves_dir(id, OsFamily::Windows, env).segments
            == spec_saves_base(OsFamily::Windows, env).segments + seq![id.company, id.app],
        spec_logs_dir(id, OsFamily::Windows, env).segments
            == spec_logs_base(OsFamily::Windows, env).segments
            + seq![id.company, id.app, "logs"@],
        spec_settings_dir(id, OsFamily::MacOs, env).segments
            == spec_settings_base(OsFamily::MacOs, env).segments
            + seq![id.bundle_id, "settings"@],
        spec_saves_dir(id, OsFamily::MacOs, env).segments
            == spec_saves_base(OsFamily::MacOs, env).segments + seq![id.bundle_id, "saves"@],
        spec_logs_dir(id, OsFamily::MacOs, env).segments
            == spec_logs_base(OsFamily::MacOs, env).segments + seq![id.bundle_id],
        spec_settings_dir(id, OsFamily::Unix, env).segments
            == spec_settings_base(OsFamily::Unix, env).segments + seq![id.company, id.app],
        spec_saves_dir(id, OsFamily::Unix, env).segments
            == spec_saves_base(OsFamily::Unix, env).segments
            + seq![id.company, id.app, "saves"@],
        spec_logs_dir(id, OsFamily::Unix, env).segments
            == spec_logs_base(OsFamily::Unix, env).segments + seq![id.company, id.app, "logs"@],
{
    assert(spec_settings_dir(id, OsFamily::Windows, env).segments
        =~= spec_settings_base(OsFamily::Windows, env).segments
        + seq![id.company, id.app, "settings"@]);
    assert(spec_saves_dir(id, OsFamily::Windows, env).segments
        =~= spec_saves_base(OsFamily::Windows, env).segments + seq![id.company, id.app]);
    assert(spec_logs_dir(id, OsFamily::Windows, env).segments
        =~= spec_logs_base(OsFamily::Windows, env).segments + seq![id.company, id.app, "logs"@]);
    assert(spec_settings_dir(id, OsFamily::MacOs, env).segments
        =~= spec_settings_base(OsFamily::MacOs, env).segments + seq![id.bundle_id, "settings"@]);
    assert(spec_saves_dir(id, OsFamily::MacOs, env).segments
        =~= spec_saves_base(OsFamily::MacOs, env).segments + seq![id.bundle_id, "saves"@]);
    assert(spec_logs_dir(id, OsFamily::MacOs, env).segments
        =~= spec_logs_base(OsFamily::MacOs, env).segments + seq![id.bundle_id]);
    assert(spec_settings_dir(id, OsFamily::Unix, env).segments
        =~= spec_settings_base(OsFamily::Unix, env).segments + seq![id.company, id.app]);
    assert(spec_saves_dir(id, OsFamily::Unix, env).segments
        =~= spec_saves_base(OsFamily::Unix, env).segments + seq![id.company, id.app, "saves"@]);
    assert(spec_logs_dir(id, OsFamily::Unix, env).segments
        =~= spec_logs_base(OsFamily::Unix, env).segments + seq![id.company, id.app, "logs"@]);
}

/// The Unix-like suffix convention: the settings directory carries no
/// trailing purpose suffix (its last segment is the app name), while the
/// saves and logs directories always end in their suffix segment.
pub proof fn lemma_unix_suffix_convention(id: IdentityModel, env: EnvModel)
    ensures
        spec_settings_dir(id, OsFamily::Unix, env).segments
            == spec_settings_base(OsFamily::Unix, env).segments + seq![id.company, id.app],
        spec_settings_dir(id, OsFamily::Unix, env).segments.last() == id.app,
        spec_saves_dir(id, OsFamily::Unix, env).segments.last() == "saves"@,
        spec_logs_dir(id, OsFamily::Unix, env).segments.last() == "logs"@,
{
    lemma_identity_segments(id, env);
}

/// With `XDG_CONFIG_HOME` unset, the Unix-like settings directory falls
/// under home `/.config/<company>/<app>`, strictly below the home
/// directory.
pub proof fn lemma_unix_settings_default(id: IdentityModel, env: EnvModel)
    requires
        env.xdg_config_home is None,
    ensures
        spec_settings_dir(id, OsFamily::Unix, env) == (PathModel {
            root: spec_home_root(OsFamily::Unix, env),
            segments: seq![".config"@, id.company, id.app],
        }),
        strictly_under(spec_settings_dir(id, OsFamily::Unix, env), spec_home(OsFamily::Unix, env)),
{
    let d = spec_settings_dir(id, OsFamily::Unix, env);
    assert(d =~~= (PathModel {
        root: spec_home_root(OsFamily::Unix, env),
        segments: seq![".config"@, id.company, id.app],
    }));
    assert(spec_home(OsFamily::Unix, env).segments =~= d.segments.subrange(0, 0));
}

/// With `XDG_CONFIG_HOME` set to any value, the Unix-like settings
/// directory is exactly that value with the company and app segments
/// under it.
pub proof fn lemma_unix_settings_custom(id: IdentityModel, env: EnvModel, config_root: Seq<char>)
    requires
        env.xdg_config_home == Some(config_root),
    ensures
        spec_settings_dir(id, OsFamily::Unix, env) == (PathModel {
            root: config_root,
            segments: seq![id.company, id.app],
        }),
{
    assert(spec_settings_dir(id, OsFamily::Unix, env) =~~= (PathModel {
        root: config_root,
        segments: seq![id.company, id.app],
    }));
}

/// True when an environment variable is either unset or set to a
/// non-empty value.
pub open spec fn nonempty_if_set(v: Option<Seq<char>>) -> bool {
    match v {
        Some(s) => s.len() > 0,
        None => true,
    }
}

/// The home root is never empty when the variables it consults are unset
/// (it falls back to the filesystem root), nor when every set variable is
/// non-empty.
pub proof fn lemma_home_never_empty(family: OsFamily, env: EnvModel)
    ensures
        env.user_profile is None && env.home is None ==> spec_home(family, env)
            == spec_root_only("/"@),
        nonempty_if_set(env.user_profile) && nonempty_if_set(env.home) ==> spec_home_root(
            family,
            env,
        ).len() > 0,
{
    reveal_strlit("/");
}

} // verus!
