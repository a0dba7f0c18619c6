//! Profiles, their settings, and where the runtime keeps its files.

use vstd::prelude::*;

use crate::error::{is_config_error, YnabError};
use crate::models::{age_hours, chrono_age_hours, chrono_instant, utc_now, OAuthScope, Timestamp, ts_nanos};
use crate::named::NamedMap;
use crate::cli::{join_path, path_join};
use crate::text::concat;

verus! {

/// How command results are printed.
#[derive(Debug, Clone, Copy, PartialEq, Eq)]
pub enum OutputFormat {
    Json,
    PrettyJson,
    Jsonl,
}

/// Where the runtime keeps its files.
#[derive(Debug, Clone)]
pub struct AppPaths {
    pub root_dir: String,
    pub config_file: String,
    pub secrets_file: String,
}

/// The settings of the OAuth application of a profile.
#[derive(Debug, Clone)]
pub struct OAuthAppConfig {
    pub client_id: String,
    pub redirect_uri: String,
    pub scope: OAuthScope,
}

/// An authorization that was started and not yet exchanged.
#[derive(Debug, Clone)]
pub struct PendingOAuth {
    pub state: String,
    pub code_verifier: String,
    pub authorize_url: String,
    pub created_at: Timestamp,
}

/// The settings of one profile.
#[derive(Debug, Clone)]
pub struct ProfileConfig {
    pub base_url: String,
    pub default_plan_id: Option<String>,
    pub oauth_app: Option<OAuthAppConfig>,
    pub pending_oauth: Option<PendingOAuth>,
}

/// The whole configuration file.
#[derive(Debug)]
pub struct AppConfig {
    pub version: u32,
    pub current_profile: String,
    pub profiles: NamedMap<ProfileConfig>,
}

/// The configuration in use, with the place it is saved to.
pub struct ConfigManager {
    paths: AppPaths,
    config: AppConfig,
}

/// The format version written to new configuration files.
pub fn default_version() -> (r: u32)
    ensures
        r == 1,
{
    1
}

/// The name of the profile used when none is chosen.
pub fn default_profile_name() -> (r: String)
    ensures
        r@ == "default"@,
{
    "default".to_owned()
}

/// The YNAB API base URL.
pub fn default_base_url() -> (r: String)
    ensures
        r@ == "https://api.ynab.com/v1"@,
{
    "https://api.ynab.com/v1".to_owned()
}

/// The runtime files under the directory `root`.
pub open spec fn paths_under(p: AppPaths, root: Seq<char>) -> bool {
    &&& p.root_dir@ == root
    &&& p.config_file@ == path_join(root, "config.json"@)
    &&& p.secrets_file@ == path_join(root, "secrets.json"@)
}

impl AppPaths {
    /// The runtime files under the directory `root_dir`: `config.json` and
    /// `secrets.json`.
    pub fn under(root_dir: String) -> (p: AppPaths)
        ensures
            paths_under(p, root_dir@),
    {
        let config_file = join_path(root_dir.as_str(), "config.json");
        let secrets_file = join_path(root_dir.as_str(), "secrets.json");
        AppPaths { root_dir, config_file, secrets_file }
    }

    /// Where the runtime keeps its files: below `home_override` (the value
    /// of `YNAB_AGENT_CLI_HOME`) when it is set, else below `.ynab-agent-cli`
    /// in the home directory; without either the home is unknown.
    pub fn discover(home_override: Option<String>, home: Option<String>) -> (r: Result<
        AppPaths,
        YnabError,
    >)
        ensures
            match home_override {
                Some(root) => r is Ok && paths_under(r->Ok_0, root@),
                None => match home {
                    Some(h) => r is Ok && paths_under(r->Ok_0, path_join(h@, ".ynab-agent-cli"@)),
                    None => r is Err && is_config_error(
                        r->Err_0,
                        "unable to determine home directory"@,
                    ),
                },
            },
    {
        match home_override {
            Some(root) => Ok(AppPaths::under(root)),
            None => match home {
                Some(h) => Ok(AppPaths::under(join_path(h.as_str(), ".ynab-agent-cli"))),
                None => Err(YnabError::Config("unable to determine home directory".to_owned())),
            },
        }
    }
}

/// A profile with the default base URL and nothing else set.
pub open spec fn fresh_profile(p: ProfileConfig) -> bool {
    &&& p.base_url@ == "https://api.ynab.com/v1"@
    &&& p.default_plan_id is None
    &&& p.oauth_app is None
    &&& p.pending_oauth is None
}

impl ProfileConfig {
    /// A profile with the default base URL and nothing else set.
    pub fn new_default() -> (r: ProfileConfig)
        ensures
            fresh_profile(r),
    {
        ProfileConfig {
            base_url: default_base_url(),
            default_plan_id: None,
            oauth_app: None,
            pending_oauth: None,
        }
    }

    /// A copy of the profile.
    pub fn copy(&self) -> (r: ProfileConfig)
        ensures
            r == *self,
    {
        ProfileConfig {
            base_url: self.base_url.clone(),
            default_plan_id: match &self.default_plan_id {
                Some(s) => Some(s.clone()),
                None => None,
            },
            oauth_app: match &self.oauth_app {
                Some(a) => Some(a.copy()),
                None => None,
            },
            pending_oauth: match &self.pending_oauth {
                Some(p) => Some(p.copy()),
                None => None,
            },
        }
    }
}

impl OAuthAppConfig {
    /// A copy of the settings.
    pub fn copy(&self) -> (r: OAuthAppConfig)
        ensures
            r == *self,
    {
        OAuthAppConfig {
            client_id: self.client_id.clone(),
            redirect_uri: self.redirect_uri.clone(),
            scope: self.scope,
        }
    }
}

/// An authorization stays usable until chrono counts one whole hour since
/// it started.
pub open spec fn pending_is_recent(p: PendingOAuth, now: Timestamp) -> bool {
    chrono_age_hours(now, p.created_at) < 1
}

impl PendingOAuth {
    /// A copy of the pending authorization.
    pub fn copy(&self) -> (r: PendingOAuth)
        ensures
            r == *self,
    {
        PendingOAuth {
            state: self.state.clone(),
            code_verifier: self.code_verifier.clone(),
            authorize_url: self.authorize_url.clone(),
            created_at: self.created_at,
        }
    }

    /// Whether the authorization started less than a whole hour before
    /// `now`, as chrono counts hours; away from leap seconds, exactly when
    /// less than an hour separates the two times.
    pub fn is_recent_at(&self, now: Timestamp) -> (r: bool)
        requires
            chrono_instant(now),
            chrono_instant(self.created_at),
        ensures
            r == pending_is_recent(*self, now),
            now.nanos < 1_000_000_000 && self.created_at.nanos < 1_000_000_000 ==> (r <==> ts_nanos(
                now,
            ) - ts_nanos(self.created_at) < 3_600_000_000_000),
    {
        age_hours(now, self.created_at) < 1
    }

    /// Whether the authorization started less than an hour ago.
    pub fn is_recent(&self) -> (r: bool)
        requires
            chrono_instant(self.created_at),
        ensures
            exists|now: Timestamp| r == pending_is_recent(*self, now),
    {
        let now = utc_now();
        self.is_recent_at(now)
    }
}

/// The configuration file written when there is none: version 1, profile
/// `default` current and holding a fresh profile.
pub open spec fn is_default_config(c: AppConfig) -> bool {
    &&& c.version == 1
    &&& c.current_profile@ == "default"@
    &&& c.profiles@.dom().contains("default"@)
    &&& fresh_profile(c.profiles@["default"@])
    &&& c.profiles@.dom() == set!["default"@]
}

impl AppConfig {
    /// The configuration written when there is none.
    pub fn new_default() -> (c: AppConfig)
        ensures
            is_default_config(c),
    {
        let mut profiles = NamedMap::new();
        profiles.insert(default_profile_name(), ProfileConfig::new_default());
        proof {
            assert(profiles@.dom() =~= set!["default"@]);
        }
        AppConfig {
            version: default_version(),
            current_profile: default_profile_name(),
            profiles,
        }
    }
}

/// The configuration's current profile exists.
pub open spec fn current_profile_exists(c: AppConfig) -> bool {
    c.profiles@.dom().contains(c.current_profile@)
}

impl ConfigManager {
    /// Takes a loaded configuration into use: its current profile is created
    /// with default settings when it is missing.
    pub fn from_loaded(paths: AppPaths, config: AppConfig) -> (m: ConfigManager)
        ensures
            m.paths() == paths,
            m.config().version == config.version,
            m.config().current_profile == config.current_profile,
            config.profiles@.dom().contains(config.current_profile@) ==> m.config().profiles@
                == config.profiles@,
            !config.profiles@.dom().contains(config.current_profile@) ==> m.config().profiles@
                == config.profiles@.insert(config.current_profile@, m.config().profiles@[config.current_profile@])
                && fresh_profile(m.config().profiles@[config.current_profile@]),
            current_profile_exists(m.config()),
    {
        let mut m = ConfigManager { paths, config };
        let current = m.config.current_profile.clone();
        m.ensure_profile(current.as_str());
        m
    }

    /// The configuration.
    pub closed spec fn config(&self) -> AppConfig {
        self.config
    }

    /// The file locations.
    pub closed spec fn paths(&self) -> AppPaths {
        self.paths
    }

    /// The file locations.
    pub fn paths_ref(&self) -> (r: &AppPaths)
        ensures
            *r == self.paths(),
    {
        &self.paths
    }

    /// The configuration, as it is to be saved.
    pub fn config_ref(&self) -> (r: &AppConfig)
        ensures
            *r == self.config(),
    {
        &self.config
    }

    /// The name of the current profile.
    pub fn current_profile_name(&self) -> (r: &str)
        ensures
            r@ == self.config().current_profile@,
    {
        self.config.current_profile.as_str()
    }

    /// Makes `name` the current profile, creating it with default settings
    /// when it does not exist.
    pub fn set_current_profile(&mut self, name: &str)
        ensures
            final(self).config().current_profile@ == name@,
            final(self).config().version == old(self).config().version,
            final(self).paths() == old(self).paths(),
            old(self).config().profiles@.dom().contains(name@) ==> final(self).config().profiles@
                == old(self).config().profiles@,
            !old(self).config().profiles@.dom().contains(name@) ==> final(self).config().profiles@
                == old(self).config().profiles@.insert(name@, final(self).config().profiles@[name@])
                && fresh_profile(final(self).config().profiles@[name@]),
            current_profile_exists(final(self).config()),
    {
        self.config.current_profile = name.to_owned();
        self.ensure_profile(name);
    }

    /// The profile named `name`.
    pub fn profile(&self, name: &str) -> (r: Option<&ProfileConfig>)
        ensures
            match r {
                Some(p) => self.config().profiles@.dom().contains(name@)
                    && self.config().profiles@[name@] == *p,
                None => !self.config().profiles@.dom().contains(name@),
            },
    {
        self.config.profiles.get(name)
    }

    /// Creates the profile `name` with default settings unless it exists.
    pub fn ensure_profile(&mut self, name: &str)
        ensures
            final(self).config().current_profile == old(self).config().current_profile,
            final(self).config().version == old(self).config().version,
            final(self).paths() == old(self).paths(),
            final(self).config().profiles@.dom().contains(name@),
            old(self).config().profiles@.dom().contains(name@) ==> final(self).config().profiles@
                == old(self).config().profiles@,
            !old(self).config().profiles@.dom().contains(name@) ==> final(self).config().profiles@
                == old(self).config().profiles@.insert(name@, final(self).config().profiles@[name@])
                && fresh_profile(final(self).config().profiles@[name@]),
    {
        if self.config.profiles.get(name).is_none() {
            self.config.profiles.insert(name.to_owned(), ProfileConfig::new_default());
        }
    }

    /// Replaces the profile `name`; refused when there is no such profile.
    pub fn update_profile(&mut self, name: &str, profile: ProfileConfig) -> (r: Result<
        (),
        YnabError,
    >)
        ensures
            final(self).config().current_profile == old(self).config().current_profile,
            final(self).config().version == old(self).config().version,
            final(self).paths() == old(self).paths(),
            old(self).config().profiles@.dom().contains(name@) <==> r is Ok,
            r is Ok ==> final(self).config().profiles@ == old(self).config().profiles@.insert(
                name@,
                profile,
            ),
            r is Err ==> final(self).config().profiles@ == old(self).config().profiles@
                && is_config_error(r->Err_0, "profile not found: "@ + name@),
    {
        if self.config.profiles.get(name).is_none() {
            return Err(YnabError::Config(concat("profile not found: ", name)));
        }
        self.config.profiles.insert(name.to_owned(), profile);
        Ok(())
    }
}

} // verus!
