//! Where credentials are kept: the system keyring or a secrets file, and
//! what each storage operation asks of the one in use.

use vstd::prelude::*;

use crate::config::AppPaths;
use crate::error::{is_config_error, YnabError};
use crate::models::StoredSession;
use crate::named::NamedMap;
use crate::text::{concat, str_eq};

verus! {

/// The keyring service the credentials are stored under.
pub const SERVICE_NAME: &'static str = "com.openai.ynab-agent-cli";

/// Where credentials are kept.
#[derive(Debug, Clone, Copy, PartialEq, Eq)]
pub enum SecretBackend {
    Keyring,
    File,
}

/// The credential store of a runtime.
pub struct SecretStore {
    backend: SecretBackend,
    paths: AppPaths,
}

/// The credentials of one profile in the secrets file.
#[derive(Debug)]
pub struct ProfileSecrets {
    pub session: Option<StoredSession>,
    pub oauth_client_secret: Option<String>,
}

/// The secrets file: credentials by profile.
#[derive(Debug)]
pub struct FileSecrets {
    pub profiles: NamedMap<ProfileSecrets>,
}

/// The credential a storage operation is about.
#[derive(Debug, Clone, Copy, PartialEq, Eq)]
pub enum SecretItem {
    Session,
    OAuthClientSecret,
}

/// A change to a profile's entry in the secrets file.
#[derive(Debug)]
pub enum FileChange {
    SetSession(StoredSession),
    ClearSession,
    SetOAuthClientSecret(String),
}

/// What a storage operation asks of the store in use.
#[derive(Debug)]
pub enum SecretRequest {
    /// Read the keyring entry `account`; no entry means nothing stored.
    KeyringRead { account: String },
    /// Write the keyring entry `account`, read it back, and compare the two.
    KeyringWriteVerified { account: String },
    /// Delete the keyring entry `account`; no entry is no error.
    KeyringDelete { account: String },
    /// Read `item` of `profile` from the secrets file.
    FileRead { profile: String, item: SecretItem },
    /// Apply `change` to `profile`'s entry of the secrets file and save it.
    FileWrite { profile: String, change: FileChange },
}

/// The keyring account of a profile's credential: `profile:suffix`.
pub open spec fn account_name(profile: Seq<char>, suffix: Seq<char>) -> Seq<char> {
    profile + ":"@ + suffix
}

/// The keyring account of a profile's credential.
pub fn keyring_account(profile: &str, suffix: &str) -> (r: String)
    ensures
        r@ == account_name(profile@, suffix@),
{
    let mut out = concat(profile, ":");
    out.append(suffix);
    out
}

/// The suffix of a credential's keyring account.
pub open spec fn item_suffix(item: SecretItem) -> Seq<char> {
    match item {
        SecretItem::Session => "session"@,
        SecretItem::OAuthClientSecret => "oauth_client_secret"@,
    }
}

fn item_suffix_str(item: SecretItem) -> (r: &'static str)
    ensures
        r@ == item_suffix(item),
{
    match item {
        SecretItem::Session => "session",
        SecretItem::OAuthClientSecret => "oauth_client_secret",
    }
}

/// The read of `item` of `profile` from the store `backend`.
pub open spec fn read_request(backend: SecretBackend, profile: Seq<char>, item: SecretItem, r: SecretRequest) -> bool {
    match backend {
        SecretBackend::Keyring => r matches SecretRequest::KeyringRead { account } && account@
            == account_name(profile, item_suffix(item)),
        SecretBackend::File => r matches SecretRequest::FileRead { profile: p, item: i } && p@
            == profile && i == item,
    }
}

impl SecretStore {
    /// A store on the system keyring, or on the secrets file under `paths`.
    pub fn new(paths: AppPaths, use_keyring: bool) -> (s: SecretStore)
        ensures
            s.backend() == (if use_keyring {
                SecretBackend::Keyring
            } else {
                SecretBackend::File
            }),
            s.paths() == paths,
    {
        let backend = if use_keyring {
            SecretBackend::Keyring
        } else {
            SecretBackend::File
        };
        SecretStore { backend, paths }
    }

    /// Where the credentials are kept.
    pub closed spec fn backend(&self) -> SecretBackend {
        self.backend
    }

    /// The files of the runtime.
    pub closed spec fn paths(&self) -> AppPaths {
        self.paths
    }

    /// Where the credentials are kept.
    pub fn backend_kind(&self) -> (r: SecretBackend)
        ensures
            r == self.backend(),
    {
        self.backend
    }

    /// The files of the runtime.
    pub fn paths_ref(&self) -> (r: &AppPaths)
        ensures
            *r == self.paths(),
    {
        &self.paths
    }

    /// Whether the system keyring holds the credentials.
    pub fn uses_keyring(&self) -> (r: bool)
        ensures
            r == (self.backend() == SecretBackend::Keyring),
    {
        match self.backend {
            SecretBackend::Keyring => true,
            SecretBackend::File => false,
        }
    }

    fn read(&self, profile: &str, item: SecretItem) -> (r: SecretRequest)
        ensures
            read_request(self.backend(), profile@, item, r),
    {
        match self.backend {
            SecretBackend::Keyring => SecretRequest::KeyringRead {
                account: keyring_account(profile, item_suffix_str(item)),
            },
            SecretBackend::File => SecretRequest::FileRead { profile: profile.to_owned(), item },
        }
    }

    /// Reading the session of `profile`.
    pub fn load_session(&self, profile: &str) -> (r: SecretRequest)
        ensures
            read_request(self.backend(), profile@, SecretItem::Session, r),
    {
        self.read(profile, SecretItem::Session)
    }

    /// Reading the OAuth client secret of `profile`.
    pub fn load_oauth_client_secret(&self, profile: &str) -> (r: SecretRequest)
        ensures
            read_request(self.backend(), profile@, SecretItem::OAuthClientSecret, r),
    {
        self.read(profile, SecretItem::OAuthClientSecret)
    }

    /// Storing `session` for `profile`: a verified keyring write of the
    /// session, or setting it in the secrets file.
    pub fn save_session(&self, profile: &str, session: &StoredSession) -> (r: SecretRequest)
        ensures
            match self.backend() {
                SecretBackend::Keyring => r matches SecretRequest::KeyringWriteVerified { account }
                    && account@ == account_name(profile@, "session"@),
                SecretBackend::File => r matches SecretRequest::FileWrite {
                    profile: p,
                    change: FileChange::SetSession(s),
                } && p@ == profile@ && s == *session,
            },
    {
        match self.backend {
            SecretBackend::Keyring => SecretRequest::KeyringWriteVerified {
                account: keyring_account(profile, "session"),
            },
            SecretBackend::File => SecretRequest::FileWrite {
                profile: profile.to_owned(),
                change: FileChange::SetSession(session.copy()),
            },
        }
    }

    /// Removing the session of `profile`.
    pub fn clear_session(&self, profile: &str) -> (r: SecretRequest)
        ensures
            match self.backend() {
                SecretBackend::Keyring => r matches SecretRequest::KeyringDelete { account }
                    && account@ == account_name(profile@, "session"@),
                SecretBackend::File => r matches SecretRequest::FileWrite {
                    profile: p,
                    change: FileChange::ClearSession,
                } && p@ == profile@,
            },
    {
        match self.backend {
            SecretBackend::Keyring => SecretRequest::KeyringDelete {
                account: keyring_account(profile, "session"),
            },
            SecretBackend::File => SecretRequest::FileWrite {
                profile: profile.to_owned(),
                change: FileChange::ClearSession,
            },
        }
    }

    /// Storing the OAuth client secret of `profile`.
    pub fn save_oauth_client_secret(&self, profile: &str, secret: &str) -> (r: SecretRequest)
        ensures
            match self.backend() {
                SecretBackend::Keyring => r matches SecretRequest::KeyringWriteVerified { account }
                    && account@ == account_name(profile@, "oauth_client_secret"@),
                SecretBackend::File => r matches SecretRequest::FileWrite {
                    profile: p,
                    change: FileChange::SetOAuthClientSecret(s),
                } && p@ == profile@ && s@ == secret@,
            },
    {
        match self.backend {
            SecretBackend::Keyring => SecretRequest::KeyringWriteVerified {
                account: keyring_account(profile, "oauth_client_secret"),
            },
            SecretBackend::File => SecretRequest::FileWrite {
                profile: profile.to_owned(),
                change: FileChange::SetOAuthClientSecret(secret.to_owned()),
            },
        }
    }
}

/// Refuses a keyring write whose read-back differs from what was written.
pub fn verify_keyring_write(account: &str, expected: &str, actual: &str) -> (r: Result<(), YnabError>)
    ensures
        expected@ == actual@ <==> r is Ok,
        r is Err ==> is_config_error(
            r->Err_0,
            "keyring write verification failed for "@ + account@,
        ),
{
    if !str_eq(actual, expected) {
        return Err(YnabError::Config(concat("keyring write verification failed for ", account)));
    }
    Ok(())
}

/// A profile's entry after `change`.
pub open spec fn changed_entry(e: ProfileSecrets, change: FileChange) -> ProfileSecrets {
    match change {
        FileChange::SetSession(s) => ProfileSecrets { session: Some(s), ..e },
        FileChange::ClearSession => ProfileSecrets { session: None, ..e },
        FileChange::SetOAuthClientSecret(c) => ProfileSecrets { oauth_client_secret: Some(c), ..e },
    }
}

/// An entry with nothing stored.
pub open spec fn empty_entry() -> ProfileSecrets {
    ProfileSecrets { session: None, oauth_client_secret: None }
}

impl FileSecrets {
    /// A secrets file with no profiles.
    pub fn new() -> (f: FileSecrets)
        ensures
            f.profiles@ == Map::<Seq<char>, ProfileSecrets>::empty(),
    {
        FileSecrets { profiles: NamedMap::new() }
    }

    /// Applies `change` to the entry of `profile`, which starts empty when
    /// the profile has none.
    pub fn apply(&mut self, profile: &str, change: FileChange)
        ensures
            final(self).profiles@ == old(self).profiles@.insert(
                profile@,
                changed_entry(
                    if old(self).profiles@.dom().contains(profile@) {
                        old(self).profiles@[profile@]
                    } else {
                        empty_entry()
                    },
                    change,
                ),
            ),
    {
        let (session, secret) = match self.profiles.get(profile) {
            Some(e) => (
                match &e.session {
                    Some(s) => Some(s.copy()),
                    None => None,
                },
                match &e.oauth_client_secret {
                    Some(c) => Some(c.clone()),
                    None => None,
                },
            ),
            None => (None, None),
        };
        let entry = match change {
            FileChange::SetSession(s) => ProfileSecrets {
                session: Some(s),
                oauth_client_secret: secret,
            },
            FileChange::ClearSession => ProfileSecrets { session: None, oauth_client_secret: secret },
            FileChange::SetOAuthClientSecret(c) => ProfileSecrets {
                session,
                oauth_client_secret: Some(c),
            },
        };
        self.profiles.insert(profile.to_owned(), entry);
    }

    /// The session stored for `profile`.
    pub fn session(&self, profile: &str) -> (r: Option<StoredSession>)
        ensures
            r == (if self.profiles@.dom().contains(profile@) {
                self.profiles@[profile@].session
            } else {
                None
            }),
    {
        match self.profiles.get(profile) {
            Some(e) => match &e.session {
                Some(s) => Some(s.copy()),
                None => None,
            },
            None => None,
        }
    }

    /// The OAuth client secret stored for `profile`.
    pub fn oauth_client_secret(&self, profile: &str) -> (r: Option<String>)
        ensures
            r == (if self.profiles@.dom().contains(profile@) {
                self.profiles@[profile@].oauth_client_secret
            } else {
                None
            }),
    {
        match self.profiles.get(profile) {
            Some(e) => match &e.oauth_client_secret {
                Some(c) => Some(c.clone()),
                None => None,
            },
            None => None,
        }
    }
}

} // verus!
