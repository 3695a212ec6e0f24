//! Where a run finds the control plane and the token that it presents there.
//!
//! The library settles what is preferred to what; reading the environment and
//! the login files is the caller's part.

use std::path::PathBuf;
use vstd::prelude::*;
use vstd::string::*;

verus! {

/// How long, in seconds, a call to the control plane may take; creating an
/// instance can take a while.
pub const REQUEST_TIMEOUT_SECS: u64 = 120;

/// An individual entry in `hosts.toml`.
#[derive(Clone, Debug, PartialEq, Eq)]
pub struct Host {
    /// The ID of the user session for this entry.
    pub user: String,
    /// The authentication token associated with this entry's session.
    pub token: String,
}

/// What a [`Host`] says.
pub struct HostView {
    pub user: Seq<char>,
    pub token: Seq<char>,
}

impl View for Host {
    type V = HostView;

    open spec fn view(&self) -> HostView {
        HostView { user: self.user@, token: self.token@ }
    }
}

/// An individual profile in `credentials.toml`.
#[derive(Clone, Debug, PartialEq, Eq)]
pub struct Credential {
    /// The ID of the user session for this entry.
    pub user: String,
    /// The URL of the host for this entry.
    pub host: String,
    /// The authentication token associated with this entry's session.
    pub token: String,
}

/// What a [`Credential`] says.
pub struct CredentialView {
    pub user: Seq<char>,
    pub host: Seq<char>,
    pub token: Seq<char>,
}

impl View for Credential {
    type V = CredentialView;

    open spec fn view(&self) -> CredentialView {
        CredentialView { user: self.user@, host: self.host@, token: self.token@ }
    }
}

/// The profiles of a `credentials.toml` file, in the order in which they were
/// read.
#[derive(Clone, Debug, PartialEq, Eq)]
pub struct Credentials {
    pub profile: Vec<Credential>,
}

impl View for Credentials {
    type V = Seq<CredentialView>;

    open spec fn view(&self) -> Seq<CredentialView> {
        self.profile@.map_values(|credential: Credential| credential@)
    }
}

/// Per-host token and user information, by host name. Where a name stands
/// more than once, the last entry counts.
#[derive(Clone, Debug, PartialEq, Eq)]
pub struct Hosts {
    pub hosts: Vec<(String, Host)>,
}

/// What a list of entries says.
pub open spec fn entry_views(entries: Seq<(String, Host)>) -> Seq<(Seq<char>, HostView)> {
    entries.map_values(|entry: (String, Host)| (entry.0@, entry.1@))
}

impl View for Hosts {
    type V = Seq<(Seq<char>, HostView)>;

    open spec fn view(&self) -> Seq<(Seq<char>, HostView)> {
        entry_views(self.hosts@)
    }
}

/// The entry that counts for a host name: the last one under that name.
pub open spec fn lookup(entries: Seq<(Seq<char>, HostView)>, name: Seq<char>) -> Option<HostView>
    decreases entries.len(),
{
    if entries.len() == 0 {
        None
    } else if entries.last().0 == name {
        Some(entries.last().1)
    } else {
        lookup(entries.drop_last(), name)
    }
}

/// The entries that a list of profiles stands for: each profile under the
/// host that it names, in the same order.
pub open spec fn hosts_of(profiles: Seq<CredentialView>) -> Seq<(Seq<char>, HostView)> {
    profiles.map_values(
        |profile: CredentialView| (profile.host, HostView { user: profile.user, token: profile.token }),
    )
}

impl Hosts {
    /// The token of the entry that counts for a host name, if there is one.
    pub fn token(&self, name: &String) -> (token: Option<String>)
        ensures
            (match lookup(self@, name@) {
                Some(host) => token matches Some(t) && t@ == host.token,
                None => token is None,
            }),
    {
        let mut i: usize = self.hosts.len();
        proof {
            assert(self@.take(i as int) =~= self@);
        }
        while i > 0
            invariant
                i <= self.hosts.len(),
                lookup(self@, name@) == lookup(self@.take(i as int), name@),
            decreases i,
        {
            i = i - 1;
            proof {
                assert(self@.take(i + 1).drop_last() =~= self@.take(i as int));
                assert(self@.take(i + 1).last() == self@[i as int]);
            }
            if self.hosts[i].0 == *name {
                return Some(self.hosts[i].1.token.clone());
            }
        }
        None
    }
}

/// The supported types of login config files, `credentials.toml` or
/// `hosts.toml`.
#[derive(Clone, Copy, Debug, PartialEq, Eq, Structural)]
pub enum ConfigType {
    Credentials,
    Hosts,
}

impl ConfigType {
    /// The name of the login config file.
    pub open spec fn spec_file_name(self) -> Seq<char> {
        match self {
            ConfigType::Credentials => "credentials.toml"@,
            ConfigType::Hosts => "hosts.toml"@,
        }
    }

    /// The name of the login config file.
    pub fn file_name(&self) -> (name: &'static str)
        ensures
            name@ == self.spec_file_name(),
    {
        match self {
            ConfigType::Credentials => "credentials.toml",
            ConfigType::Hosts => "hosts.toml",
        }
    }
}

/// What a login config file held, once it was read and parsed.
#[derive(Clone, Debug, PartialEq, Eq)]
pub enum LoginFile {
    /// The profiles of a `credentials.toml` file.
    Credentials(Credentials),
    /// The entries of a `hosts.toml` file.
    Hosts(Hosts),
}

impl LoginFile {
    /// The type of file that this was read from.
    pub open spec fn config_type(self) -> ConfigType {
        match self {
            LoginFile::Credentials(_) => ConfigType::Credentials,
            LoginFile::Hosts(_) => ConfigType::Hosts,
        }
    }

    /// The entries that the file stands for.
    pub open spec fn entries(self) -> Seq<(Seq<char>, HostView)> {
        match self {
            LoginFile::Credentials(credentials) => hosts_of(credentials@),
            LoginFile::Hosts(hosts) => hosts@,
        }
    }
}

/// Why a login config file was not taken.
#[derive(Clone, Copy, Debug, PartialEq, Eq, Structural)]
pub enum LoginError {
    /// The file is of the other type than the one that was looked for.
    WrongFile,
}

/// An abstraction over `credentials.toml` and `hosts.toml` files.
#[derive(Debug, PartialEq, Eq)]
pub struct LoginConfig {
    /// The directory containing the login config file.
    pub dir: PathBuf,
    /// The type of login config file.
    pub cfg_ty: ConfigType,
}

impl LoginConfig {
    /// Settles which login config file of a directory is read, given which of
    /// the two exist there: `credentials.toml` where it exists, else
    /// `hosts.toml` where that exists, else none.
    pub fn try_new(dir: PathBuf, has_credentials: bool, has_hosts: bool) -> (login: Option<
        LoginConfig,
    >)
        ensures
            login is Some <==> has_credentials || has_hosts,
            login matches Some(config) ==> config.dir == dir && config.cfg_ty == (if has_credentials {
                ConfigType::Credentials
            } else {
                ConfigType::Hosts
            }),
    {
        let cfg_ty = if has_credentials {
            ConfigType::Credentials
        } else if has_hosts {
            ConfigType::Hosts
        } else {
            return None;
        };
        Some(LoginConfig { dir, cfg_ty })
    }

    /// Turns what the login config file held into per-host entries: the
    /// entries of a `hosts.toml` as they are, the profiles of a
    /// `credentials.toml` each under the host that it names. A file of the
    /// other type than this config's is refused.
    pub fn read_config(&self, file: LoginFile) -> (hosts: Result<Hosts, LoginError>)
        ensures
            file.config_type() == self.cfg_ty ==> (hosts matches Ok(h) && h@ == file.entries()),
            file.config_type() != self.cfg_ty ==> hosts == Err::<Hosts, LoginError>(
                LoginError::WrongFile,
            ),
    {
        match (self.cfg_ty, file) {
            (ConfigType::Credentials, LoginFile::Credentials(credentials)) => Ok(
                Self::read_credentials_toml(&credentials),
            ),
            (ConfigType::Hosts, LoginFile::Hosts(hosts)) => Ok(hosts),
            _ => Err(LoginError::WrongFile),
        }
    }

    /// Files every profile of a `credentials.toml` under the host that it
    /// names.
    pub fn read_credentials_toml(credentials: &Credentials) -> (hosts: Hosts)
        ensures
            hosts@ == hosts_of(credentials@),
    {
        let mut entries: Vec<(String, Host)> = Vec::new();
        let mut i: usize = 0;
        while i < credentials.profile.len()
            invariant
                i <= credentials.profile.len(),
                entry_views(entries@) == hosts_of(credentials@.take(i as int)),
            decreases credentials.profile.len() - i,
        {
            let profile = &credentials.profile[i];
            let ghost before = entries@;
            let entry = (
                profile.host.clone(),
                Host { user: profile.user.clone(), token: profile.token.clone() },
            );
            entries.push(entry);
            proof {
                let filed = (entry.0@, entry.1@);
                assert(credentials@[i as int] == profile@);
                assert(credentials@.take(i + 1) =~= credentials@.take(i as int).push(profile@));
                assert(entry_views(entries@) =~= entry_views(before).push(filed));
                assert(hosts_of(credentials@.take(i as int).push(profile@)) =~= hosts_of(
                    credentials@.take(i as int),
                ).push(filed));
            }
            i = i + 1;
        }
        proof {
            assert(credentials@.take(i as int) =~= credentials@);
        }
        Hosts { hosts: entries }
    }
}

/// Settles where the control plane is: the address that was given
/// explicitly, else the one from the environment, else nowhere.
pub fn resolve_host(host_uri: Option<String>, env_host: Option<String>) -> (host: Option<String>)
    ensures
        host == (if host_uri is Some {
            host_uri
        } else {
            env_host
        }),
{
    match host_uri {
        Some(host) => Some(host),
        None => env_host,
    }
}

/// Settles where the login config file is looked for: the directory given for
/// `credentials.toml`, else the one given for `hosts.toml`, else the one
/// under the user's home, else nowhere.
pub fn resolve_config_dir(
    credentials_toml_dir: Option<PathBuf>,
    hosts_toml_dir: Option<PathBuf>,
    home_config_dir: Option<PathBuf>,
) -> (dir: Option<PathBuf>)
    ensures
        dir == (if credentials_toml_dir is Some {
            credentials_toml_dir
        } else if hosts_toml_dir is Some {
            hosts_toml_dir
        } else {
            home_config_dir
        }),
{
    match credentials_toml_dir {
        Some(dir) => Some(dir),
        None => match hosts_toml_dir {
            Some(dir) => Some(dir),
            None => home_config_dir,
        },
    }
}

/// Settles which token is presented at `host`: the one that the login config
/// file holds for it, else the one from the environment, else none.
pub fn resolve_token(hosts: Option<&Hosts>, host: &String, env_token: Option<String>) -> (token:
    Option<String>)
    ensures
        (match hosts {
            Some(h) => match lookup(h@, host@) {
                Some(entry) => token matches Some(t) && t@ == entry.token,
                None => token == env_token,
            },
            None => token == env_token,
        }),
{
    let found = match hosts {
        Some(h) => h.token(host),
        None => None,
    };
    match found {
        Some(token) => Some(token),
        None => env_token,
    }
}

/// What the authorization header says for a token.
pub open spec fn bearer(token: Seq<char>) -> Seq<char> {
    "Bearer "@ + token
}

/// Writes the authorization header for a token.
pub fn authorization(token: &str) -> (header: String)
    ensures
        header@ == bearer(token@),
{
    String::from_str("Bearer ").concat(token)
}

} // verus!
