use omicron_stress::client::{
    authorization, resolve_config_dir, resolve_host, resolve_token, ConfigType, Credential,
    Credentials, Host, Hosts, LoginConfig, LoginError, LoginFile, REQUEST_TIMEOUT_SECS,
};
use std::path::PathBuf;

fn host(user: &str, token: &str) -> Host {
    Host { user: user.to_string(), token: token.to_string() }
}

fn credential(user: &str, host: &str, token: &str) -> Credential {
    Credential { user: user.to_string(), host: host.to_string(), token: token.to_string() }
}

fn some(s: &str) -> Option<String> {
    Some(s.to_string())
}

#[test]
fn login_files_have_their_names() {
    assert_eq!(ConfigType::Credentials.file_name(), "credentials.toml");
    assert_eq!(ConfigType::Hosts.file_name(), "hosts.toml");
}

#[test]
fn credentials_are_preferred_to_hosts() {
    let dir = PathBuf::from("/home/u/.config/oxide");
    let login = LoginConfig::try_new(dir.clone(), true, true).unwrap();
    assert_eq!(login, LoginConfig { dir: dir.clone(), cfg_ty: ConfigType::Credentials });
    let login = LoginConfig::try_new(dir.clone(), true, false).unwrap();
    assert_eq!(login.cfg_ty, ConfigType::Credentials);
    let login = LoginConfig::try_new(dir.clone(), false, true).unwrap();
    assert_eq!(login, LoginConfig { dir: dir.clone(), cfg_ty: ConfigType::Hosts });
}

#[test]
fn a_directory_without_login_files_gives_no_login() {
    assert_eq!(LoginConfig::try_new(PathBuf::from("/nowhere"), false, false), None);
}

#[test]
fn hosts_are_read_as_they_are() {
    let login = LoginConfig::try_new(PathBuf::from("/d"), false, true).unwrap();
    let hosts = Hosts {
        hosts: vec![("a.example".to_string(), host("u1", "t1")), ("b.example".to_string(), host("u2", "t2"))],
    };
    assert_eq!(login.read_config(LoginFile::Hosts(hosts.clone())), Ok(hosts));
}

#[test]
fn credentials_are_filed_under_their_hosts() {
    let login = LoginConfig::try_new(PathBuf::from("/d"), true, false).unwrap();
    let credentials = Credentials {
        profile: vec![credential("u1", "a.example", "t1"), credential("u2", "b.example", "t2")],
    };
    let expected = Hosts {
        hosts: vec![("a.example".to_string(), host("u1", "t1")), ("b.example".to_string(), host("u2", "t2"))],
    };
    assert_eq!(login.read_config(LoginFile::Credentials(credentials.clone())), Ok(expected.clone()));
    assert_eq!(LoginConfig::read_credentials_toml(&credentials), expected);
    assert_eq!(
        LoginConfig::read_credentials_toml(&Credentials { profile: vec![] }),
        Hosts { hosts: vec![] }
    );
}

#[test]
fn a_file_of_the_other_type_is_refused() {
    let wants_credentials = LoginConfig::try_new(PathBuf::from("/d"), true, true).unwrap();
    assert_eq!(
        wants_credentials.read_config(LoginFile::Hosts(Hosts { hosts: vec![] })),
        Err(LoginError::WrongFile)
    );
    let wants_hosts = LoginConfig::try_new(PathBuf::from("/d"), false, true).unwrap();
    assert_eq!(
        wants_hosts.read_config(LoginFile::Credentials(Credentials { profile: vec![] })),
        Err(LoginError::WrongFile)
    );
}

#[test]
fn the_last_entry_under_a_name_counts() {
    let hosts = Hosts {
        hosts: vec![
            ("a.example".to_string(), host("u1", "first")),
            ("b.example".to_string(), host("u2", "other")),
            ("a.example".to_string(), host("u3", "last")),
        ],
    };
    assert_eq!(hosts.token(&"a.example".to_string()), some("last"));
    assert_eq!(hosts.token(&"b.example".to_string()), some("other"));
    assert_eq!(hosts.token(&"c.example".to_string()), None);
    assert_eq!(Hosts { hosts: vec![] }.token(&"a.example".to_string()), None);
}

#[test]
fn an_explicit_host_is_preferred_to_the_environment() {
    assert_eq!(resolve_host(some("https://cli"), some("https://env")), some("https://cli"));
    assert_eq!(resolve_host(None, some("https://env")), some("https://env"));
    assert_eq!(resolve_host(some("https://cli"), None), some("https://cli"));
    assert_eq!(resolve_host(None, None), None);
}

#[test]
fn the_search_directory_is_settled_in_order() {
    let c = Some(PathBuf::from("/creds"));
    let h = Some(PathBuf::from("/hosts"));
    let home = Some(PathBuf::from("/home/u/.config/oxide"));
    assert_eq!(resolve_config_dir(c.clone(), h.clone(), home.clone()), c);
    assert_eq!(resolve_config_dir(None, h.clone(), home.clone()), h);
    assert_eq!(resolve_config_dir(None, None, home.clone()), home);
    assert_eq!(resolve_config_dir(c.clone(), None, None), c);
    assert_eq!(resolve_config_dir(None, None, None), None);
}

#[test]
fn the_token_of_the_file_is_preferred_to_the_environment() {
    let hosts = Hosts { hosts: vec![("a.example".to_string(), host("u1", "from-file"))] };
    let a = "a.example".to_string();
    let b = "b.example".to_string();
    assert_eq!(resolve_token(Some(&hosts), &a, some("from-env")), some("from-file"));
    assert_eq!(resolve_token(Some(&hosts), &a, None), some("from-file"));
    assert_eq!(resolve_token(Some(&hosts), &b, some("from-env")), some("from-env"));
    assert_eq!(resolve_token(Some(&hosts), &b, None), None);
    assert_eq!(resolve_token(None, &a, some("from-env")), some("from-env"));
    assert_eq!(resolve_token(None, &a, None), None);
}

#[test]
fn the_authorization_header_bears_the_token() {
    assert_eq!(authorization("abc123"), "Bearer abc123");
    assert_eq!(authorization(""), "Bearer ");
}

#[test]
fn calls_may_take_two_minutes() {
    assert_eq!(REQUEST_TIMEOUT_SECS, 120);
}
