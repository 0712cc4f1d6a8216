use issue_tracker::config::{check, merge, resolve, Config, MissingCredential, Overrides, Startup};
use issue_tracker::request::{checked_request, issues_request};

fn record(token: &str, user: &str) -> Config {
    Config::new(token.to_string(), user.to_string())
}

fn overrides(token: Option<&str>, user: Option<&str>, file_path: bool) -> Overrides {
    Overrides {
        token: token.map(|s| s.to_string()),
        user_name: user.map(|s| s.to_string()),
        file_path,
    }
}

#[test]
fn default_record_is_empty() {
    let c = Config::default();
    assert_eq!(c.github_access_token, "");
    assert_eq!(c.user_name, "");
}

#[test]
fn absent_overrides_keep_record() {
    let mut c = record("abc", "bob");
    merge(&mut c, &overrides(None, None, false));
    assert_eq!(c.github_access_token, "abc");
    assert_eq!(c.user_name, "bob");
}

#[test]
fn empty_overrides_keep_record() {
    let mut c = record("abc", "bob");
    merge(&mut c, &overrides(Some(""), Some(""), false));
    assert_eq!(c.github_access_token, "abc");
    assert_eq!(c.user_name, "bob");
}

#[test]
fn token_override_replaces_token_only() {
    let mut c = record("abc", "bob");
    merge(&mut c, &overrides(Some("xyz"), None, false));
    assert_eq!(c.github_access_token, "xyz");
    assert_eq!(c.user_name, "bob");
}

#[test]
fn user_override_replaces_user_only() {
    let mut c = record("abc", "bob");
    merge(&mut c, &overrides(Some(""), Some("alice"), false));
    assert_eq!(c.github_access_token, "abc");
    assert_eq!(c.user_name, "alice");
}

#[test]
fn equal_override_keeps_value() {
    let mut c = record("abc", "bob");
    merge(&mut c, &overrides(Some("abc"), Some("bob"), false));
    assert_eq!(c.github_access_token, "abc");
    assert_eq!(c.user_name, "bob");
}

#[test]
fn check_rejects_missing_token() {
    assert_eq!(check(&record("", "bob")), Err(MissingCredential::AccessToken));
    assert_eq!(check(&record("", "")), Err(MissingCredential::AccessToken));
}

#[test]
fn check_rejects_missing_user_name() {
    assert_eq!(check(&record("abc", "")), Err(MissingCredential::UserName));
}

#[test]
fn check_accepts_complete_record() {
    assert_eq!(check(&record("abc", "bob")), Ok(()));
}

#[test]
fn check_messages_name_the_flag() {
    assert_eq!(
        MissingCredential::AccessToken.message(),
        "No Github access token set. Please set one with the --token (-t) flag."
    );
    assert_eq!(
        MissingCredential::UserName.message(),
        "No Github user name is set. Please set one with the --user-name (-u) flag."
    );
}

#[test]
fn empty_record_with_overrides_proceeds_to_fetch() {
    let r = resolve(record("", ""), &overrides(Some("abc"), Some("bob"), false));
    let c = match r {
        Startup::Proceed(c) => c,
        Startup::ShowPath => panic!("expected to proceed"),
    };
    assert_eq!(c.github_access_token, "abc");
    assert_eq!(c.user_name, "bob");
    assert_eq!(check(&c), Ok(()));
    let q = checked_request(&c).ok().expect("credentials are complete");
    assert_eq!(q.url, "https://api.github.com/issues");
}

#[test]
fn file_path_flag_shows_path_only() {
    let r = resolve(record("abc", "bob"), &overrides(None, None, true));
    assert!(matches!(r, Startup::ShowPath));
}

#[test]
fn file_path_flag_ignores_overrides() {
    let r = resolve(record("", ""), &overrides(Some("abc"), Some("bob"), true));
    assert!(matches!(r, Startup::ShowPath));
}

#[test]
fn missing_user_name_issues_no_request() {
    let r = checked_request(&record("abc", ""));
    assert!(matches!(r, Err(MissingCredential::UserName)));
}

#[test]
fn missing_token_issues_no_request() {
    let r = checked_request(&record("", "bob"));
    assert!(matches!(r, Err(MissingCredential::AccessToken)));
}

#[test]
fn request_carries_credentials() {
    let q = issues_request(&record("abc", "bob"));
    assert_eq!(q.url, "https://api.github.com/issues");
    let pairs: Vec<(String, String)> =
        q.headers.iter().map(|h| (h.name.clone(), h.value.clone())).collect();
    assert_eq!(
        pairs,
        vec![
            ("Authorization".to_string(), "Bearer abc".to_string()),
            ("Accept".to_string(), "application/vnd.github+json".to_string()),
            ("X-GitHub-Api-Version".to_string(), "2022-11-28".to_string()),
            ("User-Agent".to_string(), "bob".to_string()),
        ]
    );
}
