use mailbridge::accounts::{AccountConfig, Accounts};
use mailbridge::config::{
    account_name, find_logins, get_account, listen_address, load_account, load_config, load_with,
    variable_prefix, Config, ConfigError, LoginEntry,
};
use mailbridge::decimal::DecimalError;
use mailbridge::reply::Value;

fn vars(list: &[(&str, &str)]) -> Vec<(String, String)> {
    list.iter().map(|(name, value)| (name.to_string(), value.to_string())).collect()
}

fn load(list: &[(&str, &str)]) -> Result<Config, ConfigError> {
    load_config(&vars(list))
}

fn message(list: &[(&str, &str)]) -> String {
    load(list).unwrap_err().message()
}

const PERSO: [(&str, &str); 5] = [
    ("API_TOKEN", "secret"),
    ("ACCOUNT_PERSO_LOGIN", "me@example.com"),
    ("ACCOUNT_PERSO_IMAP_HOST", "imap.example.com"),
    ("ACCOUNT_PERSO_SMTP_HOST", "smtp.example.com"),
    ("ACCOUNT_PERSO_PASSWORD", "hunter2"),
];

fn perso_with(more: &[(&'static str, &'static str)]) -> Vec<(&'static str, &'static str)> {
    let mut list = PERSO.to_vec();
    list.extend_from_slice(more);
    list
}

fn perso_without(name: &str) -> Vec<(&'static str, &'static str)> {
    PERSO.iter().copied().filter(|(n, _)| *n != name).collect()
}

#[test]
fn one_account_with_default_ports() {
    let cfg = load(&PERSO).unwrap();
    assert_eq!(cfg.api.port, 8090);
    assert_eq!(cfg.api.token, "secret");
    assert_eq!(cfg.webhook_url, None);
    assert_eq!(cfg.webhook_token, None);
    assert_eq!(cfg.accounts.names(), vec!["perso".to_string()]);
    let account = cfg.accounts.get("perso").unwrap();
    assert_eq!(account.imap_host, "imap.example.com");
    assert_eq!(account.imap_port, 993);
    assert_eq!(account.smtp_host, "smtp.example.com");
    assert_eq!(account.smtp_port, 587);
    assert_eq!(account.login, "me@example.com");
    assert_eq!(account.password, "hunter2");
    assert!(cfg.accounts.get("PERSO").is_none());
    assert_eq!(listen_address(&cfg), "0.0.0.0:8090");
}

#[test]
fn ports_and_webhook_are_read() {
    let cfg = load(&perso_with(&[
        ("API_PORT", "80"),
        ("ACCOUNT_PERSO_IMAP_PORT", "1993"),
        ("ACCOUNT_PERSO_SMTP_PORT", "+2587"),
        ("WEBHOOK_URL", "http://hook"),
        ("WEBHOOK_TOKEN", "hook-token"),
    ]))
    .unwrap();
    assert_eq!(cfg.api.port, 80);
    assert_eq!(listen_address(&cfg), "0.0.0.0:80");
    let account = cfg.accounts.get("perso").unwrap();
    assert_eq!((account.imap_port, account.smtp_port), (1993, 2587));
    assert_eq!(cfg.webhook_url.as_deref(), Some("http://hook"));
    assert_eq!(cfg.webhook_token.as_deref(), Some("hook-token"));
}

#[test]
fn no_accounts_are_needed() {
    let cfg = load(&[("API_TOKEN", "secret")]).unwrap();
    assert_eq!(cfg.accounts.len(), 0);
}

#[test]
fn what_is_missing_is_named() {
    assert_eq!(message(&[]), "API_TOKEN environment variable is required");
    for name in [
        "ACCOUNT_PERSO_IMAP_HOST",
        "ACCOUNT_PERSO_SMTP_HOST",
        "ACCOUNT_PERSO_PASSWORD",
    ] {
        assert_eq!(message(&perso_without(name)), format!("Missing {}", name));
    }
}

#[test]
fn ports_that_are_no_ports_are_refused() {
    for (text, error) in [
        ("", DecimalError::Empty),
        ("http", DecimalError::InvalidDigit),
        ("65536", DecimalError::TooLarge),
    ] {
        for name in ["API_PORT", "ACCOUNT_PERSO_IMAP_PORT", "ACCOUNT_PERSO_SMTP_PORT"] {
            let mut list = PERSO.to_vec();
            list.push((name, text));
            match load(&list) {
                Err(ConfigError::InvalidPort(found)) => assert_eq!(found, error),
                other => panic!("{:?}", other),
            }
            assert_eq!(message(&list), text.parse::<u16>().unwrap_err().to_string());
        }
    }
}

#[test]
fn the_first_fault_is_reported() {
    assert_eq!(message(&[("API_PORT", "x")]), "invalid digit found in string");
    assert_eq!(
        message(&[("API_TOKEN", "t"), ("ACCOUNT_A_LOGIN", "a"), ("ACCOUNT_B_LOGIN", "b")]),
        "Missing ACCOUNT_A_IMAP_HOST"
    );
    assert_eq!(
        message(&[
            ("API_TOKEN", "t"),
            ("ACCOUNT_A_LOGIN", "a"),
            ("ACCOUNT_A_IMAP_HOST", "h"),
            ("ACCOUNT_A_IMAP_PORT", "x"),
        ]),
        "invalid digit found in string"
    );
}

#[test]
fn first_entry_of_a_variable_counts_and_last_login() {
    let cfg = load(&perso_with(&[
        ("ACCOUNT_PERSO_PASSWORD", "other"),
        ("ACCOUNT_perso_LOGIN", "second@example.com"),
    ]))
    .unwrap();
    assert_eq!(cfg.accounts.len(), 1);
    let account = cfg.accounts.get("perso").unwrap();
    assert_eq!(account.password, "hunter2");
    assert_eq!(account.login, "second@example.com");
}

#[test]
fn account_names_come_from_login_variables() {
    assert_eq!(account_name("ACCOUNT_PERSO_LOGIN").as_deref(), Some("perso"));
    assert_eq!(account_name("ACCOUNT_My_Box_LOGIN").as_deref(), Some("my_box"));
    assert_eq!(account_name("ACCOUNT_ÉTÉ_LOGIN").as_deref(), Some("été"));
    assert_eq!(account_name("ACCOUNT__LOGIN").as_deref(), Some(""));
    assert_eq!(account_name("ACCOUNT_LOGIN"), None);
    assert_eq!(account_name("ACCOUNT_PERSO_PASSWORD"), None);
    assert_eq!(account_name("account_PERSO_LOGIN"), None);
    assert_eq!(variable_prefix("perso"), "ACCOUNT_PERSO");
    assert_eq!(variable_prefix("straße"), "ACCOUNT_STRASSE");
}

fn account(login: &str) -> AccountConfig {
    AccountConfig {
        imap_host: "i".to_string(),
        imap_port: 1,
        smtp_host: "s".to_string(),
        smtp_port: 2,
        login: login.to_string(),
        password: "p".to_string(),
    }
}

#[test]
fn accounts_are_kept_under_their_names() {
    let mut accounts = Accounts::new();
    accounts.insert("a".to_string(), account("one"));
    accounts.insert("b".to_string(), account("two"));
    accounts.insert("a".to_string(), account("three"));
    assert_eq!(accounts.len(), 2);
    let mut names = accounts.names();
    names.sort();
    assert_eq!(names, vec!["a".to_string(), "b".to_string()]);
    assert_eq!(accounts.get("a").unwrap().login, "three");
    assert_eq!(accounts.get("b").unwrap().login, "two");
    assert!(accounts.get("c").is_none());
    let (name, found) = accounts.entry(1);
    assert_eq!(accounts.get(name).unwrap().login, found.login);
    assert_eq!(found.clone().login, found.login);
}

#[test]
fn unknown_account_is_not_found() {
    let cfg = load(&PERSO).unwrap();
    assert_eq!(get_account(&cfg, "perso").unwrap().login, "me@example.com");
    let response = get_account(&cfg, "pro").unwrap_err();
    assert_eq!(response.status, 404);
    assert_eq!(response.body.len(), 1);
    assert_eq!(response.body[0].0, "error");
    assert!(matches!(&response.body[0].1, Value::Text(t) if t == "Account 'pro' not found"));
}

#[test]
fn login_variables_are_found_in_their_order() {
    let entries = find_logins(&vars(&[
        ("ACCOUNT_B_LOGIN", "b@x"),
        ("PATH", "/bin"),
        ("ACCOUNT_a_LOGIN", "a@x"),
        ("ACCOUNT_A_PASSWORD", "p"),
    ]));
    let found: Vec<(&str, &str, &str)> = entries
        .iter()
        .map(|entry| (entry.name.as_str(), entry.stem.as_str(), entry.login.as_str()))
        .collect();
    assert_eq!(found, vec![("b", "ACCOUNT_B", "b@x"), ("a", "ACCOUNT_A", "a@x")]);
}

#[test]
fn settings_are_read_for_given_logins() {
    let list = vars(&[
        ("API_TOKEN", "t"),
        ("X_IMAP_HOST", "i"),
        ("X_SMTP_HOST", "s"),
        ("X_PASSWORD", "p"),
    ]);
    let entry = |name: &str, login: &str| LoginEntry {
        name: name.to_string(),
        stem: "X".to_string(),
        login: login.to_string(),
    };
    let cfg = load_with(&list, &vec![entry("n", "one"), entry("n", "two")]).unwrap();
    assert_eq!(cfg.accounts.len(), 1);
    assert_eq!(cfg.accounts.get("n").unwrap().login, "two");
    assert_eq!(load_account(&list, "X", "l").unwrap().imap_host, "i");
    assert_eq!(load_account(&list, "Y", "l").unwrap_err().message(), "Missing Y_IMAP_HOST");
}
