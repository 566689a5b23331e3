use mailbridge::command::Command;
use mailbridge::accounts::{AccountConfig, Accounts};
use mailbridge::config::{ApiConfig, Config};
use mailbridge::reply::Value;
use mailbridge::watch::WatchEvent::{Done, Failed, NewData};
use mailbridge::watch::{start_idle_watchers, News, WatchAction, WatchEvent, Watcher};

fn settings(login: &str) -> AccountConfig {
    AccountConfig {
        imap_host: "imap.example.com".to_string(),
        imap_port: 993,
        smtp_host: "smtp.example.com".to_string(),
        smtp_port: 587,
        login: login.to_string(),
        password: "p".to_string(),
    }
}

fn config(url: Option<&str>, token: Option<&str>) -> Config {
    let mut accounts = Accounts::new();
    accounts.insert("a".to_string(), settings("a@x"));
    accounts.insert("b".to_string(), settings("b@x"));
    Config {
        api: ApiConfig { port: 1, token: "t".to_string() },
        accounts,
        webhook_url: url.map(str::to_string),
        webhook_token: token.map(str::to_string),
    }
}

fn watcher(token: Option<&str>) -> Watcher {
    start_idle_watchers(&config(Some("http://hook"), token)).remove(0)
}

fn wants(watcher: &Watcher) -> String {
    match watcher.action() {
        WatchAction::Perform { command: Command::Connect { address, login, .. } } => {
            format!("connect {} {}", address, login)
        }
        WatchAction::Perform { command: Command::Select { folder } } => format!("select {}", folder),
        WatchAction::Perform { command: Command::Logout } => "logout".to_string(),
        WatchAction::Perform { command } => panic!("{:?}", command),
        WatchAction::Idle { seconds } => format!("idle {}", seconds),
        WatchAction::Pause { seconds } => format!("pause {}", seconds),
        WatchAction::Announce { announcement } => {
            let mut text = format!("post {} {:?}", announcement.url, announcement.authorization);
            for (name, value) in announcement.body {
                match value {
                    Value::Text(value) => text.push_str(&format!(" {}={}", name, value)),
                    other => panic!("{:?}", other),
                }
            }
            text
        }
    }
}

fn follow(watcher: &mut Watcher, events: &[WatchEvent]) -> Vec<String> {
    events
        .iter()
        .map(|event| {
            let wanted = wants(watcher);
            watcher.run_idle(*event);
            wanted
        })
        .collect()
}

#[test]
fn without_webhook_nothing_is_watched() {
    assert_eq!(start_idle_watchers(&config(None, Some("t"))).len(), 0);
}

#[test]
fn every_account_is_watched() {
    let watchers = start_idle_watchers(&config(Some("http://hook"), None));
    let mut names: Vec<(String, String)> = watchers
        .iter()
        .map(|w| (w.account.clone(), w.settings.login.clone()))
        .collect();
    names.sort();
    assert_eq!(
        names,
        vec![("a".to_string(), "a@x".to_string()), ("b".to_string(), "b@x".to_string())]
    );
}

#[test]
fn new_mail_is_announced() {
    let mut w = watcher(Some("t0"));
    let account = w.account.clone();
    let login = w.settings.login.clone();
    let seen = follow(&mut w, &[Done, Done, NewData(News::Messages(4)), Failed, Failed]);
    assert_eq!(
        seen,
        vec![
            format!("connect imap.example.com:993 {}", login),
            "select INBOX".to_string(),
            "idle 480".to_string(),
            format!(
                "post http://hook Some(\"Bearer t0\") event=new_email account={} folder=INBOX",
                account
            ),
            "logout".to_string(),
        ]
    );
    assert!(wants(&w).starts_with("connect"));
}

#[test]
fn announcement_without_token_has_no_authorization() {
    let mut w = watcher(None);
    follow(&mut w, &[Done, Done, NewData(News::Recent(1))]);
    assert!(wants(&w).starts_with("post http://hook None event=new_email"));
}

#[test]
fn quiet_session_is_followed_by_another() {
    let mut w = watcher(None);
    let seen = follow(&mut w, &[Done, Done, Done, Done]);
    assert_eq!(seen[1..], ["select INBOX", "idle 480", "logout"]);
    assert!(wants(&w).starts_with("connect"));
}

#[test]
fn failure_is_followed_by_a_pause() {
    for n in 0..3 {
        let mut w = watcher(None);
        let mut events = vec![Done; n];
        events.push(Failed);
        follow(&mut w, &events);
        assert_eq!(wants(&w), "pause 5");
        w.run_idle(Done);
        assert!(wants(&w).starts_with("connect"));
    }
}

#[test]
fn news_of_no_message_are_not_announced() {
    let others = [
        News::Expunged(3),
        News::Changed(3),
        News::Other,
        News::Messages(0),
        News::Recent(0),
    ];
    for news in others {
        let mut w = watcher(None);
        let seen = follow(&mut w, &[Done, Done, NewData(news), Done]);
        assert_eq!(seen[2..], ["idle 480", "logout"]);
        assert!(wants(&w).starts_with("connect"));
    }
}
