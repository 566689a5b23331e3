use mailbridge::api::{handle, submit, Call, LabelRequest, MoveRequest};
use mailbridge::auth::{auth_middleware, bearer_header};
use mailbridge::command::{criteria, login_failure, Command};
use mailbridge::accounts::{AccountConfig, Accounts};
use mailbridge::config::{ApiConfig, Config};
use mailbridge::exchange::{Answer, Event, Step};
use mailbridge::outgoing::{Letter, SendRequest};
use mailbridge::reply::{Response, Value};
use mailbridge::summary::{Address, Envelope, FetchedMessage, Flag};

const DATE: u64 = 784887151;

fn text(s: &str) -> String {
    s.to_string()
}

fn settings() -> AccountConfig {
    AccountConfig {
        imap_host: text("imap.example.com"),
        imap_port: 993,
        smtp_host: text("smtp.example.com"),
        smtp_port: 587,
        login: text("me@example.com"),
        password: text("hunter2"),
    }
}

fn config() -> Config {
    let mut accounts = Accounts::new();
    accounts.insert(text("perso"), settings());
    Config {
        api: ApiConfig { port: 8090, token: text("secret") },
        accounts,
        webhook_url: None,
        webhook_token: None,
    }
}

fn params(list: &[(&str, &str)]) -> Vec<(String, String)> {
    list.iter().map(|(name, value)| (text(name), text(value))).collect()
}

/// A body as text: fields in order.
fn body(response: &Response) -> String {
    let mut all = String::new();
    for (name, value) in &response.body {
        let value = match value {
            Value::Text(t) => format!("{:?}", t),
            Value::Number(n) => n.to_string(),
            Value::Texts(list) => format!("{:?}", list),
            Value::Emails(list) => {
                format!("{:?}", list.iter().map(|e| (e.uid, e.from.clone())).collect::<Vec<_>>())
            }
        };
        all.push_str(&format!("{}={};", name, value));
    }
    all
}

/// A command as text.
fn line(command: &Command) -> String {
    match command {
        Command::Connect { address, domain, login, password } => {
            format!("CONNECT {} {} {} {}", address, domain, login, password)
        }
        Command::Select { folder } => format!("SELECT {}", folder),
        Command::List { reference, pattern } => format!("LIST {:?} {}", reference, pattern),
        Command::Fetch { range, items } => format!("FETCH {} {}", range, items),
        Command::UidSearch { criteria } => format!("UID SEARCH {}", criteria),
        Command::UidFetch { uids, items } => format!("UID FETCH {} {}", uids, items),
        Command::UidMove { uid, folder } => format!("UID MOVE {} {}", uid, folder),
        Command::UidStore { uid, change } => format!("UID STORE {} {}", uid, change),
        Command::UidExpunge { uid } => format!("UID EXPUNGE {}", uid),
        Command::Logout => text("LOGOUT"),
        Command::OpenRelay { host, port, login, password } => {
            format!("RELAY {}:{} {} {}", host, port, login, password)
        }
        Command::Transmit { letter } => format!("SEND {:?}", letter.recipients),
    }
}

const CONNECT: &str = "CONNECT imap.example.com:993 imap.example.com me@example.com hunter2";

/// Runs a request with the token: the commands it issues, its status and its body.
fn run(call: Call, events: Vec<Event>) -> (Vec<String>, u16, String) {
    run_with(&config(), Some(b"Bearer secret"), call, events)
}

fn run_with(
    cfg: &Config,
    header: Option<&[u8]>,
    call: Call,
    events: Vec<Event>,
) -> (Vec<String>, u16, String) {
    let mut step = handle(cfg, header, call, DATE);
    let mut issued = Vec::new();
    let mut events = events.into_iter();
    loop {
        match step {
            Step::Perform { command, exchange } => {
                issued.push(line(&command));
                step = exchange.resume(events.next().unwrap());
            }
            Step::Reply { response } => {
                assert!(events.next().is_none());
                return (issued, response.status, body(&response));
            }
        }
    }
}

fn done() -> Event {
    Event::Answered(Answer::nothing())
}

fn failed(reason: &str) -> Event {
    Event::Failed(text(reason))
}

fn message(uid: u32) -> FetchedMessage {
    let from = Address { name: None, mailbox: Some(b"bob".to_vec()), host: Some(b"x.org".to_vec()) };
    FetchedMessage {
        uid: Some(uid),
        flags: vec![Flag::Seen],
        envelope: Some(Envelope { from: Some(vec![from]), subject: None, date: None }),
    }
}

fn messages(list: Vec<FetchedMessage>) -> Event {
    let mut answer = Answer::nothing();
    answer.messages = list;
    Event::Answered(answer)
}

fn uids(list: Vec<u32>) -> Event {
    let mut answer = Answer::nothing();
    answer.uids = list;
    Event::Answered(answer)
}

fn folders(list: &[&str]) -> Event {
    let mut answer = Answer::nothing();
    answer.folders = list.iter().map(|name| text(name)).collect();
    Event::Answered(answer)
}

fn delete(account: &str, list: &[(&str, &str)]) -> Call {
    Call::DeleteEmail { account: text(account), uid: 42, params: params(list) }
}

fn search(list: &[(&str, &str)]) -> Call {
    Call::SearchEmails { account: text("perso"), params: params(list) }
}

#[test]
fn health_is_for_everybody() {
    for header in [None, Some(&b"Bearer secret"[..]), Some(&b"x"[..])] {
        let answer = run_with(&config(), header, Call::Health, vec![]);
        assert_eq!(answer, (vec![], 200, text("status=\"ok\";")));
    }
}

#[test]
fn other_requests_need_the_token() {
    let wrong: [Option<&[u8]>; 8] = [
        None,
        Some(b""),
        Some(b"secret"),
        Some(b"Bearer secre"),
        Some(b"Bearer secret "),
        Some(b"bearer secret"),
        Some(b"Bearer  secret"),
        Some(b"Basic secret"),
    ];
    for header in wrong {
        for call in [Call::ListAccounts, delete("perso", &[]), delete("nobody", &[])] {
            let answer = run_with(&config(), header, call, vec![]);
            assert_eq!(answer, (vec![], 401, text("error=\"Unauthorized\";")));
        }
        assert_eq!(auth_middleware(&config(), header).unwrap_err().status, 401);
    }
    assert!(auth_middleware(&config(), Some(b"Bearer secret")).is_ok());
    assert_eq!(bearer_header("secret"), "Bearer secret");
}

#[test]
fn token_outside_ascii_is_never_presented() {
    let mut cfg = config();
    cfg.api.token = text("clé");
    assert!(auth_middleware(&cfg, Some("Bearer clé".as_bytes())).is_err());
    cfg.api.token = text("a\tb");
    assert!(auth_middleware(&cfg, Some(b"Bearer a\tb")).is_ok());
}

#[test]
fn accounts_are_listed() {
    let answer = run(Call::ListAccounts, vec![]);
    assert_eq!(answer, (vec![], 200, text("accounts=[\"perso\"];")));
}

#[test]
fn unknown_accounts_get_no_session() {
    let calls = vec![
        Call::ListFolders { account: text("pro") },
        Call::FetchEmails { account: text("pro"), params: vec![] },
        Call::SearchEmails { account: text("pro"), params: vec![] },
        delete("pro", &[]),
    ];
    for call in calls {
        let answer = run(call, vec![]);
        assert_eq!(answer, (vec![], 404, text("error=\"Account 'pro' not found\";")));
    }
}

#[test]
fn folders_are_listed() {
    let call = Call::ListFolders { account: text("perso") };
    let (issued, status, body) =
        run(call, vec![done(), folders(&["INBOX", "Archives"]), failed("gone")]);
    assert_eq!(issued, vec![CONNECT, "LIST \"\" *", "LOGOUT"]);
    assert_eq!(status, 200);
    assert_eq!(body, "account=\"perso\";folders=[\"INBOX\", \"Archives\"];");
}

#[test]
fn first_messages_are_fetched() {
    let call = Call::FetchEmails { account: text("perso"), params: vec![] };
    let (issued, status, body) =
        run(call, vec![done(), done(), messages(vec![message(3), message(1)]), done()]);
    assert_eq!(
        issued,
        vec![CONNECT, "SELECT INBOX", "FETCH 1:20 (UID FLAGS ENVELOPE)", "LOGOUT"]
    );
    assert_eq!(status, 200);
    assert_eq!(
        body,
        "account=\"perso\";folder=\"INBOX\";emails=[(3, \"bob@x.org\"), (1, \"bob@x.org\")];"
    );
}

#[test]
fn folder_and_limit_are_parameters() {
    for (limit, range) in [
        ("5", "1:5"),
        ("0", "1:0"),
        ("4294967295", "1:4294967295"),
        ("4294967296", "1:20"),
        ("many", "1:20"),
        ("", "1:20"),
    ] {
        let list = params(&[("folder", "Drafts"), ("limit", limit), ("folder", "Sent")]);
        let call = Call::FetchEmails { account: text("perso"), params: list };
        let (issued, _, body) = run(call, vec![done(), done(), messages(vec![]), done()]);
        assert_eq!(issued[1], "SELECT Sent");
        assert_eq!(issued[2], format!("FETCH {} (UID FLAGS ENVELOPE)", range));
        assert_eq!(body, "account=\"perso\";folder=\"Sent\";emails=[];");
    }
}

#[test]
fn search_fetches_what_it_found() {
    let call = search(&[("from", "addr@example.com"), ("since", "2026-01-15")]);
    let (issued, status, body) = run(
        call,
        vec![done(), done(), uids(vec![9, 4]), messages(vec![message(9), message(4)]), done()],
    );
    assert_eq!(
        issued,
        vec![
            CONNECT,
            "SELECT INBOX",
            "UID SEARCH SINCE 15-Jan-2026 FROM \"addr@example.com\"",
            "UID FETCH 9,4 (UID FLAGS ENVELOPE)",
            "LOGOUT",
        ]
    );
    assert_eq!(status, 200);
    assert_eq!(
        body,
        "account=\"perso\";folder=\"INBOX\";\
         criteria=\"SINCE 15-Jan-2026 FROM \\\"addr@example.com\\\"\";\
         count=2;emails=[(9, \"bob@x.org\"), (4, \"bob@x.org\")];"
    );
}

#[test]
fn search_that_finds_nothing_fetches_nothing() {
    let call = search(&[("since", "2026-01-05"), ("folder", "Sent")]);
    let (issued, status, body) = run(call, vec![done(), done(), uids(vec![]), failed("gone")]);
    assert_eq!(
        issued,
        vec![CONNECT, "SELECT Sent", "UID SEARCH SINCE 5-Jan-2026", "LOGOUT"]
    );
    assert_eq!(status, 200);
    assert_eq!(
        body,
        "account=\"perso\";folder=\"Sent\";criteria=\"SINCE 5-Jan-2026\";emails=[];"
    );
}

#[test]
fn search_needs_a_criterion_and_a_date() {
    let need = "error=\"At least one of 'from' or 'since' query params is required\";";
    assert_eq!(run(search(&[("folder", "Sent")]), vec![]), (vec![], 400, text(need)));
    let date = "error=\"Invalid 'since' format, expected YYYY-MM-DD\";";
    let wrong = [
        "",
        "15/01/2026",
        "2026-13-01",
        "2026-00-15",
        "2026-xx-01",
        "abcd-01-15",
        "2026-01-xx",
        "26-01-15",
        "2026-1-15",
        "2026-001-5",
        "2026-01-5",
        "2026-01-015",
        "2026-01-15 ",
        " 2026-01-15",
        "2026-+1-15",
        "2026-01-15-",
        "２０２６-01-15",
    ];
    for since in wrong {
        let answer = run(search(&[("from", "a"), ("since", since)]), vec![]);
        assert_eq!(answer, (vec![], 400, text(date)));
    }
    let last = criteria(&Some(text("1999-12-31")), &None).unwrap();
    assert_eq!(last, "SINCE 31-Dec-1999");
    assert_eq!(criteria(&None, &Some(text(""))).unwrap(), "FROM \"\"");
    assert_eq!(criteria(&None, &Some(text("bob"))).unwrap(), "FROM \"bob\"");
}

#[test]
fn message_is_moved() {
    let call = Call::MoveEmail {
        account: text("perso"),
        uid: 42,
        params: params(&[("folder", "INBOX")]),
        target: MoveRequest { folder: text("Archives") },
    };
    let (issued, status, body) = run(call, vec![done(), done(), done(), done()]);
    assert_eq!(issued, vec![CONNECT, "SELECT INBOX", "UID MOVE 42 Archives", "LOGOUT"]);
    assert_eq!((status, body.as_str()), (200, "status=\"moved\";to=\"Archives\";"));
}

fn label(labels: &[&str]) -> Call {
    Call::AddLabels {
        account: text("perso"),
        uid: 42,
        params: vec![],
        labels: LabelRequest { labels: labels.iter().map(|l| text(l)).collect() },
    }
}

#[test]
fn message_is_labelled() {
    let (issued, status, body) =
        run(label(&["Seen", "Flagged"]), vec![done(), done(), done(), done()]);
    assert_eq!(
        issued,
        vec![CONNECT, "SELECT INBOX", "UID STORE 42 +FLAGS (\\Seen \\Flagged)", "LOGOUT"]
    );
    assert_eq!(
        (status, body.as_str()),
        (200, "status=\"labels_added\";labels=[\"Seen\", \"Flagged\"];")
    );
    let (issued, _, body) = run(label(&[]), vec![done(), done(), done(), done()]);
    assert_eq!(issued[2], "UID STORE 42 +FLAGS ()");
    assert_eq!(body, "status=\"labels_added\";labels=[];");
}

#[test]
fn message_is_marked_and_then_removed() {
    let (issued, status, body) =
        run(delete("perso", &[("folder", "Trash")]), vec![done(), done(), done(), done(), done()]);
    assert_eq!(
        issued,
        vec![
            CONNECT,
            "SELECT Trash",
            "UID STORE 42 +FLAGS (\\Deleted)",
            "UID EXPUNGE 42",
            "LOGOUT",
        ]
    );
    assert_eq!((status, body.as_str()), (200, "status=\"deleted\";"));
}

#[test]
fn failed_command_ends_the_request() {
    for k in 0..4 {
        let mut events: Vec<Event> = (0..k).map(|_| done()).collect();
        events.push(failed("no such thing"));
        let (issued, status, body) = run(delete("perso", &[]), events);
        assert_eq!(issued.len(), k + 1);
        assert_eq!((status, body.as_str()), (500, "error=\"no such thing\";"));
    }
    assert_eq!(login_failure("denied"), "IMAP login failed: denied");
}

fn send(to: &str) -> Call {
    Call::SendEmail {
        account: text("perso"),
        mail: SendRequest {
            to: text(to),
            subject: text("Sujet"),
            body: text("Contenu"),
            html: false,
        },
    }
}

const RELAY: &str = "RELAY smtp.example.com:587 me@example.com hunter2";

#[test]
fn mail_is_sent_through_the_relay() {
    let (issued, status, body) = run(send("dest@example.com"), vec![done(), done()]);
    assert_eq!(issued, vec![RELAY, "SEND [\"dest@example.com\"]"]);
    assert_eq!((status, body.as_str()), (200, "status=\"sent\";account=\"perso\";"));
}

#[test]
fn mail_that_cannot_be_sent_is_reported() {
    let answer = run(send("dest"), vec![]);
    assert_eq!(answer, (vec![], 400, text("error=\"Invalid to address\";")));
    let answer = run(send("dest@example.com"), vec![failed("bad host")]);
    assert_eq!(answer, (vec![text(RELAY)], 400, text("error=\"bad host\";")));
    let (issued, status, body) = run(send("dest@example.com"), vec![done(), failed("refused")]);
    assert_eq!(issued.len(), 2);
    assert_eq!((status, body.as_str()), (500, "error=\"refused\";"));
}

#[test]
fn composed_letter_is_submitted() {
    let letter = Letter { sender: None, recipients: vec![text("a@b.c")], content: vec![7] };
    match submit(&settings(), text("perso"), Ok(letter)) {
        Step::Perform { command, exchange } => {
            assert_eq!(line(&command), RELAY);
            match exchange.resume(done()) {
                Step::Perform { command: Command::Transmit { letter }, .. } => {
                    assert_eq!(letter.content, vec![7]);
                }
                other => panic!("{:?}", other),
            }
        }
        other => panic!("{:?}", other),
    }
}

/// Carries out the commands of a request on the messages of a folder.
fn carry_out(issued: &[String], folder: &[(u32, &[&str])]) -> Vec<(u32, Vec<String>)> {
    let mut messages: Vec<(u32, Vec<String>)> = folder
        .iter()
        .map(|(uid, flags)| (*uid, flags.iter().map(|flag| text(flag)).collect()))
        .collect();
    for command in issued {
        let words: Vec<&str> = command.split(' ').collect();
        match words[..] {
            ["UID", "STORE", uid, "+FLAGS", ..] => {
                let list = command.split_once('(').unwrap().1.trim_end_matches(')');
                for (_, flags) in messages.iter_mut().filter(|(m, _)| m.to_string() == uid) {
                    flags.extend(list.split(' ').map(text));
                }
            }
            ["UID", "EXPUNGE", uid] => {
                messages.retain(|(m, flags)| {
                    m.to_string() != uid || !flags.contains(&text("\\Deleted"))
                });
            }
            ["UID", "MOVE", uid, _] => messages.retain(|(m, _)| m.to_string() != uid),
            _ => {}
        }
    }
    messages
}

#[test]
fn deletion_spares_messages_that_were_marked_before() {
    let folder: [(u32, &[&str]); 3] = [(4, &["\\Deleted"]), (42, &["\\Seen"]), (421, &[])];
    let (issued, _, _) = run(delete("perso", &[]), (0..5).map(|_| done()).collect());
    assert_eq!(
        carry_out(&issued, &folder),
        vec![(4, vec![text("\\Deleted")]), (421, vec![])]
    );
}

#[test]
fn other_messages_stay_as_they_were() {
    let folder: [(u32, &[&str]); 2] = [(4, &["\\Deleted"]), (42, &[])];
    let (issued, _, _) = run(label(&["Seen", "Deleted"]), (0..4).map(|_| done()).collect());
    assert_eq!(
        carry_out(&issued, &folder),
        vec![
            (4, vec![text("\\Deleted")]),
            (42, vec![text("\\Seen"), text("\\Deleted")]),
        ]
    );
    let found = vec![done(), done(), uids(vec![42]), messages(vec![message(42)]), done()];
    let (issued, _, _) = run(search(&[("from", "a")]), found);
    assert_eq!(
        carry_out(&issued, &folder),
        vec![(4, vec![text("\\Deleted")]), (42, vec![])]
    );
}
