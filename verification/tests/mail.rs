use lettre::message::header::ContentType;
use lettre::Message;
use mailbridge::outgoing::{check_addresses, check_build, compose, Letter, SendRequest};
use mailbridge::reply::{Response, Value};

const DATE: u64 = 784887151;

fn request(to: &str, subject: &str, body: &str, html: bool) -> SendRequest {
    SendRequest {
        to: to.to_string(),
        subject: subject.to_string(),
        body: body.to_string(),
        html,
    }
}

fn error(response: &Response) -> (u16, String) {
    assert_eq!(response.body.len(), 1);
    assert_eq!(response.body[0].0, "error");
    match &response.body[0].1 {
        Value::Text(text) => (response.status, text.clone()),
        other => panic!("{:?}", other),
    }
}

#[test]
fn plain_letter_is_composed() {
    let mail = request("bob@example.com", "Sujet", "Contenu\n", false);
    let letter = compose("alice@example.org", &mail, DATE).unwrap();
    assert_eq!(letter.sender.as_deref(), Some("alice@example.org"));
    assert_eq!(letter.recipients, vec!["bob@example.com".to_string()]);
    assert_eq!(
        String::from_utf8(letter.content).unwrap(),
        "From: alice@example.org\r\n\
         To: bob@example.com\r\n\
         Subject: Sujet\r\n\
         Content-Type: text/plain; charset=utf-8\r\n\
         Content-Transfer-Encoding: 7bit\r\n\
         Date: Tue, 15 Nov 1994 08:12:31 +0000\r\n\
         \r\n\
         Contenu\r\n"
    );
}

#[test]
fn html_letter_says_so() {
    let mail = request("Bob <bob@example.com>", "Été", "<p>é</p>", true);
    let letter = compose("Alice <alice@example.org>", &mail, DATE).unwrap();
    assert_eq!(letter.sender.as_deref(), Some("alice@example.org"));
    assert_eq!(letter.recipients, vec!["bob@example.com".to_string()]);
    let content = String::from_utf8(letter.content).unwrap();
    assert!(content.contains("From: Alice <alice@example.org>\r\n"));
    assert!(content.contains("To: Bob <bob@example.com>\r\n"));
    assert!(content.contains("Content-Type: text/html; charset=utf-8\r\n"));
    assert!(content.ends_with("\r\n\r\n<p>=C3=A9</p>"));
}

#[test]
fn letter_is_that_of_the_plain_builder_but_for_the_date() {
    for (html, kind) in [(false, ContentType::TEXT_PLAIN), (true, ContentType::TEXT_HTML)] {
        let mail = request("bob@example.com", "A subject", "line one\nline two é", html);
        let letter = compose("alice@example.org", &mail, DATE).unwrap();
        let built = Message::builder()
            .from("alice@example.org".parse().unwrap())
            .to("bob@example.com".parse().unwrap())
            .subject("A subject")
            .header(kind)
            .body("line one\nline two é".to_string())
            .unwrap();
        let without_date = |bytes: &[u8]| -> Vec<String> {
            String::from_utf8(bytes.to_vec())
                .unwrap()
                .split("\r\n")
                .map(|line| {
                    if line.starts_with("Date: ") { "Date: ".to_string() } else { line.to_string() }
                })
                .collect()
        };
        assert_eq!(without_date(&letter.content), without_date(&built.formatted()));
    }
}

#[test]
fn addresses_that_are_none_are_refused() {
    let good = request("bob@example.com", "", "", false);
    let bad = request("bob", "", "", false);
    let refusal = compose("alice", &good, DATE).unwrap_err();
    assert_eq!(error(&refusal), (400, "Invalid from address".to_string()));
    let refusal = compose("alice", &bad, DATE).unwrap_err();
    assert_eq!(error(&refusal), (400, "Invalid from address".to_string()));
    let refusal = compose("alice@example.org", &bad, DATE).unwrap_err();
    assert_eq!(error(&refusal), (400, "Invalid to address".to_string()));
}

#[test]
fn verdicts_on_addresses_and_builds() {
    assert!(check_addresses(true, true).is_none());
    let complaint = check_addresses(true, false).unwrap();
    assert_eq!(error(&complaint), (400, "Invalid to address".to_string()));
    let complaint = check_addresses(false, true).unwrap();
    assert_eq!(error(&complaint), (400, "Invalid from address".to_string()));
    let refusal = check_build(Err("missing source address".to_string())).unwrap_err();
    assert_eq!(error(&refusal), (400, "missing source address".to_string()));
    let letter = Letter { sender: None, recipients: vec!["b@x.y".to_string()], content: vec![1] };
    assert_eq!(check_build(Ok(letter)).unwrap().content, vec![1]);
}
