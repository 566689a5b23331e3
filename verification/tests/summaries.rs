use mailbridge::summary::{
    format_address, summarize, summarize_all, text_or, Address, Envelope, FetchedMessage, Flag,
};

fn bytes(s: &str) -> Option<Vec<u8>> {
    Some(s.as_bytes().to_vec())
}

fn alice() -> Address {
    Address { name: bytes("Alice"), mailbox: bytes("alice"), host: bytes("example.org") }
}

fn message(uid: Option<u32>, flags: Vec<Flag>, from: Option<Vec<Address>>) -> FetchedMessage {
    FetchedMessage {
        uid,
        flags,
        envelope: Some(Envelope {
            from,
            subject: bytes("Sujet été"),
            date: bytes("Tue, 15 Nov 1994 08:12:31 +0000"),
        }),
    }
}

#[test]
fn bytes_become_text_or_the_default() {
    assert_eq!(text_or(&bytes("été"), "x"), "été");
    assert_eq!(text_or(&Some(vec![]), "x"), "");
    assert_eq!(text_or(&Some(vec![0xff, 0x41]), "x"), "x");
    assert_eq!(text_or(&Some(vec![0xc3]), "x"), "x");
    assert_eq!(text_or(&None, "x"), "x");
}

#[test]
fn addresses_are_formatted() {
    assert_eq!(format_address(&alice()), "Alice <alice@example.org>");
    let bare = Address { name: None, mailbox: bytes("bob"), host: bytes("example.org") };
    assert_eq!(format_address(&bare), "bob@example.org");
    let unreadable = Address { name: Some(vec![0xff]), mailbox: bytes("bob"), host: None };
    assert_eq!(format_address(&unreadable), "bob@");
    let empty = Address { name: bytes(""), mailbox: None, host: None };
    assert_eq!(format_address(&empty), "@");
}

#[test]
fn whole_message_is_summarised() {
    let short = summarize(&message(Some(7), vec![Flag::Other, Flag::Seen], Some(vec![alice()])))
        .unwrap();
    assert_eq!(short.uid, 7);
    assert_eq!(short.from, "Alice <alice@example.org>");
    assert_eq!(short.subject, "Sujet été");
    assert_eq!(short.date, "Tue, 15 Nov 1994 08:12:31 +0000");
    assert!(short.seen);
}

#[test]
fn gaps_are_filled() {
    let mut bare = message(Some(1), vec![Flag::Other], Some(vec![]));
    bare.envelope.as_mut().unwrap().subject = None;
    bare.envelope.as_mut().unwrap().date = Some(vec![0x80]);
    let short = summarize(&bare).unwrap();
    assert_eq!(short.from, "");
    assert_eq!(short.subject, "(no subject)");
    assert_eq!(short.date, "");
    assert!(!short.seen);
}

#[test]
fn messages_without_summary_are_left_out() {
    assert!(summarize(&message(None, vec![], Some(vec![alice()]))).is_none());
    assert!(summarize(&message(Some(1), vec![], None)).is_none());
    let bodiless = FetchedMessage { uid: Some(1), flags: vec![], envelope: None };
    assert!(summarize(&bodiless).is_none());
    let list = summarize_all(&vec![
        message(Some(3), vec![], Some(vec![alice()])),
        message(Some(4), vec![], None),
        message(Some(2), vec![Flag::Seen], Some(vec![alice()])),
    ]);
    assert_eq!(list.iter().map(|s| (s.uid, s.seen)).collect::<Vec<_>>(), vec![(3, false), (2, true)]);
}
