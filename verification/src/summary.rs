//! Messages as an IMAP server describes them, and the summaries that callers see.

use vstd::prelude::*;
use vstd::utf8::{
    decode_utf8, encode_utf8, encode_utf8_decode_utf8, encode_utf8_valid_utf8, valid_utf8,
};

verus! {

/// A flag of a message.
#[derive(Clone, Copy, Debug, PartialEq, Eq, Structural)]
pub enum Flag {
    /// The message has been read.
    Seen,
    /// Any other flag.
    Other,
}

/// An address in an envelope, as raw bytes.
#[derive(Debug)]
pub struct Address {
    /// The display name.
    pub name: Option<Vec<u8>>,
    /// The part in front of the `@`.
    pub mailbox: Option<Vec<u8>>,
    /// The part behind the `@`.
    pub host: Option<Vec<u8>>,
}

/// The envelope of a message, as raw bytes.
#[derive(Debug)]
pub struct Envelope {
    /// The authors.
    pub from: Option<Vec<Address>>,
    /// The subject.
    pub subject: Option<Vec<u8>>,
    /// The date, as the author's program wrote it.
    pub date: Option<Vec<u8>>,
}

/// A message as it came from the server.
#[derive(Debug)]
pub struct FetchedMessage {
    /// Its unique number in the folder.
    pub uid: Option<u32>,
    /// Its flags.
    pub flags: Vec<Flag>,
    /// Its envelope.
    pub envelope: Option<Envelope>,
}

/// What callers see of a message.
#[derive(Debug)]
pub struct EmailSummary {
    /// Its unique number in the folder.
    pub uid: u32,
    /// The first author.
    pub from: String,
    /// The subject.
    pub subject: String,
    /// The date, as the author's program wrote it.
    pub date: String,
    /// Whether the message has been read.
    pub seen: bool,
}

/// What an address holds.
pub ghost struct AddressView {
    pub name: Option<Seq<u8>>,
    pub mailbox: Option<Seq<u8>>,
    pub host: Option<Seq<u8>>,
}

/// What an envelope holds.
pub ghost struct EnvelopeView {
    pub from: Option<Seq<AddressView>>,
    pub subject: Option<Seq<u8>>,
    pub date: Option<Seq<u8>>,
}

/// What a fetched message holds.
pub ghost struct FetchedView {
    pub uid: Option<u32>,
    pub flags: Seq<Flag>,
    pub envelope: Option<EnvelopeView>,
}

/// What a summary holds.
pub ghost struct SummaryView {
    pub uid: u32,
    pub from: Seq<char>,
    pub subject: Seq<char>,
    pub date: Seq<char>,
    pub seen: bool,
}

/// The bytes of an optional byte string.
pub open spec fn optional_bytes(bytes: Option<Vec<u8>>) -> Option<Seq<u8>> {
    match bytes {
        Some(bytes) => Some(bytes@),
        None => None,
    }
}

/// What the addresses of a list hold.
pub open spec fn address_views(list: Seq<Address>) -> Seq<AddressView> {
    Seq::new(list.len(), |i: int| list[i]@)
}

/// What the messages of a list hold.
pub open spec fn fetched_views(list: Seq<FetchedMessage>) -> Seq<FetchedView> {
    Seq::new(list.len(), |i: int| list[i]@)
}

/// What the summaries of a list hold.
pub open spec fn summary_views(list: Seq<EmailSummary>) -> Seq<SummaryView> {
    Seq::new(list.len(), |i: int| list[i]@)
}

impl View for Address {
    type V = AddressView;

    open spec fn view(&self) -> AddressView {
        AddressView {
            name: optional_bytes(self.name),
            mailbox: optional_bytes(self.mailbox),
            host: optional_bytes(self.host),
        }
    }
}

impl View for Envelope {
    type V = EnvelopeView;

    open spec fn view(&self) -> EnvelopeView {
        EnvelopeView {
            from: match self.from {
                Some(list) => Some(address_views(list@)),
                None => None,
            },
            subject: optional_bytes(self.subject),
            date: optional_bytes(self.date),
        }
    }
}

impl View for FetchedMessage {
    type V = FetchedView;

    open spec fn view(&self) -> FetchedView {
        FetchedView {
            uid: self.uid,
            flags: self.flags@,
            envelope: match self.envelope {
                Some(envelope) => Some(envelope@),
                None => None,
            },
        }
    }
}

impl View for EmailSummary {
    type V = SummaryView;

    open spec fn view(&self) -> SummaryView {
        SummaryView {
            uid: self.uid,
            from: self.from@,
            subject: self.subject@,
            date: self.date@,
            seen: self.seen,
        }
    }
}

/// The text of `bytes`, or `default` where there are none or they are no UTF-8.
pub open spec fn decoded(bytes: Option<Seq<u8>>, default: Seq<char>) -> Seq<char> {
    match bytes {
        Some(bytes) if valid_utf8(bytes) => decode_utf8(bytes),
        _ => default,
    }
}

/// An address as callers see it: the bare address, or the name with the address in angle
/// brackets behind it.
pub open spec fn address_text(address: AddressView) -> Seq<char> {
    let name = decoded(address.name, ""@);
    let bare = decoded(address.mailbox, ""@) + "@"@ + decoded(address.host, ""@);
    if name.len() == 0 {
        bare
    } else {
        name + " <"@ + bare + ">"@
    }
}

/// The first author, or the empty text where the list of authors is empty.
pub open spec fn author_text(from: Seq<AddressView>) -> Seq<char> {
    if from.len() == 0 {
        Seq::empty()
    } else {
        address_text(from[0])
    }
}

/// The summary of a message. One without a number, an envelope or a list of authors has none.
pub open spec fn summary(message: FetchedView) -> Option<SummaryView> {
    match (message.uid, message.envelope) {
        (Some(uid), Some(envelope)) => match envelope.from {
            Some(from) => Some(
                SummaryView {
                    uid,
                    from: author_text(from),
                    subject: decoded(envelope.subject, "(no subject)"@),
                    date: decoded(envelope.date, ""@),
                    seen: message.flags.contains(Flag::Seen),
                },
            ),
            None => None,
        },
        _ => None,
    }
}

/// The summaries of those messages that have one, in the order of the messages.
pub open spec fn summaries(messages: Seq<FetchedView>) -> Seq<SummaryView>
    decreases messages.len(),
{
    if messages.len() == 0 {
        Seq::empty()
    } else {
        let before = summaries(messages.drop_last());
        match summary(messages.last()) {
            Some(last) => before.push(last),
            None => before,
        }
    }
}

/// `core::str::from_utf8`: the text that `bytes` encode, where they are UTF-8, and nothing
/// where they are not.
#[verifier::external_body]
fn utf8_text(bytes: &[u8]) -> (text: Option<&str>)
    ensures
        text is Some <==> valid_utf8(bytes@),
        text matches Some(text) ==> encode_utf8(text@) == bytes@,
{
    core::str::from_utf8(bytes).ok()
}

/// The text of `bytes`, or `default` where there are none or they are no UTF-8.
pub fn text_or(bytes: &Option<Vec<u8>>, default: &str) -> (text: String)
    ensures
        text@ == decoded(optional_bytes(*bytes), default@),
{
    match bytes {
        None => default.to_string(),
        Some(bytes) => match utf8_text(bytes.as_slice()) {
            Some(text) => {
                proof {
                    encode_utf8_decode_utf8(text@);
                }
                text.to_string()
            },
            None => default.to_string(),
        },
    }
}

/// An address as callers see it.
pub fn format_address(address: &Address) -> (text: String)
    ensures
        text@ == address_text(address@),
{
    let name: String = text_or(&address.name, "");
    let mut bare: String = text_or(&address.mailbox, "");
    bare.append("@");
    bare.append(text_or(&address.host, "").as_str());
    if name.as_str().is_empty() {
        bare
    } else {
        name.concat(" <").concat(bare.as_str()).concat(">")
    }
}

/// Whether a message has been read.
fn has_seen(flags: &Vec<Flag>) -> (seen: bool)
    ensures
        seen == flags@.contains(Flag::Seen),
{
    let mut i: usize = 0;
    while i < flags.len()
        invariant
            i <= flags.len(),
            forall|j: int| 0 <= j < i ==> flags@[j] != Flag::Seen,
        decreases flags.len() - i,
    {
        if flags[i] == Flag::Seen {
            return true;
        }
        i += 1;
    }
    false
}

/// Summarises a message.
pub fn summarize(message: &FetchedMessage) -> (short: Option<EmailSummary>)
    ensures
        match short {
            Some(short) => summary(message@) == Some(short@),
            None => summary(message@) is None,
        },
{
    let uid: u32 = match message.uid {
        Some(uid) => uid,
        None => return None,
    };
    let envelope = match &message.envelope {
        Some(envelope) => envelope,
        None => return None,
    };
    let seen = has_seen(&message.flags);
    let authors = match &envelope.from {
        Some(authors) => authors,
        None => return None,
    };
    let from: String = if authors.len() == 0 {
        String::new()
    } else {
        format_address(&authors[0])
    };
    let subject: String = text_or(&envelope.subject, "(no subject)");
    let date: String = text_or(&envelope.date, "");
    Some(EmailSummary { uid, from, subject, date, seen })
}

/// Summarises those messages that have a summary.
pub fn summarize_all(messages: &Vec<FetchedMessage>) -> (list: Vec<EmailSummary>)
    ensures
        summary_views(list@) == summaries(fetched_views(messages@)),
{
    let ghost all = fetched_views(messages@);
    let mut list: Vec<EmailSummary> = Vec::new();
    let mut i: usize = 0;
    while i < messages.len()
        invariant
            i <= messages.len(),
            all == fetched_views(messages@),
            summary_views(list@) == summaries(all.take(i as int)),
        decreases messages.len() - i,
    {
        assert(all.take(i + 1).drop_last() == all.take(i as int));
        let ghost before = summary_views(list@);
        if let Some(short) = summarize(&messages[i]) {
            let ghost last = short@;
            list.push(short);
            assert(summary_views(list@) == before.push(last));
        }
        i += 1;
    }
    assert(all.take(all.len() as int) == all);
    list
}

/// The summaries are those of the messages that have one: each stands for some message, none
/// is left out, and there are no more of them than messages.
pub proof fn summaries_match_messages(messages: Seq<FetchedView>)
    ensures
        summaries(messages).len() <= messages.len(),
        forall|short: SummaryView| #[trigger]
            summaries(messages).contains(short) <==> exists|i: int|
                0 <= i < messages.len() && summary(#[trigger] messages[i]) == Some(short),
    decreases messages.len(),
{
    if messages.len() > 0 {
        let init = messages.drop_last();
        summaries_match_messages(init);
        assert forall|short: SummaryView| #[trigger]
            summaries(messages).contains(short) <==> exists|i: int|
                0 <= i < messages.len() && summary(#[trigger] messages[i]) == Some(short) by {
            let now = summaries(messages);
            let before = summaries(init);
            if now.contains(short) {
                let j = choose|j: int| 0 <= j < now.len() && now[j] == short;
                if j < before.len() {
                    assert(before[j] == short);
                    assert(before.contains(short));
                    let i = choose|i: int|
                        0 <= i < init.len() && summary(#[trigger] init[i]) == Some(short);
                    assert(messages[i] == init[i]);
                } else {
                    assert(summary(messages[messages.len() - 1]) == Some(short));
                }
            }
            if exists|i: int|
                0 <= i < messages.len() && summary(#[trigger] messages[i]) == Some(short) {
                let i = choose|i: int|
                    0 <= i < messages.len() && summary(#[trigger] messages[i]) == Some(short);
                if i < init.len() {
                    assert(init[i] == messages[i]);
                    assert(before.contains(short));
                    let j = choose|j: int| 0 <= j < before.len() && before[j] == short;
                    assert(now[j] == short);
                } else {
                    assert(now[now.len() - 1] == short);
                }
            }
        }
    }
}

/// The bytes of a message are those that the server sent, field by field.
pub proof fn fetched_fields_are_what_the_server_sent(
    message: FetchedMessage,
    envelope: Envelope,
    address: Address,
    messages: Seq<FetchedMessage>,
)
    ensures
        message@.uid == message.uid,
        message@.flags == message.flags@,
        message@.envelope is Some <==> message.envelope is Some,
        message.envelope matches Some(envelope) ==> message@.envelope == Some(envelope@),
        envelope@.from is Some <==> envelope.from is Some,
        envelope.from matches Some(from) ==> envelope@.from->0.len() == from@.len() && forall|
            i: int,
        |
            0 <= i < from@.len() ==> #[trigger] envelope@.from->0[i] == from@[i]@,
        envelope@.subject is Some <==> envelope.subject is Some,
        envelope.subject matches Some(subject) ==> envelope@.subject == Some(subject@),
        envelope@.date is Some <==> envelope.date is Some,
        envelope.date matches Some(date) ==> envelope@.date == Some(date@),
        address@.name is Some <==> address.name is Some,
        address.name matches Some(name) ==> address@.name == Some(name@),
        address@.mailbox is Some <==> address.mailbox is Some,
        address.mailbox matches Some(mailbox) ==> address@.mailbox == Some(mailbox@),
        address@.host is Some <==> address.host is Some,
        address.host matches Some(host) ==> address@.host == Some(host@),
        fetched_views(messages).len() == messages.len(),
        forall|i: int|
            0 <= i < messages.len() ==> #[trigger] fetched_views(messages)[i] == messages[i]@,
{
}

/// What callers see of a summary are its own fields, each under its name.
pub proof fn summaries_show_their_fields(short: EmailSummary, list: Seq<EmailSummary>)
    ensures
        short@.uid == short.uid,
        short@.from == short.from@,
        short@.subject == short.subject@,
        short@.date == short.date@,
        short@.seen == short.seen,
        summary_views(list).len() == list.len(),
        forall|i: int| 0 <= i < list.len() ==> #[trigger] summary_views(list)[i] == list[i]@,
{
}

/// A message has a summary exactly where it has a number, an envelope and a list of authors. The
/// summary has that number. It counts as seen exactly where some flag of the message, at any
/// place, is the one of messages that were read.
pub proof fn seen_messages_carry_the_flag(message: FetchedView)
    ensures
        summary(message) is Some <==> message.uid is Some && message.envelope is Some
            && message.envelope->0.from is Some,
        summary(message) matches Some(short) ==> {
            &&& Some(short.uid) == message.uid
            &&& short.seen <==> exists|i: int|
                0 <= i < message.flags.len() && #[trigger] message.flags[i] == Flag::Seen
        },
{
    if message.flags.contains(Flag::Seen) {
        let i = choose|i: int| 0 <= i < message.flags.len() && message.flags[i] == Flag::Seen;
        assert(message.flags[i] == Flag::Seen);
    }
}

/// A text that arrives in UTF-8 is shown as it was written, in the subject and the date of a
/// summary; a subject that is missing or no UTF-8 is shown as `(no subject)`, such a date as the
/// empty text.
pub proof fn subject_and_date_are_shown_as_written(message: FetchedView, text: Seq<char>)
    requires
        summary(message) is Some,
    ensures
        ({
            let short = summary(message)->0;
            let envelope = message.envelope->0;
            &&& envelope.subject == Some(encode_utf8(text)) ==> short.subject == text
            &&& envelope.subject is None || !valid_utf8(envelope.subject->0) ==> short.subject
                == "(no subject)"@
            &&& envelope.date == Some(encode_utf8(text)) ==> short.date == text
            &&& envelope.date is None || !valid_utf8(envelope.date->0) ==> short.date == ""@
        }),
{
    encode_utf8_valid_utf8(text);
    encode_utf8_decode_utf8(text);
}

/// The author of a summary is the first of the envelope's authors, whoever follows: as the
/// mailbox, `@` and the host where there is no name, otherwise as the name and that address in
/// angle brackets. Where the list of authors is empty, the author is the empty text.
pub proof fn the_first_author_is_shown(
    message: FetchedView,
    name: Seq<char>,
    mailbox: Seq<char>,
    host: Seq<char>,
)
    requires
        summary(message) is Some,
    ensures
        ({
            let from = message.envelope->0.from->0;
            let shown = summary(message)->0.from;
            &&& from.len() == 0 ==> shown.len() == 0
            &&& from.len() > 0 && from[0].mailbox == Some(encode_utf8(mailbox)) && from[0].host
                == Some(encode_utf8(host)) ==> {
                &&& from[0].name == Some(encode_utf8(name)) && name.len() > 0 ==> shown == name
                    + " <"@ + mailbox + "@"@ + host + ">"@
                &&& from[0].name is None || !valid_utf8(from[0].name->0) || from[0].name->0.len()
                    == 0 ==> shown == mailbox + "@"@ + host
            }
        }),
{
    encode_utf8_valid_utf8(name);
    encode_utf8_decode_utf8(name);
    encode_utf8_valid_utf8(mailbox);
    encode_utf8_decode_utf8(mailbox);
    encode_utf8_valid_utf8(host);
    encode_utf8_decode_utf8(host);
    reveal_strlit("");
    let from = message.envelope->0.from->0;
    if from.len() > 0 {
        assert(name + " <"@ + mailbox + "@"@ + host + ">"@ =~= name + " <"@ + (mailbox + "@"@
            + host) + ">"@);
    }
}

/// Bytes that are the UTF-8 of a text are read as that text; where there are none, or they are no
/// UTF-8, the default takes their place.
pub proof fn bytes_are_read_as_utf8(bytes: Option<Seq<u8>>, default: Seq<char>, text: Seq<char>)
    ensures
        bytes == Some(encode_utf8(text)) ==> decoded(bytes, default) == text,
        bytes is None || !valid_utf8(bytes->0) ==> decoded(bytes, default) == default,
{
    encode_utf8_valid_utf8(text);
    encode_utf8_decode_utf8(text);
}

/// An address is put together from its three parts, of which each that is missing or unreadable
/// counts as empty: mailbox, `@` and host, and where there is a name, the name in front and the
/// address in angle brackets.
pub proof fn addresses_are_put_together_from_their_parts(
    address: AddressView,
    name: Seq<char>,
    mailbox: Seq<char>,
    host: Seq<char>,
)
    requires
        decoded(address.name, ""@) == name,
        decoded(address.mailbox, ""@) == mailbox,
        decoded(address.host, ""@) == host,
    ensures
        name.len() == 0 ==> address_text(address) == mailbox + "@"@ + host,
        name.len() > 0 ==> address_text(address) == name + " <"@ + mailbox + "@"@ + host + ">"@,
        author_text(seq![address]) == address_text(address),
{
    assert(name + " <"@ + mailbox + "@"@ + host + ">"@ =~= name + " <"@ + (mailbox + "@"@ + host)
        + ">"@);
}

/// The summaries of two lists of messages, one behind the other, are those of the first and then
/// those of the second; one message comes to its summary, or to nothing where it has none.
pub proof fn summaries_keep_the_order(
    one: Seq<FetchedView>,
    other: Seq<FetchedView>,
    message: FetchedView,
)
    ensures
        summaries(one + other) == summaries(one) + summaries(other),
        summary(message) matches Some(short) ==> summaries(seq![message]) == seq![short],
        summary(message) is None ==> summaries(seq![message]).len() == 0,
    decreases other.len(),
{
    reveal_with_fuel(summaries, 2);
    assert(seq![message].drop_last() =~= Seq::<FetchedView>::empty());
    if summary(message) is Some {
        assert(summaries(seq![message]) =~= seq![summary(message)->0]);
    }
    if other.len() == 0 {
        assert(one + other =~= one);
        assert(summaries(one) + summaries(other) =~= summaries(one));
    } else {
        summaries_keep_the_order(one, other.drop_last(), message);
        assert((one + other).drop_last() =~= one + other.drop_last());
        assert((one + other).last() == other.last());
        assert(summaries(one + other) =~= summaries(one) + summaries(other));
    }
}

} // verus!
