//! Outgoing mail: from a request to the bytes that go to the relay.

use lettre::message::header::ContentType;
use lettre::message::{Body, Mailbox};
use lettre::Message;
use std::time::{Duration, UNIX_EPOCH};
use vstd::prelude::*;

use crate::reply::{bad_request, bad_request_reply, Response, ResponseView};
use crate::text::{optional_text, texts};

verus! {

/// A request to send mail.
#[derive(Debug)]
pub struct SendRequest {
    /// The recipient.
    pub to: String,
    /// The subject.
    pub subject: String,
    /// The text.
    pub body: String,
    /// Whether the text is HTML.
    pub html: bool,
}

/// What a request to send mail holds.
pub ghost struct SendView {
    pub to: Seq<char>,
    pub subject: Seq<char>,
    pub body: Seq<char>,
    pub html: bool,
}

impl View for SendRequest {
    type V = SendView;

    open spec fn view(&self) -> SendView {
        SendView { to: self.to@, subject: self.subject@, body: self.body@, html: self.html }
    }
}

/// A finished message and where it goes.
#[derive(Debug)]
pub struct Letter {
    /// The address of the sender.
    pub sender: Option<String>,
    /// The addresses of the recipients.
    pub recipients: Vec<String>,
    /// The headers and the text, as they are sent.
    pub content: Vec<u8>,
}

impl View for Letter {
    type V = (Option<Seq<char>>, Seq<Seq<char>>, Seq<u8>);

    open spec fn view(&self) -> (Option<Seq<char>>, Seq<Seq<char>>, Seq<u8>) {
        (optional_text(self.sender), texts(self.recipients@), self.content@)
    }
}

/// Seconds from the start of 1970 to the start of the year 10000, where dates in headers end.
pub const DATE_LIMIT: u64 = 253402300800;

/// Whether `text` is a mailbox: an address, or a name and an address in angle brackets.
pub uninterp spec fn is_mailbox(text: Seq<char>) -> bool;

/// The message with these mailboxes, subject, content type, text and date (in seconds from the
/// start of 1970), as sender address, recipient addresses and bytes; or the reason why there is
/// none.
pub uninterp spec fn built_message(
    from: Seq<char>,
    to: Seq<char>,
    subject: Seq<char>,
    content_type: Seq<char>,
    text: Seq<char>,
    date: u64,
) -> Result<(Option<Seq<char>>, Seq<Seq<char>>, Seq<u8>), Seq<char>>;

/// The content type of a text.
pub open spec fn content_type(html: bool) -> Seq<char> {
    if html {
        "text/html; charset=utf-8"@
    } else {
        "text/plain; charset=utf-8"@
    }
}

/// What a build came to.
pub open spec fn build_view(built: Result<Letter, String>) -> Result<
    (Option<Seq<char>>, Seq<Seq<char>>, Seq<u8>),
    Seq<char>,
> {
    match built {
        Ok(letter) => Ok(letter@),
        Err(reason) => Err(reason@),
    }
}

/// What composing came to.
pub open spec fn composed_view(composed: Result<Letter, Response>) -> Result<
    (Option<Seq<char>>, Seq<Seq<char>>, Seq<u8>),
    ResponseView,
> {
    match composed {
        Ok(letter) => Ok(letter@),
        Err(response) => Err(response@),
    }
}

/// The answer to a request whose sender or recipient is no mailbox. The sender is looked at
/// first.
pub open spec fn address_complaint(from_accepted: bool, to_accepted: bool) -> Option<ResponseView> {
    if !from_accepted {
        Some(bad_request_reply("Invalid from address"@))
    } else if !to_accepted {
        Some(bad_request_reply("Invalid to address"@))
    } else {
        None
    }
}

/// What becomes of a build: the letter, or the reason as an answer to the caller.
pub open spec fn build_outcome(
    built: Result<(Option<Seq<char>>, Seq<Seq<char>>, Seq<u8>), Seq<char>>,
) -> Result<(Option<Seq<char>>, Seq<Seq<char>>, Seq<u8>), ResponseView> {
    match built {
        Ok(letter) => Ok(letter),
        Err(reason) => Err(bad_request_reply(reason)),
    }
}

/// The letter that a request from `login` asks for, or the answer that refuses it.
pub open spec fn composed_letter(login: Seq<char>, request: SendView, date: u64) -> Result<
    (Option<Seq<char>>, Seq<Seq<char>>, Seq<u8>),
    ResponseView,
> {
    match address_complaint(is_mailbox(login), is_mailbox(request.to)) {
        Some(response) => Err(response),
        None => build_outcome(
            built_message(
                login,
                request.to,
                request.subject,
                content_type(request.html),
                request.body,
                date,
            ),
        ),
    }
}

/// The `FromStr` of `lettre::message::Mailbox`: whether it accepts `text`, which depends on
/// the text alone.
#[verifier::external_body]
fn accepted_mailbox(text: &str) -> (accepted: bool)
    ensures
        accepted == is_mailbox(text@),
{
    text.parse::<Mailbox>().is_ok()
}

/// `lettre::Message::builder` with one sender, one recipient, subject, content type, encoding
/// and date set, and its `body`. With the date given, the message depends on the arguments
/// alone, and so do the addresses of its envelope; where there is no message, so does the
/// reason. A message that was built has a sender and at least one recipient. Both mailboxes must
/// be accepted, and the date must be one that a header can hold.
#[verifier::external_body]
fn build_message(
    from: &str,
    to: &str,
    subject: &str,
    content_type: &str,
    text: &str,
    date: u64,
) -> (built: Result<Letter, String>)
    requires
        is_mailbox(from@),
        is_mailbox(to@),
        content_type@ == "text/html; charset=utf-8"@ || content_type@
            == "text/plain; charset=utf-8"@,
        date < DATE_LIMIT,
    ensures
        build_view(built) == built_message(from@, to@, subject@, content_type@, text@, date),
        built matches Ok(letter) ==> letter.sender is Some && letter.recipients@.len() > 0,
{
    let body = Body::new(text.to_string());
    let builder = Message::builder().from(from.parse().unwrap()).to(to.parse().unwrap());
    let message = builder
        .subject(subject)
        .header(ContentType::parse(content_type).unwrap())
        .header(body.encoding())
        .date(UNIX_EPOCH + Duration::from_secs(date))
        .body(body)
        .map_err(|e| e.to_string())?;
    let sender = message.envelope().from().map(|a| a.to_string());
    let recipients = message.envelope().to().iter().map(|a| a.to_string()).collect();
    Ok(Letter { sender, recipients, content: message.formatted() })
}

/// Answers a request whose sender or recipient was not accepted as a mailbox.
pub fn check_addresses(from_accepted: bool, to_accepted: bool) -> (complaint: Option<Response>)
    ensures
        match complaint {
            Some(response) => address_complaint(from_accepted, to_accepted) == Some(response@),
            None => address_complaint(from_accepted, to_accepted) is None,
        },
{
    if !from_accepted {
        Some(bad_request("Invalid from address"))
    } else if !to_accepted {
        Some(bad_request("Invalid to address"))
    } else {
        None
    }
}

/// Turns the reason why a message could not be built into an answer.
pub fn check_build(built: Result<Letter, String>) -> (letter: Result<Letter, Response>)
    ensures
        composed_view(letter) == build_outcome(build_view(built)),
        letter matches Ok(letter) ==> built == Ok::<Letter, String>(letter),
{
    match built {
        Ok(letter) => Ok(letter),
        Err(reason) => Err(bad_request(reason.as_str())),
    }
}

/// Composes the letter that a request from `login` asks for, dated `date` seconds after the
/// start of 1970.
pub fn compose(login: &str, request: &SendRequest, date: u64) -> (letter: Result<Letter, Response>)
    requires
        date < DATE_LIMIT,
    ensures
        composed_view(letter) == composed_letter(login@, request@, date),
        letter matches Ok(letter) ==> letter.sender is Some && letter.recipients@.len() > 0,
{
    let from_accepted = accepted_mailbox(login);
    let to_accepted = accepted_mailbox(request.to.as_str());
    if let Some(response) = check_addresses(from_accepted, to_accepted) {
        return Err(response);
    }
    let kind: &str = if request.html {
        "text/html; charset=utf-8"
    } else {
        "text/plain; charset=utf-8"
    };
    check_build(
        build_message(
            login,
            request.to.as_str(),
            request.subject.as_str(),
            kind,
            request.body.as_str(),
            date,
        ),
    )
}

/// A letter that was composed is the message from the login to the recipient of the request, with
/// the request's subject, the content type for HTML or plain text that it asks for, its text
/// unchanged, and the date.
pub proof fn letters_carry_what_was_asked(login: Seq<char>, request: SendView, date: u64)
    ensures
        composed_letter(login, request, date) matches Ok(letter) ==> {
            let SendView { to, subject, body, html } = request;
            let html_message = built_message(
                login,
                to,
                subject,
                "text/html; charset=utf-8"@,
                body,
                date,
            );
            let plain_message = built_message(
                login,
                to,
                subject,
                "text/plain; charset=utf-8"@,
                body,
                date,
            );
            &&& is_mailbox(login) && is_mailbox(to)
            &&& html ==> html_message is Ok && html_message->Ok_0 == letter
            &&& !html ==> plain_message is Ok && plain_message->Ok_0 == letter
        },
{
}

/// A request to send is refused, as its own fault, exactly where the login is no mailbox, the
/// recipient is none, or no message can be built; the first of these is the reason.
pub proof fn letters_are_refused_for_a_reason(login: Seq<char>, request: SendView, date: u64)
    ensures
        ({
            let SendView { to, subject, body, html } = request;
            let composed = composed_letter(login, request, date);
            let kind = if html {
                "text/html; charset=utf-8"@
            } else {
                "text/plain; charset=utf-8"@
            };
            let built = built_message(login, to, subject, kind, body, date);
            &&& composed is Ok <==> is_mailbox(login) && is_mailbox(to) && built is Ok
            &&& !is_mailbox(login) ==> composed->Err_0 == bad_request_reply(
                "Invalid from address"@,
            )
            &&& is_mailbox(login) && !is_mailbox(to) ==> composed->Err_0 == bad_request_reply(
                "Invalid to address"@,
            )
            &&& is_mailbox(login) && is_mailbox(to) && built is Err ==> composed->Err_0
                == bad_request_reply(built->Err_0)
        }),
{
}

/// Each complaint about an address names the one that was not accepted, the sender first; there
/// is none where both were. A message that was built stays as it is, and a reason why there is
/// none becomes the answer.
pub proof fn complaints_name_the_address(
    from_accepted: bool,
    to_accepted: bool,
    letter: (Option<Seq<char>>, Seq<Seq<char>>, Seq<u8>),
    reason: Seq<char>,
)
    ensures
        !from_accepted ==> address_complaint(from_accepted, to_accepted) == Some(
            bad_request_reply("Invalid from address"@),
        ),
        from_accepted && !to_accepted ==> address_complaint(from_accepted, to_accepted) == Some(
            bad_request_reply("Invalid to address"@),
        ),
        from_accepted && to_accepted ==> address_complaint(from_accepted, to_accepted) is None,
        build_outcome(Ok(letter)) == Ok::<
            (Option<Seq<char>>, Seq<Seq<char>>, Seq<u8>),
            ResponseView,
        >(letter),
        build_outcome(Err(reason)) == Err::<
            (Option<Seq<char>>, Seq<Seq<char>>, Seq<u8>),
            ResponseView,
        >(bad_request_reply(reason)),
{
}

/// Requests to send and letters are what their fields hold, each under its name.
pub proof fn letters_show_their_fields(
    request: SendRequest,
    letter: Letter,
    built: Result<Letter, String>,
    composed: Result<Letter, Response>,
)
    ensures
        request@.to == request.to@,
        request@.subject == request.subject@,
        request@.body == request.body@,
        request@.html == request.html,
        letter.sender is None <==> letter@.0 is None,
        letter.sender matches Some(sender) ==> letter@.0 == Some(sender@),
        letter@.1 == texts(letter.recipients@),
        letter@.2 == letter.content@,
        built matches Ok(letter) ==> build_view(built) == Ok::<
            (Option<Seq<char>>, Seq<Seq<char>>, Seq<u8>),
            Seq<char>,
        >(letter@),
        built matches Err(reason) ==> build_view(built) == Err::<
            (Option<Seq<char>>, Seq<Seq<char>>, Seq<u8>),
            Seq<char>,
        >(reason@),
        composed matches Ok(letter) ==> composed_view(composed) == Ok::<
            (Option<Seq<char>>, Seq<Seq<char>>, Seq<u8>),
            ResponseView,
        >(letter@),
        composed matches Err(response) ==> composed_view(composed) == Err::<
            (Option<Seq<char>>, Seq<Seq<char>>, Seq<u8>),
            ResponseView,
        >(response@),
{
}

} // verus!
