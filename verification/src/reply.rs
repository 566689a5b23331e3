//! Answers to callers: a status and a body of named fields.

use vstd::prelude::*;

use crate::summary::{summary_views, EmailSummary, SummaryView};
use crate::text::texts;

verus! {

/// A value in the body of an answer.
#[derive(Debug)]
pub enum Value {
    /// A text.
    Text(String),
    /// A number.
    Number(u64),
    /// A list of texts.
    Texts(Vec<String>),
    /// A list of message summaries.
    Emails(Vec<EmailSummary>),
}

/// What a value holds.
pub ghost enum ValueView {
    Text(Seq<char>),
    Number(nat),
    Texts(Seq<Seq<char>>),
    Emails(Seq<SummaryView>),
}

impl View for Value {
    type V = ValueView;

    open spec fn view(&self) -> ValueView {
        match self {
            Value::Text(text) => ValueView::Text(text@),
            Value::Number(n) => ValueView::Number(*n as nat),
            Value::Texts(list) => ValueView::Texts(texts(list@)),
            Value::Emails(list) => ValueView::Emails(summary_views(list@)),
        }
    }
}

/// What the fields of a body hold.
pub open spec fn fields(body: Seq<(String, Value)>) -> Seq<(Seq<char>, ValueView)> {
    Seq::new(body.len(), |i: int| (body[i].0@, body[i].1@))
}

/// An answer.
#[derive(Debug)]
pub struct Response {
    /// The HTTP status.
    pub status: u16,
    /// The fields of the body, no two of the same name.
    pub body: Vec<(String, Value)>,
}

/// What an answer holds.
pub ghost struct ResponseView {
    pub status: u16,
    pub body: Seq<(Seq<char>, ValueView)>,
}

impl View for Response {
    type V = ResponseView;

    open spec fn view(&self) -> ResponseView {
        ResponseView { status: self.status, body: fields(self.body@) }
    }
}

/// A text field.
pub open spec fn text_field(name: Seq<char>, text: Seq<char>) -> (Seq<char>, ValueView) {
    (name, ValueView::Text(text))
}

/// The answer that reports an error.
pub open spec fn error_reply(status: u16, message: Seq<char>) -> ResponseView {
    ResponseView { status, body: seq![text_field("error"@, message)] }
}

/// The answer to a request that cannot be carried out as it stands.
pub open spec fn bad_request_reply(message: Seq<char>) -> ResponseView {
    error_reply(400, message)
}

/// The answer to a caller that did not present the token.
pub open spec fn unauthorized_reply() -> ResponseView {
    error_reply(401, "Unauthorized"@)
}

/// The answer to a request for an account that is not configured.
pub open spec fn unknown_account_reply(name: Seq<char>) -> ResponseView {
    error_reply(404, "Account '"@ + name + "' not found"@)
}

/// The answer to a request on which a mail server failed.
pub open spec fn failure_reply(message: Seq<char>) -> ResponseView {
    error_reply(500, message)
}

/// An answer that reports success.
pub open spec fn success_reply(body: Seq<(Seq<char>, ValueView)>) -> ResponseView {
    ResponseView { status: 200, body }
}

/// The answer to a health check.
pub open spec fn health_reply() -> ResponseView {
    success_reply(seq![text_field("status"@, "ok"@)])
}

/// The answer that lists the accounts.
pub open spec fn accounts_reply(names: Seq<Seq<char>>) -> ResponseView {
    success_reply(seq![("accounts"@, ValueView::Texts(names))])
}

/// The answer that lists the folders of an account.
pub open spec fn folders_reply(account: Seq<char>, folders: Seq<Seq<char>>) -> ResponseView {
    success_reply(
        seq![text_field("account"@, account), ("folders"@, ValueView::Texts(folders))],
    )
}

/// The answer that lists the messages of a folder.
pub open spec fn emails_reply(
    account: Seq<char>,
    folder: Seq<char>,
    emails: Seq<SummaryView>,
) -> ResponseView {
    success_reply(
        seq![
            text_field("account"@, account),
            text_field("folder"@, folder),
            ("emails"@, ValueView::Emails(emails)),
        ],
    )
}

/// The answer to a search that found nothing.
pub open spec fn nothing_found_reply(
    account: Seq<char>,
    folder: Seq<char>,
    criteria: Seq<char>,
) -> ResponseView {
    success_reply(
        seq![
            text_field("account"@, account),
            text_field("folder"@, folder),
            text_field("criteria"@, criteria),
            ("emails"@, ValueView::Emails(Seq::empty())),
        ],
    )
}

/// The answer to a search that found messages.
pub open spec fn found_reply(
    account: Seq<char>,
    folder: Seq<char>,
    criteria: Seq<char>,
    emails: Seq<SummaryView>,
) -> ResponseView {
    success_reply(
        seq![
            text_field("account"@, account),
            text_field("folder"@, folder),
            text_field("criteria"@, criteria),
            ("count"@, ValueView::Number(emails.len())),
            ("emails"@, ValueView::Emails(emails)),
        ],
    )
}

/// The answer to mail that was sent.
pub open spec fn sent_reply(account: Seq<char>) -> ResponseView {
    success_reply(seq![text_field("status"@, "sent"@), text_field("account"@, account)])
}

/// The answer to a message that was moved.
pub open spec fn moved_reply(folder: Seq<char>) -> ResponseView {
    success_reply(seq![text_field("status"@, "moved"@), text_field("to"@, folder)])
}

/// The answer to a message that was labelled.
pub open spec fn labelled_reply(labels: Seq<Seq<char>>) -> ResponseView {
    success_reply(
        seq![text_field("status"@, "labels_added"@), ("labels"@, ValueView::Texts(labels))],
    )
}

/// The answer to a message that was deleted.
pub open spec fn deleted_reply() -> ResponseView {
    success_reply(seq![text_field("status"@, "deleted"@)])
}

/// Adds a field to a body.
pub(crate) fn put(body: &mut Vec<(String, Value)>, name: &str, value: Value)
    ensures
        fields(final(body)@) == fields(old(body)@).push((name@, value@)),
{
    let ghost before = fields(body@);
    let ghost row = (name@, value@);
    body.push((name.to_string(), value));
    assert(fields(body@) =~= before.push(row));
}

/// An empty body.
pub(crate) fn empty_body() -> (body: Vec<(String, Value)>)
    ensures
        fields(body@) == Seq::<(Seq<char>, ValueView)>::empty(),
{
    let body: Vec<(String, Value)> = Vec::new();
    assert(fields(body@) =~= Seq::<(Seq<char>, ValueView)>::empty());
    body
}

/// Reports an error.
fn error(status: u16, message: String) -> (response: Response)
    ensures
        response@ == error_reply(status, message@),
{
    let mut body = empty_body();
    put(&mut body, "error", Value::Text(message));
    let response = Response { status, body };
    assert(response@.body =~= error_reply(status, message@).body);
    response
}

/// Answers a request that cannot be carried out as it stands.
pub fn bad_request(message: &str) -> (response: Response)
    ensures
        response@ == bad_request_reply(message@),
{
    error(400, message.to_string())
}

/// Answers a caller that did not present the token.
pub fn unauthorized() -> (response: Response)
    ensures
        response@ == unauthorized_reply(),
{
    error(401, "Unauthorized".to_string())
}

/// Answers a request for an account that is not configured.
pub fn unknown_account(name: &str) -> (response: Response)
    ensures
        response@ == unknown_account_reply(name@),
{
    error(404, "Account '".to_string().concat(name).concat("' not found"))
}

/// Answers a request on which a mail server failed.
pub fn imap_err(message: String) -> (response: Response)
    ensures
        response@ == failure_reply(message@),
{
    error(500, message)
}

/// Answers a health check.
pub fn health() -> (response: Response)
    ensures
        response@ == health_reply(),
{
    let mut body = empty_body();
    put(&mut body, "status", Value::Text("ok".to_string()));
    let response = Response { status: 200, body };
    assert(response@.body =~= health_reply().body);
    response
}

/// Lists the accounts.
pub fn accounts_listed(names: Vec<String>) -> (response: Response)
    ensures
        response@ == accounts_reply(texts(names@)),
{
    let mut body = empty_body();
    put(&mut body, "accounts", Value::Texts(names));
    let response = Response { status: 200, body };
    assert(response@.body =~= accounts_reply(texts(names@)).body);
    response
}

/// Lists the folders of an account.
pub fn folders_listed(account: String, folders: Vec<String>) -> (response: Response)
    ensures
        response@ == folders_reply(account@, texts(folders@)),
{
    let mut body = empty_body();
    put(&mut body, "account", Value::Text(account));
    put(&mut body, "folders", Value::Texts(folders));
    let response = Response { status: 200, body };
    assert(response@.body =~= folders_reply(account@, texts(folders@)).body);
    response
}

/// Lists the messages of a folder.
pub fn emails_listed(account: String, folder: String, emails: Vec<EmailSummary>) -> (response:
    Response)
    ensures
        response@ == emails_reply(account@, folder@, summary_views(emails@)),
{
    let mut body = empty_body();
    put(&mut body, "account", Value::Text(account));
    put(&mut body, "folder", Value::Text(folder));
    put(&mut body, "emails", Value::Emails(emails));
    let response = Response { status: 200, body };
    assert(response@.body =~= emails_reply(account@, folder@, summary_views(emails@)).body);
    response
}

/// Answers a search that found nothing.
pub fn nothing_found(account: String, folder: String, criteria: String) -> (response: Response)
    ensures
        response@ == nothing_found_reply(account@, folder@, criteria@),
{
    let emails: Vec<EmailSummary> = Vec::new();
    assert(summary_views(emails@) =~= Seq::<SummaryView>::empty());
    let mut body = empty_body();
    put(&mut body, "account", Value::Text(account));
    put(&mut body, "folder", Value::Text(folder));
    put(&mut body, "criteria", Value::Text(criteria));
    put(&mut body, "emails", Value::Emails(emails));
    let response = Response { status: 200, body };
    assert(response@.body =~= nothing_found_reply(account@, folder@, criteria@).body);
    response
}

/// Answers a search that found messages.
pub fn found(account: String, folder: String, criteria: String, emails: Vec<EmailSummary>) -> (
response: Response)
    ensures
        response@ == found_reply(account@, folder@, criteria@, summary_views(emails@)),
{
    let mut body = empty_body();
    put(&mut body, "account", Value::Text(account));
    put(&mut body, "folder", Value::Text(folder));
    put(&mut body, "criteria", Value::Text(criteria));
    put(&mut body, "count", Value::Number(emails.len() as u64));
    put(&mut body, "emails", Value::Emails(emails));
    let response = Response { status: 200, body };
    assert(response@.body =~= found_reply(
        account@,
        folder@,
        criteria@,
        summary_views(emails@),
    ).body);
    response
}

/// Answers mail that was sent.
pub fn sent(account: String) -> (response: Response)
    ensures
        response@ == sent_reply(account@),
{
    let mut body = empty_body();
    put(&mut body, "status", Value::Text("sent".to_string()));
    put(&mut body, "account", Value::Text(account));
    let response = Response { status: 200, body };
    assert(response@.body =~= sent_reply(account@).body);
    response
}

/// Answers a message that was moved.
pub fn moved(folder: String) -> (response: Response)
    ensures
        response@ == moved_reply(folder@),
{
    let mut body = empty_body();
    put(&mut body, "status", Value::Text("moved".to_string()));
    put(&mut body, "to", Value::Text(folder));
    let response = Response { status: 200, body };
    assert(response@.body =~= moved_reply(folder@).body);
    response
}

/// Answers a message that was labelled.
pub fn labelled(labels: Vec<String>) -> (response: Response)
    ensures
        response@ == labelled_reply(texts(labels@)),
{
    let mut body = empty_body();
    put(&mut body, "status", Value::Text("labels_added".to_string()));
    put(&mut body, "labels", Value::Texts(labels));
    let response = Response { status: 200, body };
    assert(response@.body =~= labelled_reply(texts(labels@)).body);
    response
}

/// Answers a message that was deleted.
pub fn deleted() -> (response: Response)
    ensures
        response@ == deleted_reply(),
{
    let mut body = empty_body();
    put(&mut body, "status", Value::Text("deleted".to_string()));
    let response = Response { status: 200, body };
    assert(response@.body =~= deleted_reply().body);
    response
}

/// A refusal has one field, `error`, with the reason. Its status is 400 where the request is at
/// fault, 401 without the token, 404 where there is no such account and 500 where a server failed.
pub proof fn refusals_give_their_reason(reason: Seq<char>)
    ensures
        bad_request_reply(reason) == (ResponseView {
            status: 400,
            body: seq![("error"@, ValueView::Text(reason))],
        }),
        unauthorized_reply() == (ResponseView {
            status: 401,
            body: seq![("error"@, ValueView::Text("Unauthorized"@))],
        }),
        unknown_account_reply(reason) == (ResponseView {
            status: 404,
            body: seq![("error"@, ValueView::Text("Account '"@ + reason + "' not found"@))],
        }),
        failure_reply(reason) == (ResponseView {
            status: 500,
            body: seq![("error"@, ValueView::Text(reason))],
        }),
{
}

/// Answers that list things have status 200, hold what was listed, whole and in its order, and
/// say of what: the account, the folder and what was looked for. What a search found is counted.
pub proof fn lists_are_answered_whole(
    account: Seq<char>,
    folder: Seq<char>,
    criteria: Seq<char>,
    names: Seq<Seq<char>>,
    emails: Seq<SummaryView>,
)
    ensures
        accounts_reply(names) == (ResponseView {
            status: 200,
            body: seq![("accounts"@, ValueView::Texts(names))],
        }),
        folders_reply(account, names) == (ResponseView {
            status: 200,
            body: seq![
                ("account"@, ValueView::Text(account)),
                ("folders"@, ValueView::Texts(names)),
            ],
        }),
        emails_reply(account, folder, emails) == (ResponseView {
            status: 200,
            body: seq![
                ("account"@, ValueView::Text(account)),
                ("folder"@, ValueView::Text(folder)),
                ("emails"@, ValueView::Emails(emails)),
            ],
        }),
        found_reply(account, folder, criteria, emails) == (ResponseView {
            status: 200,
            body: seq![
                ("account"@, ValueView::Text(account)),
                ("folder"@, ValueView::Text(folder)),
                ("criteria"@, ValueView::Text(criteria)),
                ("count"@, ValueView::Number(emails.len())),
                ("emails"@, ValueView::Emails(emails)),
            ],
        }),
        nothing_found_reply(account, folder, criteria) == (ResponseView {
            status: 200,
            body: seq![
                ("account"@, ValueView::Text(account)),
                ("folder"@, ValueView::Text(folder)),
                ("criteria"@, ValueView::Text(criteria)),
                ("emails"@, ValueView::Emails(Seq::empty())),
            ],
        }),
{
}

/// Answers to what was done have status 200 and say what was done, with the account that mail was
/// sent from, the folder that a message went to, or the labels that it got.
pub proof fn deeds_are_answered_with_what_was_done(
    account: Seq<char>,
    folder: Seq<char>,
    labels: Seq<Seq<char>>,
)
    ensures
        health_reply() == (ResponseView {
            status: 200,
            body: seq![("status"@, ValueView::Text("ok"@))],
        }),
        sent_reply(account) == (ResponseView {
            status: 200,
            body: seq![
                ("status"@, ValueView::Text("sent"@)),
                ("account"@, ValueView::Text(account)),
            ],
        }),
        moved_reply(folder) == (ResponseView {
            status: 200,
            body: seq![("status"@, ValueView::Text("moved"@)), ("to"@, ValueView::Text(folder))],
        }),
        labelled_reply(labels) == (ResponseView {
            status: 200,
            body: seq![
                ("status"@, ValueView::Text("labels_added"@)),
                ("labels"@, ValueView::Texts(labels)),
            ],
        }),
        deleted_reply() == (ResponseView {
            status: 200,
            body: seq![("status"@, ValueView::Text("deleted"@))],
        }),
{
}

/// What callers see of an answer are its status and its fields, each with its name and value.
pub proof fn answers_show_their_fields(response: Response, value: Value)
    ensures
        response@.status == response.status,
        response@.body.len() == response.body@.len(),
        forall|i: int|
            0 <= i < response.body@.len() ==> (#[trigger] response@.body[i]).0
                == response.body@[i].0@ && response@.body[i].1 == response.body@[i].1@,
        value matches Value::Text(text) ==> value@ == ValueView::Text(text@),
        value matches Value::Number(n) ==> value@ == ValueView::Number(n as nat),
        value matches Value::Texts(list) ==> value@ == ValueView::Texts(texts(list@)),
        value matches Value::Emails(list) ==> value@ == ValueView::Emails(summary_views(list@)),
{
}

} // verus!
