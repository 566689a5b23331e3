//! What callers and mail servers see of whole requests, in plain values.

use vstd::prelude::*;

use crate::accounts::AccountView;
use crate::api::{handled_step, CallView};
use crate::auth::presents;
use crate::command::{flag_names, numerals, search_criteria, CommandView};
use crate::config::ConfigView;
use crate::courses::{
    delete_course, events, fetch_course, fruitless_search_course, label_course,
    list_folders_course, move_course, search_course, send_course,
};
use crate::decimal::numeral;
use crate::exchange::{course, AnswerView, EventView};
use crate::outgoing::{composed_letter, SendView};
use crate::params::{folder_of, limit_of, parameter, requests_are_about_the_folder_they_name};
use crate::reply::{ResponseView, ValueView};
use crate::summary::summaries;
use crate::text::joined;

verus! {

/// Whether `folder` is the folder that a request names: the value of the last parameter named
/// `folder`, or `INBOX` where there is none of that name.
pub open spec fn names_folder(params: Seq<(Seq<char>, Seq<char>)>, folder: Seq<char>) -> bool {
    ||| exists|i: int|
        {
            &&& 0 <= i < params.len()
            &&& (#[trigger] params[i]).0 == "folder"@
            &&& params[i].1 == folder
            &&& forall|j: int| i < j < params.len() ==> (#[trigger] params[j]).0 != "folder"@
        }
    ||| folder == "INBOX"@ && forall|j: int|
        0 <= j < params.len() ==> (#[trigger] params[j]).0 != "folder"@
}

/// The session that a request to `account` opens first.
pub open spec fn own_session(account: AccountView) -> CommandView {
    CommandView::Connect {
        address: account.imap_host + ":"@ + numeral(account.imap_port as nat),
        domain: account.imap_host,
        login: account.login,
        password: account.password,
    }
}

proof fn named_folder(params: Seq<(Seq<char>, Seq<char>)>, folder: Seq<char>)
    requires
        names_folder(params, folder),
    ensures
        folder_of(params) == folder,
{
    if exists|i: int|
        {
            &&& 0 <= i < params.len()
            &&& (#[trigger] params[i]).0 == "folder"@
            &&& params[i].1 == folder
            &&& forall|j: int| i < j < params.len() ==> (#[trigger] params[j]).0 != "folder"@
        } {
        let i = choose|i: int|
            {
                &&& 0 <= i < params.len()
                &&& (#[trigger] params[i]).0 == "folder"@
                &&& params[i].1 == folder
                &&& forall|j: int| i < j < params.len() ==> (#[trigger] params[j]).0 != "folder"@
            };
        requests_are_about_the_folder_they_name(params, i);
    } else {
        requests_are_about_the_folder_they_name(params, 0);
    }
}

/// A caller with the token gets the list of all accounts, and no mail server is asked.
pub proof fn accounts_are_listed_at_once(
    cfg: ConfigView,
    order: Seq<Seq<char>>,
    header: Option<Seq<u8>>,
    date: u64,
    events: Seq<EventView>,
)
    requires
        presents(header, cfg.token),
    ensures
        course(handled_step(cfg, order, header, CallView::ListAccounts, date), events) == (
            Seq::<CommandView>::empty(),
            Some(
                ResponseView {
                    status: 200,
                    body: seq![("accounts"@, ValueView::Texts(order))],
                },
            ),
        ),
{
}

/// A caller with the token gets the names of all folders that the account's own server lists.
pub proof fn folders_of_an_account_are_listed(
    cfg: ConfigView,
    order: Seq<Seq<char>>,
    header: Option<Seq<u8>>,
    account: Seq<char>,
    date: u64,
    answers: Seq<AnswerView>,
    last: EventView,
)
    requires
        presents(header, cfg.token),
        cfg.accounts.contains_key(account),
        answers.len() == 2,
    ensures
        course(
            handled_step(cfg, order, header, CallView::ListFolders { account }, date),
            events(answers, last),
        ) == (
            seq![
                own_session(cfg.accounts[account]),
                CommandView::List { reference: ""@, pattern: "*"@ },
                CommandView::Logout,
            ],
            Some(
                ResponseView {
                    status: 200,
                    body: seq![
                        ("account"@, ValueView::Text(account)),
                        ("folders"@, ValueView::Texts(answers[1].folders)),
                    ],
                },
            ),
        ),
{
    list_folders_course(cfg, order, account, date, answers, last);
}

/// The first messages are fetched from the folder that the request names, as many as it asks for,
/// and the answer holds the summaries of all that came back.
pub proof fn first_messages_of_the_named_folder_are_listed(
    cfg: ConfigView,
    order: Seq<Seq<char>>,
    header: Option<Seq<u8>>,
    account: Seq<char>,
    params: Seq<(Seq<char>, Seq<char>)>,
    folder: Seq<char>,
    date: u64,
    answers: Seq<AnswerView>,
    last: EventView,
)
    requires
        presents(header, cfg.token),
        cfg.accounts.contains_key(account),
        names_folder(params, folder),
        answers.len() == 3,
    ensures
        course(
            handled_step(cfg, order, header, CallView::FetchEmails { account, params }, date),
            events(answers, last),
        ) == (
            seq![
                own_session(cfg.accounts[account]),
                CommandView::Select { folder },
                CommandView::Fetch {
                    range: "1:"@ + numeral(limit_of(params)),
                    items: "(UID FLAGS ENVELOPE)"@,
                },
                CommandView::Logout,
            ],
            Some(
                ResponseView {
                    status: 200,
                    body: seq![
                        ("account"@, ValueView::Text(account)),
                        ("folder"@, ValueView::Text(folder)),
                        ("emails"@, ValueView::Emails(summaries(answers[2].messages))),
                    ],
                },
            ),
        ),
{
    named_folder(params, folder);
    fetch_course(cfg, order, account, params, date, answers, last);
}

/// A search runs in the folder that the request names. The messages that it finds, all of them
/// and no others, are fetched; the answer counts and summarises what came back.
pub proof fn messages_that_a_search_finds_are_listed(
    cfg: ConfigView,
    order: Seq<Seq<char>>,
    header: Option<Seq<u8>>,
    account: Seq<char>,
    params: Seq<(Seq<char>, Seq<char>)>,
    criteria: Seq<char>,
    folder: Seq<char>,
    date: u64,
    answers: Seq<AnswerView>,
    last: EventView,
)
    requires
        presents(header, cfg.token),
        cfg.accounts.contains_key(account),
        names_folder(params, folder),
        answers.len() == 4,
        search_criteria(parameter(params, "since"@), parameter(params, "from"@)) == Ok::<
            Seq<char>,
            ResponseView,
        >(criteria),
        answers[2].uids.len() > 0,
    ensures
        course(
            handled_step(cfg, order, header, CallView::SearchEmails { account, params }, date),
            events(answers, last),
        ) == (
            seq![
                own_session(cfg.accounts[account]),
                CommandView::Select { folder },
                CommandView::UidSearch { criteria },
                CommandView::UidFetch {
                    uids: joined(
                        Seq::new(
                            answers[2].uids.len(),
                            |i: int| numeral(answers[2].uids[i] as nat),
                        ),
                        ","@,
                    ),
                    items: "(UID FLAGS ENVELOPE)"@,
                },
                CommandView::Logout,
            ],
            Some(
                ResponseView {
                    status: 200,
                    body: seq![
                        ("account"@, ValueView::Text(account)),
                        ("folder"@, ValueView::Text(folder)),
                        ("criteria"@, ValueView::Text(criteria)),
                        ("count"@, ValueView::Number(summaries(answers[3].messages).len())),
                        ("emails"@, ValueView::Emails(summaries(answers[3].messages))),
                    ],
                },
            ),
        ),
{
    named_folder(params, folder);
    search_course(cfg, order, account, params, criteria, date, answers, last);
    let texts = Seq::new(
        answers[2].uids.len(),
        |i: int| numeral(answers[2].uids[i] as nat),
    );
    assert(texts =~= numerals(answers[2].uids));
}

/// A search that finds nothing is answered with an empty list, and nothing is fetched.
pub proof fn a_search_that_finds_nothing_lists_nothing(
    cfg: ConfigView,
    order: Seq<Seq<char>>,
    header: Option<Seq<u8>>,
    account: Seq<char>,
    params: Seq<(Seq<char>, Seq<char>)>,
    criteria: Seq<char>,
    folder: Seq<char>,
    date: u64,
    answers: Seq<AnswerView>,
    last: EventView,
)
    requires
        presents(header, cfg.token),
        cfg.accounts.contains_key(account),
        names_folder(params, folder),
        answers.len() == 3,
        search_criteria(parameter(params, "since"@), parameter(params, "from"@)) == Ok::<
            Seq<char>,
            ResponseView,
        >(criteria),
        answers[2].uids.len() == 0,
    ensures
        course(
            handled_step(cfg, order, header, CallView::SearchEmails { account, params }, date),
            events(answers, last),
        ) == (
            seq![
                own_session(cfg.accounts[account]),
                CommandView::Select { folder },
                CommandView::UidSearch { criteria },
                CommandView::Logout,
            ],
            Some(
                ResponseView {
                    status: 200,
                    body: seq![
                        ("account"@, ValueView::Text(account)),
                        ("folder"@, ValueView::Text(folder)),
                        ("criteria"@, ValueView::Text(criteria)),
                        ("emails"@, ValueView::Emails(Seq::empty())),
                    ],
                },
            ),
        ),
{
    named_folder(params, folder);
    fruitless_search_course(cfg, order, account, params, criteria, date, answers, last);
}

/// The message of the request's number is moved from the folder that the request names to the
/// one that its body names.
pub proof fn a_message_is_moved_from_the_named_folder(
    cfg: ConfigView,
    order: Seq<Seq<char>>,
    header: Option<Seq<u8>>,
    account: Seq<char>,
    uid: u32,
    params: Seq<(Seq<char>, Seq<char>)>,
    target: Seq<char>,
    folder: Seq<char>,
    date: u64,
    answers: Seq<AnswerView>,
    last: EventView,
)
    requires
        presents(header, cfg.token),
        cfg.accounts.contains_key(account),
        names_folder(params, folder),
        answers.len() == 3,
    ensures
        course(
            handled_step(
                cfg,
                order,
                header,
                CallView::MoveEmail { account, uid, params, target },
                date,
            ),
            events(answers, last),
        ) == (
            seq![
                own_session(cfg.accounts[account]),
                CommandView::Select { folder },
                CommandView::UidMove { uid: numeral(uid as nat), folder: target },
                CommandView::Logout,
            ],
            Some(
                ResponseView {
                    status: 200,
                    body: seq![
                        ("status"@, ValueView::Text("moved"@)),
                        ("to"@, ValueView::Text(target)),
                    ],
                },
            ),
        ),
{
    named_folder(params, folder);
    move_course(cfg, order, account, uid, params, target, date, answers, last);
}

/// The message of the request's number, in the folder that the request names, gets all labels of
/// the request.
pub proof fn a_message_is_labelled_in_the_named_folder(
    cfg: ConfigView,
    order: Seq<Seq<char>>,
    header: Option<Seq<u8>>,
    account: Seq<char>,
    uid: u32,
    params: Seq<(Seq<char>, Seq<char>)>,
    labels: Seq<Seq<char>>,
    folder: Seq<char>,
    date: u64,
    answers: Seq<AnswerView>,
    last: EventView,
)
    requires
        presents(header, cfg.token),
        cfg.accounts.contains_key(account),
        names_folder(params, folder),
        answers.len() == 3,
    ensures
        course(
            handled_step(
                cfg,
                order,
                header,
                CallView::AddLabels { account, uid, params, labels },
                date,
            ),
            events(answers, last),
        ) == (
            seq![
                own_session(cfg.accounts[account]),
                CommandView::Select { folder },
                CommandView::UidStore {
                    uid: numeral(uid as nat),
                    change: "+FLAGS ("@ + joined(
                        Seq::new(labels.len(), |i: int| "\\"@ + labels[i]),
                        " "@,
                    ) + ")"@,
                },
                CommandView::Logout,
            ],
            Some(
                ResponseView {
                    status: 200,
                    body: seq![
                        ("status"@, ValueView::Text("labels_added"@)),
                        ("labels"@, ValueView::Texts(labels)),
                    ],
                },
            ),
        ),
{
    named_folder(params, folder);
    label_course(cfg, order, account, uid, params, labels, date, answers, last);
    assert(Seq::new(labels.len(), |i: int| "\\"@ + labels[i]) =~= flag_names(labels));
}

/// The message of the request's number is marked and removed in the folder that the request
/// names, whatever that folder is.
pub proof fn a_message_is_deleted_in_the_named_folder(
    cfg: ConfigView,
    order: Seq<Seq<char>>,
    header: Option<Seq<u8>>,
    account: Seq<char>,
    uid: u32,
    params: Seq<(Seq<char>, Seq<char>)>,
    folder: Seq<char>,
    date: u64,
    answers: Seq<AnswerView>,
    last: EventView,
)
    requires
        presents(header, cfg.token),
        cfg.accounts.contains_key(account),
        names_folder(params, folder),
        answers.len() == 4,
    ensures
        course(
            handled_step(cfg, order, header, CallView::DeleteEmail { account, uid, params }, date),
            events(answers, last),
        ) == (
            seq![
                own_session(cfg.accounts[account]),
                CommandView::Select { folder },
                CommandView::UidStore {
                    uid: numeral(uid as nat),
                    change: "+FLAGS (\\Deleted)"@,
                },
                CommandView::UidExpunge { uid: numeral(uid as nat) },
                CommandView::Logout,
            ],
            Some(
                ResponseView {
                    status: 200,
                    body: seq![
                        ("status"@, ValueView::Text("deleted"@)),
                    ],
                },
            ),
        ),
{
    named_folder(params, folder);
    delete_course(cfg, order, account, uid, params, date, answers, last);
}

/// A letter that could be composed from the account's login and the request goes, as it is,
/// through the account's own relay.
pub proof fn mail_goes_through_the_accounts_own_relay(
    cfg: ConfigView,
    order: Seq<Seq<char>>,
    header: Option<Seq<u8>>,
    account: Seq<char>,
    mail: SendView,
    letter: (Option<Seq<char>>, Seq<Seq<char>>, Seq<u8>),
    date: u64,
    answers: Seq<AnswerView>,
    last: EventView,
)
    requires
        presents(header, cfg.token),
        cfg.accounts.contains_key(account),
        answers.len() == 1,
        composed_letter(cfg.accounts[account].login, mail, date) == Ok::<
            (Option<Seq<char>>, Seq<Seq<char>>, Seq<u8>),
            ResponseView,
        >(letter),
        last is Answered,
    ensures
        course(
            handled_step(cfg, order, header, CallView::SendEmail { account, mail }, date),
            events(answers, last),
        ) == (
            seq![
                CommandView::OpenRelay {
                    host: cfg.accounts[account].smtp_host,
                    port: cfg.accounts[account].smtp_port,
                    login: cfg.accounts[account].login,
                    password: cfg.accounts[account].password,
                },
                CommandView::Transmit { letter },
            ],
            Some(
                ResponseView {
                    status: 200,
                    body: seq![
                        ("status"@, ValueView::Text("sent"@)),
                        ("account"@, ValueView::Text(account)),
                    ],
                },
            ),
        ),
{
    send_course(cfg, order, account, mail, letter, date, answers, last);
}

/// A search or a letter that is refused asks nothing of any mail server, and the caller gets the
/// refusal.
pub proof fn refusals_ask_nothing_of_a_server(
    cfg: ConfigView,
    order: Seq<Seq<char>>,
    header: Option<Seq<u8>>,
    account: Seq<char>,
    params: Seq<(Seq<char>, Seq<char>)>,
    mail: SendView,
    date: u64,
    events: Seq<EventView>,
)
    requires
        presents(header, cfg.token),
        cfg.accounts.contains_key(account),
    ensures
        search_criteria(parameter(params, "since"@), parameter(params, "from"@)) matches Err(
            refusal,
        ) ==> course(
            handled_step(cfg, order, header, CallView::SearchEmails { account, params }, date),
            events,
        ) == (Seq::<CommandView>::empty(), Some(refusal)),
        composed_letter(cfg.accounts[account].login, mail, date) matches Err(refusal) ==> course(
            handled_step(cfg, order, header, CallView::SendEmail { account, mail }, date),
            events,
        ) == (Seq::<CommandView>::empty(), Some(refusal)),
{
}

} // verus!
