//! The requests that callers can make.

use vstd::prelude::*;

use crate::accounts::{AccountConfig, AccountView};
use crate::auth::{auth_middleware, header_bytes, presents};
use crate::command::{
    connect_command, criteria, imap_session, open_relay, relay_command, search_criteria,
};
use crate::config::{get_account, Config, ConfigView};
use crate::exchange::{Exchange, ExchangeView, Step, StepView, Work, WorkView};
use crate::outgoing::{
    compose, composed_letter, composed_view, Letter, SendRequest, SendView, DATE_LIMIT,
};
use crate::params::{find, folder, folder_of, limit, limit_of, parameter};
use crate::reply::{
    accounts_listed, accounts_reply, health, health_reply, unauthorized_reply,
    unknown_account_reply, Response, ResponseView,
};
use crate::text::{pairs, texts};

verus! {

/// A request to move a message.
#[derive(Debug)]
pub struct MoveRequest {
    /// The folder that the message goes to.
    pub folder: String,
}

/// A request to label a message.
#[derive(Debug)]
pub struct LabelRequest {
    /// The labels.
    pub labels: Vec<String>,
}

/// A request.
#[derive(Debug)]
pub enum Call {
    /// Whether the bridge is up.
    Health,
    /// The accounts.
    ListAccounts,
    /// The folders of an account.
    ListFolders {
        /// The account.
        account: String,
    },
    /// The first messages of a folder.
    FetchEmails {
        /// The account.
        account: String,
        /// Folder and limit.
        params: Vec<(String, String)>,
    },
    /// The messages of a folder that meet criteria.
    SearchEmails {
        /// The account.
        account: String,
        /// Folder and criteria.
        params: Vec<(String, String)>,
    },
    /// Sending mail.
    SendEmail {
        /// The account.
        account: String,
        /// What to send.
        mail: SendRequest,
    },
    /// Moving a message.
    MoveEmail {
        /// The account.
        account: String,
        /// The message.
        uid: u32,
        /// Its folder.
        params: Vec<(String, String)>,
        /// Where it goes.
        target: MoveRequest,
    },
    /// Labelling a message.
    AddLabels {
        /// The account.
        account: String,
        /// The message.
        uid: u32,
        /// Its folder.
        params: Vec<(String, String)>,
        /// The labels.
        labels: LabelRequest,
    },
    /// Deleting a message.
    DeleteEmail {
        /// The account.
        account: String,
        /// The message.
        uid: u32,
        /// Its folder.
        params: Vec<(String, String)>,
    },
}

/// What a request holds.
pub ghost enum CallView {
    Health,
    ListAccounts,
    ListFolders { account: Seq<char> },
    FetchEmails { account: Seq<char>, params: Seq<(Seq<char>, Seq<char>)> },
    SearchEmails { account: Seq<char>, params: Seq<(Seq<char>, Seq<char>)> },
    SendEmail { account: Seq<char>, mail: SendView },
    MoveEmail {
        account: Seq<char>,
        uid: u32,
        params: Seq<(Seq<char>, Seq<char>)>,
        target: Seq<char>,
    },
    AddLabels {
        account: Seq<char>,
        uid: u32,
        params: Seq<(Seq<char>, Seq<char>)>,
        labels: Seq<Seq<char>>,
    },
    DeleteEmail { account: Seq<char>, uid: u32, params: Seq<(Seq<char>, Seq<char>)> },
}

impl View for Call {
    type V = CallView;

    open spec fn view(&self) -> CallView {
        match self {
            Call::Health => CallView::Health,
            Call::ListAccounts => CallView::ListAccounts,
            Call::ListFolders { account } => CallView::ListFolders { account: account@ },
            Call::FetchEmails { account, params } => CallView::FetchEmails {
                account: account@,
                params: pairs(params@),
            },
            Call::SearchEmails { account, params } => CallView::SearchEmails {
                account: account@,
                params: pairs(params@),
            },
            Call::SendEmail { account, mail } => CallView::SendEmail {
                account: account@,
                mail: mail@,
            },
            Call::MoveEmail { account, uid, params, target } => CallView::MoveEmail {
                account: account@,
                uid: *uid,
                params: pairs(params@),
                target: target.folder@,
            },
            Call::AddLabels { account, uid, params, labels } => CallView::AddLabels {
                account: account@,
                uid: *uid,
                params: pairs(params@),
                labels: texts(labels.labels@),
            },
            Call::DeleteEmail { account, uid, params } => CallView::DeleteEmail {
                account: account@,
                uid: *uid,
                params: pairs(params@),
            },
        }
    }
}

/// The account that a request is about.
pub open spec fn account_of_call(call: CallView) -> Option<Seq<char>> {
    match call {
        CallView::Health => None,
        CallView::ListAccounts => None,
        CallView::ListFolders { account } => Some(account),
        CallView::FetchEmails { account, .. } => Some(account),
        CallView::SearchEmails { account, .. } => Some(account),
        CallView::SendEmail { account, .. } => Some(account),
        CallView::MoveEmail { account, .. } => Some(account),
        CallView::AddLabels { account, .. } => Some(account),
        CallView::DeleteEmail { account, .. } => Some(account),
    }
}

/// The answer that an account is not configured, as a step.
pub open spec fn unknown_account_step(account: Seq<char>) -> StepView {
    StepView::Reply { response: unknown_account_reply(account) }
}

/// How listing the folders of an account starts.
pub open spec fn list_folders_step(cfg: ConfigView, account: Seq<char>) -> StepView {
    if cfg.accounts.contains_key(account) {
        StepView::Perform {
            command: connect_command(cfg.accounts[account]),
            exchange: ExchangeView::ConnectingToList { account },
        }
    } else {
        unknown_account_step(account)
    }
}

/// How work in a folder of an account starts.
pub open spec fn work_in_folder_step(
    cfg: ConfigView,
    account: Seq<char>,
    work: WorkView,
) -> StepView {
    if cfg.accounts.contains_key(account) {
        StepView::Perform {
            command: connect_command(cfg.accounts[account]),
            exchange: ExchangeView::Connecting { work },
        }
    } else {
        unknown_account_step(account)
    }
}

/// How a search starts.
pub open spec fn search_step(
    cfg: ConfigView,
    account: Seq<char>,
    params: Seq<(Seq<char>, Seq<char>)>,
) -> StepView {
    if cfg.accounts.contains_key(account) {
        match search_criteria(parameter(params, "since"@), parameter(params, "from"@)) {
            Err(response) => StepView::Reply { response },
            Ok(criteria) => work_in_folder_step(
                cfg,
                account,
                WorkView::Search { account, folder: folder_of(params), criteria },
            ),
        }
    } else {
        unknown_account_step(account)
    }
}

/// What follows composing a letter.
pub open spec fn submit_step(
    settings: AccountView,
    account: Seq<char>,
    composed: Result<(Option<Seq<char>>, Seq<Seq<char>>, Seq<u8>), ResponseView>,
) -> StepView {
    match composed {
        Err(response) => StepView::Reply { response },
        Ok(letter) => StepView::Perform {
            command: relay_command(settings),
            exchange: ExchangeView::OpeningRelay { account, letter },
        },
    }
}

/// How sending mail starts.
pub open spec fn send_step(
    cfg: ConfigView,
    account: Seq<char>,
    request: SendView,
    date: u64,
) -> StepView {
    if cfg.accounts.contains_key(account) {
        submit_step(
            cfg.accounts[account],
            account,
            composed_letter(cfg.accounts[account].login, request, date),
        )
    } else {
        unknown_account_step(account)
    }
}

/// How a request of a caller that may call starts. `order` is the order in which the accounts
/// are walked.
pub open spec fn call_step(
    cfg: ConfigView,
    order: Seq<Seq<char>>,
    call: CallView,
    date: u64,
) -> StepView {
    match call {
        CallView::Health => StepView::Reply { response: health_reply() },
        CallView::ListAccounts => StepView::Reply { response: accounts_reply(order) },
        CallView::ListFolders { account } => list_folders_step(cfg, account),
        CallView::FetchEmails { account, params } => work_in_folder_step(
            cfg,
            account,
            WorkView::Emails { account, folder: folder_of(params), limit: limit_of(params) },
        ),
        CallView::SearchEmails { account, params } => search_step(cfg, account, params),
        CallView::SendEmail { account, mail } => send_step(cfg, account, mail, date),
        CallView::MoveEmail { account, uid, params, target } => work_in_folder_step(
            cfg,
            account,
            WorkView::Move { folder: folder_of(params), uid, target },
        ),
        CallView::AddLabels { account, uid, params, labels } => work_in_folder_step(
            cfg,
            account,
            WorkView::Labels { folder: folder_of(params), uid, labels },
        ),
        CallView::DeleteEmail { account, uid, params } => work_in_folder_step(
            cfg,
            account,
            WorkView::Delete { folder: folder_of(params), uid },
        ),
    }
}

/// How a request starts. All but a health check need the token.
pub open spec fn handled_step(
    cfg: ConfigView,
    order: Seq<Seq<char>>,
    header: Option<Seq<u8>>,
    call: CallView,
    date: u64,
) -> StepView {
    if call is Health || presents(header, cfg.token) {
        call_step(cfg, order, call, date)
    } else {
        StepView::Reply { response: unauthorized_reply() }
    }
}

/// Lists the accounts.
pub fn list_accounts(cfg: &Config) -> (response: Response)
    ensures
        response@ == accounts_reply(cfg.accounts.order()),
        cfg.accounts.order().no_duplicates(),
        forall|name: Seq<char>| #[trigger]
            cfg@.accounts.contains_key(name) <==> cfg.accounts.order().contains(name),
{
    accounts_listed(cfg.accounts.names())
}

/// Starts listing the folders of an account.
pub fn list_folders(cfg: &Config, account: String) -> (step: Step)
    ensures
        step@ == list_folders_step(cfg@, account@),
{
    match get_account(cfg, account.as_str()) {
        Ok(settings) => Step::Perform {
            command: imap_session(settings),
            exchange: Exchange::ConnectingToList { account },
        },
        Err(response) => Step::Reply { response },
    }
}

/// Starts work in a folder of an account.
fn work_in_folder(cfg: &Config, account: &str, work: Work) -> (step: Step)
    ensures
        step@ == work_in_folder_step(cfg@, account@, work@),
{
    match get_account(cfg, account) {
        Ok(settings) => Step::Perform {
            command: imap_session(settings),
            exchange: Exchange::Connecting { work },
        },
        Err(response) => Step::Reply { response },
    }
}

/// Starts listing the first messages of a folder.
pub fn fetch_emails(cfg: &Config, account: String, params: &Vec<(String, String)>) -> (step: Step)
    ensures
        step@ == work_in_folder_step(
            cfg@,
            account@,
            WorkView::Emails {
                account: account@,
                folder: folder_of(pairs(params@)),
                limit: limit_of(pairs(params@)),
            },
        ),
{
    let name: String = account.clone();
    let work = Work::Emails { account, folder: folder(params), limit: limit(params) };
    work_in_folder(cfg, name.as_str(), work)
}

/// Starts a search. At least one of `from` and `since` is needed; `since` has the form
/// YYYY-MM-DD.
pub fn search_emails(cfg: &Config, account: String, params: &Vec<(String, String)>) -> (step: Step)
    ensures
        step@ == search_step(cfg@, account@, pairs(params@)),
{
    if let Err(response) = get_account(cfg, account.as_str()) {
        return Step::Reply { response };
    }
    match criteria(&find(params, "since"), &find(params, "from")) {
        Err(response) => Step::Reply { response },
        Ok(criteria) => {
            let name: String = account.clone();
            let work = Work::Search { account, folder: folder(params), criteria };
            work_in_folder(cfg, name.as_str(), work)
        },
    }
}

/// Goes on after a letter was composed.
pub fn submit(settings: &AccountConfig, account: String, composed: Result<Letter, Response>) -> (
step: Step)
    ensures
        step@ == submit_step(settings@, account@, composed_view(composed)),
{
    match composed {
        Err(response) => Step::Reply { response },
        Ok(letter) => Step::Perform {
            command: open_relay(settings),
            exchange: Exchange::OpeningRelay { account, letter },
        },
    }
}

/// Starts sending mail, dated `date` seconds after the start of 1970.
pub fn send_email(cfg: &Config, account: String, request: &SendRequest, date: u64) -> (step: Step)
    requires
        date < DATE_LIMIT,
    ensures
        step@ == send_step(cfg@, account@, request@, date),
{
    match get_account(cfg, account.as_str()) {
        Err(response) => Step::Reply { response },
        Ok(settings) => submit(
            settings,
            account,
            compose(settings.login.as_str(), request, date),
        ),
    }
}

/// Starts moving a message.
pub fn move_email(
    cfg: &Config,
    account: &str,
    uid: u32,
    params: &Vec<(String, String)>,
    request: MoveRequest,
) -> (step: Step)
    ensures
        step@ == work_in_folder_step(
            cfg@,
            account@,
            WorkView::Move { folder: folder_of(pairs(params@)), uid, target: request.folder@ },
        ),
{
    let work = Work::Move { folder: folder(params), uid, target: request.folder };
    work_in_folder(cfg, account, work)
}

/// Starts labelling a message.
pub fn add_labels(
    cfg: &Config,
    account: &str,
    uid: u32,
    params: &Vec<(String, String)>,
    request: LabelRequest,
) -> (step: Step)
    ensures
        step@ == work_in_folder_step(
            cfg@,
            account@,
            WorkView::Labels {
                folder: folder_of(pairs(params@)),
                uid,
                labels: texts(request.labels@),
            },
        ),
{
    let work = Work::Labels { folder: folder(params), uid, labels: request.labels };
    work_in_folder(cfg, account, work)
}

/// Starts deleting a message.
pub fn delete_email(cfg: &Config, account: &str, uid: u32, params: &Vec<(String, String)>) -> (step:
    Step)
    ensures
        step@ == work_in_folder_step(
            cfg@,
            account@,
            WorkView::Delete { folder: folder_of(pairs(params@)), uid },
        ),
{
    let work = Work::Delete { folder: folder(params), uid };
    work_in_folder(cfg, account, work)
}

/// Starts a request, with the bytes of its `Authorization` header.
pub fn handle(cfg: &Config, header: Option<&[u8]>, call: Call, date: u64) -> (step: Step)
    requires
        date < DATE_LIMIT,
    ensures
        step@ == handled_step(cfg@, cfg.accounts.order(), header_bytes(header), call@, date),
        call is ListAccounts && presents(header_bytes(header), cfg@.token) ==> {
            &&& cfg.accounts.order().no_duplicates()
            &&& forall|name: Seq<char>| #[trigger]
                cfg@.accounts.contains_key(name) <==> cfg.accounts.order().contains(name)
        },
{
    if let Call::Health = call {
        return Step::Reply { response: health() };
    }
    if let Err(response) = auth_middleware(cfg, header) {
        return Step::Reply { response };
    }
    match call {
        Call::Health => Step::Reply { response: health() },
        Call::ListAccounts => Step::Reply { response: list_accounts(cfg) },
        Call::ListFolders { account } => list_folders(cfg, account),
        Call::FetchEmails { account, params } => fetch_emails(cfg, account, &params),
        Call::SearchEmails { account, params } => search_emails(cfg, account, &params),
        Call::SendEmail { account, mail } => send_email(cfg, account, &mail, date),
        Call::MoveEmail { account, uid, params, target } => {
            move_email(cfg, account.as_str(), uid, &params, target)
        },
        Call::AddLabels { account, uid, params, labels } => {
            add_labels(cfg, account.as_str(), uid, &params, labels)
        },
        Call::DeleteEmail { account, uid, params } => {
            delete_email(cfg, account.as_str(), uid, &params)
        },
    }
}

/// Every request but a health check needs the token: without it nothing is asked of any mail
/// server, and the caller is turned away.
pub proof fn callers_without_the_token_are_turned_away(
    cfg: ConfigView,
    order: Seq<Seq<char>>,
    header: Option<Seq<u8>>,
    call: CallView,
    date: u64,
)
    requires
        !(call is Health),
        !presents(header, cfg.token),
    ensures
        handled_step(cfg, order, header, call, date) == (StepView::Reply {
            response: unauthorized_reply(),
        }),
{
}

/// A health check is answered to everybody.
pub proof fn health_needs_no_token(
    cfg: ConfigView,
    order: Seq<Seq<char>>,
    header: Option<Seq<u8>>,
    date: u64,
)
    ensures
        handled_step(cfg, order, header, CallView::Health, date) == (StepView::Reply {
            response: health_reply(),
        }),
{
}

/// A request for an account that is not configured is answered at once, whatever else it asks
/// for.
pub proof fn unknown_accounts_are_reported(
    cfg: ConfigView,
    order: Seq<Seq<char>>,
    header: Option<Seq<u8>>,
    call: CallView,
    date: u64,
)
    requires
        presents(header, cfg.token),
        account_of_call(call) matches Some(account) && !cfg.accounts.contains_key(account),
    ensures
        handled_step(cfg, order, header, call, date) == (StepView::Reply {
            response: unknown_account_reply(account_of_call(call)->0),
        }),
{
}

/// A request is what its fields hold, each under its name.
pub proof fn calls_show_their_fields(call: Call)
    ensures
        call is Health <==> call@ is Health,
        call is ListAccounts <==> call@ is ListAccounts,
        call matches Call::ListFolders { account } ==> call@ == (CallView::ListFolders {
            account: account@,
        }),
        call matches Call::FetchEmails { account, params } ==> call@ == (CallView::FetchEmails {
            account: account@,
            params: pairs(params@),
        }),
        call matches Call::SearchEmails { account, params } ==> call@ == (CallView::SearchEmails {
            account: account@,
            params: pairs(params@),
        }),
        call matches Call::SendEmail { account, mail } ==> call@ == (CallView::SendEmail {
            account: account@,
            mail: mail@,
        }),
        call matches Call::MoveEmail { account, uid, params, target } ==> call@ == (
        CallView::MoveEmail {
            account: account@,
            uid,
            params: pairs(params@),
            target: target.folder@,
        }),
        call matches Call::AddLabels { account, uid, params, labels } ==> call@ == (
        CallView::AddLabels {
            account: account@,
            uid,
            params: pairs(params@),
            labels: texts(labels.labels@),
        }),
        call matches Call::DeleteEmail { account, uid, params } ==> call@ == (
        CallView::DeleteEmail { account: account@, uid, params: pairs(params@) }),
{
}

} // verus!
