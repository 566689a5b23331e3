//! What mail servers are asked to do.

use vstd::prelude::*;

use crate::accounts::{AccountConfig, AccountView};
use crate::date::{
    calendar_date_is_rewritten, calendar_form_is_rewritten, has_calendar_form, imap_date,
    is_calendar_form, month_name, month_number, parse_imap_date, two_digits,
};
use crate::decimal::{is_digit, numeral, numeral_reads_back, write_decimal};
use crate::outgoing::Letter;
use crate::reply::{bad_request, bad_request_reply, Response, ResponseView};
use crate::text::{join, joined, joined_texts_split_back, optional_text, pieces, texts};

verus! {

/// One thing to ask of a mail server.
#[derive(Debug)]
pub enum Command {
    /// Open a TLS session with an IMAP server and log in.
    Connect {
        /// Host and port.
        address: String,
        /// The host that the certificate is for.
        domain: String,
        /// The login.
        login: String,
        /// The password.
        password: String,
    },
    /// Select a folder.
    Select {
        /// The folder.
        folder: String,
    },
    /// List folders.
    List {
        /// Where the names start.
        reference: String,
        /// Which names are meant.
        pattern: String,
    },
    /// Fetch messages by their places in the folder.
    Fetch {
        /// The places.
        range: String,
        /// What to fetch of each.
        items: String,
    },
    /// Search the folder.
    UidSearch {
        /// What to look for.
        criteria: String,
    },
    /// Fetch messages by their unique numbers.
    UidFetch {
        /// The numbers.
        uids: String,
        /// What to fetch of each.
        items: String,
    },
    /// Move a message to another folder.
    UidMove {
        /// Its unique number.
        uid: String,
        /// The other folder.
        folder: String,
    },
    /// Change the flags of a message.
    UidStore {
        /// Its unique number.
        uid: String,
        /// The change.
        change: String,
    },
    /// Remove a message, where it is marked as deleted, and no other. (Servers offer this with
    /// the `UIDPLUS` capability.)
    UidExpunge {
        /// Its unique number.
        uid: String,
    },
    /// End the session.
    Logout,
    /// Prepare to send through an SMTP relay.
    OpenRelay {
        /// The host of the relay.
        host: String,
        /// The port of the relay.
        port: u16,
        /// The login.
        login: String,
        /// The password.
        password: String,
    },
    /// Send a letter through the relay.
    Transmit {
        /// The letter.
        letter: Letter,
    },
}

/// What a command holds.
pub ghost enum CommandView {
    Connect { address: Seq<char>, domain: Seq<char>, login: Seq<char>, password: Seq<char> },
    Select { folder: Seq<char> },
    List { reference: Seq<char>, pattern: Seq<char> },
    Fetch { range: Seq<char>, items: Seq<char> },
    UidSearch { criteria: Seq<char> },
    UidFetch { uids: Seq<char>, items: Seq<char> },
    UidMove { uid: Seq<char>, folder: Seq<char> },
    UidStore { uid: Seq<char>, change: Seq<char> },
    UidExpunge { uid: Seq<char> },
    Logout,
    OpenRelay { host: Seq<char>, port: u16, login: Seq<char>, password: Seq<char> },
    Transmit { letter: (Option<Seq<char>>, Seq<Seq<char>>, Seq<u8>) },
}

impl View for Command {
    type V = CommandView;

    open spec fn view(&self) -> CommandView {
        match self {
            Command::Connect { address, domain, login, password } => CommandView::Connect {
                address: address@,
                domain: domain@,
                login: login@,
                password: password@,
            },
            Command::Select { folder } => CommandView::Select { folder: folder@ },
            Command::List { reference, pattern } => CommandView::List {
                reference: reference@,
                pattern: pattern@,
            },
            Command::Fetch { range, items } => CommandView::Fetch { range: range@, items: items@ },
            Command::UidSearch { criteria } => CommandView::UidSearch { criteria: criteria@ },
            Command::UidFetch { uids, items } => CommandView::UidFetch {
                uids: uids@,
                items: items@,
            },
            Command::UidMove { uid, folder } => CommandView::UidMove {
                uid: uid@,
                folder: folder@,
            },
            Command::UidStore { uid, change } => CommandView::UidStore {
                uid: uid@,
                change: change@,
            },
            Command::UidExpunge { uid } => CommandView::UidExpunge { uid: uid@ },
            Command::Logout => CommandView::Logout,
            Command::OpenRelay { host, port, login, password } => CommandView::OpenRelay {
                host: host@,
                port: *port,
                login: login@,
                password: password@,
            },
            Command::Transmit { letter } => CommandView::Transmit { letter: letter@ },
        }
    }
}

/// The session with the IMAP server of an account.
pub open spec fn connect_command(account: AccountView) -> CommandView {
    CommandView::Connect {
        address: account.imap_host + ":"@ + numeral(account.imap_port as nat),
        domain: account.imap_host,
        login: account.login,
        password: account.password,
    }
}

/// The SMTP relay of an account.
pub open spec fn relay_command(account: AccountView) -> CommandView {
    CommandView::OpenRelay {
        host: account.smtp_host,
        port: account.smtp_port,
        login: account.login,
        password: account.password,
    }
}

/// Every folder.
pub open spec fn list_command() -> CommandView {
    CommandView::List { reference: ""@, pattern: "*"@ }
}

/// What is fetched of each message.
pub open spec fn summary_items() -> Seq<char> {
    "(UID FLAGS ENVELOPE)"@
}

/// The first `limit` messages of the folder.
pub open spec fn fetch_command(limit: nat) -> CommandView {
    CommandView::Fetch { range: "1:"@ + numeral(limit), items: summary_items() }
}

/// The numerals of a list of unique numbers.
pub open spec fn numerals(uids: Seq<u32>) -> Seq<Seq<char>> {
    Seq::new(uids.len(), |i: int| numeral(uids[i] as nat))
}

/// The messages with these unique numbers.
pub open spec fn fetch_found_command(uids: Seq<u32>) -> CommandView {
    CommandView::UidFetch { uids: joined(numerals(uids), ","@), items: summary_items() }
}

/// Moving a message.
pub open spec fn move_command(uid: u32, folder: Seq<char>) -> CommandView {
    CommandView::UidMove { uid: numeral(uid as nat), folder }
}

/// The flags that stand for labels: each with a backslash in front.
pub open spec fn flag_names(labels: Seq<Seq<char>>) -> Seq<Seq<char>> {
    Seq::new(labels.len(), |i: int| "\\"@ + labels[i])
}

/// Adding labels to a message, with its other flags kept.
pub open spec fn label_command(uid: u32, labels: Seq<Seq<char>>) -> CommandView {
    CommandView::UidStore {
        uid: numeral(uid as nat),
        change: "+FLAGS ("@ + joined(flag_names(labels), " "@) + ")"@,
    }
}

/// Marking a message as deleted.
pub open spec fn mark_deleted_command(uid: u32) -> CommandView {
    CommandView::UidStore { uid: numeral(uid as nat), change: "+FLAGS (\\Deleted)"@ }
}

/// Removing a message that is marked as deleted.
pub open spec fn expunge_command(uid: u32) -> CommandView {
    CommandView::UidExpunge { uid: numeral(uid as nat) }
}

/// What a search looks for: messages since a date, from an author, or both; or the answer to a
/// request that gives neither, or a date that does not have the form YYYY-MM-DD or has no month
/// of that number.
pub open spec fn search_criteria(since: Option<Seq<char>>, from: Option<Seq<char>>) -> Result<
    Seq<char>,
    ResponseView,
> {
    match (since, from) {
        (None, None) => Err(
            bad_request_reply("At least one of 'from' or 'since' query params is required"@),
        ),
        (None, Some(from)) => Ok(from_clause(from)),
        (Some(since), from) => if !is_calendar_form(since) || imap_date(since) is Err {
            Err(bad_request_reply("Invalid 'since' format, expected YYYY-MM-DD"@))
        } else {
            let date = imap_date(since)->Ok_0;
            match from {
                Some(from) => Ok("SINCE "@ + date + " "@ + from_clause(from)),
                None => Ok("SINCE "@ + date),
            }
        },
    }
}

/// The part of a search that names the author.
pub open spec fn from_clause(from: Seq<char>) -> Seq<char> {
    "FROM \""@ + from + "\""@
}

/// Opens the session with the IMAP server of an account.
pub fn imap_session(account: &AccountConfig) -> (command: Command)
    ensures
        command@ == connect_command(account@),
{
    Command::Connect {
        address: account.imap_host.clone().concat(":").concat(
            write_decimal(account.imap_port as u64).as_str(),
        ),
        domain: account.imap_host.clone(),
        login: account.login.clone(),
        password: account.password.clone(),
    }
}

/// How a login that the server refused is reported.
pub fn login_failure(reason: &str) -> (text: String)
    ensures
        text@ == "IMAP login failed: "@ + reason@,
{
    "IMAP login failed: ".to_string().concat(reason)
}

/// Prepares the SMTP relay of an account.
pub fn open_relay(account: &AccountConfig) -> (command: Command)
    ensures
        command@ == relay_command(account@),
{
    Command::OpenRelay {
        host: account.smtp_host.clone(),
        port: account.smtp_port,
        login: account.login.clone(),
        password: account.password.clone(),
    }
}

/// Selects a folder.
pub fn select(folder: &str) -> (command: Command)
    ensures
        command@ == (CommandView::Select { folder: folder@ }),
{
    Command::Select { folder: folder.to_string() }
}

/// Lists every folder.
pub fn list_all() -> (command: Command)
    ensures
        command@ == list_command(),
{
    Command::List { reference: "".to_string(), pattern: "*".to_string() }
}

/// Fetches the first `limit` messages of the folder.
pub fn fetch_first(limit: u32) -> (command: Command)
    ensures
        command@ == fetch_command(limit as nat),
{
    Command::Fetch {
        range: "1:".to_string().concat(write_decimal(limit as u64).as_str()),
        items: "(UID FLAGS ENVELOPE)".to_string(),
    }
}

/// Fetches the messages that a search found.
pub fn fetch_found(uids: &Vec<u32>) -> (command: Command)
    ensures
        command@ == fetch_found_command(uids@),
{
    let mut list: Vec<String> = Vec::new();
    let mut i: usize = 0;
    while i < uids.len()
        invariant
            i <= uids.len(),
            list@.len() == i,
            forall|j: int| 0 <= j < i ==> (#[trigger] list@[j])@ == numeral(uids@[j] as nat),
        decreases uids.len() - i,
    {
        list.push(write_decimal(uids[i] as u64));
        i += 1;
    }
    assert(texts(list@) =~= numerals(uids@));
    Command::UidFetch { uids: join(&list, ","), items: "(UID FLAGS ENVELOPE)".to_string() }
}

/// Moves a message.
pub fn move_message(uid: u32, folder: &str) -> (command: Command)
    ensures
        command@ == move_command(uid, folder@),
{
    Command::UidMove { uid: write_decimal(uid as u64), folder: folder.to_string() }
}

/// Adds labels to a message.
pub fn label_message(uid: u32, labels: &Vec<String>) -> (command: Command)
    ensures
        command@ == label_command(uid, texts(labels@)),
{
    let mut flags: Vec<String> = Vec::new();
    let mut i: usize = 0;
    while i < labels.len()
        invariant
            i <= labels.len(),
            flags@.len() == i,
            forall|j: int| 0 <= j < i ==> (#[trigger] flags@[j])@ == "\\"@ + labels@[j]@,
        decreases labels.len() - i,
    {
        flags.push("\\".to_string().concat(labels[i].as_str()));
        i += 1;
    }
    assert(texts(flags@) =~= flag_names(texts(labels@)));
    Command::UidStore {
        uid: write_decimal(uid as u64),
        change: "+FLAGS (".to_string().concat(join(&flags, " ").as_str()).concat(")"),
    }
}

/// Marks a message as deleted.
pub fn mark_deleted(uid: u32) -> (command: Command)
    ensures
        command@ == mark_deleted_command(uid),
{
    Command::UidStore {
        uid: write_decimal(uid as u64),
        change: "+FLAGS (\\Deleted)".to_string(),
    }
}

/// Removes a message that is marked as deleted.
pub fn expunge_message(uid: u32) -> (command: Command)
    ensures
        command@ == expunge_command(uid),
{
    Command::UidExpunge { uid: write_decimal(uid as u64) }
}

/// Puts together what a search looks for.
pub fn criteria(since: &Option<String>, from: &Option<String>) -> (criteria: Result<
    String,
    Response,
>)
    ensures
        match criteria {
            Ok(text) => search_criteria(optional_text(*since), optional_text(*from)) == Ok::<
                Seq<char>,
                ResponseView,
            >(text@),
            Err(response) => search_criteria(optional_text(*since), optional_text(*from)) == Err::<
                Seq<char>,
                ResponseView,
            >(response@),
        },
{
    if since.is_none() && from.is_none() {
        return Err(bad_request("At least one of 'from' or 'since' query params is required"));
    }
    let mut text = String::new();
    if let Some(since) = since {
        if !has_calendar_form(since.as_str()) {
            return Err(bad_request("Invalid 'since' format, expected YYYY-MM-DD"));
        }
        match parse_imap_date(since.as_str()) {
            Ok(date) => {
                text.append("SINCE ");
                text.append(date.as_str());
            },
            Err(_) => {
                return Err(bad_request("Invalid 'since' format, expected YYYY-MM-DD"));
            },
        }
    }
    if let Some(from) = from {
        let ghost before = text@;
        if !text.as_str().is_empty() {
            text.append(" ");
        }
        text.append("FROM \"");
        text.append(from.as_str());
        text.append("\"");
        proof {
            reveal_strlit("SINCE ");
            reveal_strlit(" ");
            if since is Some {
                assert(text@ =~= before + " "@ + from_clause(from@));
            } else {
                assert(text@ =~= from_clause(from@));
            }
        }
    }
    assert(since is Some && from is None ==> text@ =~= "SINCE "@ + imap_date(since->0@)->Ok_0);
    Ok(text)
}

/// The messages that are fetched after a search are those that it found: the list of numbers
/// in the command splits at its commas into the numerals of the numbers found, in their order.
pub proof fn found_messages_are_fetched(uids: Seq<u32>)
    requires
        uids.len() > 0,
    ensures
        fetch_found_command(uids) matches CommandView::UidFetch { uids: list, .. } && pieces(
            list,
            ',',
        ) == numerals(uids),
{
    reveal_strlit(",");
    assert(","@ =~= seq![',']);
    assert forall|i: int| 0 <= i < numerals(uids).len() implies !(#[trigger] numerals(
        uids,
    )[i]).contains(',') by {
        let digits = numeral(uids[i] as nat);
        numeral_reads_back(uids[i] as nat, 0);
        assert forall|j: int| 0 <= j < digits.len() implies digits[j] != ',' by {
            assert(is_digit(digits[j]));
        }
    }
    joined_texts_split_back(numerals(uids), ',');
}

/// A search needs a date or an author; it may have both. A date that is given must have the form
/// YYYY-MM-DD and one of the twelve months.
pub proof fn one_criterion_is_enough(since: Option<Seq<char>>, from: Option<Seq<char>>)
    ensures
        search_criteria(since, from) is Ok <==> (since is Some || from is Some) && (since
            matches Some(date) ==> is_calendar_form(date) && 1 <= month_number(date) <= 12),
{
    if let Some(date) = since {
        if is_calendar_form(date) {
            calendar_form_is_rewritten(date);
        }
    }
}

/// A search looks for all that was given and for nothing else: `SINCE` and the date, `FROM` and
/// the author in quotes, whoever that is, or both in this order with a space between them. A date
/// that is wrong, or no criterion at all, is answered as a fault of the request.
pub proof fn searches_look_for_all_that_was_given(
    since: Option<Seq<char>>,
    from: Option<Seq<char>>,
)
    ensures
        since is None && from is None ==> search_criteria(since, from) == Err::<
            Seq<char>,
            ResponseView,
        >(bad_request_reply("At least one of 'from' or 'since' query params is required"@)),
        since is None && from is Some ==> search_criteria(since, from) == Ok::<
            Seq<char>,
            ResponseView,
        >("FROM \""@ + from->0 + "\""@),
        since is Some && !(is_calendar_form(since->0) && imap_date(since->0) is Ok)
            ==> search_criteria(since, from) == Err::<Seq<char>, ResponseView>(
            bad_request_reply("Invalid 'since' format, expected YYYY-MM-DD"@),
        ),
        since is Some && is_calendar_form(since->0) && imap_date(since->0) is Ok && from is None
            ==> search_criteria(since, from) == Ok::<Seq<char>, ResponseView>(
            "SINCE "@ + imap_date(since->0)->Ok_0,
        ),
        since is Some && is_calendar_form(since->0) && imap_date(since->0) is Ok && from is Some
            ==> search_criteria(since, from) == Ok::<Seq<char>, ResponseView>(
            "SINCE "@ + imap_date(since->0)->Ok_0 + " FROM \""@ + from->0 + "\""@,
        ),
{
    reveal_strlit(" FROM \"");
    reveal_strlit("FROM \"");
    reveal_strlit(" ");
    assert(" FROM \""@ =~= " "@ + "FROM \""@);
    if since is Some && from is Some {
        let date = imap_date(since->0)->Ok_0;
        assert("SINCE "@ + date + " FROM \""@ + from->0 + "\""@ =~= "SINCE "@ + date + " "@ + (
        "FROM \""@ + from->0 + "\""@));
    }
}

/// With a date of the form YYYY-MM-DD, a search is for mail since that day, written as day, month
/// name and year; and whenever an author is given, the criteria end with that author in quotes.
pub proof fn searches_hold_the_date_and_end_with_the_author(
    year: Seq<char>,
    month: nat,
    day: nat,
    from: Option<Seq<char>>,
)
    requires
        year.len() == 4,
        forall|i: int| 0 <= i < 4 ==> '0' <= #[trigger] year[i] <= '9',
        1 <= month <= 12,
        1 <= day <= 31,
    ensures
        ({
            let since = year + seq!['-'] + two_digits(month) + seq!['-'] + two_digits(day);
            let criteria = search_criteria(Some(since), from);
            let start = "SINCE "@ + numeral(day) + "-"@ + month_name(month) + "-"@ + year;
            &&& criteria is Ok
            &&& from is None ==> criteria->Ok_0 == start
            &&& from matches Some(author) ==> criteria->Ok_0 == start + " FROM \""@ + author
                + "\""@
        }),
{
    let since = year + seq!['-'] + two_digits(month) + seq!['-'] + two_digits(day);
    let date = numeral(day) + "-"@ + month_name(month) + "-"@ + year;
    assert(!year.contains('-')) by {
        if year.contains('-') {
            let i = choose|i: int| 0 <= i < year.len() && year[i] == '-';
            assert('0' <= year[i] <= '9');
        }
    }
    calendar_date_is_rewritten(year, month, day);
    assert forall|i: int| 0 <= i < 10 implies if i == 4 || i == 7 {
        #[trigger] since[i] == '-'
    } else {
        is_digit(since[i])
    } by {
        if i < 4 {
            assert('0' <= year[i] <= '9');
        }
    }
    searches_look_for_all_that_was_given(Some(since), from);
    let start = "SINCE "@ + numeral(day) + "-"@ + month_name(month) + "-"@ + year;
    assert("SINCE "@ + date =~= start);
}

/// The session of an account is opened at its IMAP host and port, and the relay at its SMTP host
/// and port, both with its login and password.
pub proof fn accounts_are_served_by_their_own_servers(account: AccountView)
    ensures
        connect_command(account) == (CommandView::Connect {
            address: account.imap_host + ":"@ + numeral(account.imap_port as nat),
            domain: account.imap_host,
            login: account.login,
            password: account.password,
        }),
        relay_command(account) == (CommandView::OpenRelay {
            host: account.smtp_host,
            port: account.smtp_port,
            login: account.login,
            password: account.password,
        }),
{
}

/// Listing asks for every folder. Fetching asks for number, flags and envelope, of the messages
/// from the first up to the limit, or of exactly those that were found.
pub proof fn reading_commands_ask_for_what_is_shown(limit: nat, uids: Seq<u32>, i: int)
    requires
        0 <= i < uids.len(),
    ensures
        list_command() == (CommandView::List { reference: ""@, pattern: "*"@ }),
        fetch_command(limit) == (CommandView::Fetch {
            range: "1:"@ + numeral(limit),
            items: "(UID FLAGS ENVELOPE)"@,
        }),
        fetch_found_command(uids) matches CommandView::UidFetch { uids: list, items } && items
            == "(UID FLAGS ENVELOPE)"@ && pieces(list, ',').len() == uids.len() && pieces(
            list,
            ',',
        )[i] == numeral(uids[i] as nat),
{
    found_messages_are_fetched(uids);
}

/// A message is moved, marked and removed by its own number, and goes to the folder that is
/// named.
pub proof fn changes_name_the_message(uid: u32, folder: Seq<char>)
    ensures
        move_command(uid, folder) == (CommandView::UidMove { uid: numeral(uid as nat), folder }),
        mark_deleted_command(uid) == (CommandView::UidStore {
            uid: numeral(uid as nat),
            change: "+FLAGS (\\Deleted)"@,
        }),
        expunge_command(uid) == (CommandView::UidExpunge { uid: numeral(uid as nat) }),
{
}

/// Labels are added to the message of that number as flags, all of them in their order: between
/// the brackets stand the labels, each with a backslash in front, with single spaces between them.
pub proof fn every_label_is_added(uid: u32, labels: Seq<Seq<char>>, more: Seq<char>)
    ensures
        label_command(uid, Seq::empty()) == (CommandView::UidStore {
            uid: numeral(uid as nat),
            change: "+FLAGS ()"@,
        }),
        label_command(uid, seq![more]) == (CommandView::UidStore {
            uid: numeral(uid as nat),
            change: "+FLAGS (\\"@ + more + ")"@,
        }),
        labels.len() > 0 ==> exists|flags: Seq<char>|
            {
                &&& #[trigger] label_command(uid, labels) == (CommandView::UidStore {
                    uid: numeral(uid as nat),
                    change: "+FLAGS ("@ + flags + ")"@,
                })
                &&& label_command(uid, labels.push(more)) == (CommandView::UidStore {
                    uid: numeral(uid as nat),
                    change: "+FLAGS ("@ + flags + " \\"@ + more + ")"@,
                })
            },
{
    reveal_strlit("+FLAGS (");
    reveal_strlit("+FLAGS ()");
    reveal_strlit("+FLAGS (\\");
    reveal_strlit(" \\");
    reveal_strlit("\\");
    reveal_strlit(" ");
    reveal_strlit(")");
    let none = Seq::<Seq<char>>::empty();
    assert(flag_names(none) =~= Seq::<Seq<char>>::empty());
    assert("+FLAGS ("@ + Seq::<char>::empty() + ")"@ =~= "+FLAGS ()"@);
    assert(flag_names(seq![more]) =~= seq!["\\"@ + more]);
    assert("+FLAGS ("@ + ("\\"@ + more) + ")"@ =~= "+FLAGS (\\"@ + more + ")"@);
    if labels.len() > 0 {
        let flags = joined(flag_names(labels), " "@);
        let all = flag_names(labels.push(more));
        assert(all.drop_last() =~= flag_names(labels));
        assert(all.last() == "\\"@ + more);
        assert("+FLAGS ("@ + (flags + " "@ + ("\\"@ + more)) + ")"@ =~= "+FLAGS ("@ + flags
            + " \\"@ + more + ")"@);
        assert(label_command(uid, labels) == (CommandView::UidStore {
            uid: numeral(uid as nat),
            change: "+FLAGS ("@ + flags + ")"@,
        }));
    }
}

/// A command is what its fields hold, each under its name.
pub proof fn commands_show_their_fields(command: Command)
    ensures
        command matches Command::Connect { address, domain, login, password } ==> command@ == (
        CommandView::Connect {
            address: address@,
            domain: domain@,
            login: login@,
            password: password@,
        }),
        command matches Command::Select { folder } ==> command@ == (CommandView::Select {
            folder: folder@,
        }),
        command matches Command::List { reference, pattern } ==> command@ == (CommandView::List {
            reference: reference@,
            pattern: pattern@,
        }),
        command matches Command::Fetch { range, items } ==> command@ == (CommandView::Fetch {
            range: range@,
            items: items@,
        }),
        command matches Command::UidSearch { criteria } ==> command@ == (CommandView::UidSearch {
            criteria: criteria@,
        }),
        command matches Command::UidFetch { uids, items } ==> command@ == (
        CommandView::UidFetch { uids: uids@, items: items@ }),
        command matches Command::UidMove { uid, folder } ==> command@ == (CommandView::UidMove {
            uid: uid@,
            folder: folder@,
        }),
        command matches Command::UidStore { uid, change } ==> command@ == (
        CommandView::UidStore { uid: uid@, change: change@ }),
        command matches Command::UidExpunge { uid } ==> command@ == (CommandView::UidExpunge {
            uid: uid@,
        }),
        command is Logout <==> command@ is Logout,
        command matches Command::OpenRelay { host, port, login, password } ==> command@ == (
        CommandView::OpenRelay { host: host@, port, login: login@, password: password@ }),
        command matches Command::Transmit { letter } ==> command@ == (CommandView::Transmit {
            letter: letter@,
        }),
{
}

} // verus!
