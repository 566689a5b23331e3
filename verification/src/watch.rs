//! Watching mailboxes for new mail, and announcing it.

use vstd::prelude::*;

use crate::accounts::{AccountConfig, AccountView};
use crate::auth::{bearer, bearer_header};
use crate::command::{connect_command, imap_session, select, Command, CommandView};
use crate::config::Config;
use crate::decimal::numeral;
use crate::reply::{empty_body, fields, put, text_field, Value, ValueView};
use crate::text::optional_text;

verus! {

/// How long one session waits for news, in seconds.
pub const IDLE_SECONDS: u64 = 480;

/// How long to wait after a failure before connecting again, in seconds.
pub const PAUSE_SECONDS: u64 = 5;

/// What a watcher is doing.
#[derive(Clone, Copy, Debug, PartialEq, Eq, Structural)]
pub enum Stage {
    /// Connecting to the server.
    Connecting,
    /// Selecting the inbox.
    Selecting,
    /// Waiting for news.
    Idling,
    /// Announcing new mail.
    Announcing,
    /// Ending the session.
    Leaving,
    /// Waiting after a failure.
    Pausing,
}

/// What a server reports of a mailbox without being asked.
#[derive(Clone, Copy, Debug, PartialEq, Eq, Structural)]
pub enum News {
    /// How many messages the mailbox holds. Servers report this when a message has arrived.
    Messages(u32),
    /// How many of them have arrived lately. Servers report this when a message has arrived.
    Recent(u32),
    /// The message at this place was removed.
    Expunged(u32),
    /// The message at this place has changed, such as in its flags.
    Changed(u32),
    /// Anything else.
    Other,
}

/// How what a watcher was doing ended.
#[derive(Clone, Copy, Debug, PartialEq, Eq, Structural)]
pub enum WatchEvent {
    /// It was done; where the watcher waited for news, there were none.
    Done,
    /// There is news of the mailbox.
    NewData(News),
    /// It failed.
    Failed,
}

/// A watcher of the inbox of one account.
#[derive(Debug)]
pub struct Watcher {
    /// The name of the account.
    pub account: String,
    /// The account.
    pub settings: AccountConfig,
    /// Where new mail is announced.
    pub url: String,
    /// The token that is presented there.
    pub token: Option<String>,
    /// What the watcher is doing.
    pub stage: Stage,
}

/// What a watcher holds.
pub ghost struct WatcherView {
    pub account: Seq<char>,
    pub settings: AccountView,
    pub url: Seq<char>,
    pub token: Option<Seq<char>>,
    pub stage: Stage,
}

impl View for Watcher {
    type V = WatcherView;

    open spec fn view(&self) -> WatcherView {
        WatcherView {
            account: self.account@,
            settings: self.settings@,
            url: self.url@,
            token: optional_text(self.token),
            stage: self.stage,
        }
    }
}

/// A message to the webhook.
#[derive(Debug)]
pub struct Announcement {
    /// Where it goes.
    pub url: String,
    /// Its `Authorization` header.
    pub authorization: Option<String>,
    /// The fields of its body.
    pub body: Vec<(String, Value)>,
}

/// What an announcement holds.
pub ghost struct AnnouncementView {
    pub url: Seq<char>,
    pub authorization: Option<Seq<char>>,
    pub body: Seq<(Seq<char>, ValueView)>,
}

impl View for Announcement {
    type V = AnnouncementView;

    open spec fn view(&self) -> AnnouncementView {
        AnnouncementView {
            url: self.url@,
            authorization: optional_text(self.authorization),
            body: fields(self.body@),
        }
    }
}

/// What a watcher wants done.
#[derive(Debug)]
pub enum WatchAction {
    /// Carry out a command.
    Perform {
        /// The command.
        command: Command,
    },
    /// Wait for news in the selected folder.
    Idle {
        /// For how long at most.
        seconds: u64,
    },
    /// Send an announcement.
    Announce {
        /// The announcement.
        announcement: Announcement,
    },
    /// Do nothing for a while.
    Pause {
        /// For how long.
        seconds: u64,
    },
}

/// What an action holds.
pub ghost enum WatchActionView {
    Perform { command: CommandView },
    Idle { seconds: u64 },
    Announce { announcement: AnnouncementView },
    Pause { seconds: u64 },
}

impl View for WatchAction {
    type V = WatchActionView;

    open spec fn view(&self) -> WatchActionView {
        match self {
            WatchAction::Perform { command } => WatchActionView::Perform { command: command@ },
            WatchAction::Idle { seconds } => WatchActionView::Idle { seconds: *seconds },
            WatchAction::Announce { announcement } => WatchActionView::Announce {
                announcement: announcement@,
            },
            WatchAction::Pause { seconds } => WatchActionView::Pause { seconds: *seconds },
        }
    }
}

/// The announcement of new mail.
pub open spec fn new_mail(watcher: WatcherView) -> AnnouncementView {
    AnnouncementView {
        url: watcher.url,
        authorization: match watcher.token {
            Some(token) => Some(bearer(token)),
            None => None,
        },
        body: seq![
            text_field("event"@, "new_email"@),
            text_field("account"@, watcher.account),
            text_field("folder"@, "INBOX"@),
        ],
    }
}

/// What a watcher wants done at its stage.
pub open spec fn wanted(watcher: WatcherView) -> WatchActionView {
    match watcher.stage {
        Stage::Connecting => WatchActionView::Perform {
            command: connect_command(watcher.settings),
        },
        Stage::Selecting => WatchActionView::Perform {
            command: CommandView::Select { folder: "INBOX"@ },
        },
        Stage::Idling => WatchActionView::Idle { seconds: IDLE_SECONDS },
        Stage::Announcing => WatchActionView::Announce { announcement: new_mail(watcher) },
        Stage::Leaving => WatchActionView::Perform { command: CommandView::Logout },
        Stage::Pausing => WatchActionView::Pause { seconds: PAUSE_SECONDS },
    }
}

/// Whether news tell of a new message: they count the messages, or those that arrived lately,
/// and there are some.
pub open spec fn tells_of_a_message(news: News) -> bool {
    match news {
        News::Messages(n) => n > 0,
        News::Recent(n) => n > 0,
        _ => false,
    }
}

/// Whether an event announces a new message.
pub open spec fn announces_a_message(event: WatchEvent) -> bool {
    event matches WatchEvent::NewData(news) && tells_of_a_message(news)
}

/// The stage that follows. News of a new message lead to an announcement, others to the end of
/// the session. A session that cannot be opened, or breaks while it waits, is
/// followed by a pause; how an announcement or the end of a session went makes no difference.
pub open spec fn stage_after(stage: Stage, event: WatchEvent) -> Stage {
    match (stage, event) {
        (Stage::Announcing, _) => Stage::Leaving,
        (Stage::Leaving, _) => Stage::Connecting,
        (Stage::Pausing, _) => Stage::Connecting,
        (_, WatchEvent::Failed) => Stage::Pausing,
        (Stage::Connecting, _) => Stage::Selecting,
        (Stage::Selecting, _) => Stage::Idling,
        (Stage::Idling, event) => if announces_a_message(event) {
            Stage::Announcing
        } else {
            Stage::Leaving
        },
    }
}

/// Whether news tell of a new message.
fn is_new_message(news: News) -> (new: bool)
    ensures
        new == tells_of_a_message(news),
{
    match news {
        News::Messages(n) => n > 0,
        News::Recent(n) => n > 0,
        _ => false,
    }
}

impl Watcher {
    /// The announcement of new mail.
    fn announcement(&self) -> (announcement: Announcement)
        ensures
            announcement@ == new_mail(self@),
    {
        let mut body = empty_body();
        put(&mut body, "event", Value::Text("new_email".to_string()));
        put(&mut body, "account", Value::Text(self.account.clone()));
        put(&mut body, "folder", Value::Text("INBOX".to_string()));
        assert(fields(body@) =~= new_mail(self@).body);
        let authorization = match &self.token {
            Some(token) => Some(bearer_header(token.as_str())),
            None => None,
        };
        Announcement { url: self.url.clone(), authorization, body }
    }

    /// What the watcher wants done.
    pub fn action(&self) -> (action: WatchAction)
        ensures
            action@ == wanted(self@),
    {
        match self.stage {
            Stage::Connecting => WatchAction::Perform { command: imap_session(&self.settings) },
            Stage::Selecting => WatchAction::Perform { command: select("INBOX") },
            Stage::Idling => WatchAction::Idle { seconds: IDLE_SECONDS },
            Stage::Announcing => WatchAction::Announce { announcement: self.announcement() },
            Stage::Leaving => WatchAction::Perform { command: Command::Logout },
            Stage::Pausing => WatchAction::Pause { seconds: PAUSE_SECONDS },
        }
    }

    /// Goes on after what the watcher wanted done ended.
    pub fn run_idle(&mut self, event: WatchEvent)
        ensures
            final(self)@ == (WatcherView {
                stage: stage_after(old(self)@.stage, event),
                ..old(self)@
            }),
    {
        self.stage = match (self.stage, event) {
            (Stage::Announcing, _) => Stage::Leaving,
            (Stage::Leaving, _) => Stage::Connecting,
            (Stage::Pausing, _) => Stage::Connecting,
            (_, WatchEvent::Failed) => Stage::Pausing,
            (Stage::Connecting, _) => Stage::Selecting,
            (Stage::Selecting, _) => Stage::Idling,
            (Stage::Idling, WatchEvent::NewData(news)) => {
                if is_new_message(news) {
                    Stage::Announcing
                } else {
                    Stage::Leaving
                }
            },
            (Stage::Idling, _) => Stage::Leaving,
        };
    }
}

/// Whether `watcher` is a fresh watcher of the account `name`.
pub open spec fn watches(
    watcher: WatcherView,
    name: Seq<char>,
    settings: AccountView,
    url: Seq<char>,
    token: Option<Seq<char>>,
) -> bool {
    watcher == (WatcherView { account: name, settings, url, token, stage: Stage::Connecting })
}

/// One watcher for each account, where there is a webhook; otherwise none.
pub fn start_idle_watchers(cfg: &Config) -> (watchers: Vec<Watcher>)
    ensures
        cfg@.webhook_url is None ==> watchers@.len() == 0,
        cfg@.webhook_url matches Some(url) ==> {
            &&& watchers@.len() == cfg.accounts.order().len()
            &&& forall|i: int|
                0 <= i < watchers@.len() ==> watches(
                    (#[trigger] watchers@[i])@,
                    cfg.accounts.order()[i],
                    cfg@.accounts[cfg.accounts.order()[i]],
                    url,
                    cfg@.webhook_token,
                )
        },
        cfg.accounts.order().no_duplicates(),
        forall|name: Seq<char>| #[trigger]
            cfg@.accounts.contains_key(name) <==> cfg.accounts.order().contains(name),
{
    let names: Vec<String> = cfg.accounts.names();
    let mut watchers: Vec<Watcher> = Vec::new();
    let url = match &cfg.webhook_url {
        Some(url) => url,
        None => return watchers,
    };
    let mut i: usize = 0;
    while i < cfg.accounts.len()
        invariant
            i <= cfg.accounts.order().len(),
            watchers@.len() == i,
            forall|j: int|
                0 <= j < i ==> watches(
                    (#[trigger] watchers@[j])@,
                    cfg.accounts.order()[j],
                    cfg@.accounts[cfg.accounts.order()[j]],
                    url@,
                    cfg@.webhook_token,
                ),
        decreases cfg.accounts.order().len() - i,
    {
        let (name, settings) = cfg.accounts.entry(i);
        let token = match &cfg.webhook_token {
            Some(token) => Some(token.clone()),
            None => None,
        };
        watchers.push(
            Watcher {
                account: name.clone(),
                settings: settings.clone(),
                url: url.clone(),
                token,
                stage: Stage::Connecting,
            },
        );
        i += 1;
    }
    watchers
}

/// New mail is announced exactly when a watcher waits for news and those that come tell of a new
/// message; any other news, such as of a message that was removed or whose flags changed, end the
/// session without an announcement.
pub proof fn news_is_announced(stage: Stage, event: WatchEvent)
    ensures
        stage_after(stage, event) == Stage::Announcing <==> stage == Stage::Idling
            && announces_a_message(event),
        event is NewData && !announces_a_message(event) ==> stage_after(Stage::Idling, event)
            == Stage::Leaving,
{
}

/// A watcher pauses exactly when it failed to connect, to select the inbox or to wait; it then
/// connects again, as it does at once after any other session.
pub proof fn failures_are_followed_by_a_pause(stage: Stage, event: WatchEvent)
    ensures
        stage_after(stage, event) == Stage::Pausing <==> event == WatchEvent::Failed && (stage
            == Stage::Connecting || stage == Stage::Selecting || stage == Stage::Idling),
        stage_after(Stage::Pausing, event) == Stage::Connecting,
        stage_after(Stage::Leaving, event) == Stage::Connecting,
{
}

/// The stage after a number of events.
pub open spec fn stage_later(stage: Stage, events: Seq<WatchEvent>) -> Stage
    decreases events.len(),
{
    if events.len() == 0 {
        stage
    } else {
        stage_later(stage_after(stage, events[0]), events.drop_first())
    }
}

/// A watcher never stops: whatever happens, it connects anew within five events.
pub proof fn watching_never_ends(stage: Stage, events: Seq<WatchEvent>)
    requires
        events.len() >= 5,
    ensures
        exists|n: int|
            1 <= n <= 5 && #[trigger] stage_later(stage, events.take(n)) == Stage::Connecting,
{
    reveal_with_fuel(stage_later, 6);
    let e0 = stage_after(stage, events[0]);
    let e1 = stage_after(e0, events[1]);
    let e2 = stage_after(e1, events[2]);
    let e3 = stage_after(e2, events[3]);
    let e4 = stage_after(e3, events[4]);
    assert(stage_later(stage, events.take(1)) == e0);
    assert(stage_later(stage, events.take(2)) == e1);
    assert(stage_later(stage, events.take(3)) == e2);
    assert(stage_later(stage, events.take(4)) == e3);
    assert(stage_later(stage, events.take(5)) == e4);
}

/// Any count of messages, or of messages that arrived lately, above zero makes a waiting watcher
/// announce new mail; a count of zero, a message that was removed or changed, and any other news
/// do not.
pub proof fn any_count_above_zero_is_announced(n: u32)
    ensures
        n > 0 ==> {
            &&& stage_after(Stage::Idling, WatchEvent::NewData(News::Messages(n)))
                == Stage::Announcing
            &&& stage_after(Stage::Idling, WatchEvent::NewData(News::Recent(n)))
                == Stage::Announcing
        },
        stage_after(Stage::Idling, WatchEvent::NewData(News::Messages(0))) == Stage::Leaving,
        stage_after(Stage::Idling, WatchEvent::NewData(News::Recent(0))) == Stage::Leaving,
        stage_after(Stage::Idling, WatchEvent::NewData(News::Expunged(n))) == Stage::Leaving,
        stage_after(Stage::Idling, WatchEvent::NewData(News::Changed(n))) == Stage::Leaving,
        stage_after(Stage::Idling, WatchEvent::NewData(News::Other)) == Stage::Leaving,
        stage_after(Stage::Idling, WatchEvent::Done) == Stage::Leaving,
        tells_of_a_message(News::Messages(n)) <==> n > 0,
        tells_of_a_message(News::Recent(n)) <==> n > 0,
        !tells_of_a_message(News::Expunged(n)),
        !tells_of_a_message(News::Changed(n)),
        !tells_of_a_message(News::Other),
{
}

/// A session that does not fail is connected, then selected, then waits; an announcement, however
/// it went, is followed by the end of the session, and that, however it went, by the next one.
pub proof fn sessions_go_in_their_order(event: WatchEvent)
    ensures
        event != WatchEvent::Failed ==> stage_after(Stage::Connecting, event) == Stage::Selecting,
        event != WatchEvent::Failed ==> stage_after(Stage::Selecting, event) == Stage::Idling,
        stage_after(Stage::Connecting, WatchEvent::Failed) == Stage::Pausing,
        stage_after(Stage::Selecting, WatchEvent::Failed) == Stage::Pausing,
        stage_after(Stage::Idling, WatchEvent::Failed) == Stage::Pausing,
        stage_after(Stage::Announcing, event) == Stage::Leaving,
        stage_after(Stage::Leaving, event) == Stage::Connecting,
        stage_after(Stage::Pausing, event) == Stage::Connecting,
{
}

/// A watcher connects to the IMAP server of its account, selects `INBOX`, waits there for 480
/// seconds at most, ends the session, and pauses for 5 seconds after a failure.
pub proof fn watchers_watch_the_inbox_of_their_account(watcher: WatcherView)
    ensures
        watcher.stage == Stage::Connecting ==> wanted(watcher) == (WatchActionView::Perform {
            command: CommandView::Connect {
                address: watcher.settings.imap_host + ":"@ + numeral(
                    watcher.settings.imap_port as nat,
                ),
                domain: watcher.settings.imap_host,
                login: watcher.settings.login,
                password: watcher.settings.password,
            },
        }),
        watcher.stage == Stage::Selecting ==> wanted(watcher) == (WatchActionView::Perform {
            command: CommandView::Select { folder: "INBOX"@ },
        }),
        watcher.stage == Stage::Idling ==> wanted(watcher) == (WatchActionView::Idle {
            seconds: 480,
        }),
        watcher.stage == Stage::Leaving ==> wanted(watcher) == (WatchActionView::Perform {
            command: CommandView::Logout,
        }),
        watcher.stage == Stage::Pausing ==> wanted(watcher) == (WatchActionView::Pause {
            seconds: 5,
        }),
{
}

/// An announcement goes to the watcher's webhook, with its token where it has one, and says that
/// there is a new email in the inbox of its account.
pub proof fn announcements_name_the_account(watcher: WatcherView)
    requires
        watcher.stage == Stage::Announcing,
    ensures
        ({
            let sent = wanted(watcher)->announcement;
            &&& wanted(watcher) is Announce
            &&& sent.url == watcher.url
            &&& watcher.token is None ==> sent.authorization is None
            &&& watcher.token matches Some(token) ==> sent.authorization == Some(
                "Bearer "@ + token,
            )
            &&& sent.body == seq![
                ("event"@, ValueView::Text("new_email"@)),
                ("account"@, ValueView::Text(watcher.account)),
                ("folder"@, ValueView::Text("INBOX"@)),
            ]
        }),
{
}

/// A fresh watcher of an account has its name and settings, the webhook's address and token, and
/// starts by connecting.
pub proof fn fresh_watchers_start_by_connecting(
    watcher: WatcherView,
    name: Seq<char>,
    settings: AccountView,
    url: Seq<char>,
    token: Option<Seq<char>>,
)
    ensures
        watches(watcher, name, settings, url, token) <==> {
            &&& watcher.account == name
            &&& watcher.settings == settings
            &&& watcher.url == url
            &&& watcher.token == token
            &&& watcher.stage == Stage::Connecting
        },
{
}

/// Watchers, announcements and actions are what their fields hold, each under its name.
pub proof fn watchers_show_their_fields(
    watcher: Watcher,
    announcement: Announcement,
    action: WatchAction,
)
    ensures
        watcher@.account == watcher.account@,
        watcher@.settings == watcher.settings@,
        watcher@.url == watcher.url@,
        watcher@.token == optional_text(watcher.token),
        watcher@.stage == watcher.stage,
        announcement@.url == announcement.url@,
        announcement@.authorization == optional_text(announcement.authorization),
        announcement@.body.len() == announcement.body@.len(),
        forall|i: int|
            0 <= i < announcement.body@.len() ==> (#[trigger] announcement@.body[i]).0
                == announcement.body@[i].0@ && announcement@.body[i].1 == announcement.body@[i].1@,
        action matches WatchAction::Perform { command } ==> action@ == (WatchActionView::Perform {
            command: command@,
        }),
        action matches WatchAction::Idle { seconds } ==> action@ == (WatchActionView::Idle {
            seconds,
        }),
        action matches WatchAction::Announce { announcement } ==> action@ == (
        WatchActionView::Announce { announcement: announcement@ }),
        action matches WatchAction::Pause { seconds } ==> action@ == (WatchActionView::Pause {
            seconds,
        }),
{
}

} // verus!
