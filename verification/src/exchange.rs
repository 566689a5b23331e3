//! A request on its way: which command comes next, and what the caller is answered.

use vstd::prelude::*;

use crate::command::{
    expunge_command, expunge_message, fetch_command, fetch_first, fetch_found,
    fetch_found_command, label_command, label_message, list_all, list_command, mark_deleted,
    mark_deleted_command, move_command, move_message, select, Command, CommandView,
};
use crate::outgoing::Letter;
use crate::reply::{
    bad_request, bad_request_reply, deleted, deleted_reply, emails_listed, emails_reply,
    failure_reply, folders_listed, folders_reply, found, found_reply, imap_err, labelled,
    labelled_reply, moved, moved_reply, nothing_found, nothing_found_reply, sent, sent_reply,
    Response, ResponseView,
};
use crate::summary::{fetched_views, summaries, summarize_all, FetchedMessage, FetchedView};
use crate::text::texts;

verus! {

/// What a server returned. A command that returns nothing of a kind leaves that list empty.
#[derive(Debug)]
pub struct Answer {
    /// The names of the folders that were listed.
    pub folders: Vec<String>,
    /// The unique numbers that a search found, in any order.
    pub uids: Vec<u32>,
    /// The messages that were fetched.
    pub messages: Vec<FetchedMessage>,
}

/// What an answer holds.
pub ghost struct AnswerView {
    pub folders: Seq<Seq<char>>,
    pub uids: Seq<u32>,
    pub messages: Seq<FetchedView>,
}

impl View for Answer {
    type V = AnswerView;

    open spec fn view(&self) -> AnswerView {
        AnswerView {
            folders: texts(self.folders@),
            uids: self.uids@,
            messages: fetched_views(self.messages@),
        }
    }
}

impl Answer {
    /// The answer of a command that returns nothing.
    pub fn nothing() -> (answer: Answer)
        ensures
            answer@ == (AnswerView {
                folders: Seq::empty(),
                uids: Seq::empty(),
                messages: Seq::empty(),
            }),
    {
        let answer = Answer { folders: Vec::new(), uids: Vec::new(), messages: Vec::new() };
        assert(answer@.folders =~= Seq::<Seq<char>>::empty());
        assert(answer@.messages =~= Seq::<FetchedView>::empty());
        answer
    }
}

/// How a command ended.
#[derive(Debug)]
pub enum Event {
    /// The server did what it was asked.
    Answered(Answer),
    /// It did not, for this reason.
    Failed(String),
}

/// What an event holds.
pub ghost enum EventView {
    Answered(AnswerView),
    Failed(Seq<char>),
}

impl View for Event {
    type V = EventView;

    open spec fn view(&self) -> EventView {
        match self {
            Event::Answered(answer) => EventView::Answered(answer@),
            Event::Failed(reason) => EventView::Failed(reason@),
        }
    }
}

/// What is to be done in a folder.
#[derive(Debug)]
pub enum Work {
    /// List its first messages.
    Emails {
        /// The account, for the answer.
        account: String,
        /// The folder.
        folder: String,
        /// How many messages at most.
        limit: u32,
    },
    /// Search it.
    Search {
        /// The account, for the answer.
        account: String,
        /// The folder.
        folder: String,
        /// What to look for.
        criteria: String,
    },
    /// Move a message out of it.
    Move {
        /// The folder.
        folder: String,
        /// The message.
        uid: u32,
        /// The folder that the message goes to.
        target: String,
    },
    /// Label a message in it.
    Labels {
        /// The folder.
        folder: String,
        /// The message.
        uid: u32,
        /// The labels.
        labels: Vec<String>,
    },
    /// Delete a message in it.
    Delete {
        /// The folder.
        folder: String,
        /// The message.
        uid: u32,
    },
}

/// What a piece of work holds.
pub ghost enum WorkView {
    Emails { account: Seq<char>, folder: Seq<char>, limit: nat },
    Search { account: Seq<char>, folder: Seq<char>, criteria: Seq<char> },
    Move { folder: Seq<char>, uid: u32, target: Seq<char> },
    Labels { folder: Seq<char>, uid: u32, labels: Seq<Seq<char>> },
    Delete { folder: Seq<char>, uid: u32 },
}

impl View for Work {
    type V = WorkView;

    open spec fn view(&self) -> WorkView {
        match self {
            Work::Emails { account, folder, limit } => WorkView::Emails {
                account: account@,
                folder: folder@,
                limit: *limit as nat,
            },
            Work::Search { account, folder, criteria } => WorkView::Search {
                account: account@,
                folder: folder@,
                criteria: criteria@,
            },
            Work::Move { folder, uid, target } => WorkView::Move {
                folder: folder@,
                uid: *uid,
                target: target@,
            },
            Work::Labels { folder, uid, labels } => WorkView::Labels {
                folder: folder@,
                uid: *uid,
                labels: texts(labels@),
            },
            Work::Delete { folder, uid } => WorkView::Delete { folder: folder@, uid: *uid },
        }
    }
}

/// Where a request stands: the command that was issued last, and what is still known of the
/// request.
#[derive(Debug)]
pub enum Exchange {
    /// Connecting, to list the folders of an account.
    ConnectingToList {
        /// The account.
        account: String,
    },
    /// Listing the folders of an account.
    Listing {
        /// The account.
        account: String,
    },
    /// Connecting, to work in a folder.
    Connecting {
        /// The work.
        work: Work,
    },
    /// Selecting the folder to work in.
    Selecting {
        /// The work.
        work: Work,
    },
    /// Fetching the first messages of a folder.
    Fetching {
        /// The account.
        account: String,
        /// The folder.
        folder: String,
    },
    /// Searching a folder.
    Searching {
        /// The account.
        account: String,
        /// The folder.
        folder: String,
        /// What is looked for.
        criteria: String,
    },
    /// Fetching the messages that a search found.
    FetchingFound {
        /// The account.
        account: String,
        /// The folder.
        folder: String,
        /// What was looked for.
        criteria: String,
    },
    /// Moving a message.
    Moving {
        /// The folder that the message goes to.
        target: String,
    },
    /// Labelling a message.
    Labelling {
        /// The labels.
        labels: Vec<String>,
    },
    /// Marking a message as deleted.
    Marking {
        /// The message.
        uid: u32,
    },
    /// Removing a message that is marked as deleted.
    Expunging,
    /// Ending the session, with the answer ready.
    Leaving {
        /// The answer.
        response: Response,
    },
    /// Preparing the relay for a letter.
    OpeningRelay {
        /// The account.
        account: String,
        /// The letter.
        letter: Letter,
    },
    /// Sending a letter.
    Transmitting {
        /// The account.
        account: String,
    },
}

/// What an exchange holds.
pub ghost enum ExchangeView {
    ConnectingToList { account: Seq<char> },
    Listing { account: Seq<char> },
    Connecting { work: WorkView },
    Selecting { work: WorkView },
    Fetching { account: Seq<char>, folder: Seq<char> },
    Searching { account: Seq<char>, folder: Seq<char>, criteria: Seq<char> },
    FetchingFound { account: Seq<char>, folder: Seq<char>, criteria: Seq<char> },
    Moving { target: Seq<char> },
    Labelling { labels: Seq<Seq<char>> },
    Marking { uid: u32 },
    Expunging,
    Leaving { response: ResponseView },
    OpeningRelay { account: Seq<char>, letter: (Option<Seq<char>>, Seq<Seq<char>>, Seq<u8>) },
    Transmitting { account: Seq<char> },
}

impl View for Exchange {
    type V = ExchangeView;

    open spec fn view(&self) -> ExchangeView {
        match self {
            Exchange::ConnectingToList { account } => ExchangeView::ConnectingToList {
                account: account@,
            },
            Exchange::Listing { account } => ExchangeView::Listing { account: account@ },
            Exchange::Connecting { work } => ExchangeView::Connecting { work: work@ },
            Exchange::Selecting { work } => ExchangeView::Selecting { work: work@ },
            Exchange::Fetching { account, folder } => ExchangeView::Fetching {
                account: account@,
                folder: folder@,
            },
            Exchange::Searching { account, folder, criteria } => ExchangeView::Searching {
                account: account@,
                folder: folder@,
                criteria: criteria@,
            },
            Exchange::FetchingFound { account, folder, criteria } => ExchangeView::FetchingFound {
                account: account@,
                folder: folder@,
                criteria: criteria@,
            },
            Exchange::Moving { target } => ExchangeView::Moving { target: target@ },
            Exchange::Labelling { labels } => ExchangeView::Labelling { labels: texts(labels@) },
            Exchange::Marking { uid } => ExchangeView::Marking { uid: *uid },
            Exchange::Expunging => ExchangeView::Expunging,
            Exchange::Leaving { response } => ExchangeView::Leaving { response: response@ },
            Exchange::OpeningRelay { account, letter } => ExchangeView::OpeningRelay {
                account: account@,
                letter: letter@,
            },
            Exchange::Transmitting { account } => ExchangeView::Transmitting {
                account: account@,
            },
        }
    }
}

/// What to do next with a request.
#[derive(Debug)]
pub enum Step {
    /// Carry out the command, and resume the exchange with how it ended.
    Perform {
        /// The command.
        command: Command,
        /// The exchange.
        exchange: Exchange,
    },
    /// Answer the caller. The request is done.
    Reply {
        /// The answer.
        response: Response,
    },
}

/// What a step holds.
pub ghost enum StepView {
    Perform { command: CommandView, exchange: ExchangeView },
    Reply { response: ResponseView },
}

impl View for Step {
    type V = StepView;

    open spec fn view(&self) -> StepView {
        match self {
            Step::Perform { command, exchange } => StepView::Perform {
                command: command@,
                exchange: exchange@,
            },
            Step::Reply { response } => StepView::Reply { response: response@ },
        }
    }
}

/// The folder to work in.
pub open spec fn folder_of_work(work: WorkView) -> Seq<char> {
    match work {
        WorkView::Emails { folder, .. } => folder,
        WorkView::Search { folder, .. } => folder,
        WorkView::Move { folder, .. } => folder,
        WorkView::Labels { folder, .. } => folder,
        WorkView::Delete { folder, .. } => folder,
    }
}

/// The first command of a piece of work, once its folder is selected.
pub open spec fn work_step(work: WorkView) -> StepView {
    match work {
        WorkView::Emails { account, folder, limit } => StepView::Perform {
            command: fetch_command(limit),
            exchange: ExchangeView::Fetching { account, folder },
        },
        WorkView::Search { account, folder, criteria } => StepView::Perform {
            command: CommandView::UidSearch { criteria },
            exchange: ExchangeView::Searching { account, folder, criteria },
        },
        WorkView::Move { uid, target, .. } => StepView::Perform {
            command: move_command(uid, target),
            exchange: ExchangeView::Moving { target },
        },
        WorkView::Labels { uid, labels, .. } => StepView::Perform {
            command: label_command(uid, labels),
            exchange: ExchangeView::Labelling { labels },
        },
        WorkView::Delete { uid, .. } => StepView::Perform {
            command: mark_deleted_command(uid),
            exchange: ExchangeView::Marking { uid },
        },
    }
}

/// Ending the session, with the answer ready.
pub open spec fn leave_step(response: ResponseView) -> StepView {
    StepView::Perform {
        command: CommandView::Logout,
        exchange: ExchangeView::Leaving { response },
    }
}

/// What follows when the last command was answered.
pub open spec fn answered_step(exchange: ExchangeView, answer: AnswerView) -> StepView {
    match exchange {
        ExchangeView::ConnectingToList { account } => StepView::Perform {
            command: list_command(),
            exchange: ExchangeView::Listing { account },
        },
        ExchangeView::Listing { account } => leave_step(folders_reply(account, answer.folders)),
        ExchangeView::Connecting { work } => StepView::Perform {
            command: CommandView::Select { folder: folder_of_work(work) },
            exchange: ExchangeView::Selecting { work },
        },
        ExchangeView::Selecting { work } => work_step(work),
        ExchangeView::Fetching { account, folder } => leave_step(
            emails_reply(account, folder, summaries(answer.messages)),
        ),
        ExchangeView::Searching { account, folder, criteria } => if answer.uids.len() == 0 {
            leave_step(nothing_found_reply(account, folder, criteria))
        } else {
            StepView::Perform {
                command: fetch_found_command(answer.uids),
                exchange: ExchangeView::FetchingFound { account, folder, criteria },
            }
        },
        ExchangeView::FetchingFound { account, folder, criteria } => leave_step(
            found_reply(account, folder, criteria, summaries(answer.messages)),
        ),
        ExchangeView::Moving { target } => leave_step(moved_reply(target)),
        ExchangeView::Labelling { labels } => leave_step(labelled_reply(labels)),
        ExchangeView::Marking { uid } => StepView::Perform {
            command: expunge_command(uid),
            exchange: ExchangeView::Expunging,
        },
        ExchangeView::Expunging => leave_step(deleted_reply()),
        ExchangeView::Leaving { response } => StepView::Reply { response },
        ExchangeView::OpeningRelay { account, letter } => StepView::Perform {
            command: CommandView::Transmit { letter },
            exchange: ExchangeView::Transmitting { account },
        },
        ExchangeView::Transmitting { account } => StepView::Reply { response: sent_reply(account) },
    }
}

/// What follows when the last command failed: the caller is told the reason. Only a session
/// that could not be ended makes no difference.
pub open spec fn failed_step(exchange: ExchangeView, reason: Seq<char>) -> StepView {
    match exchange {
        ExchangeView::Leaving { response } => StepView::Reply { response },
        ExchangeView::OpeningRelay { .. } => StepView::Reply {
            response: bad_request_reply(reason),
        },
        _ => StepView::Reply { response: failure_reply(reason) },
    }
}

/// What follows an event.
pub open spec fn next_step(exchange: ExchangeView, event: EventView) -> StepView {
    match event {
        EventView::Answered(answer) => answered_step(exchange, answer),
        EventView::Failed(reason) => failed_step(exchange, reason),
    }
}

/// Ends the session, with the answer ready.
fn leave(response: Response) -> (step: Step)
    ensures
        step@ == leave_step(response@),
{
    Step::Perform { command: Command::Logout, exchange: Exchange::Leaving { response } }
}

impl Work {
    /// Selects the folder to work in.
    fn select_folder(&self) -> (command: Command)
        ensures
            command@ == (CommandView::Select { folder: folder_of_work(self@) }),
    {
        match self {
            Work::Emails { folder, .. } => select(folder.as_str()),
            Work::Search { folder, .. } => select(folder.as_str()),
            Work::Move { folder, .. } => select(folder.as_str()),
            Work::Labels { folder, .. } => select(folder.as_str()),
            Work::Delete { folder, .. } => select(folder.as_str()),
        }
    }

    /// Starts the work, once its folder is selected.
    fn start(self) -> (step: Step)
        ensures
            step@ == work_step(self@),
    {
        match self {
            Work::Emails { account, folder, limit } => Step::Perform {
                command: fetch_first(limit),
                exchange: Exchange::Fetching { account, folder },
            },
            Work::Search { account, folder, criteria } => Step::Perform {
                command: Command::UidSearch { criteria: criteria.clone() },
                exchange: Exchange::Searching { account, folder, criteria },
            },
            Work::Move { uid, target, .. } => Step::Perform {
                command: move_message(uid, target.as_str()),
                exchange: Exchange::Moving { target },
            },
            Work::Labels { uid, labels, .. } => Step::Perform {
                command: label_message(uid, &labels),
                exchange: Exchange::Labelling { labels },
            },
            Work::Delete { uid, .. } => Step::Perform {
                command: mark_deleted(uid),
                exchange: Exchange::Marking { uid },
            },
        }
    }
}

impl Exchange {
    /// Goes on after the last command was answered.
    fn answered(self, answer: Answer) -> (step: Step)
        ensures
            step@ == answered_step(self@, answer@),
    {
        match self {
            Exchange::ConnectingToList { account } => Step::Perform {
                command: list_all(),
                exchange: Exchange::Listing { account },
            },
            Exchange::Listing { account } => leave(folders_listed(account, answer.folders)),
            Exchange::Connecting { work } => Step::Perform {
                command: work.select_folder(),
                exchange: Exchange::Selecting { work },
            },
            Exchange::Selecting { work } => work.start(),
            Exchange::Fetching { account, folder } => leave(
                emails_listed(account, folder, summarize_all(&answer.messages)),
            ),
            Exchange::Searching { account, folder, criteria } => {
                if answer.uids.len() == 0 {
                    leave(nothing_found(account, folder, criteria))
                } else {
                    Step::Perform {
                        command: fetch_found(&answer.uids),
                        exchange: Exchange::FetchingFound { account, folder, criteria },
                    }
                }
            },
            Exchange::FetchingFound { account, folder, criteria } => leave(
                found(account, folder, criteria, summarize_all(&answer.messages)),
            ),
            Exchange::Moving { target } => leave(moved(target)),
            Exchange::Labelling { labels } => leave(labelled(labels)),
            Exchange::Marking { uid } => Step::Perform {
                command: expunge_message(uid),
                exchange: Exchange::Expunging,
            },
            Exchange::Expunging => leave(deleted()),
            Exchange::Leaving { response } => Step::Reply { response },
            Exchange::OpeningRelay { account, letter } => Step::Perform {
                command: Command::Transmit { letter },
                exchange: Exchange::Transmitting { account },
            },
            Exchange::Transmitting { account } => Step::Reply { response: sent(account) },
        }
    }

    /// Goes on after the last command ended.
    pub fn resume(self, event: Event) -> (step: Step)
        ensures
            step@ == next_step(self@, event@),
    {
        match event {
            Event::Answered(answer) => self.answered(answer),
            Event::Failed(reason) => match self {
                Exchange::Leaving { response } => Step::Reply { response },
                Exchange::OpeningRelay { .. } => Step::Reply {
                    response: bad_request(reason.as_str()),
                },
                _ => Step::Reply { response: imap_err(reason) },
            },
        }
    }
}

/// What a request comes to when its commands end with these events, one after the other: the
/// commands that are issued, and the answer, if there are events enough.
pub open spec fn course(step: StepView, events: Seq<EventView>) -> (
    Seq<CommandView>,
    Option<ResponseView>,
)
    decreases events.len(),
{
    match step {
        StepView::Reply { response } => (Seq::empty(), Some(response)),
        StepView::Perform { command, exchange } => if events.len() == 0 {
            (seq![command], None)
        } else {
            let rest = course(next_step(exchange, events[0]), events.drop_first());
            (seq![command] + rest.0, rest.1)
        },
    }
}

/// How many commands a request can still issue after the one under way.
pub open spec fn commands_left(exchange: ExchangeView) -> nat {
    match exchange {
        ExchangeView::Connecting { .. } => 4,
        ExchangeView::Selecting { .. } => 3,
        ExchangeView::ConnectingToList { .. } => 2,
        ExchangeView::Searching { .. } => 2,
        ExchangeView::Marking { .. } => 2,
        ExchangeView::Leaving { .. } => 0,
        ExchangeView::Transmitting { .. } => 0,
        _ => 1,
    }
}

/// Every request is answered: after each event it is either answered or has fewer commands
/// ahead of it than before, so that five events are enough for any request.
pub proof fn every_request_is_answered(exchange: ExchangeView, events: Seq<EventView>)
    requires
        events.len() > commands_left(exchange),
    ensures
        forall|event: EventView|
            (#[trigger] next_step(exchange, event)) matches StepView::Perform { exchange: next, .. }
                ==> commands_left(next) < commands_left(exchange),
        course(next_step(exchange, events[0]), events.drop_first()).1 is Some,
        commands_left(exchange) < 5,
    decreases events.len(),
{
    let step = next_step(exchange, events[0]);
    if let StepView::Perform { exchange: next, .. } = step {
        every_request_is_answered(next, events.drop_first());
    }
}

/// A failure ends the request: no further command follows, and the caller is told the reason,
/// as a fault of the request where the relay could not be prepared and as a fault of the server
/// anywhere else. Once the answer is ready, nothing changes it any more.
pub proof fn failure_ends_the_request(exchange: ExchangeView, reason: Seq<char>)
    ensures
        next_step(exchange, EventView::Failed(reason)) == (StepView::Reply {
            response: match exchange {
                ExchangeView::Leaving { response } => response,
                ExchangeView::OpeningRelay { .. } => bad_request_reply(reason),
                _ => failure_reply(reason),
            },
        }),
{
}

/// However the session ends, the caller gets the answer that was ready before.
pub proof fn the_answer_survives_logout(response: ResponseView, event: EventView)
    ensures
        next_step(ExchangeView::Leaving { response }, event) == (StepView::Reply { response }),
{
}

/// A message is removed only after the server has marked it as deleted.
pub proof fn expunge_follows_marking(exchange: ExchangeView, event: EventView)
    ensures
        next_step(exchange, event) matches StepView::Perform { command, .. }
            ==> command is UidExpunge ==> {
            &&& event is Answered
            &&& exchange matches ExchangeView::Marking { uid }
            &&& command == expunge_command(uid)
        },
{
}

/// What a server returned, and how a command ended, are what their fields hold.
pub proof fn events_show_what_servers_returned(answer: Answer, event: Event, step: Step)
    ensures
        answer@.folders == texts(answer.folders@),
        answer@.uids == answer.uids@,
        answer@.messages == fetched_views(answer.messages@),
        event matches Event::Answered(answer) ==> event@ == EventView::Answered(answer@),
        event matches Event::Failed(reason) ==> event@ == EventView::Failed(reason@),
        step matches Step::Perform { command, exchange } ==> step@ == (StepView::Perform {
            command: command@,
            exchange: exchange@,
        }),
        step matches Step::Reply { response } ==> step@ == (StepView::Reply {
            response: response@,
        }),
{
}

} // verus!
