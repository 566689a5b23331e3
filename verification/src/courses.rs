//! Whole requests: the commands that each issues when all goes well, and its answer.

use vstd::prelude::*;

use crate::api::{call_step, handled_step, CallView};
use crate::command::{
    connect_command, expunge_command, fetch_command, fetch_found_command, label_command, list_command,
    mark_deleted_command, move_command, relay_command, search_criteria, CommandView,
};
use crate::config::ConfigView;
use crate::exchange::{course, next_step, AnswerView, EventView, StepView};
use crate::outgoing::{composed_letter, SendView};
use crate::params::{folder_of, limit_of, parameter};
use crate::reply::{
    bad_request_reply, deleted_reply, emails_reply, failure_reply, folders_reply, found_reply,
    labelled_reply, moved_reply, nothing_found_reply, sent_reply, ResponseView,
};
use crate::summary::summaries;

verus! {

/// The events of a request whose commands are answered by `answers`, but for the last, which
/// ends with `last`.
pub open spec fn events(answers: Seq<AnswerView>, last: EventView) -> Seq<EventView> {
    Seq::new(answers.len(), |i: int| EventView::Answered(answers[i])).push(last)
}

/// Folders are listed in a session that is ended before the answer.
pub proof fn list_folders_course(
    cfg: ConfigView,
    order: Seq<Seq<char>>,
    account: Seq<char>,
    date: u64,
    answers: Seq<AnswerView>,
    last: EventView,
)
    requires
        cfg.accounts.contains_key(account),
        answers.len() == 2,
    ensures
        course(
            call_step(cfg, order, CallView::ListFolders { account }, date),
            events(answers, last),
        ) == (
            seq![
                connect_command(cfg.accounts[account]),
                list_command(),
                CommandView::Logout,
            ],
            Some(folders_reply(account, answers[1].folders)),
        ),
{
    let step = call_step(cfg, order, CallView::ListFolders { account }, date);
    reveal_with_fuel(course, 4);
    assert(course(step, events(answers, last)).0 =~= seq![
        connect_command(cfg.accounts[account]),
        list_command(),
        CommandView::Logout,
    ]);
}

/// The first messages of a folder are fetched from that folder, and the answer summarises what
/// came back.
pub proof fn fetch_course(
    cfg: ConfigView,
    order: Seq<Seq<char>>,
    account: Seq<char>,
    params: Seq<(Seq<char>, Seq<char>)>,
    date: u64,
    answers: Seq<AnswerView>,
    last: EventView,
)
    requires
        cfg.accounts.contains_key(account),
        answers.len() == 3,
    ensures
        course(
            call_step(cfg, order, CallView::FetchEmails { account, params }, date),
            events(answers, last),
        ) == (
            seq![
                connect_command(cfg.accounts[account]),
                CommandView::Select { folder: folder_of(params) },
                fetch_command(limit_of(params)),
                CommandView::Logout,
            ],
            Some(emails_reply(account, folder_of(params), summaries(answers[2].messages))),
        ),
{
    let step = call_step(cfg, order, CallView::FetchEmails { account, params }, date);
    reveal_with_fuel(course, 5);
    assert(course(step, events(answers, last)).0 =~= seq![
        connect_command(cfg.accounts[account]),
        CommandView::Select { folder: folder_of(params) },
        fetch_command(limit_of(params)),
        CommandView::Logout,
    ]);
}

/// A search that finds messages fetches just those, and the answer summarises what came back.
pub proof fn search_course(
    cfg: ConfigView,
    order: Seq<Seq<char>>,
    account: Seq<char>,
    params: Seq<(Seq<char>, Seq<char>)>,
    criteria: Seq<char>,
    date: u64,
    answers: Seq<AnswerView>,
    last: EventView,
)
    requires
        cfg.accounts.contains_key(account),
        answers.len() == 4,
        search_criteria(parameter(params, "since"@), parameter(params, "from"@)) == Ok::<
            Seq<char>,
            ResponseView,
        >(criteria),
        answers[2].uids.len() > 0,
    ensures
        course(
            call_step(cfg, order, CallView::SearchEmails { account, params }, date),
            events(answers, last),
        ) == (
            seq![
                connect_command(cfg.accounts[account]),
                CommandView::Select { folder: folder_of(params) },
                CommandView::UidSearch { criteria },
                fetch_found_command(answers[2].uids),
                CommandView::Logout,
            ],
            Some(found_reply(
                account,
                folder_of(params),
                criteria,
                summaries(answers[3].messages),
            )),
        ),
{
    let step = call_step(cfg, order, CallView::SearchEmails { account, params }, date);
    reveal_with_fuel(course, 6);
    assert(course(step, events(answers, last)).0 =~= seq![
        connect_command(cfg.accounts[account]),
        CommandView::Select { folder: folder_of(params) },
        CommandView::UidSearch { criteria },
        fetch_found_command(answers[2].uids),
        CommandView::Logout,
    ]);
}

/// A search that finds nothing fetches nothing.
pub proof fn fruitless_search_course(
    cfg: ConfigView,
    order: Seq<Seq<char>>,
    account: Seq<char>,
    params: Seq<(Seq<char>, Seq<char>)>,
    criteria: Seq<char>,
    date: u64,
    answers: Seq<AnswerView>,
    last: EventView,
)
    requires
        cfg.accounts.contains_key(account),
        answers.len() == 3,
        search_criteria(parameter(params, "since"@), parameter(params, "from"@)) == Ok::<
            Seq<char>,
            ResponseView,
        >(criteria),
        answers[2].uids.len() == 0,
    ensures
        course(
            call_step(cfg, order, CallView::SearchEmails { account, params }, date),
            events(answers, last),
        ) == (
            seq![
                connect_command(cfg.accounts[account]),
                CommandView::Select { folder: folder_of(params) },
                CommandView::UidSearch { criteria },
                CommandView::Logout,
            ],
            Some(nothing_found_reply(account, folder_of(params), criteria)),
        ),
{
    let step = call_step(cfg, order, CallView::SearchEmails { account, params }, date);
    reveal_with_fuel(course, 5);
    assert(course(step, events(answers, last)).0 =~= seq![
        connect_command(cfg.accounts[account]),
        CommandView::Select { folder: folder_of(params) },
        CommandView::UidSearch { criteria },
        CommandView::Logout,
    ]);
}

/// A message is moved from its folder to the one that the caller names.
pub proof fn move_course(
    cfg: ConfigView,
    order: Seq<Seq<char>>,
    account: Seq<char>,
    uid: u32,
    params: Seq<(Seq<char>, Seq<char>)>,
    target: Seq<char>,
    date: u64,
    answers: Seq<AnswerView>,
    last: EventView,
)
    requires
        cfg.accounts.contains_key(account),
        answers.len() == 3,
    ensures
        course(
            call_step(cfg, order, CallView::MoveEmail { account, uid, params, target }, date),
            events(answers, last),
        ) == (
            seq![
                connect_command(cfg.accounts[account]),
                CommandView::Select { folder: folder_of(params) },
                move_command(uid, target),
                CommandView::Logout,
            ],
            Some(moved_reply(target)),
        ),
{
    let step = call_step(cfg, order, CallView::MoveEmail { account, uid, params, target }, date);
    reveal_with_fuel(course, 5);
    assert(course(step, events(answers, last)).0 =~= seq![
        connect_command(cfg.accounts[account]),
        CommandView::Select { folder: folder_of(params) },
        move_command(uid, target),
        CommandView::Logout,
    ]);
}

/// Labels are added to a message in its folder.
pub proof fn label_course(
    cfg: ConfigView,
    order: Seq<Seq<char>>,
    account: Seq<char>,
    uid: u32,
    params: Seq<(Seq<char>, Seq<char>)>,
    labels: Seq<Seq<char>>,
    date: u64,
    answers: Seq<AnswerView>,
    last: EventView,
)
    requires
        cfg.accounts.contains_key(account),
        answers.len() == 3,
    ensures
        course(
            call_step(cfg, order, CallView::AddLabels { account, uid, params, labels }, date),
            events(answers, last),
        ) == (
            seq![
                connect_command(cfg.accounts[account]),
                CommandView::Select { folder: folder_of(params) },
                label_command(uid, labels),
                CommandView::Logout,
            ],
            Some(labelled_reply(labels)),
        ),
{
    let step = call_step(cfg, order, CallView::AddLabels { account, uid, params, labels }, date);
    reveal_with_fuel(course, 5);
    assert(course(step, events(answers, last)).0 =~= seq![
        connect_command(cfg.accounts[account]),
        CommandView::Select { folder: folder_of(params) },
        label_command(uid, labels),
        CommandView::Logout,
    ]);
}

/// A message is deleted by marking it in its folder and then removing it, and it alone.
pub proof fn delete_course(
    cfg: ConfigView,
    order: Seq<Seq<char>>,
    account: Seq<char>,
    uid: u32,
    params: Seq<(Seq<char>, Seq<char>)>,
    date: u64,
    answers: Seq<AnswerView>,
    last: EventView,
)
    requires
        cfg.accounts.contains_key(account),
        answers.len() == 4,
    ensures
        course(
            call_step(cfg, order, CallView::DeleteEmail { account, uid, params }, date),
            events(answers, last),
        ) == (
            seq![
                connect_command(cfg.accounts[account]),
                CommandView::Select { folder: folder_of(params) },
                mark_deleted_command(uid),
                expunge_command(uid),
                CommandView::Logout,
            ],
            Some(deleted_reply()),
        ),
{
    let step = call_step(cfg, order, CallView::DeleteEmail { account, uid, params }, date);
    reveal_with_fuel(course, 6);
    assert(course(step, events(answers, last)).0 =~= seq![
        connect_command(cfg.accounts[account]),
        CommandView::Select { folder: folder_of(params) },
        mark_deleted_command(uid),
        expunge_command(uid),
        CommandView::Logout,
    ]);
}

/// A letter that could be composed goes through the relay of the account.
pub proof fn send_course(
    cfg: ConfigView,
    order: Seq<Seq<char>>,
    account: Seq<char>,
    mail: SendView,
    letter: (Option<Seq<char>>, Seq<Seq<char>>, Seq<u8>),
    date: u64,
    answers: Seq<AnswerView>,
    last: EventView,
)
    requires
        cfg.accounts.contains_key(account),
        answers.len() == 1,
        composed_letter(cfg.accounts[account].login, mail, date) == Ok::<
            (Option<Seq<char>>, Seq<Seq<char>>, Seq<u8>),
            ResponseView,
        >(letter),
        last is Answered,
    ensures
        course(
            call_step(cfg, order, CallView::SendEmail { account, mail }, date),
            events(answers, last),
        ) == (
            seq![
                relay_command(cfg.accounts[account]),
                CommandView::Transmit { letter },
            ],
            Some(sent_reply(account)),
        ),
{
    let step = call_step(cfg, order, CallView::SendEmail { account, mail }, date);
    reveal_with_fuel(course, 3);
    assert(course(step, events(answers, last)).0 =~= seq![
        relay_command(cfg.accounts[account]),
        CommandView::Transmit { letter },
    ]);
}

/// Whether a step ends a session exactly where its answer is ready, and prepares a relay
/// exactly where a letter is waiting for one.
spec fn is_matched(step: StepView) -> bool {
    step matches StepView::Perform { command, exchange } ==> {
        &&& command is Logout <==> exchange is Leaving
        &&& command is OpenRelay <==> exchange is OpeningRelay
    }
}

proof fn failed_course(step: StepView, events: Seq<EventView>, k: int, reason: Seq<char>)
    requires
        is_matched(step),
        0 <= k < events.len(),
        events[k] == EventView::Failed(reason),
        course(step, events.take(k)).1 is None,
        !(course(step, events.take(k)).0.last() is Logout),
    ensures
        course(step, events) == (
            course(step, events.take(k)).0,
            Some(
                if course(step, events.take(k)).0.last() is OpenRelay {
                    bad_request_reply(reason)
                } else {
                    failure_reply(reason)
                },
            ),
        ),
        course(step, events.take(k)).0.len() == k + 1,
    decreases k,
{
    if let StepView::Perform { command, exchange } = step {
        let next = next_step(exchange, events[0]);
        let rest = events.drop_first();
        if k == 0 {
            assert(next is Reply);
            assert(course(next, rest).0 =~= Seq::<CommandView>::empty());
            assert(course(step, events).0 =~= seq![command]);
        } else {
            assert(events.take(k)[0] == events[0]);
            assert(events.take(k).drop_first() =~= rest.take(k - 1));
            assert(is_matched(next));
            let before = course(next, rest.take(k - 1));
            assert(next is Perform);
            assert(before.0.len() > 0) by {
                reveal_with_fuel(course, 1);
            }
            assert((seq![command] + before.0).last() == before.0.last());
            failed_course(next, rest, k - 1, reason);
        }
    }
}

/// Where a command of a request fails that is not the end of its session, that command is the
/// last, and the caller is told the reason: as a fault of the request where the relay could not
/// be prepared, as a fault of the server anywhere else.
pub proof fn a_failed_command_is_reported(
    cfg: ConfigView,
    order: Seq<Seq<char>>,
    header: Option<Seq<u8>>,
    call: CallView,
    date: u64,
    events: Seq<EventView>,
    k: int,
    reason: Seq<char>,
)
    requires
        0 <= k < events.len(),
        events[k] == EventView::Failed(reason),
        course(handled_step(cfg, order, header, call, date), events.take(k)).1 is None,
        !(course(handled_step(cfg, order, header, call, date), events.take(k)).0.last() is Logout),
    ensures
        ({
            let step = handled_step(cfg, order, header, call, date);
            let issued = course(step, events.take(k)).0;
            course(step, events) == (
                issued,
                Some(
                    if issued.last() is OpenRelay {
                        bad_request_reply(reason)
                    } else {
                        failure_reply(reason)
                    },
                ),
            )
        }),
{
    failed_course(handled_step(cfg, order, header, call, date), events, k, reason);
}

} // verus!
