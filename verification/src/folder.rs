//! What requests do to the messages of a folder.

use vstd::prelude::*;

use crate::api::{call_step, handled_step, CallView};
use crate::command::{mark_deleted_command, CommandView};
use crate::config::ConfigView;
use crate::courses::{delete_course, events};
use crate::decimal::{numeral, numeral_reads_back};
use crate::exchange::{course, next_step, AnswerView, EventView, ExchangeView, StepView, WorkView};
use crate::text::{pieces, single_piece};

verus! {

/// The messages of a folder: the flags of each, under its unique number.
pub type Folder = Map<u32, Set<Seq<char>>>;

/// The flag of messages that are marked as deleted.
pub open spec fn deleted_flag() -> Seq<char> {
    "\\Deleted"@
}

/// The flags that a change adds. A change is `+FLAGS` and, in brackets, the flags, with spaces
/// between them.
pub open spec fn added_flags(change: Seq<char>) -> Set<Seq<char>> {
    let list = pieces(change.subrange("+FLAGS ("@.len() as int, change.len() - 1), ' ');
    Set::new(|flag: Seq<char>| flag.len() > 0 && list.contains(flag))
}

/// What the IMAP protocol says of a command that was carried out: how the messages of the
/// selected folder before and after it differ. A message that moves leaves the folder; where it
/// goes back to the same folder, it comes as another message, which is left open.
pub open spec fn effect(command: CommandView, before: Folder, after: Folder) -> bool {
    match command {
        CommandView::UidStore { uid, change } => {
            &&& after.dom() == before.dom()
            &&& forall|m: u32| #[trigger]
                before.contains_key(m) ==> after[m] == if numeral(m as nat) == uid {
                    before[m].union(added_flags(change))
                } else {
                    before[m]
                }
        },
        CommandView::UidExpunge { uid } => {
            &&& forall|m: u32| #[trigger]
                after.contains_key(m) <==> before.contains_key(m) && !(numeral(m as nat) == uid
                    && before[m].contains(deleted_flag()))
            &&& forall|m: u32| #[trigger] after.contains_key(m) ==> after[m] == before[m]
        },
        CommandView::UidMove { uid, .. } => {
            &&& forall|m: u32| #[trigger] after.contains_key(m) ==> numeral(m as nat) != uid
            &&& forall|m: u32| #[trigger]
                before.contains_key(m) && numeral(m as nat) != uid ==> after.contains_key(m)
                    && after[m] == before[m]
        },
        _ => after == before,
    }
}

/// Whether the messages of the selected folder can have been these, one state after the other,
/// where each of the commands was carried out.
pub open spec fn all_carried_out(commands: Seq<CommandView>, states: Seq<Folder>) -> bool {
    &&& states.len() == commands.len() + 1
    &&& forall|i: int|
        0 <= i < commands.len() ==> effect(#[trigger] commands[i], states[i], states[i + 1])
}

/// Whether the messages of the selected folder can have been these, one state after the other,
/// where each of the commands was carried out or not.
pub open spec fn some_carried_out(commands: Seq<CommandView>, states: Seq<Folder>) -> bool {
    &&& states.len() == commands.len() + 1
    &&& forall|i: int|
        0 <= i < commands.len() ==> states[i + 1] == states[i] || effect(
            #[trigger] commands[i],
            states[i],
            states[i + 1],
        )
}

/// The message that a request is to change, if any.
pub open spec fn message_of_call(call: CallView) -> Option<u32> {
    match call {
        CallView::MoveEmail { uid, .. } => Some(uid),
        CallView::AddLabels { uid, .. } => Some(uid),
        CallView::DeleteEmail { uid, .. } => Some(uid),
        _ => None,
    }
}

proof fn numerals_differ(one: u32, other: u32)
    requires
        numeral(one as nat) == numeral(other as nat),
    ensures
        one == other,
{
    numeral_reads_back(one as nat, one as nat);
    numeral_reads_back(other as nat, other as nat);
}

proof fn marking_adds_the_flag()
    ensures
        added_flags("+FLAGS (\\Deleted)"@) == set![deleted_flag()],
{
    reveal_strlit("+FLAGS (\\Deleted)");
    reveal_strlit("+FLAGS (");
    reveal_strlit("\\Deleted");
    let change = "+FLAGS (\\Deleted)"@;
    assert(change.subrange(8, change.len() - 1) =~= deleted_flag());
    single_piece(deleted_flag(), ' ');
    let list = pieces(deleted_flag(), ' ');
    assert(list[0] == deleted_flag());
    assert(added_flags(change) =~= set![deleted_flag()]);
}

/// Deleting a message removes it from its folder and leaves every other message there as it
/// was, those among them that are marked as deleted too.
pub proof fn deletion_removes_one_message(
    cfg: ConfigView,
    order: Seq<Seq<char>>,
    account: Seq<char>,
    uid: u32,
    params: Seq<(Seq<char>, Seq<char>)>,
    date: u64,
    answers: Seq<AnswerView>,
    last: EventView,
    states: Seq<Folder>,
)
    requires
        cfg.accounts.contains_key(account),
        answers.len() == 4,
        all_carried_out(
            course(
                call_step(cfg, order, CallView::DeleteEmail { account, uid, params }, date),
                events(answers, last),
            ).0,
            states,
        ),
    ensures
        states.last() == states[0].remove(uid),
{
    delete_course(cfg, order, account, uid, params, date, answers, last);
    let commands = course(
        call_step(cfg, order, CallView::DeleteEmail { account, uid, params }, date),
        events(answers, last),
    ).0;
    assert(effect(commands[0], states[0], states[1]));
    assert(effect(commands[1], states[1], states[2]));
    assert(effect(commands[2], states[2], states[3]));
    assert(effect(commands[3], states[3], states[4]));
    assert(effect(commands[4], states[4], states[5]));
    assert(commands[2] == mark_deleted_command(uid));
    marking_adds_the_flag();
    assert forall|m: u32| #[trigger] states[4].contains_key(m) <==> states[0].contains_key(m) && m
        != uid by {
        if numeral(m as nat) == numeral(uid as nat) {
            numerals_differ(m, uid);
        }
        assert(states[2].dom().contains(m) == states[3].dom().contains(m));
    }
    assert forall|m: u32| #[trigger] states[4].contains_key(m) implies states[4][m]
        == states[0][m] by {
        if numeral(m as nat) == numeral(uid as nat) {
            numerals_differ(m, uid);
        }
        assert(states[2].dom().contains(m) == states[3].dom().contains(m));
    }
    assert(states[4] =~= states[0].remove(uid));
}

/// Whether a step, and all that can follow it, is about changing the message `uid`, or none.
spec fn is_about(step: StepView, uid: Option<u32>) -> bool {
    match step {
        StepView::Reply { .. } => true,
        StepView::Perform { command, exchange } => {
            &&& command matches CommandView::UidStore { uid: text, .. } ==> uid is Some && text
                == numeral(uid->0 as nat)
            &&& command matches CommandView::UidExpunge { uid: text } ==> uid is Some && text
                == numeral(uid->0 as nat)
            &&& command matches CommandView::UidMove { uid: text, .. } ==> uid is Some && text
                == numeral(uid->0 as nat)
            &&& exchange matches ExchangeView::Connecting { work } ==> is_work_on(work, uid)
            &&& exchange matches ExchangeView::Selecting { work } ==> is_work_on(work, uid)
            &&& exchange matches ExchangeView::Marking { uid: marked } ==> uid == Some(marked)
        },
    }
}

spec fn is_work_on(work: WorkView, uid: Option<u32>) -> bool {
    match work {
        WorkView::Move { uid: named, .. } => uid == Some(named),
        WorkView::Labels { uid: named, .. } => uid == Some(named),
        WorkView::Delete { uid: named, .. } => uid == Some(named),
        _ => true,
    }
}

proof fn course_is_about(
    step: StepView,
    uid: Option<u32>,
    events: Seq<EventView>,
    states: Seq<Folder>,
    k: int,
    m: u32,
)
    requires
        is_about(step, uid),
        uid != Some(m),
        some_carried_out(course(step, events).0, states),
        0 <= k < states.len(),
        states[0].contains_key(m),
    ensures
        states[k].contains_key(m),
        states[k][m] == states[0][m],
    decreases events.len(),
{
    let commands = course(step, events).0;
    if k > 0 {
        if let StepView::Perform { command, exchange } = step {
            assert(commands[0] == command);
            assert(states[1] == states[0] || effect(command, states[0], states[1]));
            if uid is Some && numeral(uid->0 as nat) == numeral(m as nat) {
                numerals_differ(uid->0, m);
            }
            assert(states[0].dom().contains(m));
            assert(states[1].contains_key(m) && states[1][m] == states[0][m]);
            if events.len() > 0 {
                let next = next_step(exchange, events[0]);
                let rest = course(next, events.drop_first()).0;
                let later = states.drop_first();
                assert(commands == seq![command] + rest);
                assert(is_about(next, uid));
                assert forall|i: int| 0 <= i < rest.len() implies later[i + 1] == later[i]
                    || effect(#[trigger] rest[i], later[i], later[i + 1]) by {
                    assert(commands[i + 1] == rest[i]);
                }
                course_is_about(next, uid, events.drop_first(), later, k - 1, m);
            }
        }
    }
}

/// However a request goes, and whichever of its commands are carried out, every message but the
/// one that it is to change stays in the folder as it was.
pub proof fn other_messages_stay(
    cfg: ConfigView,
    order: Seq<Seq<char>>,
    header: Option<Seq<u8>>,
    call: CallView,
    date: u64,
    events: Seq<EventView>,
    states: Seq<Folder>,
    k: int,
    m: u32,
)
    requires
        some_carried_out(
            course(handled_step(cfg, order, header, call, date), events).0,
            states,
        ),
        0 <= k < states.len(),
        states[0].contains_key(m),
        message_of_call(call) != Some(m),
    ensures
        states[k].contains_key(m),
        states[k][m] == states[0][m],
{
    let step = handled_step(cfg, order, header, call, date);
    course_is_about(step, message_of_call(call), events, states, k, m);
}

} // verus!
