//! What holds of every history of a cell.
//!
//! Each law is proved from the steps of [`crate::protocol`] alone, for any
//! number of tasks and any order in which their steps interleave.
//!
//! * The invariant: [`every_history_is_sound`], [`one_setter_at_a_time`],
//!   [`only_the_setter_writes`], [`phases_follow_the_protocol`],
//!   [`the_lock_is_never_stuck`].
//! * Reads: [`get_changes_nothing`], [`published_value_is_final`],
//!   [`a_late_look_at_the_slot_sees_the_same`].
//! * What the cell decides from what it reads:
//!   [`reads_before_the_commit_give_nothing`],
//!   [`reads_after_the_commit_give_the_value`].
//! * One commit, and everybody agrees on it: [`at_most_one_commit`],
//!   [`every_commit_was_granted`], [`every_answer_follows_the_commit`],
//!   [`after_the_commit_everyone_gets_the_value`],
//!   [`nothing_is_seen_before_the_commit`],
//!   [`the_commit_is_seen_ever_after`].
//! * Committing, dropping and giving up: [`commit_then_ask`],
//!   [`an_abandoned_cell_is_offered_again`],
//!   [`a_cancelled_wait_leaves_no_trace`].
use vstd::prelude::*;
use crate::protocol::admissible;
use crate::protocol::before;
use crate::protocol::chosen_at;
use crate::protocol::committed_at;
use crate::protocol::committed_before;
use crate::protocol::first_check;
use crate::protocol::no_commit_before;
use crate::protocol::published;
use crate::protocol::reply_at;
use crate::protocol::run;
use crate::protocol::second_check;
use crate::protocol::taken;
use crate::protocol::Action;
use crate::protocol::Event;
use crate::protocol::Outcome;
use crate::protocol::Reply;
use crate::protocol::Stage;
use crate::protocol::System;

verus! {

/// A fresh cell is sound.
pub proof fn fresh_is_sound<T>()
    ensures
        System::<T>::fresh().sound(),
{
    let s = System::<T>::fresh();
    assert forall|task: nat| #[trigger] s.stage(task).holds_lock() <==> s.shared.holder == Some(
        task,
    ) by {
        assert(s.stage(task) is Idle);
    }
}

/// A step that can be taken keeps a sound system sound.
pub proof fn step_keeps_sound<T>(s: System<T>, event: Event<T>)
    requires
        s.sound(),
        s.enabled(event),
    ensures
        s.next(event).sound(),
{
    let after = s.next(event);
    let mover = event.task;
    assert(s.stage(mover).holds_lock() <==> s.shared.holder == Some(mover));
    assert forall|task: nat| #[trigger]
        after.stage(task).holds_lock() <==> after.shared.holder == Some(task) by {
        assert(s.stage(task).holds_lock() <==> s.shared.holder == Some(task));
        if task != mover {
            assert(after.stage(task) == s.stage(task));
        }
    }
    match after.shared.holder {
        Some(holder) => {
            assert(s.stage(holder).holds_lock() <==> s.shared.holder == Some(holder));
            if holder != mover {
                assert(after.stage(holder) == s.stage(holder));
            }
        },
        None => {},
    }
}

/// A value that readers see stays through any further step.
pub proof fn step_keeps_published<T>(s: System<T>, event: Event<T>, value: T)
    requires
        s.sound(),
        s.enabled(event),
        s.visible() == Some(value),
    ensures
        s.next(event).visible() == Some(value),
{
    let mover = event.task;
    assert(s.stage(mover).holds_lock() <==> s.shared.holder == Some(mover));
}

/// A prefix of an admissible history is admissible, and running one step
/// further is taking that step.
pub proof fn prefix_is_admissible<T>(history: Seq<Event<T>>, at: int)
    requires
        admissible(history),
        0 <= at <= history.len(),
    ensures
        admissible(history.take(at)),
        at < history.len() ==> before(history, at).enabled(history[at]) && before(history, at + 1)
            == before(history, at).next(history[at]),
    decreases history.len(),
{
    if at < history.len() {
        let shorter = history.drop_last();
        prefix_is_admissible(shorter, at);
        assert(shorter.take(at) == history.take(at));
        if at + 1 < history.len() {
            assert(shorter.take(at + 1) == history.take(at + 1));
            assert(shorter[at] == history[at]);
        } else {
            assert(history.take(at + 1) == history);
            assert(history.take(at) == shorter);
        }
    } else {
        assert(history.take(at) == history);
    }
}

/// Invariant of the protocol: whatever the tasks do, and in whatever order,
/// the system is sound. In particular a reader never finds the flag raised
/// over an empty slot.
pub proof fn every_history_is_sound<T>(history: Seq<Event<T>>)
    requires
        admissible(history),
    ensures
        run(history).sound(),
        run(history).shared.initialized ==> run(history).shared.slot is Some,
    decreases history.len(),
{
    if history.len() == 0 {
        fresh_is_sound::<T>();
    } else {
        every_history_is_sound(history.drop_last());
        step_keeps_sound(run(history.drop_last()), history.last());
    }
}

/// At every point of an admissible history the system is sound.
pub proof fn every_moment_is_sound<T>(history: Seq<Event<T>>, at: int)
    requires
        admissible(history),
        0 <= at <= history.len(),
    ensures
        before(history, at).sound(),
{
    prefix_is_admissible(history, at);
    every_history_is_sound(history.take(at));
}

/// The lock guards the right to initialise: at no moment do two tasks hold
/// a setter.
pub proof fn one_setter_at_a_time<T>(history: Seq<Event<T>>, one: nat, other: nat)
    requires
        admissible(history),
        run(history).stage(one).holds_setter(),
        run(history).stage(other).holds_setter(),
    ensures
        one == other,
{
    every_history_is_sound(history);
    let s = run(history);
    assert(s.stage(one).holds_lock() <==> s.shared.holder == Some(one));
    assert(s.stage(other).holds_lock() <==> s.shared.holder == Some(other));
}

/// A fresh cell is empty.
pub proof fn a_fresh_cell_is_empty<T>()
    ensures
        System::<T>::fresh().phase() is Empty,
        System::<T>::fresh().visible() is None,
{
}

/// The phases follow one another in one way only. A step leaves the phase
/// as it is, or an empty cell goes to committing because a second check
/// chose its caller, or a committing cell becomes full because the chosen
/// task published, or it falls back to empty because the chosen task
/// dropped its setter. Nothing leads out of a full cell.
pub proof fn phases_follow_the_protocol<T>(history: Seq<Event<T>>, at: int)
    requires
        admissible(history),
        0 <= at < history.len(),
    ensures
        ({
            let from = before(history, at).phase();
            let to = before(history, at + 1).phase();
            let action = history[at].action;
            let reply = reply_at(history, at);
            ||| to == from
            ||| from is Empty && to is Committing && action is Recheck && reply == Reply::<
                T,
            >::Settled(Outcome::Setter)
            ||| from is Committing && to is Full && action is Publish
            ||| from is Committing && to is Empty && action is Abandon
        }),
{
    every_moment_is_sound(history, at);
    every_moment_is_sound(history, at + 1);
    prefix_is_admissible(history, at);
    let s = before(history, at);
    let after = before(history, at + 1);
    let mover = history[at].task;
    assert(s.stage(mover).holds_lock() <==> s.shared.holder == Some(mover));
    assert(after.stage(mover).holds_lock() <==> after.shared.holder == Some(mover));
    match s.shared.holder {
        Some(holder) => {
            assert(s.stage(holder).holds_lock() <==> s.shared.holder == Some(holder));
            if holder != mover {
                assert(after.stage(holder) == s.stage(holder));
            }
        },
        None => {},
    }
}

/// The lock is never stuck: the task that holds it can always take a step,
/// and a free lock can be taken by whoever waits for it.
pub proof fn the_lock_is_never_stuck<T>(history: Seq<Event<T>>, task: nat, value: T)
    requires
        admissible(history),
    ensures
        match run(history).stage(task) {
            Stage::Idle => run(history).enabled(taken(task, Action::Enter)),
            Stage::Waiting => run(history).shared.holder is None ==> run(history).enabled(
                taken(task, Action::Acquire),
            ),
            Stage::Locked => run(history).enabled(taken(task, Action::Recheck)),
            Stage::Chosen => run(history).enabled(taken(task, Action::Write(value)))
                && run(history).enabled(taken(task, Action::Abandon)),
            Stage::Written(_) => run(history).enabled(taken(task, Action::Publish)),
            Stage::Leaving => run(history).enabled(taken(task, Action::Release)),
        },
        run(history).shared.holder matches Some(holder) ==> run(history).stage(
            holder,
        ).holds_lock(),
{
    every_history_is_sound(history);
    let s = run(history);
    match s.shared.holder {
        Some(holder) => {
            assert(s.stage(holder).holds_lock() <==> s.shared.holder == Some(holder));
        },
        None => {},
    }
}

/// The slot and the flag are written behind the lock and by nobody else: a
/// step that changes either is taken by the task that holds the lock, and
/// that task holds a setter.
pub proof fn only_the_setter_writes<T>(history: Seq<Event<T>>, at: int)
    requires
        admissible(history),
        0 <= at < history.len(),
        before(history, at + 1).shared.slot != before(history, at).shared.slot || before(
            history,
            at + 1,
        ).shared.initialized != before(history, at).shared.initialized,
    ensures
        before(history, at).shared.holder == Some(history[at].task),
        before(history, at).stage(history[at].task).holds_setter(),
{
    every_moment_is_sound(history, at);
    prefix_is_admissible(history, at);
    let s = before(history, at);
    let mover = history[at].task;
    assert(s.stage(mover).holds_lock() <==> s.shared.holder == Some(mover));
}

/// Waiting for the lock and giving up leaves no trace: a task that begins
/// to negotiate and is cancelled before it has the lock has changed nothing
/// that the tasks share.
pub proof fn a_cancelled_wait_leaves_no_trace<T>(history: Seq<Event<T>>, task: nat)
    requires
        admissible(history),
        run(history).stage(task) is Idle,
        run(history).visible() is None,
    ensures
        ({
            let waiting = run(history).next(taken(task, Action::Enter));
            let gone = waiting.next(taken(task, Action::Cancel));
            &&& run(history).enabled(taken(task, Action::Enter))
            &&& waiting.stage(task) is Waiting
            &&& waiting.enabled(taken(task, Action::Cancel))
            &&& gone.shared == run(history).shared
            &&& forall|other: nat| gone.stage(other) == run(history).stage(other)
        }),
{
    let s = run(history);
    let waiting = s.next(taken(task, Action::Enter));
    let gone = waiting.next(taken(task, Action::Cancel));
    assert forall|other: nat| gone.stage(other) == s.stage(other) by {
        if other != task {
            assert(waiting.stage(other) == s.stage(other));
        }
    }
}

/// A read changes nothing, so reading again without a step of another task
/// in between returns the same.
pub proof fn get_changes_nothing<T>(s: System<T>, reader: nat)
    ensures
        s.enabled(taken(reader, Action::Get)),
        s.next(taken(reader, Action::Get)) == s,
        s.next(taken(reader, Action::Get)).reply(taken(reader, Action::Get)) == s.reply(
            taken(reader, Action::Get),
        ),
{
}

/// Once a value is visible it stays visible, the same value, whatever
/// happens afterwards: a cell is never reset and never set again.
pub proof fn published_value_is_final<T>(
    history: Seq<Event<T>>,
    earlier: int,
    later: int,
    value: T,
)
    requires
        admissible(history),
        0 <= earlier <= later <= history.len(),
        before(history, earlier).visible() == Some(value),
    ensures
        before(history, later).visible() == Some(value),
    decreases later - earlier,
{
    if earlier < later {
        published_value_is_final(history, earlier, later - 1, value);
        every_moment_is_sound(history, later - 1);
        prefix_is_admissible(history, later - 1);
        step_keeps_published(before(history, later - 1), history[later - 1], value);
    }
}

/// A reader looks at the flag first and at the slot afterwards, and other
/// tasks may move in between. It makes no difference: a reader that found
/// the flag up finds the slot written, however late it looks, and what it
/// reads there is what was visible when it looked at the flag. Nobody sees
/// a value that is half published.
pub proof fn a_late_look_at_the_slot_sees_the_same<T>(
    history: Seq<Event<T>>,
    flag_read: int,
    slot_read: int,
)
    requires
        admissible(history),
        0 <= flag_read <= slot_read <= history.len(),
    ensures
        before(history, flag_read).shared.initialized ==> before(
            history,
            slot_read,
        ).shared.slot is Some,
        published(
            before(history, flag_read).shared.initialized,
            before(history, slot_read).shared.slot,
        ) == before(history, flag_read).visible(),
{
    every_moment_is_sound(history, flag_read);
    if before(history, flag_read).shared.initialized {
        let value = before(history, flag_read).shared.slot->Some_0;
        published_value_is_final(history, flag_read, slot_read, value);
    }
}

/// As long as nobody has published, nobody sees a value: every read returns
/// nothing, no first check ends the call, and every second check chooses
/// its caller. The first step to return a value is the commit itself.
pub proof fn nothing_is_seen_before_the_commit<T>(history: Seq<Event<T>>, at: int)
    requires
        admissible(history),
        0 <= at <= history.len(),
        no_commit_before(history, at),
    ensures
        before(history, at).visible() is None,
        at < history.len() ==> (match history[at].action {
            Action::Get => reply_at(history, at) == Reply::<T>::Seen(None),
            Action::Recheck => reply_at(history, at) == Reply::<T>::Settled(Outcome::Setter),
            Action::Publish => reply_at(history, at) is Stored,
            _ => reply_at(history, at) is Quiet,
        }),
    decreases at,
{
    if at == 0 {
        assert(history.take(0).len() == 0);
    } else {
        nothing_is_seen_before_the_commit(history, at - 1);
        prefix_is_admissible(history, at - 1);
        every_moment_is_sound(history, at - 1);
        every_moment_is_sound(history, at);
        assert(!(history[at - 1].action is Publish));
    }
    if at < history.len() {
        every_moment_is_sound(history, at);
        prefix_is_admissible(history, at);
        let s = before(history, at);
        let mover = history[at].task;
        assert(s.stage(mover).holds_lock() <==> s.shared.holder == Some(mover));
    }
}

/// What a commit returns is the value that its task wrote, and from then on
/// every reader sees that value.
pub proof fn the_commit_is_seen_ever_after<T>(history: Seq<Event<T>>, commit: int, later: int)
    requires
        admissible(history),
        0 <= commit < later <= history.len(),
        history[commit].action is Publish,
    ensures
        before(history, commit).stage(history[commit].task) matches Stage::Written(value)
            && reply_at(history, commit) == Reply::Stored(value) && before(
            history,
            later,
        ).visible() == Some(value),
{
    every_moment_is_sound(history, commit);
    prefix_is_admissible(history, commit);
    let s = before(history, commit);
    let writer = history[commit].task;
    assert(s.stage(writer).holds_lock() <==> s.shared.holder == Some(writer));
    let value = s.stage(writer)->Written_0;
    assert(before(history, commit + 1).visible() == Some(value));
    published_value_is_final(history, commit + 1, later, value);
}

/// There is at most one commit in the whole history of a cell.
pub proof fn at_most_one_commit<T>(history: Seq<Event<T>>, one: int, other: int)
    requires
        admissible(history),
        0 <= one < history.len(),
        0 <= other < history.len(),
        history[one].action is Publish,
        history[other].action is Publish,
    ensures
        one == other,
{
    if one != other {
        let (first, second) = if one < other {
            (one, other)
        } else {
            (other, one)
        };
        the_commit_is_seen_ever_after(history, first, second);
        every_moment_is_sound(history, second);
        prefix_is_admissible(history, second);
        let s = before(history, second);
        let writer = history[second].task;
        assert(s.stage(writer).holds_lock() <==> s.shared.holder == Some(writer));
    }
}

/// After the commit every caller gets the committed value: a read returns
/// it, both checks end in it, and nobody is chosen, writes or publishes any
/// more.
pub proof fn after_the_commit_everyone_gets_the_value<T>(
    history: Seq<Event<T>>,
    commit: int,
    later: int,
)
    requires
        admissible(history),
        0 <= commit < later < history.len(),
        history[commit].action is Publish,
    ensures
        reply_at(history, commit) matches Reply::Stored(value) && (match history[later].action {
            Action::Get => reply_at(history, later) == Reply::Seen(Some(value)),
            Action::Enter => reply_at(history, later) == Reply::Settled(Outcome::Value(value)),
            Action::Recheck => reply_at(history, later) == Reply::Settled(Outcome::Value(value)),
            Action::Abandon => false,
            Action::Write(_) => false,
            Action::Publish => false,
            _ => reply_at(history, later) is Quiet,
        }),
{
    the_commit_is_seen_ever_after(history, commit, later);
    every_moment_is_sound(history, later);
    prefix_is_admissible(history, later);
    let s = before(history, later);
    let mover = history[later].task;
    assert(s.stage(mover).holds_lock() <==> s.shared.holder == Some(mover));
}

/// Every answer that a task gets is explained by the one commit. A value,
/// from a read or from a negotiation, is the value of a commit earlier in
/// the history. No value, from a read, and being chosen, from a
/// negotiation, mean that there has been no commit so far.
pub proof fn every_answer_follows_the_commit<T>(history: Seq<Event<T>>, at: int)
    requires
        admissible(history),
        0 <= at < history.len(),
    ensures
        reply_at(history, at) matches Reply::Seen(Some(value)) ==> committed_before(
            history,
            at,
            value,
        ),
        reply_at(history, at) matches Reply::Settled(Outcome::Value(value)) ==> committed_before(
            history,
            at,
            value,
        ),
        reply_at(history, at) == Reply::<T>::Seen(None) ==> no_commit_before(history, at),
        reply_at(history, at) == Reply::<T>::Settled(Outcome::Setter) ==> no_commit_before(
            history,
            at,
        ),
{
    if no_commit_before(history, at) {
        nothing_is_seen_before_the_commit(history, at);
    } else {
        let commit = choose|k: int| 0 <= k < at && #[trigger] history[k].action is Publish;
        after_the_commit_everyone_gets_the_value(history, commit, at);
        let value = reply_at(history, commit)->Stored_0;
        assert(commit < at && committed_at(history, commit, value));
    }
}

/// Nobody holds a setter who was not given one: a task that holds the right
/// to initialise was chosen by a second check of its own, earlier in the
/// history.
pub proof fn every_setter_was_granted<T>(history: Seq<Event<T>>, at: int, task: nat)
    requires
        admissible(history),
        0 <= at <= history.len(),
        before(history, at).stage(task).holds_setter(),
    ensures
        exists|grant: int| grant < at && chosen_at(history, grant, task),
    decreases at,
{
    if at == 0 {
        assert(history.take(0).len() == 0);
    } else {
        prefix_is_admissible(history, at - 1);
        let s = before(history, at - 1);
        let event = history[at - 1];
        if event.task == task && event.action is Recheck {
            assert(chosen_at(history, at - 1, task));
        } else {
            assert(s.stage(task).holds_setter());
            every_setter_was_granted(history, at - 1, task);
            let grant = choose|grant: int| grant < at - 1 && chosen_at(history, grant, task);
            assert(grant < at && chosen_at(history, grant, task));
        }
    }
}

/// The one commit of a history is made by a task that negotiated for it:
/// its second check, earlier in the history, chose it.
pub proof fn every_commit_was_granted<T>(history: Seq<Event<T>>, commit: int)
    requires
        admissible(history),
        0 <= commit < history.len(),
        history[commit].action is Publish,
    ensures
        exists|grant: int| grant < commit && chosen_at(history, grant, history[commit].task),
{
    prefix_is_admissible(history, commit);
    every_setter_was_granted(history, commit, history[commit].task);
}

/// Committing and then asking returns what was committed: a task that holds
/// a setter and commits `value` gets `value` back, and a read or a new
/// negotiation right after it returns `value` too.
pub proof fn commit_then_ask<T>(history: Seq<Event<T>>, writer: nat, reader: nat, value: T)
    requires
        admissible(history),
        run(history).stage(writer) is Chosen,
    ensures
        ({
            let chosen = run(history);
            let written = chosen.next(taken(writer, Action::Write(value)));
            let full = written.next(taken(writer, Action::Publish));
            &&& chosen.enabled(taken(writer, Action::Write(value)))
            &&& written.enabled(taken(writer, Action::Publish))
            &&& written.reply(taken(writer, Action::Publish)) == Reply::Stored(value)
            &&& full.reply(taken(reader, Action::Get)) == Reply::Seen(Some(value))
            &&& full.reply(taken(reader, Action::Enter)) == Reply::Settled(Outcome::Value(value))
            &&& full.next(taken(reader, Action::Enter)) == full
        }),
{
    every_history_is_sound(history);
    let chosen = run(history);
    assert(chosen.stage(writer).holds_lock() <==> chosen.shared.holder == Some(writer));
}

/// A setter that is dropped unused leaves the cell as empty as it was and
/// the lock free: whoever negotiates next is chosen.
pub proof fn an_abandoned_cell_is_offered_again<T>(
    history: Seq<Event<T>>,
    quitter: nat,
    successor: nat,
)
    requires
        admissible(history),
        run(history).stage(quitter) is Chosen,
        successor == quitter || run(history).stage(successor) is Idle,
    ensures
        ({
            let dropped = run(history).next(taken(quitter, Action::Abandon));
            let waiting = dropped.next(taken(successor, Action::Enter));
            let locked = waiting.next(taken(successor, Action::Acquire));
            &&& run(history).enabled(taken(quitter, Action::Abandon))
            &&& dropped.visible() is None
            &&& dropped.shared.holder is None
            &&& dropped.enabled(taken(successor, Action::Enter))
            &&& waiting.enabled(taken(successor, Action::Acquire))
            &&& locked.enabled(taken(successor, Action::Recheck))
            &&& locked.reply(taken(successor, Action::Recheck)) == Reply::<T>::Settled(Outcome::Setter)
            &&& locked.next(taken(successor, Action::Recheck)).stage(successor) is Chosen
        }),
{
    every_history_is_sound(history);
    let chosen = run(history);
    assert(chosen.stage(quitter).holds_lock() <==> chosen.shared.holder == Some(quitter));
}

/// What the cell makes of its two reads before the commit. The flag is read
/// at one moment and the slot at a later one, and there has been no commit
/// when the flag is read: whatever the slot holds by the time it is read,
/// the reader returns nothing, the first check does not end the call, and
/// the second check chooses its caller.
pub proof fn reads_before_the_commit_give_nothing<T>(
    history: Seq<Event<T>>,
    flag_read: int,
    slot_read: int,
)
    requires
        admissible(history),
        0 <= flag_read <= slot_read <= history.len(),
        no_commit_before(history, flag_read),
    ensures
        ({
            let seen = published(
                before(history, flag_read).shared.initialized,
                before(history, slot_read).shared.slot,
            );
            &&& seen is None
            &&& first_check(seen) is None
            &&& second_check(seen) == Outcome::<T>::Setter
        }),
{
    nothing_is_seen_before_the_commit(history, flag_read);
    a_late_look_at_the_slot_sees_the_same(history, flag_read, slot_read);
}

/// What the cell makes of its two reads after the commit. The flag is read
/// at a moment after the commit and the slot at the same or a later one:
/// the reader returns the committed value, and both checks of a negotiation
/// end in it, so that nobody is chosen again.
pub proof fn reads_after_the_commit_give_the_value<T>(
    history: Seq<Event<T>>,
    commit: int,
    flag_read: int,
    slot_read: int,
)
    requires
        admissible(history),
        0 <= commit < flag_read <= slot_read <= history.len(),
        history[commit].action is Publish,
    ensures
        ({
            let seen = published(
                before(history, flag_read).shared.initialized,
                before(history, slot_read).shared.slot,
            );
            reply_at(history, commit) matches Reply::Stored(value) && seen == Some(value)
                && first_check(seen) == Some(Outcome::Value(value)) && second_check(seen)
                == Outcome::Value(value)
        }),
{
    the_commit_is_seen_ever_after(history, commit, flag_read);
    a_late_look_at_the_slot_sees_the_same(history, flag_read, slot_read);
}

} // verus!
