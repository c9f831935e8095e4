//! The synchronisation protocol of a cell, over plain values.
//!
//! Any number of tasks share one cell. The cell is a publication flag, a
//! storage slot and a lock. Each task advances by single steps; steps of
//! different tasks interleave in any order. [`System::next`] says what one
//! step does, [`System::reply`] what it hands back to the task that took it,
//! and [`run`] folds a whole history, starting from a fresh cell.
//!
//! The steps are taken one at a time. What a processor may reorder between
//! two threads is not described here: in the cell that is the business of
//! the acquire load and the release store of the flag.
//!
//! What holds of every history is proved in [`crate::laws`].
use vstd::prelude::*;

verus! {

/// What the tasks share.
pub struct Shared<T> {
    /// The publication flag. Readers look at it first.
    pub initialized: bool,
    /// The storage. Written before the flag is raised.
    pub slot: Option<T>,
    /// The task that holds the lock, if any does.
    pub holder: Option<nat>,
}

/// Where one task stands.
pub enum Stage<T> {
    /// Outside any call, holding nothing.
    Idle,
    /// Found no value on the first check and waits for the lock.
    Waiting,
    /// Has the lock; the second check is still to come.
    Locked,
    /// Found no value on the second check: holds the right to initialise,
    /// and with it the lock.
    Chosen,
    /// Has written this value into the slot and not yet raised the flag.
    Written(T),
    /// Has raised the flag and is about to let go of the lock.
    Leaving,
}

/// One step of one task.
pub enum Action<T> {
    /// Read the cell without the lock.
    Get,
    /// Begin to negotiate: the first check.
    Enter,
    /// Give up while waiting for the lock.
    Cancel,
    /// Take the lock.
    Acquire,
    /// The second check, under the lock.
    Recheck,
    /// Drop the right to initialise without using it.
    Abandon,
    /// Write a value into the slot.
    Write(T),
    /// Raise the flag.
    Publish,
    /// Let go of the lock after publishing.
    Release,
}

/// A step together with the task that takes it.
pub struct Event<T> {
    pub task: nat,
    pub action: Action<T>,
}

/// What negotiating ends in.
pub enum Outcome<T> {
    /// The cell holds this value.
    Value(T),
    /// The caller may initialise the cell.
    Setter,
}

/// What a step hands back to the task that took it.
pub enum Reply<T> {
    /// The step returns nothing to its caller.
    Quiet,
    /// A read returned this.
    Seen(Option<T>),
    /// Negotiating ended in this.
    Settled(Outcome<T>),
    /// Committing returned a reference to this.
    Stored(T),
}

/// The life of a cell, seen from outside.
pub enum Phase {
    /// No value, and nobody holds the right to provide one.
    Empty,
    /// No value yet, and one task holds the right to provide it.
    Committing,
    /// The value is published. This is where every cell ends that is ever
    /// initialised, and nothing leads out of it.
    Full,
}

/// The whole system: the cell and the stage of every task. A task that the
/// map does not mention is idle.
pub struct System<T> {
    pub shared: Shared<T>,
    pub stages: Map<nat, Stage<T>>,
}

/// What a reader gets who looks at the flag and then at the slot.
pub open spec fn published<T>(initialized: bool, slot: Option<T>) -> Option<T> {
    if initialized {
        slot
    } else {
        None
    }
}

/// What the slot holds after a write of `value`: the slot takes a value only
/// when it is empty.
pub open spec fn written<T>(slot: Option<T>, value: T) -> Option<T> {
    match slot {
        Some(_) => slot,
        None => Some(value),
    }
}

/// The decision of the first check: a value that is there ends the call, and
/// where none is, the caller goes on to take the lock.
pub open spec fn first_check<T>(seen: Option<T>) -> Option<Outcome<T>> {
    match seen {
        Some(value) => Some(Outcome::Value(value)),
        None => None,
    }
}

/// The decision of the second check: a value that is there is returned, and
/// where none is, the caller is chosen to provide it.
pub open spec fn second_check<T>(seen: Option<T>) -> Outcome<T> {
    match seen {
        Some(value) => Outcome::Value(value),
        None => Outcome::Setter,
    }
}

impl<T> Stage<T> {
    /// The stages in which a task holds the lock.
    pub open spec fn holds_lock(self) -> bool {
        self is Locked || self is Chosen || self is Written || self is Leaving
    }

    /// The stages in which a task holds the right to initialise.
    pub open spec fn holds_setter(self) -> bool {
        self is Chosen || self is Written
    }
}

impl<T> System<T> {
    /// A new cell, and no task has touched it.
    pub open spec fn fresh() -> Self {
        System {
            shared: Shared { initialized: false, slot: None, holder: None },
            stages: Map::empty(),
        }
    }

    /// Where `task` stands.
    pub open spec fn stage(self, task: nat) -> Stage<T> {
        if self.stages.dom().contains(task) {
            self.stages[task]
        } else {
            Stage::Idle
        }
    }

    /// What a reader sees.
    pub open spec fn visible(self) -> Option<T> {
        published(self.shared.initialized, self.shared.slot)
    }

    /// The phase of the cell.
    pub open spec fn phase(self) -> Phase {
        if self.shared.initialized {
            Phase::Full
        } else {
            match self.shared.holder {
                Some(holder) => if self.stage(holder).holds_setter() {
                    Phase::Committing
                } else {
                    Phase::Empty
                },
                None => Phase::Empty,
            }
        }
    }

    /// The same system with `task` moved to `stage`.
    pub open spec fn moved(self, task: nat, stage: Stage<T>) -> Self {
        System { shared: self.shared, stages: self.stages.insert(task, stage) }
    }

    /// The same system with the lock in other hands.
    pub open spec fn held_by(self, holder: Option<nat>) -> Self {
        System { shared: Shared { holder, ..self.shared }, stages: self.stages }
    }

    /// Whether the task of `event` can take its step now.
    pub open spec fn enabled(self, event: Event<T>) -> bool {
        let stage = self.stage(event.task);
        match event.action {
            Action::Get => true,
            Action::Enter => stage is Idle,
            Action::Cancel => stage is Waiting,
            Action::Acquire => stage is Waiting && self.shared.holder is None,
            Action::Recheck => stage is Locked,
            Action::Abandon => stage is Chosen,
            Action::Write(_) => stage is Chosen,
            Action::Publish => stage is Written,
            Action::Release => stage is Leaving,
        }
    }

    /// The system after the step.
    pub open spec fn next(self, event: Event<T>) -> Self {
        let task = event.task;
        match event.action {
            Action::Get => self,
            Action::Enter => match first_check(self.visible()) {
                Some(_) => self,
                None => self.moved(task, Stage::Waiting),
            },
            Action::Cancel => self.moved(task, Stage::Idle),
            Action::Acquire => self.held_by(Some(task)).moved(task, Stage::Locked),
            Action::Recheck => match second_check(self.visible()) {
                Outcome::Value(_) => self.held_by(None).moved(task, Stage::Idle),
                Outcome::Setter => self.moved(task, Stage::Chosen),
            },
            Action::Abandon => self.held_by(None).moved(task, Stage::Idle),
            Action::Write(value) => System {
                shared: Shared { slot: written(self.shared.slot, value), ..self.shared },
                stages: self.stages.insert(task, Stage::Written(value)),
            },
            Action::Publish => System {
                shared: Shared { initialized: true, ..self.shared },
                stages: self.stages.insert(task, Stage::Leaving),
            },
            Action::Release => self.held_by(None).moved(task, Stage::Idle),
        }
    }

    /// What the step hands back.
    pub open spec fn reply(self, event: Event<T>) -> Reply<T> {
        match event.action {
            Action::Get => Reply::Seen(self.visible()),
            Action::Enter => match first_check(self.visible()) {
                Some(outcome) => Reply::Settled(outcome),
                None => Reply::Quiet,
            },
            Action::Recheck => Reply::Settled(second_check(self.visible())),
            Action::Publish => match self.shared.slot {
                Some(value) => Reply::Stored(value),
                None => Reply::Quiet,
            },
            _ => Reply::Quiet,
        }
    }

    /// What holds of the cell whatever the tasks have done.
    ///
    /// A raised flag means a written slot. The lock is held by exactly the
    /// task whose stage says so. The slot is written and not yet published
    /// only while its writer, who holds the lock, stands between the write
    /// and the publication.
    pub open spec fn sound(self) -> bool {
        &&& self.shared.initialized ==> self.shared.slot is Some
        &&& forall|task: nat| #[trigger]
            self.stage(task).holds_lock() <==> self.shared.holder == Some(task)
        &&& match self.shared.holder {
            None => self.shared.slot is Some ==> self.shared.initialized,
            Some(holder) => match self.stage(holder) {
                Stage::Chosen => !self.shared.initialized && self.shared.slot is None,
                Stage::Written(value) => !self.shared.initialized && self.shared.slot == Some(
                    value,
                ),
                Stage::Leaving => self.shared.initialized,
                _ => self.shared.slot is Some ==> self.shared.initialized,
            },
        }
    }
}

/// The step `action` taken by `task`.
pub open spec fn taken<T>(task: nat, action: Action<T>) -> Event<T> {
    Event { task, action }
}

/// The system after a history, from a fresh cell.
pub open spec fn run<T>(history: Seq<Event<T>>) -> System<T>
    decreases history.len(),
{
    if history.len() == 0 {
        System::fresh()
    } else {
        run(history.drop_last()).next(history.last())
    }
}

/// Whether every step of the history could be taken when it was.
pub open spec fn admissible<T>(history: Seq<Event<T>>) -> bool
    decreases history.len(),
{
    history.len() == 0 || (admissible(history.drop_last()) && run(history.drop_last()).enabled(
        history.last(),
    ))
}

/// The system just before step `at` of the history.
pub open spec fn before<T>(history: Seq<Event<T>>, at: int) -> System<T> {
    run(history.take(at))
}

/// What step `at` of the history handed back.
pub open spec fn reply_at<T>(history: Seq<Event<T>>, at: int) -> Reply<T> {
    before(history, at).reply(history[at])
}

/// Whether step `at` of the history is a second check by `task` that chose
/// it.
pub open spec fn chosen_at<T>(history: Seq<Event<T>>, at: int, task: nat) -> bool {
    &&& 0 <= at < history.len()
    &&& history[at].task == task
    &&& history[at].action is Recheck
    &&& reply_at(history, at) == Reply::<T>::Settled(Outcome::Setter)
}

/// Whether step `at` of the history is a commit that returned `value`.
pub open spec fn committed_at<T>(history: Seq<Event<T>>, at: int, value: T) -> bool {
    &&& 0 <= at < history.len()
    &&& history[at].action is Publish
    &&& reply_at(history, at) == Reply::Stored(value)
}

/// Whether a commit among the first `at` steps of the history returned
/// `value`.
pub open spec fn committed_before<T>(history: Seq<Event<T>>, at: int, value: T) -> bool {
    exists|commit: int| commit < at && committed_at(history, commit, value)
}

/// Whether there is no commit among the first `at` steps of the history.
pub open spec fn no_commit_before<T>(history: Seq<Event<T>>, at: int) -> bool {
    forall|k: int| 0 <= k < at ==> !(#[trigger] history[k].action is Publish)
}

} // verus!
