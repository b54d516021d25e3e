//! Sessions of unrelated processes that share one cache.
//!
//! A [`System`] lets sessions take turns, in any order, in a world where
//! nothing goes wrong, and shows what the lock then guarantees: one fetch,
//! one executable. A [`Crowd`] drops every assumption but one, that the lock
//! table tells the truth: the host may answer anything, commands may fail,
//! processes may be killed at any moment. What remains is the exclusion
//! itself.

use crate::laws::lemma_progress;
use crate::machine::{ActionView, EventView, MachineView, PhaseView, ProductView};
use crate::model::{lemma_commands_distinct, lemma_history_push, times_run, World};
use crate::path::{
    cache_root_spec, lemma_layout_distinct, lock_file_spec, source_tree_spec, tool_binary_spec,
    NAMESPACE,
};
use crate::process::fetch_command_spec;
use vstd::prelude::*;

verus! {

/// Sessions of unrelated processes in one world. The session at index `i`
/// belongs to process `i`.
pub struct System {
    pub world: World,
    pub sessions: Seq<MachineView>,
}

impl System {
    /// The system after process `who` has taken one turn: it has performed
    /// the action that its session waited for and taken the answer. A
    /// process whose session is over, or that does not exist, does nothing.
    pub open spec fn turn(self, who: int) -> System {
        if 0 <= who < self.sessions.len() && !self.sessions[who].finished() {
            let m = self.sessions[who];
            System {
                world: self.world.perform(who as nat, m.pending()),
                sessions: self.sessions.update(
                    who,
                    m.next(self.world.answer(who as nat, m.pending())),
                ),
            }
        } else {
            self
        }
    }

    /// The system after the processes have taken turns in the order of
    /// `schedule`.
    pub open spec fn after(self, schedule: Seq<int>) -> System
        decreases schedule.len(),
    {
        if schedule.len() == 0 {
            self
        } else {
            self.after(schedule.drop_last()).turn(schedule.last())
        }
    }

    /// A system in which nothing has happened yet: every session is at its
    /// beginning, the cache holds no source tree, and nobody holds the lock.
    pub open spec fn fresh(self, base: Seq<char>) -> bool {
        let root = cache_root_spec(base, NAMESPACE@);
        &&& self.world.cache_dir == Some(base)
        &&& !self.world.locks.contains_key(lock_file_spec(root, NAMESPACE@))
        &&& !self.world.paths.contains(source_tree_spec(root))
        &&& times_run(self.world.history, fetch_command_spec(root)) == 0
        &&& forall|i: int|
            0 <= i < self.sessions.len() ==> #[trigger] self.sessions[i] == MachineView::start(
                self.sessions[i].goal,
                self.sessions[i].policy,
            )
    }

    /// What holds of the session of process `who` at all times.
    pub open spec fn session_coherent(self, base: Seq<char>, who: int) -> bool {
        let root = cache_root_spec(base, NAMESPACE@);
        let lock = lock_file_spec(root, NAMESPACE@);
        let tree = source_tree_spec(root);
        let m = self.sessions[who];
        &&& !(m.phase is CheckSchema || m.phase is FindCache || m.phase is Finished) ==> m.root
            == root
        &&& m.holds_lock() ==> self.world.locks.contains_key(lock) && self.world.locks[lock]
            == who
        &&& m.phase is Fetch ==> !self.world.paths.contains(tree)
        &&& m.phase is Configure || m.phase is Compile || m.phase is Generate
            ==> self.world.paths.contains(tree)
        &&& m.phase matches PhaseView::Releasing(failure) ==> failure is None
            && self.world.paths.contains(tree)
        &&& m.phase is Generate ==> m.goal is Generate
        &&& m.phase matches PhaseView::Finished(Ok(product)) ==> {
            &&& self.world.paths.contains(tree)
            &&& product == (if m.goal is Build {
                ProductView::Binary(tool_binary_spec(root))
            } else {
                ProductView::Generated
            })
        }
        &&& m.phase matches PhaseView::Finished(Err(error)) ==> error is LockTimeout
            || error is MissingInput
    }

    /// What holds of the whole system at all times.
    pub open spec fn coherent(self, base: Seq<char>) -> bool {
        let root = cache_root_spec(base, NAMESPACE@);
        let lock = lock_file_spec(root, NAMESPACE@);
        let tree = source_tree_spec(root);
        &&& self.world.cache_dir == Some(base)
        &&& times_run(self.world.history, fetch_command_spec(root)) == (if self.world.paths.contains(
            tree,
        ) {
            1nat
        } else {
            0nat
        })
        &&& self.world.locks.contains_key(lock) ==> {
            &&& 0 <= self.world.locks[lock] < self.sessions.len()
            &&& self.sessions[self.world.locks[lock] as int].holds_lock()
        }
        &&& forall|i: int|
            0 <= i < self.sessions.len() ==> #[trigger] self.session_coherent(base, i)
    }
}

/// No session ever waits for another one: a session that is not over can
/// take its turn whatever the others do, its turn brings it closer to its
/// end and touches no other session, so it is over after at most
/// `11 + 2 * max_attempts` turns of its own.
pub proof fn lemma_turn_makes_progress(sys: System, who: int)
    requires
        0 <= who < sys.sessions.len(),
        !sys.sessions[who].finished(),
    ensures
        sys.turn(who).sessions.len() == sys.sessions.len(),
        sys.turn(who).sessions[who].measure() < sys.sessions[who].measure(),
        sys.sessions[who].measure() <= 11 + 2 * sys.sessions[who].policy.max_attempts,
        forall|i: int|
            0 <= i < sys.sessions.len() && i != who ==> #[trigger] sys.turn(who).sessions[i]
                == sys.sessions[i],
{
    let m = sys.sessions[who];
    lemma_progress(m, sys.world.answer(who as nat, m.pending()));
}

/// A turn of any process keeps the system coherent.
proof fn lemma_turn_keeps_coherent(sys: System, base: Seq<char>, who: int)
    requires
        sys.coherent(base),
    ensures
        sys.turn(who).coherent(base),
        sys.turn(who).sessions.len() == sys.sessions.len(),
{
    let root = cache_root_spec(base, NAMESPACE@);
    let lock = lock_file_spec(root, NAMESPACE@);
    let tree = source_tree_spec(root);
    let next = sys.turn(who);
    if 0 <= who < sys.sessions.len() && !sys.sessions[who].finished() {
        let m = sys.sessions[who];
        lemma_layout_distinct(root);
        lemma_commands_distinct();
        lemma_history_push(sys.world.history, (who as nat, m.pending()));
        assert(sys.session_coherent(base, who));
        assert(next.session_coherent(base, who));
        assert forall|i: int| 0 <= i < next.sessions.len() implies #[trigger]
            next.session_coherent(base, i) by {
            assert(sys.session_coherent(base, i));
        }
    }
}

/// So does every schedule.
proof fn lemma_schedule_keeps_coherent(sys: System, base: Seq<char>, schedule: Seq<int>)
    requires
        sys.coherent(base),
    ensures
        sys.after(schedule).coherent(base),
        sys.after(schedule).sessions.len() == sys.sessions.len(),
    decreases schedule.len(),
{
    if schedule.len() > 0 {
        lemma_schedule_keeps_coherent(sys, base, schedule.drop_last());
        lemma_turn_keeps_coherent(sys.after(schedule.drop_last()), base, schedule.last());
    }
}

/// Sessions of any number of processes that begin on an empty cache and
/// take turns in any order. At every moment:
///
/// - at most one session holds the lock;
/// - the fetch has run at most once, whoever ran it;
/// - a session that has succeeded found the source tree fetched exactly
///   once, and if it was to build, it names the same executable as every
///   other;
/// - a session that has failed has timed out on the lock or missed its
///   schema.
pub proof fn lemma_concurrent_sessions(sys: System, base: Seq<char>, schedule: Seq<int>)
    requires
        sys.fresh(base),
    ensures
        ({
            let end = sys.after(schedule);
            let root = cache_root_spec(base, NAMESPACE@);
            let fetched = times_run(end.world.history, fetch_command_spec(root));
            &&& end.sessions.len() == sys.sessions.len()
            &&& forall|i: int, j: int|
                0 <= i < end.sessions.len() && 0 <= j < end.sessions.len()
                    && #[trigger] end.sessions[i].holds_lock()
                    && #[trigger] end.sessions[j].holds_lock() ==> i == j
            &&& fetched <= 1
            &&& forall|i: int|
                0 <= i < end.sessions.len() ==> (#[trigger] end.sessions[i].phase
                    matches PhaseView::Finished(Ok(product)) ==> {
                    &&& fetched == 1
                    &&& product == (if end.sessions[i].goal is Build {
                        ProductView::Binary(tool_binary_spec(root))
                    } else {
                        ProductView::Generated
                    })
                })
            &&& forall|i: int|
                0 <= i < end.sessions.len() ==> (#[trigger] end.sessions[i].phase
                    matches PhaseView::Finished(Err(error)) ==> error is LockTimeout
                    || error is MissingInput)
        }),
{
    assert(sys.coherent(base)) by {
        assert forall|i: int| 0 <= i < sys.sessions.len() implies #[trigger] sys.session_coherent(
            base,
            i,
        ) by {
            assert(sys.sessions[i] == MachineView::start(
                sys.sessions[i].goal,
                sys.sessions[i].policy,
            ));
        }
    }
    lemma_schedule_keeps_coherent(sys, base, schedule);
    let end = sys.after(schedule);
    assert forall|i: int, j: int|
        0 <= i < end.sessions.len() && 0 <= j < end.sessions.len()
            && #[trigger] end.sessions[i].holds_lock()
            && #[trigger] end.sessions[j].holds_lock() implies i == j by {
        assert(end.session_coherent(base, i));
        assert(end.session_coherent(base, j));
    }
    assert forall|i: int| 0 <= i < end.sessions.len() implies (#[trigger] end.sessions[i].phase
        matches PhaseView::Finished(Ok(product)) ==> {
        &&& times_run(
            end.world.history,
            fetch_command_spec(cache_root_spec(base, NAMESPACE@)),
        ) == 1
        &&& product == (if end.sessions[i].goal is Build {
            ProductView::Binary(tool_binary_spec(cache_root_spec(base, NAMESPACE@)))
        } else {
            ProductView::Generated
        })
    }) by {
        assert(end.session_coherent(base, i));
    }
    assert forall|i: int| 0 <= i < end.sessions.len() implies (#[trigger] end.sessions[i].phase
        matches PhaseView::Finished(Err(error)) ==> error is LockTimeout
        || error is MissingInput) by {
        assert(end.session_coherent(base, i));
    }
}

/// What happens next in a [`Crowd`].
pub enum Step {
    /// The process takes this answer to the action its session waits for.
    Answer { who: int, event: EventView },
    /// The process is killed. Its session never moves again, and the
    /// operating system frees what the process had locked.
    Kill { who: int },
}

/// Sessions of unrelated processes and the table of locks, in a world of
/// which nothing else is known. The session at index `i` belongs to process
/// `i`.
pub struct Crowd {
    /// The locks that are held, each with the process that holds it.
    pub locks: Map<Seq<char>, nat>,
    pub sessions: Seq<MachineView>,
    /// The processes that were killed.
    pub dead: Set<int>,
}

impl Crowd {
    /// Whether process `who` lives and its session is not over.
    pub open spec fn active(self, who: int) -> bool {
        0 <= who < self.sessions.len() && !self.dead.contains(who)
            && !self.sessions[who].finished()
    }

    /// Whether process `who` lives and holds the lock on `path`.
    pub open spec fn holds(self, who: int, path: Seq<char>) -> bool {
        &&& 0 <= who < self.sessions.len()
        &&& !self.dead.contains(who)
        &&& self.sessions[who].holds_lock()
        &&& self.sessions[who].lock_path() == path
    }

    /// Whether `event` can be what process `who` is told: it answers the
    /// action that the session waits for, and if it grants the lock, no
    /// other process holds that lock. An attempt may be refused at any time.
    pub open spec fn admits(self, who: int, event: EventView) -> bool {
        let action = self.sessions[who].pending();
        &&& self.active(who)
        &&& action.answered_by(event)
        &&& action matches ActionView::TryLock(path) ==> event == EventView::LockTried(true)
            ==> !self.locks.contains_key(path) || self.locks[path] == who
    }

    /// The table of locks after process `who` has performed `action` and
    /// was told `event`.
    pub open spec fn locks_after(self, who: int, action: ActionView, event: EventView) -> Map<
        Seq<char>,
        nat,
    > {
        match action {
            ActionView::TryLock(path) => if event == EventView::LockTried(true) {
                self.locks.insert(path, who as nat)
            } else {
                self.locks
            },
            ActionView::Unlock(path) => if self.locks.contains_key(path) && self.locks[path]
                == who {
                self.locks.remove(path)
            } else {
                self.locks
            },
            _ => self.locks,
        }
    }

    /// The crowd after `step`. A step that cannot happen changes nothing.
    pub open spec fn step(self, step: Step) -> Crowd {
        match step {
            Step::Answer { who, event } => if self.admits(who, event) {
                Crowd {
                    locks: self.locks_after(who, self.sessions[who].pending(), event),
                    sessions: self.sessions.update(who, self.sessions[who].next(event)),
                    dead: self.dead,
                }
            } else {
                self
            },
            Step::Kill { who } => if 0 <= who < self.sessions.len() {
                Crowd {
                    locks: self.locks.remove_keys(
                        Set::new(
                            |path: Seq<char>|
                                self.locks.contains_key(path) && self.locks[path] == who,
                        ),
                    ),
                    sessions: self.sessions,
                    dead: self.dead.insert(who),
                }
            } else {
                self
            },
        }
    }

    /// The crowd after all of `steps`, in their order.
    pub open spec fn after(self, steps: Seq<Step>) -> Crowd
        decreases steps.len(),
    {
        if steps.len() == 0 {
            self
        } else {
            self.after(steps.drop_last()).step(steps.last())
        }
    }

    /// A crowd in which no session has taken the lock yet: whatever is
    /// locked is locked by outsiders.
    pub open spec fn calm(self) -> bool {
        &&& forall|i: int| 0 <= i < self.sessions.len() ==> !(#[trigger] self.sessions[i]).holds_lock()
        &&& forall|path: Seq<char>| #[trigger]
            self.locks.contains_key(path) ==> self.locks[path] >= self.sessions.len()
    }

    /// The table of locks and the sessions agree: a living session that
    /// believes it holds a lock is entered as its holder, and a lock that
    /// is entered for one of the processes is held by its living session.
    pub open spec fn agreed(self) -> bool {
        &&& forall|i: int, path: Seq<char>| #[trigger]
            self.holds(i, path) ==> self.locks.contains_key(path) && self.locks[path] == i
        &&& forall|path: Seq<char>| #[trigger]
            self.locks.contains_key(path) && self.locks[path] < self.sessions.len()
                ==> self.holds(self.locks[path] as int, path)
    }
}

/// A step of any kind keeps the table of locks and the sessions agreed.
proof fn lemma_step_keeps_agreed(crowd: Crowd, step: Step)
    requires
        crowd.agreed(),
    ensures
        crowd.step(step).agreed(),
        crowd.step(step).sessions.len() == crowd.sessions.len(),
{
    let next = crowd.step(step);
    match step {
        Step::Answer { who, event } => {
            if crowd.admits(who, event) {
                let m = crowd.sessions[who];
                assert forall|i: int, path: Seq<char>| #[trigger] next.holds(i, path) implies
                    next.locks.contains_key(path) && next.locks[path] == i by {
                    if i != who {
                        assert(crowd.holds(i, path));
                    } else if m.holds_lock() {
                        assert(crowd.holds(who, path));
                    }
                }
                assert forall|path: Seq<char>| #[trigger]
                    next.locks.contains_key(path) && next.locks[path]
                        < next.sessions.len() implies next.holds(next.locks[path] as int, path) by {
                    if crowd.locks.contains_key(path) && crowd.locks[path] == next.locks[path] {
                        assert(crowd.holds(crowd.locks[path] as int, path));
                    }
                }
            }
        },
        Step::Kill { who } => {
            if 0 <= who < crowd.sessions.len() {
                assert forall|i: int, path: Seq<char>| #[trigger] next.holds(i, path) implies
                    next.locks.contains_key(path) && next.locks[path] == i by {
                    assert(crowd.holds(i, path));
                }
                assert forall|path: Seq<char>| #[trigger]
                    next.locks.contains_key(path) && next.locks[path]
                        < next.sessions.len() implies next.holds(next.locks[path] as int, path) by {
                    assert(crowd.holds(crowd.locks[path] as int, path));
                }
            }
        },
    }
}

/// So does every sequence of steps.
proof fn lemma_steps_keep_agreed(crowd: Crowd, steps: Seq<Step>)
    requires
        crowd.agreed(),
    ensures
        crowd.after(steps).agreed(),
        crowd.after(steps).sessions.len() == crowd.sessions.len(),
    decreases steps.len(),
{
    if steps.len() > 0 {
        lemma_steps_keep_agreed(crowd, steps.drop_last());
        lemma_step_keeps_agreed(crowd.after(steps.drop_last()), steps.last());
    }
}

/// The lock excludes, whatever else happens. Let any number of sessions
/// take any answers in any order: existence checks may say anything,
/// directories may fail to appear, commands may fail or not start, and
/// attempts at the lock may be refused for no reason, and processes may be
/// killed between any two steps. As long as the lock is never granted while
/// another process holds it, at every moment:
///
/// - two living sessions that hold the lock on the same file are the same
///   session;
/// - a living session that is about to fetch, configure or compile is the
///   one entered in the table as holder of its lock file;
/// - a process of the crowd that was killed holds no lock.
pub proof fn lemma_lock_excludes(crowd: Crowd, steps: Seq<Step>)
    requires
        crowd.calm(),
    ensures
        ({
            let end = crowd.after(steps);
            &&& end.sessions.len() == crowd.sessions.len()
            &&& forall|i: int, j: int, path: Seq<char>|
                #[trigger] end.holds(i, path) && #[trigger] end.holds(j, path) ==> i == j
            &&& forall|i: int|
                end.active(i) && #[trigger] end.sessions[i].pending() is Run
                    && !(end.sessions[i].phase is Generate) ==> {
                    &&& end.locks.contains_key(end.sessions[i].lock_path())
                    &&& end.locks[end.sessions[i].lock_path()] == i
                }
            &&& forall|path: Seq<char>| #[trigger]
                end.locks.contains_key(path) && end.locks[path] < end.sessions.len()
                    ==> !end.dead.contains(end.locks[path] as int)
        }),
{
    assert(crowd.agreed());
    lemma_steps_keep_agreed(crowd, steps);
    let end = crowd.after(steps);
    assert forall|i: int|
        end.active(i) && #[trigger] end.sessions[i].pending() is Run && !(end.sessions[i].phase
            is Generate) implies {
        &&& end.locks.contains_key(end.sessions[i].lock_path())
        &&& end.locks[end.sessions[i].lock_path()] == i
    } by {
        assert(end.holds(i, end.sessions[i].lock_path()));
    }
    assert forall|path: Seq<char>| #[trigger]
        end.locks.contains_key(path) && end.locks[path]
            < end.sessions.len() implies !end.dead.contains(end.locks[path] as int) by {
        assert(end.holds(end.locks[path] as int, path));
    }
}

} // verus!
