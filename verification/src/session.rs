//! A session that performs itself what needs no help from the host.
//!
//! A [`Session`] wraps a [`Machine`] together with the lock that the machine
//! believes it holds. Finding the platform's cache directory, trying the
//! lock and giving it back are done here, as soon as the machine asks for
//! them; every other action is handed to the host by [`Session::pending`],
//! and answered through [`Session::step`].
//!
//! The lock lives exactly as long as the machine is in a phase that holds
//! it: the handle is taken when an attempt is granted and dropped when the
//! machine asks to unlock, on success and on failure alike.

use crate::lock::{try_lock, unlock, LockPolicy};
use crate::machine::{Action, Event, EventView, Goal, Machine, MachineView};
use file_lock::FileLock;
use vstd::prelude::*;

verus! {

/// Asks the platform for the user's cache directory, by `dirs::cache_dir`.
///
/// The answer depends on the environment of the process, so nothing is
/// claimed of it. A directory whose path is not valid Unicode is reported as
/// absent.
#[verifier::external_body]
fn platform_cache_dir() -> (dir: Option<String>) {
    match dirs::cache_dir() {
        Some(path) => match path.to_str() {
            Some(text) => Some(String::from(text)),
            None => None,
        },
        None => None,
    }
}

/// Relates a state of the machine to the state in which the session comes
/// to rest: the same state if it waits for the host, and otherwise the state
/// after some answer to the action that the session performs itself.
pub open spec fn settled(raw: MachineView, rest: MachineView) -> bool {
    if raw.pending().internal() {
        exists|answer: EventView| #[trigger]
            raw.pending().answered_by(answer) && rest == raw.next(answer)
    } else {
        rest == raw
    }
}

/// A session in progress: the state of its protocol, and the lock while
/// it is held. A session that is dropped before its end gives the lock back
/// with it.
pub struct Session {
    machine: Machine,
    lock: Option<FileLock>,
}

impl View for Session {
    type V = MachineView;

    closed spec fn view(&self) -> MachineView {
        self.machine@
    }
}

impl Session {
    #[verifier::type_invariant]
    spec fn inv(self) -> bool {
        &&& !self.machine@.pending().internal()
        &&& self.lock is Some <==> self.machine@.holds_lock()
    }

    /// Whether the session holds the handle of a granted lock.
    pub closed spec fn locked(self) -> bool {
        self.lock is Some
    }

    /// Performs the action that `machine` waits for, if it is one of the
    /// session's own, and feeds the answer back.
    fn settle(machine: Machine, lock: Option<FileLock>) -> (session: Session)
        requires
            lock is Some <==> machine@.holds_lock(),
        ensures
            settled(machine@, session@),
            !session@.pending().internal(),
            session.locked() <==> session@.holds_lock(),
    {
        match machine.pending() {
            Action::FindCacheDir => {
                let event = Event::CacheDir(platform_cache_dir());
                assert(machine@.pending().answered_by(event@));
                Session { machine: machine.step(event), lock }
            },
            Action::TryLock(path) => {
                let lock = try_lock(path.as_str(), false, true);
                let event = Event::LockTried(lock.is_some());
                assert(machine@.pending().answered_by(event@));
                Session { machine: machine.step(event), lock }
            },
            Action::Unlock(_) => {
                let event = Event::Unlocked;
                assert(machine@.pending().answered_by(event@));
                if let Some(held) = lock {
                    unlock(held);
                }
                Session { machine: machine.step(event), lock: None }
            },
            _ => Session { machine, lock },
        }
    }

    /// Begins a session with this goal.
    pub fn new(goal: Goal, policy: LockPolicy) -> (session: Session)
        ensures
            settled(MachineView::start(goal@, policy), session@),
            !session@.pending().internal(),
            session.locked() <==> session@.holds_lock(),
    {
        Session::settle(Machine::new(goal, policy), None)
    }

    /// Takes a session up from a state of the machine. A state that claims
    /// the lock is refused: the handle that would go with it cannot be made
    /// up.
    pub fn resume(machine: Machine) -> (resumed: Option<Session>)
        ensures
            resumed is None <==> machine@.holds_lock(),
            resumed matches Some(session) ==> {
                &&& settled(machine@, session@)
                &&& !session@.pending().internal()
                &&& session.locked() <==> session@.holds_lock()
            },
    {
        if machine.holds_lock() {
            None
        } else {
            Some(Session::settle(machine, None))
        }
    }

    /// The action that the host has to perform next; [`Action::Done`] when
    /// the session is over.
    pub fn pending(&self) -> (action: Action)
        ensures
            action@ == self@.pending(),
            !action@.internal(),
    {
        proof {
            use_type_invariant(self);
        }
        self.machine.pending()
    }

    /// Whether the session is over.
    pub fn finished(&self) -> (finished: bool)
        ensures
            finished == self@.finished(),
    {
        self.machine.finished()
    }

    /// Takes the host's answer to the pending action and moves on to the
    /// next action that needs the host.
    pub fn step(self, event: Event) -> (session: Session)
        ensures
            settled(self@.next(event@), session@),
            !session@.pending().internal(),
            session.locked() <==> session@.holds_lock(),
    {
        proof {
            use_type_invariant(&self);
        }
        let Session { machine, lock } = self;
        Session::settle(machine.step(event), lock)
    }
}

} // verus!
