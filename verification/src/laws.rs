//! What the protocol alone guarantees of every session, whatever the
//! world answers.

use crate::error::ErrorView;
use crate::lock::LockPolicy;
use crate::machine::{ActionView, EventView, GoalView, MachineView, PhaseView, ProductView};
use crate::process::OutputView;
use vstd::prelude::*;

verus! {

/// Every answer brings the session closer to its end, and anything that is
/// no answer leaves it where it is: a session is over after at most
/// `11 + 2 * max_attempts` answers.
pub proof fn lemma_progress(m: MachineView, event: EventView)
    ensures
        m.pending().answered_by(event) ==> m.next(event).measure() < m.measure(),
        !m.pending().answered_by(event) ==> m.next(event) == m,
        m.measure() <= 11 + 2 * m.policy.max_attempts,
        m.measure() == 0 <==> m.finished(),
{
}

/// The steps of a session come in one order. Whenever the phase changes,
/// the new phase was entered from the phase before it in the protocol, on
/// the answer that permits it: the cache root is created before the lock
/// file is touched, the lock file is touched before the lock is tried, the
/// source tree is looked at only under the lock, fetched only if it is
/// absent, and configured and compiled whether it was fetched or found.
pub proof fn lemma_steps_in_order(m: MachineView, event: EventView)
    requires
        m.next(event).phase != m.phase,
    ensures
        m.pending().answered_by(event),
        match m.next(event).phase {
            PhaseView::CheckSchema => false,
            PhaseView::FindCache => m.phase is CheckSchema && event == EventView::Existence(true),
            PhaseView::MakeRoot => m.phase is FindCache && event is CacheDir,
            PhaseView::TouchLock => m.phase is MakeRoot && event == EventView::DirCreated(true),
            PhaseView::Locking { failed } => {
                ||| m.phase is TouchLock && event == EventView::Touched(true) && failed == 0
                ||| m.phase == (PhaseView::Waiting { failed }) && event is Slept
            },
            PhaseView::Waiting { failed } => {
                &&& m.phase == (PhaseView::Locking { failed: (failed - 1) as u32 })
                &&& event == EventView::LockTried(false)
                &&& 1 <= failed <= m.policy.max_attempts
            },
            PhaseView::CheckTree => m.phase is Locking && event == EventView::LockTried(true),
            PhaseView::Fetch => m.phase is CheckTree && event == EventView::Existence(false),
            PhaseView::Configure => {
                ||| m.phase is CheckTree && event == EventView::Existence(true)
                ||| m.phase is Fetch && event.succeeded()
            },
            PhaseView::Compile => m.phase is Configure && event.succeeded(),
            PhaseView::Releasing(None) => m.phase is Compile && event.succeeded(),
            PhaseView::Releasing(Some(_)) => {
                &&& m.phase is Fetch || m.phase is Configure || m.phase is Compile
                &&& event.broke()
            },
            PhaseView::Generate => m.phase == PhaseView::Releasing(None) && event is Unlocked
                && m.goal is Generate,
            PhaseView::Finished(Ok(ProductView::Binary(path))) => m.phase == PhaseView::Releasing(
                None,
            ) && event is Unlocked && m.goal is Build && path == m.binary(),
            PhaseView::Finished(Ok(ProductView::Generated)) => m.phase is Generate
                && event.succeeded(),
            PhaseView::Finished(Err(error)) => match error {
                ErrorView::MissingInput { .. } => m.phase is CheckSchema || m.phase is Releasing,
                ErrorView::NoCacheDir => m.phase is FindCache || m.phase is Releasing,
                ErrorView::CacheRoot { .. } => m.phase is MakeRoot || m.phase is Releasing,
                ErrorView::LockFile { .. } => m.phase is TouchLock || m.phase is Releasing,
                ErrorView::LockTimeout { .. } => m.phase is Locking || m.phase is Releasing,
                ErrorView::Launch { .. } => m.phase is Generate || m.phase is Releasing,
                ErrorView::ExternalCommand { .. } => m.phase is Generate || m.phase is Releasing,
            },
        },
{
}

/// The lock is taken in one way only: by an attempt that was granted.
pub proof fn lemma_lock_taken_when_granted(m: MachineView, event: EventView)
    requires
        !m.holds_lock(),
        m.next(event).holds_lock(),
    ensures
        m.phase is Locking,
        event == EventView::LockTried(true),
        m.next(event).phase is CheckTree,
{
}

/// The lock is held until the session has given it back, and a session
/// that is over holds none.
pub proof fn lemma_lock_kept_until_unlocked(m: MachineView, event: EventView)
    requires
        m.holds_lock(),
    ensures
        m.next(event).holds_lock() || (m.pending() is Unlock && event is Unlocked),
        !m.finished(),
{
}

/// Whatever is fetched, configured or compiled is so under the lock; the
/// generator runs without it.
pub proof fn lemma_build_commands_need_lock(m: MachineView)
    ensures
        m.pending() is Run ==> (m.holds_lock() <==> !(m.phase is Generate)),
        m.phase is Generate ==> !m.holds_lock(),
{
}

/// A command that exits with a non-zero status ends the session with an
/// error that holds the command and its captured output unchanged; one that
/// was run under the lock does so once the lock is given back.
pub proof fn lemma_failed_command_surfaces(m: MachineView, output: OutputView)
    requires
        m.pending() is Run,
        !output.success(),
    ensures
        ({
            let failure = ErrorView::ExternalCommand { command: m.command(), output };
            let after = m.next(EventView::Exited(output));
            if m.holds_lock() {
                &&& after.pending() == ActionView::Unlock(m.lock_path())
                &&& after.next(EventView::Unlocked).pending() == ActionView::Done(Err(failure))
            } else {
                after.pending() == ActionView::Done(Err(failure))
            }
        }),
{
}

/// A command that cannot be started ends the session in the same way, with
/// the command that was attempted.
pub proof fn lemma_failed_launch_surfaces(m: MachineView)
    requires
        m.pending() is Run,
    ensures
        ({
            let failure = ErrorView::Launch { command: m.command() };
            let after = m.next(EventView::LaunchFailed);
            if m.holds_lock() {
                &&& after.pending() == ActionView::Unlock(m.lock_path())
                &&& after.next(EventView::Unlocked).pending() == ActionView::Done(Err(failure))
            } else {
                after.pending() == ActionView::Done(Err(failure))
            }
        }),
{
}

/// A schema that does not exist ends the session at once: the first action
/// asks whether it exists, and after the answer nothing is left to do.
pub proof fn lemma_missing_schema_ends_session(
    schema: Seq<char>,
    out_dir: Seq<char>,
    policy: LockPolicy,
)
    ensures
        ({
            let start = MachineView::start(GoalView::Generate { schema, out_dir }, policy);
            &&& start.pending() == ActionView::Exists(schema)
            &&& start.next(EventView::Existence(false)).pending() == ActionView::Done(
                Err(ErrorView::MissingInput { path: schema }),
            )
        }),
{
}

} // verus!
