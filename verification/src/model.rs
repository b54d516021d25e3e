//! A model of the world that sessions act on, and what holds of sessions in
//! it.
//!
//! The [`World`] is the shared state that the actions of a session read and
//! change: which paths exist, who holds which lock, how much time was spent
//! waiting, and the history of all that was done. It is a world in which
//! nothing goes wrong: directories and files can be created, every command
//! starts and exits with code zero, and the fetch leaves the source tree
//! behind. Each action takes effect at once and as a whole.
//!
//! [`run`] carries one session through such a world to its end.

use crate::error::ErrorView;
use crate::lock::LockPolicy;
use crate::machine::{ActionView, EventView, GoalView, MachineView, PhaseView, ProductView};
use crate::path::{
    cache_root_spec, lemma_layout_distinct, lock_file_spec, source_tree_spec, tool_binary_spec,
    NAMESPACE,
};
use crate::process::{
    compile_command_spec, configure_command_spec, fetch_command_spec, generate_command_spec,
    CommandView, OutputView,
};
use vstd::prelude::*;

verus! {

/// The state shared by all sessions.
pub struct World {
    /// What the platform names as the user's cache directory.
    pub cache_dir: Option<Seq<char>>,
    /// The paths that exist.
    pub paths: Set<Seq<char>>,
    /// The locks that are held, each with the process that holds it.
    pub locks: Map<Seq<char>, nat>,
    /// The seconds that sessions have spent waiting.
    pub clock: nat,
    /// Every action performed so far, with the process that performed it.
    pub history: Seq<(nat, ActionView)>,
}

/// The output of a command that had nothing to say and exited with code
/// zero.
pub open spec fn clean_exit() -> OutputView {
    OutputView { code: Some(0i32), stdout: Seq::empty(), stderr: Seq::empty() }
}

/// Whether the command is the fetch, in whatever directory.
pub open spec fn fetches(command: CommandView) -> bool {
    match command.dir {
        Some(dir) => command == fetch_command_spec(dir),
        None => false,
    }
}

/// How often `command` occurs in the history.
pub open spec fn times_run(history: Seq<(nat, ActionView)>, command: CommandView) -> nat
    decreases history.len(),
{
    if history.len() == 0 {
        0
    } else {
        let earlier = times_run(history.drop_last(), command);
        if history.last().1 == ActionView::Run(command) {
            earlier + 1
        } else {
            earlier
        }
    }
}

/// How often the lock on `path` was tried in the history.
pub open spec fn times_tried(history: Seq<(nat, ActionView)>, path: Seq<char>) -> nat
    decreases history.len(),
{
    if history.len() == 0 {
        0
    } else {
        let earlier = times_tried(history.drop_last(), path);
        if history.last().1 == ActionView::TryLock(path) {
            earlier + 1
        } else {
            earlier
        }
    }
}

impl World {
    /// Whether process `who` is granted the lock on `path` if it asks now.
    pub open spec fn grants(self, who: nat, path: Seq<char>) -> bool {
        !self.locks.contains_key(path) || self.locks[path] == who
    }

    /// The answer that process `who` gets to `action`.
    pub open spec fn answer(self, who: nat, action: ActionView) -> EventView {
        match action {
            ActionView::FindCacheDir => EventView::CacheDir(self.cache_dir),
            ActionView::CreateDir(_) => EventView::DirCreated(true),
            ActionView::Touch(_) => EventView::Touched(true),
            ActionView::TryLock(path) => EventView::LockTried(self.grants(who, path)),
            ActionView::Sleep(_) => EventView::Slept,
            ActionView::Exists(path) => EventView::Existence(self.paths.contains(path)),
            ActionView::Run(_) => EventView::Exited(clean_exit()),
            ActionView::Unlock(_) => EventView::Unlocked,
            ActionView::Done(_) => EventView::Slept,
        }
    }

    /// The world after process `who` has performed `action`.
    pub open spec fn perform(self, who: nat, action: ActionView) -> World {
        let noted = World { history: self.history.push((who, action)), ..self };
        match action {
            ActionView::CreateDir(path) => World { paths: self.paths.insert(path), ..noted },
            ActionView::Touch(path) => World { paths: self.paths.insert(path), ..noted },
            ActionView::TryLock(path) => if self.grants(who, path) {
                World { locks: self.locks.insert(path, who), ..noted }
            } else {
                noted
            },
            ActionView::Sleep(secs) => World { clock: self.clock + secs as nat, ..noted },
            ActionView::Run(command) => match command.dir {
                Some(dir) => if fetches(command) {
                    World { paths: self.paths.insert(source_tree_spec(dir)), ..noted }
                } else {
                    noted
                },
                None => noted,
            },
            ActionView::Unlock(path) => if self.locks.contains_key(path) && self.locks[path]
                == who {
                World { locks: self.locks.remove(path), ..noted }
            } else {
                noted
            },
            ActionView::Done(_) => self,
            _ => noted,
        }
    }
}

/// The world and the session of process `who` once the session is over.
pub open spec fn run(world: World, who: nat, m: MachineView) -> (World, MachineView)
    decreases m.measure(),
{
    if m.finished() {
        (world, m)
    } else {
        let action = m.pending();
        run(world.perform(who, action), who, m.next(world.answer(who, action)))
    }
}

/// Adding an entry to the history adds one to the count of its command and
/// leaves every other count as it was.
pub proof fn lemma_history_push(history: Seq<(nat, ActionView)>, entry: (nat, ActionView))
    ensures
        forall|command: CommandView| #[trigger]
            times_run(history.push(entry), command) == times_run(history, command) + (if entry.1
                == ActionView::Run(command) {
                1nat
            } else {
                0nat
            }),
        forall|path: Seq<char>| #[trigger]
            times_tried(history.push(entry), path) == times_tried(history, path) + (if entry.1
                == ActionView::TryLock(path) {
                1nat
            } else {
                0nat
            }),
{
    assert(history.push(entry).drop_last() =~= history);
}

/// The four commands differ from one another, wherever they run: only the
/// fetch is a fetch.
pub proof fn lemma_commands_distinct()
    ensures
        forall|a: Seq<char>, b: Seq<char>| #[trigger]
            fetch_command_spec(a) != #[trigger] configure_command_spec(b),
        forall|a: Seq<char>, b: Seq<char>| #[trigger]
            fetch_command_spec(a) != #[trigger] compile_command_spec(b),
        forall|a: Seq<char>, b: Seq<char>| #[trigger]
            configure_command_spec(a) != #[trigger] compile_command_spec(b),
        forall|a: Seq<char>, b: Seq<char>, c: Seq<char>, d: Seq<char>| #[trigger]
            fetch_command_spec(a) != #[trigger] generate_command_spec(b, c, d),
        forall|a: Seq<char>, b: Seq<char>, c: Seq<char>, d: Seq<char>| #[trigger]
            configure_command_spec(a) != #[trigger] generate_command_spec(b, c, d),
        forall|a: Seq<char>, b: Seq<char>, c: Seq<char>, d: Seq<char>| #[trigger]
            compile_command_spec(a) != #[trigger] generate_command_spec(b, c, d),
        forall|a: Seq<char>| !fetches(#[trigger] configure_command_spec(a)),
        forall|a: Seq<char>| !fetches(#[trigger] compile_command_spec(a)),
        forall|b: Seq<char>, c: Seq<char>, d: Seq<char>|
            !fetches(#[trigger] generate_command_spec(b, c, d)),
        forall|a: Seq<char>| fetches(#[trigger] fetch_command_spec(a)),
{
    reveal_strlit("git");
    reveal_strlit("cmake");
    assert("git"@.len() != "cmake"@.len());
    assert forall|a: Seq<char>, b: Seq<char>| #[trigger]
        configure_command_spec(a) != #[trigger] compile_command_spec(b) by {
        assert(configure_command_spec(a).args.len() == 2);
        assert(compile_command_spec(b).args.len() == 4);
    }
    assert forall|a: Seq<char>, b: Seq<char>, c: Seq<char>, d: Seq<char>| #[trigger]
        fetch_command_spec(a) != #[trigger] generate_command_spec(b, c, d) by {
        assert(fetch_command_spec(a).args.len() == 2);
        assert(generate_command_spec(b, c, d).args.len() == 5);
    }
    assert forall|a: Seq<char>, b: Seq<char>, c: Seq<char>, d: Seq<char>| #[trigger]
        configure_command_spec(a) != #[trigger] generate_command_spec(b, c, d) by {
        assert(configure_command_spec(a).args.len() == 2);
        assert(generate_command_spec(b, c, d).args.len() == 5);
    }
    assert forall|a: Seq<char>, b: Seq<char>, c: Seq<char>, d: Seq<char>| #[trigger]
        compile_command_spec(a) != #[trigger] generate_command_spec(b, c, d) by {
        assert(compile_command_spec(a).args.len() == 4);
        assert(generate_command_spec(b, c, d).args.len() == 5);
    }
}

/// One turn of a session that is not over: the session performs the
/// action it waits for, which goes down in the history, and takes the
/// answer.
pub proof fn lemma_turn(world: World, who: nat, m: MachineView)
    requires
        !m.finished(),
    ensures
        run(world, who, m) == run(
            world.perform(who, m.pending()),
            who,
            m.next(world.answer(who, m.pending())),
        ),
        forall|command: CommandView| #[trigger]
            times_run(world.perform(who, m.pending()).history, command) == times_run(
                world.history,
                command,
            ) + (if m.pending() == ActionView::Run(command) {
                1nat
            } else {
                0nat
            }),
        forall|path: Seq<char>| #[trigger]
            times_tried(world.perform(who, m.pending()).history, path) == times_tried(
                world.history,
                path,
            ) + (if m.pending() == ActionView::TryLock(path) {
                1nat
            } else {
                0nat
            }),
{
    lemma_history_push(world.history, (who, m.pending()));
}

/// A session whose schema does not exist ends with that error, and all it
/// has done is to ask whether the schema exists: no directory or file was
/// created, no lock tried and no command run.
pub proof fn lemma_missing_schema_touches_nothing(
    world: World,
    who: nat,
    schema: Seq<char>,
    out_dir: Seq<char>,
    policy: LockPolicy,
)
    requires
        !world.paths.contains(schema),
    ensures
        ({
            let start = MachineView::start(GoalView::Generate { schema, out_dir }, policy);
            let (end, m) = run(world, who, start);
            &&& m.phase == PhaseView::Finished(Err(ErrorView::MissingInput { path: schema }))
            &&& end == World {
                history: world.history.push((who, ActionView::Exists(schema))),
                ..world
            }
        }),
{
    let start = MachineView::start(GoalView::Generate { schema, out_dir }, policy);
    lemma_turn(world, who, start);
}

/// A session that polls for a lock that is never given back has, after
/// `failed` failures, that many waits less in front of it.
proof fn lemma_polling_times_out(world: World, who: nat, m: MachineView, failed: u32)
    requires
        m.phase == (PhaseView::Locking { failed }),
        failed <= m.policy.max_attempts,
        !world.grants(who, m.lock_path()),
    ensures
        ({
            let (end, over) = run(world, who, m);
            let left = m.policy.max_attempts - failed;
            &&& over == m.fail(
                ErrorView::LockTimeout {
                    path: m.lock_path(),
                    waits: m.policy.max_attempts,
                    poll_secs: m.policy.poll_secs,
                },
            )
            &&& end.clock == world.clock + left * m.policy.poll_secs
            &&& times_tried(end.history, m.lock_path()) == times_tried(
                world.history,
                m.lock_path(),
            ) + left + 1
            &&& end.locks == world.locks
            &&& end.paths == world.paths
            &&& forall|command: CommandView| #[trigger]
                times_run(end.history, command) == times_run(world.history, command)
        }),
    decreases m.policy.max_attempts - failed,
{
    let tried = world.perform(who, m.pending());
    let refused = m.next(world.answer(who, m.pending()));
    lemma_turn(world, who, m);
    if failed < m.policy.max_attempts {
        let waited = tried.perform(who, refused.pending());
        let again = refused.next(tried.answer(who, refused.pending()));
        lemma_turn(tried, who, refused);
        lemma_polling_times_out(waited, who, again, (failed + 1) as u32);
        let left = m.policy.max_attempts - failed;
        assert(left * m.policy.poll_secs == m.policy.poll_secs + (left - 1)
            * m.policy.poll_secs) by (nonlinear_arith);
    } else {
        assert(0 * m.policy.poll_secs == 0) by (nonlinear_arith);
    }
}

/// While another process keeps the lock, a session polls `max_attempts + 1`
/// times, waits `max_attempts` times for `poll_secs` seconds in between,
/// and then ends with [`crate::error::Error::LockTimeout`]: not before the
/// ceiling of the policy has passed, and without waiting any longer.
pub proof fn lemma_held_lock_times_out(
    world: World,
    who: nat,
    base: Seq<char>,
    goal: GoalView,
    policy: LockPolicy,
)
    requires
        world.cache_dir == Some(base),
        goal is Generate ==> world.paths.contains(goal.schema()),
        !world.grants(who, lock_file_spec(cache_root_spec(base, NAMESPACE@), NAMESPACE@)),
    ensures
        ({
            let (end, over) = run(world, who, MachineView::start(goal, policy));
            let path = lock_file_spec(cache_root_spec(base, NAMESPACE@), NAMESPACE@);
            &&& over.phase == PhaseView::Finished(
                Err(
                    ErrorView::LockTimeout {
                        path,
                        waits: policy.max_attempts,
                        poll_secs: policy.poll_secs,
                    },
                ),
            )
            &&& end.clock == world.clock + policy.ceiling()
            &&& times_tried(end.history, path) == times_tried(world.history, path)
                + policy.max_attempts + 1
            &&& end.locks == world.locks
            &&& forall|command: CommandView| #[trigger]
                times_run(end.history, command) == times_run(world.history, command)
        }),
{
    let start = MachineView::start(goal, policy);
    let (asked, begun) = if goal is Generate {
        lemma_turn(world, who, start);
        (world.perform(who, start.pending()), start.next(world.answer(who, start.pending())))
    } else {
        (world, start)
    };
    lemma_turn(asked, who, begun);
    let found = asked.perform(who, begun.pending());
    let rooted = begun.next(asked.answer(who, begun.pending()));
    lemma_turn(found, who, rooted);
    let made = found.perform(who, rooted.pending());
    let created = rooted.next(found.answer(who, rooted.pending()));
    lemma_turn(made, who, created);
    let touched = made.perform(who, created.pending());
    let locking = created.next(made.answer(who, created.pending()));
    lemma_polling_times_out(touched, who, locking, 0);
}

/// One session that builds, alone in the world: it ends with the path of
/// the executable, has fetched only if the source tree was absent, has
/// configured and compiled once, and leaves the lock free.
pub proof fn lemma_build_alone(world: World, who: nat, base: Seq<char>, policy: LockPolicy)
    requires
        world.cache_dir == Some(base),
        world.grants(who, lock_file_spec(cache_root_spec(base, NAMESPACE@), NAMESPACE@)),
    ensures
        ({
            let (end, over) = run(world, who, MachineView::start(GoalView::Build, policy));
            let root = cache_root_spec(base, NAMESPACE@);
            let lock = lock_file_spec(root, NAMESPACE@);
            let tree = source_tree_spec(root);
            &&& over.phase == PhaseView::Finished(
                Ok(ProductView::Binary(tool_binary_spec(root))),
            )
            &&& end.cache_dir == world.cache_dir
            &&& end.paths == world.paths.insert(root).insert(lock).insert(tree)
            &&& end.locks == world.locks.remove(lock)
            &&& end.clock == world.clock
            &&& times_run(end.history, fetch_command_spec(root)) == times_run(
                world.history,
                fetch_command_spec(root),
            ) + (if world.paths.contains(tree) {
                0nat
            } else {
                1nat
            })
            &&& times_run(end.history, configure_command_spec(tree)) == times_run(
                world.history,
                configure_command_spec(tree),
            ) + 1
            &&& times_run(end.history, compile_command_spec(tree)) == times_run(
                world.history,
                compile_command_spec(tree),
            ) + 1
        }),
{
    let root = cache_root_spec(base, NAMESPACE@);
    let lock = lock_file_spec(root, NAMESPACE@);
    let tree = source_tree_spec(root);
    lemma_layout_distinct(root);
    lemma_commands_distinct();
    // The session resolves the root, creates it, touches the lock file and
    // is granted the lock at the first attempt.
    let finding = MachineView::start(GoalView::Build, policy);
    lemma_turn(world, who, finding);
    let found = world.perform(who, finding.pending());
    let making = finding.next(world.answer(who, finding.pending()));
    lemma_turn(found, who, making);
    let made = found.perform(who, making.pending());
    let touching = making.next(found.answer(who, making.pending()));
    lemma_turn(made, who, touching);
    let touched = made.perform(who, touching.pending());
    let locking = touching.next(made.answer(who, touching.pending()));
    lemma_turn(touched, who, locking);
    let locked = touched.perform(who, locking.pending());
    let looking = locking.next(touched.answer(who, locking.pending()));
    assert(locked.paths == world.paths.insert(root).insert(lock));
    assert(locked.locks == world.locks.insert(lock, who));
    // It looks for the source tree, and fetches it if it is not there.
    lemma_turn(locked, who, looking);
    let looked = locked.perform(who, looking.pending());
    let next = looking.next(locked.answer(who, looking.pending()));
    let (ready, configuring) = if world.paths.contains(tree) {
        assert(looked.paths =~= world.paths.insert(root).insert(lock).insert(tree));
        (looked, next)
    } else {
        lemma_turn(looked, who, next);
        assert(fetches(next.command()));
        (looked.perform(who, next.pending()), next.next(looked.answer(who, next.pending())))
    };
    assert(ready.paths == world.paths.insert(root).insert(lock).insert(tree));
    // It configures, compiles and gives the lock back.
    lemma_turn(ready, who, configuring);
    let configured = ready.perform(who, configuring.pending());
    let compiling = configuring.next(ready.answer(who, configuring.pending()));
    lemma_turn(configured, who, compiling);
    let compiled = configured.perform(who, compiling.pending());
    let releasing = compiling.next(configured.answer(who, compiling.pending()));
    lemma_turn(compiled, who, releasing);
    let released = compiled.perform(who, releasing.pending());
    assert(released.locks =~= world.locks.remove(lock));
}

/// Two sessions that build one after the other, where the source tree was
/// absent at first: the fetch has run once, for the first of them, the
/// source tree was configured and compiled twice, and both sessions end
/// with the same path. That the cache root and the lock file exist when the
/// second session creates them does not make it fail.
pub proof fn lemma_second_build_reuses_tree(
    world: World,
    first: nat,
    second: nat,
    base: Seq<char>,
    policy: LockPolicy,
)
    requires
        world.cache_dir == Some(base),
        world.grants(first, lock_file_spec(cache_root_spec(base, NAMESPACE@), NAMESPACE@)),
        !world.paths.contains(source_tree_spec(cache_root_spec(base, NAMESPACE@))),
    ensures
        ({
            let start = MachineView::start(GoalView::Build, policy);
            let (between, one) = run(world, first, start);
            let (end, two) = run(between, second, start);
            let root = cache_root_spec(base, NAMESPACE@);
            let tree = source_tree_spec(root);
            let fetch = fetch_command_spec(root);
            let configure = configure_command_spec(tree);
            let compile = compile_command_spec(tree);
            &&& one.phase == PhaseView::Finished(Ok(ProductView::Binary(tool_binary_spec(root))))
            &&& two.phase == one.phase
            &&& between.paths.contains(root)
            &&& between.paths.contains(lock_file_spec(root, NAMESPACE@))
            &&& times_run(between.history, fetch) == times_run(world.history, fetch) + 1
            &&& times_run(end.history, fetch) == times_run(world.history, fetch) + 1
            &&& times_run(end.history, configure) == times_run(world.history, configure) + 2
            &&& times_run(end.history, compile) == times_run(world.history, compile) + 2
        }),
{
    let start = MachineView::start(GoalView::Build, policy);
    lemma_build_alone(world, first, base, policy);
    let (between, one) = run(world, first, start);
    lemma_build_alone(between, second, base, policy);
}

} // verus!
