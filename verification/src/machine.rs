//! The protocol of a session, as a state machine without effects.
//!
//! A [`Machine`] never touches the outside world. In every state it waits
//! for the answer to one [`Action`], given by [`Machine::pending`];
//! [`Machine::step`] takes the [`Event`] that answers it and moves on. An
//! event that does not answer the pending action changes nothing.
//!
//! A session with the goal [`Goal::Build`] resolves the cache root, creates
//! it, touches the lock file, polls for the lock, fetches the source tree if
//! it is absent, configures and compiles it, gives the lock back and ends
//! with the path of the executable. With the goal [`Goal::Generate`] it first
//! checks that the schema exists, and after the build it runs the executable
//! on the schema, outside the lock.

use crate::error::{Error, ErrorView};
use crate::lock::LockPolicy;
use crate::path::{
    cache_root, cache_root_spec, lock_file, lock_file_spec, source_tree, source_tree_spec,
    tool_binary, tool_binary_spec, NAMESPACE,
};
use crate::process::{
    check_output, check_output_spec, compile_command, compile_command_spec, configure_command,
    configure_command_spec, fetch_command, fetch_command_spec, generate_command,
    generate_command_spec, opt_text, Command, CommandView, Output, OutputView,
};
use vstd::prelude::*;
use vstd::string::*;

verus! {

/// What a session is for.
#[derive(Debug, PartialEq, Eq)]
pub enum Goal {
    /// Make sure the executable is built, and name it.
    Build,
    /// Build, then generate Rust source from `schema` into `out_dir`.
    Generate { schema: String, out_dir: String },
}

/// A [`Goal`] as contracts see it.
pub enum GoalView {
    Build,
    Generate { schema: Seq<char>, out_dir: Seq<char> },
}

/// What a session leaves when it succeeds.
#[derive(Debug, PartialEq, Eq)]
pub enum Product {
    /// The path of the built executable.
    Binary(String),
    /// The generator ran and exited with code zero.
    Generated,
}

/// A [`Product`] as contracts see it.
pub enum ProductView {
    Binary(Seq<char>),
    Generated,
}

/// What the session needs done before it can go on.
#[derive(Debug, PartialEq, Eq)]
pub enum Action {
    /// Ask the platform for the user's cache directory.
    FindCacheDir,
    /// Create the directory and all its missing parents.
    CreateDir(String),
    /// Create the file if it is absent.
    Touch(String),
    /// Make one attempt to take the exclusive lock on the file.
    TryLock(String),
    /// Wait for this many seconds.
    Sleep(u64),
    /// Tell whether the path exists.
    Exists(String),
    /// Run the command to completion and capture what it prints.
    Run(Command),
    /// Give the lock on the file back.
    Unlock(String),
    /// Nothing: the session is over, with this result.
    Done(Result<Product, Error>),
}

/// An [`Action`] as contracts see it.
pub enum ActionView {
    FindCacheDir,
    CreateDir(Seq<char>),
    Touch(Seq<char>),
    TryLock(Seq<char>),
    Sleep(u64),
    Exists(Seq<char>),
    Run(CommandView),
    Unlock(Seq<char>),
    Done(Result<ProductView, ErrorView>),
}

/// The answer to an action.
#[derive(Debug, PartialEq, Eq)]
pub enum Event {
    /// The platform's cache directory, if it has one.
    CacheDir(Option<String>),
    /// Whether the directory exists now.
    DirCreated(bool),
    /// Whether the file exists now.
    Touched(bool),
    /// Whether the lock was granted.
    LockTried(bool),
    /// The wait is over.
    Slept,
    /// Whether the path exists.
    Existence(bool),
    /// The command ran and ended.
    Exited(Output),
    /// The command could not be started.
    LaunchFailed,
    /// The lock was given back.
    Unlocked,
}

/// An [`Event`] as contracts see it.
pub enum EventView {
    CacheDir(Option<Seq<char>>),
    DirCreated(bool),
    Touched(bool),
    LockTried(bool),
    Slept,
    Existence(bool),
    Exited(OutputView),
    LaunchFailed,
    Unlocked,
}

/// Where a session stands.
#[derive(Debug, PartialEq, Eq)]
pub enum Phase {
    CheckSchema,
    FindCache,
    MakeRoot,
    TouchLock,
    /// About to try the lock, after `failed` failed attempts.
    Locking { failed: u32 },
    /// Waiting before the next attempt, after `failed` failed attempts.
    Waiting { failed: u32 },
    CheckTree,
    Fetch,
    Configure,
    Compile,
    /// Giving the lock back, after the build ended with this failure or
    /// with none.
    Releasing(Option<Error>),
    Generate,
    Finished(Result<Product, Error>),
}

/// A [`Phase`] as contracts see it.
pub enum PhaseView {
    CheckSchema,
    FindCache,
    MakeRoot,
    TouchLock,
    Locking { failed: u32 },
    Waiting { failed: u32 },
    CheckTree,
    Fetch,
    Configure,
    Compile,
    Releasing(Option<ErrorView>),
    Generate,
    Finished(Result<ProductView, ErrorView>),
}

/// The state of a session.
#[derive(Debug, PartialEq, Eq)]
pub struct Machine {
    pub goal: Goal,
    pub policy: LockPolicy,
    /// The cache root; empty until the cache directory is known.
    pub root: String,
    pub phase: Phase,
}

/// A [`Machine`] as contracts see it: the state of a session.
pub struct MachineView {
    pub goal: GoalView,
    pub policy: LockPolicy,
    pub root: Seq<char>,
    pub phase: PhaseView,
}

/// The end of a session as contracts see it.
pub open spec fn outcome_view(outcome: Result<Product, Error>) -> Result<ProductView, ErrorView> {
    match outcome {
        Ok(product) => Ok(product@),
        Err(error) => Err(error@),
    }
}

/// A failure that may be absent, as contracts see it.
pub open spec fn opt_error_view(failure: Option<Error>) -> Option<ErrorView> {
    match failure {
        Some(error) => Some(error@),
        None => None,
    }
}

impl View for Goal {
    type V = GoalView;

    open spec fn view(&self) -> GoalView {
        match self {
            Goal::Build => GoalView::Build,
            Goal::Generate { schema, out_dir } => GoalView::Generate {
                schema: schema@,
                out_dir: out_dir@,
            },
        }
    }
}

impl View for Product {
    type V = ProductView;

    open spec fn view(&self) -> ProductView {
        match self {
            Product::Binary(path) => ProductView::Binary(path@),
            Product::Generated => ProductView::Generated,
        }
    }
}

impl View for Action {
    type V = ActionView;

    open spec fn view(&self) -> ActionView {
        match self {
            Action::FindCacheDir => ActionView::FindCacheDir,
            Action::CreateDir(path) => ActionView::CreateDir(path@),
            Action::Touch(path) => ActionView::Touch(path@),
            Action::TryLock(path) => ActionView::TryLock(path@),
            Action::Sleep(secs) => ActionView::Sleep(*secs),
            Action::Exists(path) => ActionView::Exists(path@),
            Action::Run(command) => ActionView::Run(command@),
            Action::Unlock(path) => ActionView::Unlock(path@),
            Action::Done(outcome) => ActionView::Done(outcome_view(*outcome)),
        }
    }
}

impl View for Event {
    type V = EventView;

    open spec fn view(&self) -> EventView {
        match self {
            Event::CacheDir(dir) => EventView::CacheDir(opt_text(*dir)),
            Event::DirCreated(ok) => EventView::DirCreated(*ok),
            Event::Touched(ok) => EventView::Touched(*ok),
            Event::LockTried(granted) => EventView::LockTried(*granted),
            Event::Slept => EventView::Slept,
            Event::Existence(found) => EventView::Existence(*found),
            Event::Exited(output) => EventView::Exited(output@),
            Event::LaunchFailed => EventView::LaunchFailed,
            Event::Unlocked => EventView::Unlocked,
        }
    }
}

impl View for Phase {
    type V = PhaseView;

    open spec fn view(&self) -> PhaseView {
        match self {
            Phase::CheckSchema => PhaseView::CheckSchema,
            Phase::FindCache => PhaseView::FindCache,
            Phase::MakeRoot => PhaseView::MakeRoot,
            Phase::TouchLock => PhaseView::TouchLock,
            Phase::Locking { failed } => PhaseView::Locking { failed: *failed },
            Phase::Waiting { failed } => PhaseView::Waiting { failed: *failed },
            Phase::CheckTree => PhaseView::CheckTree,
            Phase::Fetch => PhaseView::Fetch,
            Phase::Configure => PhaseView::Configure,
            Phase::Compile => PhaseView::Compile,
            Phase::Releasing(failure) => PhaseView::Releasing(opt_error_view(*failure)),
            Phase::Generate => PhaseView::Generate,
            Phase::Finished(outcome) => PhaseView::Finished(outcome_view(*outcome)),
        }
    }
}

impl View for Machine {
    type V = MachineView;

    open spec fn view(&self) -> MachineView {
        MachineView {
            goal: self.goal@,
            policy: self.policy,
            root: self.root@,
            phase: self.phase@,
        }
    }
}

impl GoalView {
    /// The schema to generate from; empty where nothing is generated.
    pub open spec fn schema(self) -> Seq<char> {
        match self {
            GoalView::Build => Seq::empty(),
            GoalView::Generate { schema, .. } => schema,
        }
    }

    /// The directory to generate into; empty where nothing is generated.
    pub open spec fn out_dir(self) -> Seq<char> {
        match self {
            GoalView::Build => Seq::empty(),
            GoalView::Generate { out_dir, .. } => out_dir,
        }
    }
}

impl ActionView {
    /// Whether a [`crate::session::Session`] performs the action itself
    /// instead of handing it to the host.
    pub open spec fn internal(self) -> bool {
        self is FindCacheDir || self is TryLock || self is Unlock
    }

    /// Whether `event` is an answer to this action.
    pub open spec fn answered_by(self, event: EventView) -> bool {
        match self {
            ActionView::FindCacheDir => event is CacheDir,
            ActionView::CreateDir(_) => event is DirCreated,
            ActionView::Touch(_) => event is Touched,
            ActionView::TryLock(_) => event is LockTried,
            ActionView::Sleep(_) => event is Slept,
            ActionView::Exists(_) => event is Existence,
            ActionView::Run(_) => event is Exited || event is LaunchFailed,
            ActionView::Unlock(_) => event is Unlocked,
            ActionView::Done(_) => false,
        }
    }
}

impl EventView {
    /// Whether the event tells of a command that exited with code zero.
    pub open spec fn succeeded(self) -> bool {
        match self {
            EventView::Exited(output) => output.success(),
            _ => false,
        }
    }

    /// Whether the event tells of a command that did not start, or that
    /// exited with another code than zero.
    pub open spec fn broke(self) -> bool {
        match self {
            EventView::Exited(output) => !output.success(),
            EventView::LaunchFailed => true,
            _ => false,
        }
    }
}

impl MachineView {
    /// The state in which a session with this goal begins.
    pub open spec fn start(goal: GoalView, policy: LockPolicy) -> MachineView {
        MachineView {
            goal,
            policy,
            root: Seq::empty(),
            phase: if goal is Build {
                PhaseView::FindCache
            } else {
                PhaseView::CheckSchema
            },
        }
    }

    /// The lock file below the session's cache root.
    pub open spec fn lock_path(self) -> Seq<char> {
        lock_file_spec(self.root, NAMESPACE@)
    }

    /// The source tree below the session's cache root.
    pub open spec fn tree(self) -> Seq<char> {
        source_tree_spec(self.root)
    }

    /// The executable in the source tree.
    pub open spec fn binary(self) -> Seq<char> {
        tool_binary_spec(self.root)
    }

    /// The command that the session runs in this phase, if it runs one.
    pub open spec fn command(self) -> CommandView {
        match self.phase {
            PhaseView::Fetch => fetch_command_spec(self.root),
            PhaseView::Configure => configure_command_spec(self.tree()),
            PhaseView::Compile => compile_command_spec(self.tree()),
            _ => generate_command_spec(self.binary(), self.goal.out_dir(), self.goal.schema()),
        }
    }

    /// The action whose answer the session waits for.
    pub open spec fn pending(self) -> ActionView {
        match self.phase {
            PhaseView::CheckSchema => ActionView::Exists(self.goal.schema()),
            PhaseView::FindCache => ActionView::FindCacheDir,
            PhaseView::MakeRoot => ActionView::CreateDir(self.root),
            PhaseView::TouchLock => ActionView::Touch(self.lock_path()),
            PhaseView::Locking { .. } => ActionView::TryLock(self.lock_path()),
            PhaseView::Waiting { .. } => ActionView::Sleep(self.policy.poll_secs),
            PhaseView::CheckTree => ActionView::Exists(self.tree()),
            PhaseView::Fetch => ActionView::Run(self.command()),
            PhaseView::Configure => ActionView::Run(self.command()),
            PhaseView::Compile => ActionView::Run(self.command()),
            PhaseView::Releasing(_) => ActionView::Unlock(self.lock_path()),
            PhaseView::Generate => ActionView::Run(self.command()),
            PhaseView::Finished(outcome) => ActionView::Done(outcome),
        }
    }

    /// Whether the session holds the lock: from the attempt that was granted
    /// until the lock is given back.
    pub open spec fn holds_lock(self) -> bool {
        self.phase is CheckTree || self.phase is Fetch || self.phase is Configure
            || self.phase is Compile || self.phase is Releasing
    }

    /// Whether the session is over.
    pub open spec fn finished(self) -> bool {
        self.phase is Finished
    }

    /// The same session in another phase.
    pub open spec fn at(self, phase: PhaseView) -> MachineView {
        MachineView { phase, ..self }
    }

    /// The same session, over with this failure.
    pub open spec fn fail(self, error: ErrorView) -> MachineView {
        self.at(PhaseView::Finished(Err(error)))
    }

    /// What `event` tells of the command that the session runs in this
    /// phase: that it succeeded, or how it failed; `None` if the event tells
    /// of no command.
    pub open spec fn judged(self, event: EventView) -> Option<Result<(), ErrorView>> {
        match event {
            EventView::Exited(output) => Some(check_output_spec(output, self.command())),
            EventView::LaunchFailed => Some(Err(ErrorView::Launch { command: self.command() })),
            _ => None,
        }
    }

    /// Where a command that ran under the lock leads: on success to `then`,
    /// otherwise to giving the lock back with the failure kept.
    pub open spec fn after_command(self, event: EventView, then: PhaseView) -> MachineView {
        match self.judged(event) {
            Some(Ok(())) => self.at(then),
            Some(Err(error)) => self.at(PhaseView::Releasing(Some(error))),
            None => self,
        }
    }

    /// The state after `event`. An event that does not answer the pending
    /// action leaves the state as it is.
    pub open spec fn next(self, event: EventView) -> MachineView {
        match (self.phase, event) {
            (PhaseView::CheckSchema, EventView::Existence(found)) => if found {
                self.at(PhaseView::FindCache)
            } else {
                self.fail(ErrorView::MissingInput { path: self.goal.schema() })
            },
            (PhaseView::FindCache, EventView::CacheDir(Some(base))) => MachineView {
                root: cache_root_spec(base, NAMESPACE@),
                phase: PhaseView::MakeRoot,
                ..self
            },
            (PhaseView::FindCache, EventView::CacheDir(None)) => self.fail(ErrorView::NoCacheDir),
            (PhaseView::MakeRoot, EventView::DirCreated(ok)) => if ok {
                self.at(PhaseView::TouchLock)
            } else {
                self.fail(ErrorView::CacheRoot { path: self.root })
            },
            (PhaseView::TouchLock, EventView::Touched(ok)) => if ok {
                self.at(PhaseView::Locking { failed: 0 })
            } else {
                self.fail(ErrorView::LockFile { path: self.lock_path() })
            },
            (PhaseView::Locking { failed }, EventView::LockTried(granted)) => if granted {
                self.at(PhaseView::CheckTree)
            } else {
                match self.policy.after_failure_spec(failed) {
                    Some(failed) => self.at(PhaseView::Waiting { failed }),
                    None => self.fail(
                        ErrorView::LockTimeout {
                            path: self.lock_path(),
                            waits: failed,
                            poll_secs: self.policy.poll_secs,
                        },
                    ),
                }
            },
            (PhaseView::Waiting { failed }, EventView::Slept) => self.at(
                PhaseView::Locking { failed },
            ),
            (PhaseView::CheckTree, EventView::Existence(found)) => if found {
                self.at(PhaseView::Configure)
            } else {
                self.at(PhaseView::Fetch)
            },
            (PhaseView::Fetch, _) => self.after_command(event, PhaseView::Configure),
            (PhaseView::Configure, _) => self.after_command(event, PhaseView::Compile),
            (PhaseView::Compile, _) => self.after_command(event, PhaseView::Releasing(None)),
            (PhaseView::Releasing(failure), EventView::Unlocked) => match failure {
                Some(error) => self.fail(error),
                None => match self.goal {
                    GoalView::Build => self.at(
                        PhaseView::Finished(Ok(ProductView::Binary(self.binary()))),
                    ),
                    GoalView::Generate { .. } => self.at(PhaseView::Generate),
                },
            },
            (PhaseView::Generate, _) => match self.judged(event) {
                Some(Ok(())) => self.at(PhaseView::Finished(Ok(ProductView::Generated))),
                Some(Err(error)) => self.fail(error),
                None => self,
            },
            _ => self,
        }
    }
}

impl MachineView {
    /// An upper bound on the number of answers that the session still takes
    /// before it is over.
    pub open spec fn measure(self) -> nat {
        let polls: nat = 2 * self.policy.max_attempts as nat;
        match self.phase {
            PhaseView::Finished(_) => 0,
            PhaseView::Generate => 1,
            PhaseView::Releasing(_) => 2,
            PhaseView::Compile => 3,
            PhaseView::Configure => 4,
            PhaseView::Fetch => 5,
            PhaseView::CheckTree => 6,
            PhaseView::Locking { failed } => if failed <= self.policy.max_attempts {
                (7 + polls - 2 * failed) as nat
            } else {
                7
            },
            PhaseView::Waiting { failed } => if failed <= self.policy.max_attempts {
                (8 + polls - 2 * failed) as nat
            } else {
                8
            },
            PhaseView::TouchLock => 8 + polls,
            PhaseView::MakeRoot => 9 + polls,
            PhaseView::FindCache => 10 + polls,
            PhaseView::CheckSchema => 11 + polls,
        }
    }
}

impl Clone for Product {
    fn clone(&self) -> (copy: Self)
        ensures
            copy@ == self@,
    {
        match self {
            Product::Binary(path) => Product::Binary(path.clone()),
            Product::Generated => Product::Generated,
        }
    }
}

fn clone_outcome(outcome: &Result<Product, Error>) -> (copy: Result<Product, Error>)
    ensures
        outcome_view(copy) == outcome_view(*outcome),
{
    match outcome {
        Ok(product) => Ok(product.clone()),
        Err(error) => Err(error.clone()),
    }
}

impl Clone for Goal {
    fn clone(&self) -> (copy: Self)
        ensures
            copy@ == self@,
    {
        match self {
            Goal::Build => Goal::Build,
            Goal::Generate { schema, out_dir } => Goal::Generate {
                schema: schema.clone(),
                out_dir: out_dir.clone(),
            },
        }
    }
}

impl Clone for Action {
    fn clone(&self) -> (copy: Self)
        ensures
            copy@ == self@,
    {
        match self {
            Action::FindCacheDir => Action::FindCacheDir,
            Action::CreateDir(path) => Action::CreateDir(path.clone()),
            Action::Touch(path) => Action::Touch(path.clone()),
            Action::TryLock(path) => Action::TryLock(path.clone()),
            Action::Sleep(secs) => Action::Sleep(*secs),
            Action::Exists(path) => Action::Exists(path.clone()),
            Action::Run(command) => Action::Run(command.clone()),
            Action::Unlock(path) => Action::Unlock(path.clone()),
            Action::Done(outcome) => Action::Done(clone_outcome(outcome)),
        }
    }
}

impl Clone for Event {
    fn clone(&self) -> (copy: Self)
        ensures
            copy@ == self@,
    {
        match self {
            Event::CacheDir(Some(dir)) => Event::CacheDir(Some(dir.clone())),
            Event::CacheDir(None) => Event::CacheDir(None),
            Event::DirCreated(ok) => Event::DirCreated(*ok),
            Event::Touched(ok) => Event::Touched(*ok),
            Event::LockTried(granted) => Event::LockTried(*granted),
            Event::Slept => Event::Slept,
            Event::Existence(found) => Event::Existence(*found),
            Event::Exited(output) => Event::Exited(output.clone()),
            Event::LaunchFailed => Event::LaunchFailed,
            Event::Unlocked => Event::Unlocked,
        }
    }
}

impl Clone for Phase {
    fn clone(&self) -> (copy: Self)
        ensures
            copy@ == self@,
    {
        match self {
            Phase::CheckSchema => Phase::CheckSchema,
            Phase::FindCache => Phase::FindCache,
            Phase::MakeRoot => Phase::MakeRoot,
            Phase::TouchLock => Phase::TouchLock,
            Phase::Locking { failed } => Phase::Locking { failed: *failed },
            Phase::Waiting { failed } => Phase::Waiting { failed: *failed },
            Phase::CheckTree => Phase::CheckTree,
            Phase::Fetch => Phase::Fetch,
            Phase::Configure => Phase::Configure,
            Phase::Compile => Phase::Compile,
            Phase::Releasing(Some(error)) => Phase::Releasing(Some(error.clone())),
            Phase::Releasing(None) => Phase::Releasing(None),
            Phase::Generate => Phase::Generate,
            Phase::Finished(outcome) => Phase::Finished(clone_outcome(outcome)),
        }
    }
}

impl Clone for Machine {
    fn clone(&self) -> (copy: Self)
        ensures
            copy@ == self@,
    {
        Machine {
            goal: self.goal.clone(),
            policy: self.policy,
            root: self.root.clone(),
            phase: self.phase.clone(),
        }
    }
}

impl Goal {
    /// The schema to generate from; empty where nothing is generated.
    pub fn schema(&self) -> (path: String)
        ensures
            path@ == self@.schema(),
    {
        match self {
            Goal::Build => String::new(),
            Goal::Generate { schema, .. } => schema.clone(),
        }
    }

    /// The directory to generate into; empty where nothing is generated.
    pub fn out_dir(&self) -> (path: String)
        ensures
            path@ == self@.out_dir(),
    {
        match self {
            Goal::Build => String::new(),
            Goal::Generate { out_dir, .. } => out_dir.clone(),
        }
    }
}

impl Action {
    /// Whether a [`crate::session::Session`] performs the action itself.
    pub fn internal(&self) -> (internal: bool)
        ensures
            internal == self@.internal(),
    {
        match self {
            Action::FindCacheDir => true,
            Action::TryLock(_) => true,
            Action::Unlock(_) => true,
            _ => false,
        }
    }
}

impl Machine {
    /// A session with this goal, at its beginning.
    pub fn new(goal: Goal, policy: LockPolicy) -> (machine: Machine)
        ensures
            machine@ == MachineView::start(goal@, policy),
    {
        let phase = match &goal {
            Goal::Build => Phase::FindCache,
            Goal::Generate { .. } => Phase::CheckSchema,
        };
        Machine { goal, policy, root: String::new(), phase }
    }

    /// Whether the session is over.
    pub fn finished(&self) -> (finished: bool)
        ensures
            finished == self@.finished(),
    {
        match &self.phase {
            Phase::Finished(_) => true,
            _ => false,
        }
    }

    /// Whether the session holds the lock.
    pub fn holds_lock(&self) -> (holds: bool)
        ensures
            holds == self@.holds_lock(),
    {
        match &self.phase {
            Phase::CheckTree => true,
            Phase::Fetch => true,
            Phase::Configure => true,
            Phase::Compile => true,
            Phase::Releasing(_) => true,
            _ => false,
        }
    }

    fn lock_path(&self) -> (path: String)
        ensures
            path@ == self@.lock_path(),
    {
        lock_file(self.root.as_str(), NAMESPACE)
    }

    fn command(&self) -> (command: Command)
        ensures
            command@ == self@.command(),
    {
        match &self.phase {
            Phase::Fetch => fetch_command(self.root.as_str()),
            Phase::Configure => configure_command(source_tree(self.root.as_str()).as_str()),
            Phase::Compile => compile_command(source_tree(self.root.as_str()).as_str()),
            _ => generate_command(
                tool_binary(self.root.as_str()).as_str(),
                self.goal.out_dir().as_str(),
                self.goal.schema().as_str(),
            ),
        }
    }

    /// The action whose answer the session waits for.
    pub fn pending(&self) -> (action: Action)
        ensures
            action@ == self@.pending(),
    {
        match &self.phase {
            Phase::CheckSchema => Action::Exists(self.goal.schema()),
            Phase::FindCache => Action::FindCacheDir,
            Phase::MakeRoot => Action::CreateDir(self.root.clone()),
            Phase::TouchLock => Action::Touch(self.lock_path()),
            Phase::Locking { .. } => Action::TryLock(self.lock_path()),
            Phase::Waiting { .. } => Action::Sleep(self.policy.poll_secs),
            Phase::CheckTree => Action::Exists(source_tree(self.root.as_str())),
            Phase::Fetch => Action::Run(self.command()),
            Phase::Configure => Action::Run(self.command()),
            Phase::Compile => Action::Run(self.command()),
            Phase::Releasing(_) => Action::Unlock(self.lock_path()),
            Phase::Generate => Action::Run(self.command()),
            Phase::Finished(outcome) => Action::Done(clone_outcome(outcome)),
        }
    }

    /// Judges what the host reports of the command of this phase.
    fn judge(&self, event: &Event) -> (judged: Option<Result<(), Error>>)
        ensures
            match judged {
                Some(Ok(())) => self@.judged(event@) == Some(Ok::<(), ErrorView>(())),
                Some(Err(error)) => self@.judged(event@) == Some(Err::<(), ErrorView>(error@)),
                None => self@.judged(event@) is None,
            },
    {
        match event {
            Event::Exited(output) => Some(check_output(output, &self.command())),
            Event::LaunchFailed => Some(Err(Error::Launch { command: self.command() })),
            _ => None,
        }
    }

    fn after_command(self, event: Event, then: Phase) -> (machine: Machine)
        ensures
            machine@ == self@.after_command(event@, then@),
    {
        match self.judge(&event) {
            Some(Ok(())) => Machine { phase: then, ..self },
            Some(Err(error)) => Machine { phase: Phase::Releasing(Some(error)), ..self },
            None => self,
        }
    }

    /// Takes the answer to the pending action and moves on.
    pub fn step(self, event: Event) -> (machine: Machine)
        ensures
            machine@ == self@.next(event@),
    {
        match (&self.phase, &event) {
            (Phase::CheckSchema, Event::Existence(found)) => {
                if *found {
                    Machine { phase: Phase::FindCache, ..self }
                } else {
                    let path = self.goal.schema();
                    Machine { phase: Phase::Finished(Err(Error::MissingInput { path })), ..self }
                }
            },
            (Phase::FindCache, Event::CacheDir(Some(base))) => {
                let root = cache_root(base.as_str(), NAMESPACE);
                Machine { root, phase: Phase::MakeRoot, ..self }
            },
            (Phase::FindCache, Event::CacheDir(None)) => {
                Machine { phase: Phase::Finished(Err(Error::NoCacheDir)), ..self }
            },
            (Phase::MakeRoot, Event::DirCreated(ok)) => {
                if *ok {
                    Machine { phase: Phase::TouchLock, ..self }
                } else {
                    let path = self.root.clone();
                    Machine { phase: Phase::Finished(Err(Error::CacheRoot { path })), ..self }
                }
            },
            (Phase::TouchLock, Event::Touched(ok)) => {
                if *ok {
                    Machine { phase: Phase::Locking { failed: 0 }, ..self }
                } else {
                    let path = self.lock_path();
                    Machine { phase: Phase::Finished(Err(Error::LockFile { path })), ..self }
                }
            },
            (Phase::Locking { failed }, Event::LockTried(granted)) => {
                if *granted {
                    Machine { phase: Phase::CheckTree, ..self }
                } else {
                    match self.policy.after_failure(*failed) {
                        Some(failed) => Machine { phase: Phase::Waiting { failed }, ..self },
                        None => {
                            let path = self.lock_path();
                            let waits = *failed;
                            let poll_secs = self.policy.poll_secs;
                            Machine {
                                phase: Phase::Finished(
                                    Err(Error::LockTimeout { path, waits, poll_secs }),
                                ),
                                ..self
                            }
                        },
                    }
                }
            },
            (Phase::Waiting { failed }, Event::Slept) => {
                let failed = *failed;
                Machine { phase: Phase::Locking { failed }, ..self }
            },
            (Phase::CheckTree, Event::Existence(found)) => {
                if *found {
                    Machine { phase: Phase::Configure, ..self }
                } else {
                    Machine { phase: Phase::Fetch, ..self }
                }
            },
            (Phase::Fetch, _) => self.after_command(event, Phase::Configure),
            (Phase::Configure, _) => self.after_command(event, Phase::Compile),
            (Phase::Compile, _) => self.after_command(event, Phase::Releasing(None)),
            (Phase::Releasing(_), Event::Unlocked) => {
                let Machine { goal, policy, root, phase } = self;
                match phase {
                    Phase::Releasing(Some(error)) => Machine {
                        goal,
                        policy,
                        root,
                        phase: Phase::Finished(Err(error)),
                    },
                    _ => match &goal {
                        Goal::Build => {
                            let binary = tool_binary(root.as_str());
                            Machine {
                                goal,
                                policy,
                                root,
                                phase: Phase::Finished(Ok(Product::Binary(binary))),
                            }
                        },
                        Goal::Generate { .. } => Machine {
                            goal,
                            policy,
                            root,
                            phase: Phase::Generate,
                        },
                    },
                }
            },
            (Phase::Generate, _) => match self.judge(&event) {
                Some(Ok(())) => Machine { phase: Phase::Finished(Ok(Product::Generated)), ..self },
                Some(Err(error)) => Machine { phase: Phase::Finished(Err(error)), ..self },
                None => self,
            },
            _ => self,
        }
    }
}

} // verus!
