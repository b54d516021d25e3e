//! Sessions that build the FlatBuffers compiler once for all processes of a
//! user, and run it.
//!
//! The compiler is fetched and built in a cache directory that unrelated
//! processes share. An advisory lock on a file in that directory is the only
//! coordination between them: whoever holds it may fetch and build, everyone
//! else polls until it is free or gives up.
//!
//! The library decides and the host acts. [`build_flatc`] and [`flatc_gen`]
//! begin a [`Session`]; the host performs the action that
//! [`Session::pending`] names, hands the answer to [`Session::step`], and
//! repeats until the action is [`Action::Done`].

use vstd::prelude::*;

pub mod error;
pub mod laws;
pub mod lock;
pub mod machine;
pub mod model;
pub mod path;
pub mod process;
pub mod session;
pub mod system;
pub mod text;

pub use crate::error::{Error, ErrorKind};
pub use crate::lock::LockPolicy;
pub use crate::machine::{Action, Event, Goal, Machine, Phase, Product};
pub use crate::process::{Command, Output};
pub use crate::session::Session;

verus! {

/// Begins a session that makes sure the compiler is built and ends with the
/// path of the executable.
///
/// The cache directory is looked up at once, so the session already waits
/// for the cache root to be created, or is over because the platform has no
/// cache directory.
pub fn build_flatc() -> (session: Session)
    ensures
        crate::session::settled(
            crate::machine::MachineView::start(
                crate::machine::GoalView::Build,
                LockPolicy::standard_spec(),
            ),
            session@,
        ),
        !session@.pending().internal(),
{
    Session::new(Goal::Build, LockPolicy::standard())
}

/// Begins a session that generates Rust source from the schema at `path`
/// into `out_dir`, building the compiler first.
///
/// The session begins by asking whether the schema exists; nothing else has
/// happened.
pub fn flatc_gen(path: &str, out_dir: &str) -> (session: Session)
    ensures
        session@ == crate::machine::MachineView::start(
            crate::machine::GoalView::Generate { schema: path@, out_dir: out_dir@ },
            LockPolicy::standard_spec(),
        ),
        session@.pending() == crate::machine::ActionView::Exists(path@),
{
    let goal = Goal::Generate {
        schema: String::from_str(path),
        out_dir: String::from_str(out_dir),
    };
    Session::new(goal, LockPolicy::standard())
}

} // verus!
