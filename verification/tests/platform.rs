//! Sessions that ask this machine for its cache directory and its lock.
//! What the machine answers is not known here, so each test follows the
//! session wherever the answers lead and holds it to the protocol.

use flatc_gen::{build_flatc, flatc_gen, Action, Error, ErrorKind, Event, Output, Product, Session};

fn clean_exit() -> Event {
    Event::Exited(Output { code: Some(0), stdout: Vec::new(), stderr: Vec::new() })
}

/// Answers as a host on which nothing fails and no source tree is cached.
/// Nothing is created and nothing is run.
fn answer(action: &Action) -> Event {
    match action {
        Action::CreateDir(_) => Event::DirCreated(true),
        Action::Touch(_) => Event::Touched(true),
        Action::Sleep(_) => Event::Slept,
        Action::Exists(_) => Event::Existence(false),
        Action::Run(_) => clean_exit(),
        other => panic!("a session never asks its host for {:?}", other),
    }
}

fn finish(mut session: Session, asked: &mut Vec<Action>) -> Result<Product, Error> {
    loop {
        let action = session.pending();
        assert!(!action.internal());
        if let Action::Done(outcome) = action {
            assert!(session.finished());
            return outcome;
        }
        assert!(!session.finished());
        asked.push(action.clone());
        session = session.step(answer(&action));
        assert!(asked.len() <= 11 + 2 * 30);
    }
}

#[test]
fn build_session_starts_at_the_cache_root() {
    let session = build_flatc();
    match session.pending() {
        Action::CreateDir(root) => {
            assert!(root.ends_with("flatc-gen"), "{}", root);
            assert!(root.len() > "flatc-gen".len());
        }
        Action::Done(outcome) => assert_eq!(outcome, Err(Error::NoCacheDir)),
        other => panic!("{:?}", other),
    }
}

#[test]
fn build_session_takes_the_lock_or_times_out() {
    let mut asked = Vec::new();
    let outcome = finish(build_flatc(), &mut asked);
    let waits = asked.iter().filter(|a| matches!(a, Action::Sleep(_))).count();
    let runs = asked.iter().filter(|a| matches!(a, Action::Run(_))).count();
    match outcome {
        Ok(Product::Binary(path)) => {
            assert!(path.ends_with("flatc-gen/flatbuffers/build/flatc"), "{}", path);
            assert_eq!(runs, 3);
            assert!(waits <= 30);
        }
        Err(Error::LockTimeout { path, waits: counted, poll_secs }) => {
            assert!(path.ends_with("flatc-gen/flatc-gen.lock"), "{}", path);
            assert_eq!((counted, poll_secs), (30, 1));
            assert_eq!(waits, 30);
            assert_eq!(runs, 0);
        }
        Err(Error::NoCacheDir) => assert!(asked.is_empty()),
        other => panic!("{:?}", other),
    }
}

#[test]
fn lock_on_an_existing_directory_is_granted_and_given_back() {
    // A machine that has resolved its root to a directory that exists takes
    // the lock at the first attempt, and again after it was given back.
    for _ in 0..2 {
        let machine = flatc_gen::Machine {
            goal: flatc_gen::Goal::Build,
            policy: flatc_gen::LockPolicy::standard(),
            root: "/tmp".to_string(),
            phase: flatc_gen::Phase::TouchLock,
        };
        let session = match Session::resume(machine) {
            Some(session) => session,
            None => panic!("the machine holds no lock"),
        };
        assert_eq!(session.pending(), Action::Touch("/tmp/flatc-gen.lock".to_string()));
        let session = session.step(Event::Touched(true));
        assert_eq!(session.pending(), Action::Exists("/tmp/flatbuffers".to_string()));
        let session = session.step(Event::Existence(true));
        let session = session.step(clean_exit());
        let session = session.step(clean_exit());
        assert_eq!(
            session.pending(),
            Action::Done(Ok(Product::Binary("/tmp/flatbuffers/build/flatc".to_string())))
        );
    }
}

#[test]
fn lock_in_a_missing_directory_times_out() {
    let machine = flatc_gen::Machine {
        goal: flatc_gen::Goal::Build,
        policy: flatc_gen::LockPolicy { max_attempts: 2, poll_secs: 5 },
        root: "/no/such/directory".to_string(),
        phase: flatc_gen::Phase::TouchLock,
    };
    let mut session = Session::resume(machine).unwrap();
    session = session.step(Event::Touched(true));
    assert_eq!(session.pending(), Action::Sleep(5));
    session = session.step(Event::Slept);
    assert_eq!(session.pending(), Action::Sleep(5));
    session = session.step(Event::Slept);
    let path = "/no/such/directory/flatc-gen.lock".to_string();
    assert_eq!(
        session.pending(),
        Action::Done(Err(Error::LockTimeout { path, waits: 2, poll_secs: 5 }))
    );
}

#[test]
fn a_machine_that_claims_the_lock_is_not_resumed() {
    let machine = flatc_gen::Machine {
        goal: flatc_gen::Goal::Build,
        policy: flatc_gen::LockPolicy::standard(),
        root: "/tmp".to_string(),
        phase: flatc_gen::Phase::Compile,
    };
    assert!(Session::resume(machine).is_none());
}

#[test]
fn generate_session_starts_with_the_schema() {
    let session = flatc_gen("fbs/addressbook.fbs", "fbs_test");
    assert_eq!(session.pending(), Action::Exists("fbs/addressbook.fbs".to_string()));
    let session = session.step(Event::Existence(false));
    assert!(session.finished());
    match session.pending() {
        Action::Done(Err(error)) => {
            assert_eq!(error.kind(), ErrorKind::MissingInput);
            assert_eq!(error, Error::MissingInput { path: "fbs/addressbook.fbs".to_string() });
        }
        other => panic!("{:?}", other),
    }
}

#[test]
fn session_ignores_answers_to_what_it_did_not_ask() {
    let session = flatc_gen("s.fbs", "out");
    let session = session.step(Event::LockTried(true));
    let session = session.step(Event::Unlocked);
    let session = session.step(Event::CacheDir(Some("/elsewhere".to_string())));
    let session = session.step(Event::Slept);
    assert_eq!(session.pending(), Action::Exists("s.fbs".to_string()));
}
