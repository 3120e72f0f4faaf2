//! Decisions of the process supervisor. The caller performs the actions
//! (waiting on a child, sleeping between polls, running the teardown) and
//! reports each event back; release is decided exactly once, on the first
//! event that ends the supervised lifetime.
use vstd::prelude::*;
use crate::plan::{key_for, RedirectionKey, Strategy};

verus! {

/// How the controlled process is bound.
#[derive(Clone, Copy, Debug, PartialEq, Eq, Structural)]
pub enum Mode {
    /// A new child command is spawned and waited for.
    Spawn,
    /// An existing process is attached to and polled until interrupted.
    Attach,
}

/// What the supervisor is told.
#[derive(Clone, Copy, Debug, PartialEq, Eq, Structural)]
pub enum Event {
    /// An interrupt signal arrived.
    Interrupted,
    /// The polling loop read the shared running flag.
    Polled { running: bool },
    /// The wait on the child returned, with success or an error.
    Exited,
}

/// What the caller is to do next.
#[derive(Clone, Copy, Debug, PartialEq, Eq, Structural)]
pub enum Action {
    /// Clear the shared running flag (attach mode interrupt).
    ClearRunning,
    /// Only report the interrupt (spawn mode: the child's wait owns the exit).
    Notice,
    /// Sleep one polling interval and poll again.
    Wait,
    /// Run the guard's release.
    Release,
    /// Nothing is left to do.
    Done,
}

/// Supervisor state: its mode, and whether release was decided.
#[derive(Clone, Copy, Debug, PartialEq, Eq, Structural)]
pub struct Supervisor {
    pub mode: Mode,
    pub released: bool,
}

/// Why a configuration cannot be supervised.
#[derive(Clone, Copy, Debug, PartialEq, Eq, Structural)]
pub enum ConfigError {
    /// No process id was given, and no command to spawn either.
    MissingCommand,
}

/// One redirection session: how the process is bound, and what is redirected.
#[derive(Clone, Copy, Debug, PartialEq, Eq, Structural)]
pub struct Session {
    pub mode: Mode,
    pub key: RedirectionKey,
}

pub open spec fn strategy_of(use_tproxy: bool) -> Strategy {
    if use_tproxy {
        Strategy::TransparentProxy
    } else {
        Strategy::Redirect
    }
}

/// The session for the given options. With a process id it attaches to
/// that process; without one it spawns the command, and the supervising
/// process itself (`own_pid`), whose group the child inherits, is the one
/// classified.
pub open spec fn session_of(
    port: u32,
    use_tproxy: bool,
    pid: Option<u32>,
    has_command: bool,
    own_pid: u32,
) -> Result<Session, ConfigError> {
    match pid {
        Some(p) => Ok(Session { mode: Mode::Attach, key: key_for(p, port, strategy_of(use_tproxy)) }),
        None => if has_command {
            Ok(Session { mode: Mode::Spawn, key: key_for(own_pid, port, strategy_of(use_tproxy)) })
        } else {
            Err(ConfigError::MissingCommand)
        },
    }
}

/// Chooses the binding mode and the redirection of a session.
pub fn select_session(
    port: u32,
    use_tproxy: bool,
    pid: Option<u32>,
    has_command: bool,
    own_pid: u32,
) -> (r: Result<Session, ConfigError>)
    ensures
        r == session_of(port, use_tproxy, pid, has_command, own_pid),
{
    let strategy = if use_tproxy {
        Strategy::TransparentProxy
    } else {
        Strategy::Redirect
    };
    match pid {
        Some(p) => Ok(Session { mode: Mode::Attach, key: RedirectionKey::new(p, port, strategy) }),
        None => if has_command {
            Ok(Session { mode: Mode::Spawn, key: RedirectionKey::new(own_pid, port, strategy) })
        } else {
            Err(ConfigError::MissingCommand)
        },
    }
}

/// The next state and the action on event `e`.
pub open spec fn next(s: Supervisor, e: Event) -> (Supervisor, Action) {
    match e {
        Event::Interrupted => (s, if s.mode == Mode::Attach {
            Action::ClearRunning
        } else {
            Action::Notice
        }),
        Event::Polled { running } => if s.released {
            (s, Action::Done)
        } else if running {
            (s, Action::Wait)
        } else {
            (Supervisor { released: true, ..s }, Action::Release)
        },
        Event::Exited => if s.released {
            (s, Action::Done)
        } else {
            (Supervisor { released: true, ..s }, Action::Release)
        },
    }
}

/// Whether `e` ends the supervised lifetime.
pub open spec fn is_terminal(e: Event) -> bool {
    match e {
        Event::Polled { running } => !running,
        Event::Exited => true,
        Event::Interrupted => false,
    }
}

/// The state after the events `es`, one after another.
pub open spec fn run(s: Supervisor, es: Seq<Event>) -> Supervisor
    decreases es.len(),
{
    if es.len() == 0 {
        s
    } else {
        next(run(s, es.drop_last()), es.last()).0
    }
}

/// How many times the events `es` lead to a release.
pub open spec fn releases(s: Supervisor, es: Seq<Event>) -> nat
    decreases es.len(),
{
    if es.len() == 0 {
        0
    } else {
        releases(s, es.drop_last()) + if next(run(s, es.drop_last()), es.last()).1
            == Action::Release {
            1nat
        } else {
            0nat
        }
    }
}

impl Supervisor {
    pub fn new(mode: Mode) -> (r: Supervisor)
        ensures
            r == (Supervisor { mode, released: false }),
    {
        Supervisor { mode, released: false }
    }

    /// Takes in event `e` and says what to do.
    pub fn step(&mut self, e: Event) -> (r: Action)
        ensures
            (*final(self), r) == next(*old(self), e),
    {
        match e {
            Event::Interrupted => if self.mode == Mode::Attach {
                Action::ClearRunning
            } else {
                Action::Notice
            },
            Event::Polled { running } => if self.released {
                Action::Done
            } else if running {
                Action::Wait
            } else {
                self.released = true;
                Action::Release
            },
            Event::Exited => if self.released {
                Action::Done
            } else {
                self.released = true;
                Action::Release
            },
        }
    }
}

/// Release is decided exactly once: from a fresh supervisor, whatever
/// interleaving of interrupts, polls and exits arrives, at most one release
/// is decided, and exactly one as soon as any event ended the lifetime.
pub proof fn lemma_release_exactly_once(mode: Mode, es: Seq<Event>)
    ensures
        releases(Supervisor { mode, released: false }, es) <= 1,
        releases(Supervisor { mode, released: false }, es) == 1 <==> (exists|i: int|
            0 <= i < es.len() && is_terminal(#[trigger] es[i])),
        run(Supervisor { mode, released: false }, es).released <==> (exists|i: int|
            0 <= i < es.len() && is_terminal(#[trigger] es[i])),
        run(Supervisor { mode, released: false }, es).mode == mode,
    decreases es.len(),
{
    let s = Supervisor { mode, released: false };
    if es.len() > 0 {
        let init = es.drop_last();
        lemma_release_exactly_once(mode, init);
        if exists|i: int| 0 <= i < init.len() && is_terminal(#[trigger] init[i]) {
            let i = choose|i: int| 0 <= i < init.len() && is_terminal(#[trigger] init[i]);
            assert(es[i] == init[i]);
        }
        if exists|i: int| 0 <= i < es.len() && is_terminal(#[trigger] es[i]) {
            let i = choose|i: int| 0 <= i < es.len() && is_terminal(#[trigger] es[i]);
            if i < es.len() - 1 {
                assert(init[i] == es[i]);
            }
        }
    }
}

} // verus!
