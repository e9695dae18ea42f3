//! Lifecycle controller for the single active tunnel session.
//!
//! A [`TunController`] owns at most one [`Session`]: a tunnel file descriptor
//! paired with a packet-forwarding engine built from it. `start` replaces any
//! live session with a fresh one and starts its engine; `stop` halts the live
//! session. Exclusive access (`&mut`) serializes every lifecycle transition,
//! so no two transitions can interleave.

use vstd::prelude::*;

verus! {

/// The packet-forwarding engine, an external collaborator: it is constructible
/// from a tunnel file descriptor and exposes blocking `start` and `stop`
/// operations. Reading packets, routing and socket handling all live behind
/// this trait; nothing is claimed about them here.
pub trait Engine: Sized {
    /// Build an engine bound to `file_descriptor`.
    fn new(file_descriptor: i32) -> Self;

    /// Begin forwarding packets.
    fn start(&mut self);

    /// Halt packet forwarding.
    fn stop(&mut self);
}

/// How far the controller has driven the engine of the current session.
#[derive(Clone, Copy, PartialEq, Eq, Structural, Debug)]
pub enum Phase {
    /// The engine has been constructed but not yet started.
    Created,
    /// The engine's `start` has been invoked.
    Started,
    /// The engine's `stop` has been invoked.
    Stopped,
}

/// Ghost summary of a session: the descriptor it is bound to and the phase
/// its engine has been driven to.
pub struct SessionModel {
    pub file_descriptor: i32,
    pub phase: Phase,
}

/// One tunnel session: a file descriptor and the engine bound to it.
pub struct Session<E: Engine> {
    file_descriptor: i32,
    engine: E,
    phase: Phase,
}

impl<E: Engine> View for Session<E> {
    type V = SessionModel;

    closed spec fn view(&self) -> SessionModel {
        SessionModel { file_descriptor: self.file_descriptor, phase: self.phase }
    }
}

impl<E: Engine> Session<E> {
    /// Construct a session for `file_descriptor`, building its engine.
    /// Descriptor validity is not checked here: an invalid descriptor is the
    /// engine's responsibility boundary.
    pub fn new(file_descriptor: i32) -> (session: Self)
        ensures
            session@ == (SessionModel { file_descriptor, phase: Phase::Created }),
    {
        Session { file_descriptor, engine: E::new(file_descriptor), phase: Phase::Created }
    }

    /// Start this session's engine.
    pub fn start(&mut self)
        ensures
            final(self)@ == (SessionModel {
                file_descriptor: old(self)@.file_descriptor,
                phase: Phase::Started,
            }),
    {
        self.engine.start();
        self.phase = Phase::Started;
    }

    /// Stop this session's engine.
    pub fn stop(&mut self)
        ensures
            final(self)@ == (SessionModel {
                file_descriptor: old(self)@.file_descriptor,
                phase: Phase::Stopped,
            }),
    {
        self.engine.stop();
        self.phase = Phase::Stopped;
    }

    /// The descriptor this session is bound to.
    pub fn file_descriptor(&self) -> (fd: i32)
        ensures
            fd == self@.file_descriptor,
    {
        self.file_descriptor
    }

    /// The phase this session's engine has been driven to.
    pub fn phase(&self) -> (phase: Phase)
        ensures
            phase == self@.phase,
    {
        self.phase
    }
}

/// Controller state in a fresh process: no session has been started yet.
pub open spec fn fresh_state() -> Option<SessionModel> {
    None
}

/// Effect of `start(file_descriptor)` on the controller state: whatever was
/// live before is gone, and exactly one started session for `file_descriptor`
/// is live afterwards.
pub open spec fn start_transition(
    state: Option<SessionModel>,
    file_descriptor: i32,
) -> Option<SessionModel> {
    Some(SessionModel { file_descriptor, phase: Phase::Started })
}

/// `stop` is permitted only while some session is live; stopping with no live
/// session is a lifecycle misuse that the original design treats as fatal.
pub open spec fn stop_allowed(state: Option<SessionModel>) -> bool {
    state is Some
}

/// Effect of `stop` on the controller state: the live session stays live,
/// with its engine driven to `Stopped`.
pub open spec fn stop_transition(state: Option<SessionModel>) -> Option<SessionModel>
    recommends
        stop_allowed(state),
{
    Some(SessionModel { file_descriptor: state->Some_0.file_descriptor, phase: Phase::Stopped })
}

/// Error surfaced by [`TunController::try_stop`] in place of the fatal abort
/// of the `stop` misuse case.
#[derive(Clone, Copy, PartialEq, Eq, Structural, Debug)]
pub enum TunError {
    /// `stop` was requested while no session was live.
    NoActiveSession,
}

/// Owner of the single active tunnel session.
///
/// At most one session is live at any instant, by construction: the state is
/// one `Option`. The view is `None` before the first `start` and after
/// nothing else — `destroy` deliberately leaves the session in place.
pub struct TunController<E: Engine> {
    session: Option<Session<E>>,
}

impl<E: Engine> View for TunController<E> {
    type V = Option<SessionModel>;

    closed spec fn view(&self) -> Option<SessionModel> {
        match self.session {
            Some(session) => Some(session@),
            None => None,
        }
    }
}

impl<E: Engine> TunController<E> {
    /// A controller in fresh process state: no session.
    pub fn new() -> (controller: Self)
        ensures
            controller@ == fresh_state(),
    {
        TunController { session: None }
    }

    /// Initialization bookend: an observability hook only. It allocates no
    /// session state and changes nothing; the first session is allocated by
    /// `start`. Idempotent, no error conditions.
    pub fn create(&mut self)
        ensures
            *final(self) == *old(self),
    {
    }

    /// Teardown bookend: an observability hook only. It deliberately does not
    /// clear the session state — session teardown is routed through `stop`
    /// and through replacement by a later `start`. This asymmetry is part of
    /// the design and is pinned down by the contract.
    pub fn destroy(&mut self)
        ensures
            *final(self) == *old(self),
    {
    }

    /// Replace the live session (if any) with a fresh, not-yet-started
    /// session for `file_descriptor`. The prior session is dropped, which
    /// releases its engine under the engine's own teardown contract.
    pub fn update_vpn(&mut self, file_descriptor: i32)
        ensures
            final(self)@ == Some(SessionModel { file_descriptor, phase: Phase::Created }),
    {
        self.session = Some(Session::new(file_descriptor));
    }

    /// Begin tunneling on `file_descriptor`: construct a new session,
    /// replacing any previous one, then start its engine. Afterwards exactly
    /// the session for `file_descriptor` is live and started, whatever was
    /// live before.
    pub fn start(&mut self, file_descriptor: i32)
        ensures
            final(self)@ == start_transition(old(self)@, file_descriptor),
    {
        self.update_vpn(file_descriptor);
        match &mut self.session {
            Some(session) => session.start(),
            None => {
                proof {
                    assert(false);
                }
            },
        }
    }

    /// Halt forwarding on the live session. Calling `stop` with no live
    /// session is a lifecycle misuse whose original behavior is a fatal
    /// abort; the precondition rules it out here. See [`Self::try_stop`] for
    /// the recoverable form.
    pub fn stop(&mut self)
        requires
            stop_allowed(old(self)@),
        ensures
            final(self)@ == stop_transition(old(self)@),
    {
        match &mut self.session {
            Some(session) => session.stop(),
            None => {
                proof {
                    assert(false);
                }
            },
        }
    }

    /// The descriptor of the live session, or `None` while no session is
    /// live.
    pub fn live_file_descriptor(&self) -> (fd: Option<i32>)
        ensures
            match fd {
                Some(n) => self@ is Some && n == self@->Some_0.file_descriptor,
                None => self@ is None,
            },
    {
        match &self.session {
            Some(session) => Some(session.file_descriptor()),
            None => None,
        }
    }

    /// The phase of the live session's engine, or `None` while no session is
    /// live.
    pub fn live_phase(&self) -> (phase: Option<Phase>)
        ensures
            match phase {
                Some(p) => self@ is Some && p == self@->Some_0.phase,
                None => self@ is None,
            },
    {
        match &self.session {
            Some(session) => Some(session.phase()),
            None => None,
        }
    }

    /// Recoverable form of `stop`: halts the live session, or reports
    /// `NoActiveSession` — leaving the controller unchanged — exactly when no
    /// session is live.
    pub fn try_stop(&mut self) -> (result: Result<(), TunError>)
        ensures
            old(self)@ is Some ==> result == Result::<(), TunError>::Ok(())
                && final(self)@ == stop_transition(old(self)@),
            old(self)@ is None ==> result == Result::<(), TunError>::Err(TunError::NoActiveSession)
                && *final(self) == *old(self),
    {
        match &mut self.session {
            Some(session) => {
                session.stop();
                Ok(())
            },
            None => Err(TunError::NoActiveSession),
        }
    }
}

/// State after a run of `start` calls, one per descriptor in `fds`, with no
/// intervening `stop`.
pub open spec fn run_starts(state: Option<SessionModel>, fds: Seq<i32>) -> Option<SessionModel>
    decreases fds.len(),
{
    if fds.len() == 0 {
        state
    } else {
        run_starts(start_transition(state, fds[0]), fds.drop_first())
    }
}

/// Law: for any sequence of `start` calls without an intervening `stop`, from
/// any prior state, only the session for the last descriptor is live
/// afterwards, and it is started. (No two sessions ever coexist: every
/// intermediate state holds at most one session, being a single `Option`.)
pub proof fn lemma_start_sequence_leaves_last_session(state: Option<SessionModel>, fds: Seq<i32>)
    requires
        fds.len() > 0,
    ensures
        run_starts(state, fds) == Some(SessionModel {
            file_descriptor: fds.last(),
            phase: Phase::Started,
        }),
    decreases fds.len(),
{
    if fds.len() == 1 {
        assert(run_starts(start_transition(state, fds[0]), fds.drop_first())
            == start_transition(state, fds[0]));
        assert(fds.last() == fds[0]);
    } else {
        lemma_start_sequence_leaves_last_session(start_transition(state, fds[0]), fds.drop_first());
        assert(fds.drop_first().last() == fds.last());
    }
}

/// Law: `stop` is permitted immediately after any `start`, from any prior
/// state.
pub proof fn lemma_stop_permitted_after_start(state: Option<SessionModel>, file_descriptor: i32)
    ensures
        stop_allowed(start_transition(state, file_descriptor)),
{
}

} // verus!
