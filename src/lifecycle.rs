use vstd::prelude::*;

use crate::error::BridgeError;

verus! {

/// Where the runtime and the connection of one handle stand.
#[derive(Clone, Copy, Debug, PartialEq, Eq, Structural)]
pub enum HandleState {
    /// Nothing has been started.
    Fresh,
    /// The automation runtime is initialized; no connection exists.
    RuntimeReady,
    /// The runtime is initialized and the connection is live.
    Connected,
    /// Everything that was started has been torn down, or creation failed
    /// before anything needed tearing down.
    Closed,
}

/// What creating a handle must do next.
#[derive(Clone, Copy, Debug, PartialEq, Eq, Structural)]
pub enum CreateStep {
    /// Create the connection to the remote object.
    Connect,
    /// The handle is ready for calls.
    Ready,
    /// Creation failed; tear down the runtime if `uninitialize`, then report.
    Fail { error: BridgeError, uninitialize: bool },
}

/// What tearing a handle down must do, in this order.
#[derive(Clone, Copy, Debug, PartialEq, Eq, Structural)]
pub struct Teardown {
    pub release_connection: bool,
    pub uninitialize: bool,
}

/// The teardown owed in state `s`: the connection if one is live, then the
/// runtime if it was initialized.
pub open spec fn teardown_of(s: HandleState) -> Teardown {
    match s {
        HandleState::Connected => Teardown { release_connection: true, uninitialize: true },
        HandleState::RuntimeReady => Teardown { release_connection: false, uninitialize: true },
        _ => Teardown { release_connection: false, uninitialize: false },
    }
}

/// Pairs runtime initialization with teardown for one handle: the runtime is
/// torn down once, and only after it was initialized; the connection is
/// released before it.
pub struct HandleLifecycle {
    state: HandleState,
}

impl View for HandleLifecycle {
    type V = HandleState;

    closed spec fn view(&self) -> HandleState {
        self.state
    }
}

impl HandleLifecycle {
    pub fn new() -> (r: HandleLifecycle)
        ensures
            r@ == HandleState::Fresh,
    {
        HandleLifecycle { state: HandleState::Fresh }
    }

    pub fn state(&self) -> (r: HandleState)
        ensures
            r == self@,
    {
        self.state
    }

    /// Takes the outcome of runtime initialization. Success leads to the
    /// connection; failure ends creation with nothing to tear down.
    pub fn runtime_initialized(&mut self, status: Result<(), i32>) -> (r: CreateStep)
        ensures
            match (old(self)@, status) {
                (HandleState::Fresh, Ok(())) => final(self)@ == HandleState::RuntimeReady && r
                    == CreateStep::Connect,
                (HandleState::Fresh, Err(code)) => final(self)@ == HandleState::Closed && r
                    == (CreateStep::Fail { error: BridgeError::RuntimeInit(code), uninitialize: false }),
                _ => final(self)@ == old(self)@ && r == (CreateStep::Fail {
                    error: BridgeError::OutOfSequence,
                    uninitialize: false,
                }),
            },
    {
        match (self.state, status) {
            (HandleState::Fresh, Ok(())) => {
                self.state = HandleState::RuntimeReady;
                CreateStep::Connect
            },
            (HandleState::Fresh, Err(code)) => {
                self.state = HandleState::Closed;
                CreateStep::Fail { error: BridgeError::RuntimeInit(code), uninitialize: false }
            },
            _ => CreateStep::Fail { error: BridgeError::OutOfSequence, uninitialize: false },
        }
    }

    /// Takes the outcome of connection creation. On failure the runtime that
    /// was initialized for it is torn down before the error is reported.
    pub fn connection_created(&mut self, status: Result<(), i32>) -> (r: CreateStep)
        ensures
            match (old(self)@, status) {
                (HandleState::RuntimeReady, Ok(())) => final(self)@ == HandleState::Connected && r
                    == CreateStep::Ready,
                (HandleState::RuntimeReady, Err(code)) => final(self)@ == HandleState::Closed && r
                    == (CreateStep::Fail { error: BridgeError::Connection(code), uninitialize: true }),
                _ => final(self)@ == old(self)@ && r == (CreateStep::Fail {
                    error: BridgeError::OutOfSequence,
                    uninitialize: false,
                }),
            },
    {
        match (self.state, status) {
            (HandleState::RuntimeReady, Ok(())) => {
                self.state = HandleState::Connected;
                CreateStep::Ready
            },
            (HandleState::RuntimeReady, Err(code)) => {
                self.state = HandleState::Closed;
                CreateStep::Fail { error: BridgeError::Connection(code), uninitialize: true }
            },
            _ => CreateStep::Fail { error: BridgeError::OutOfSequence, uninitialize: false },
        }
    }

    /// What destroying the handle must do now; afterwards nothing is owed.
    pub fn tear_down(&mut self) -> (r: Teardown)
        ensures
            r == teardown_of(old(self)@),
            final(self)@ == HandleState::Closed,
    {
        let r = match self.state {
            HandleState::Connected => Teardown { release_connection: true, uninitialize: true },
            HandleState::RuntimeReady => Teardown { release_connection: false, uninitialize: true },
            _ => Teardown { release_connection: false, uninitialize: false },
        };
        self.state = HandleState::Closed;
        r
    }
}

/// Tearing down twice tears down nothing the second time, and a handle whose
/// runtime never initialized is never torn down.
pub proof fn lemma_teardown_at_most_once(s: HandleState)
    ensures
        teardown_of(HandleState::Closed) == (Teardown {
            release_connection: false,
            uninitialize: false,
        }),
        s == HandleState::Fresh ==> !teardown_of(s).uninitialize,
        teardown_of(s).release_connection ==> teardown_of(s).uninitialize,
{
}

} // verus!
