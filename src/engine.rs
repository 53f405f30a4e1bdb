use vstd::prelude::*;

use crate::dispatch::DispatchCache;
use crate::error::BridgeError;
use crate::value::GenericValue;

verus! {

/// Puts arguments given in declaration order into wire order: the last
/// declared argument goes first.
pub fn wire_order(args: Vec<GenericValue>) -> (r: Vec<GenericValue>)
    ensures
        r@ == args@.reverse(),
{
    let ghost orig = args@;
    let mut rest = args;
    let mut wire: Vec<GenericValue> = Vec::new();
    while rest.len() > 0
        invariant
            wire@.len() + rest@.len() == orig.len(),
            rest@ == orig.subrange(0, rest@.len() as int),
            forall|i: int| 0 <= i < wire@.len() ==> wire@[i] == orig[orig.len() - 1 - i],
        decreases rest@.len(),
    {
        let v = rest.pop().unwrap();
        wire.push(v);
    }
    assert(wire@ =~= orig.reverse());
    wire
}

/// Whether a call of `name` must first resolve the name, given the
/// identifiers already known on the connection.
pub open spec fn needs_resolution(known: Map<Seq<char>, i32>, name: Seq<char>) -> bool {
    !known.contains_key(name)
}

/// Where a call in progress stands.
#[derive(Clone, Copy, Debug, PartialEq, Eq, Structural)]
pub enum Phase {
    /// The method name must be resolved to an identifier first.
    AwaitingId,
    /// The method is being invoked under the identifier held by the call.
    AwaitingResult,
    /// The call has completed.
    Finished,
}

/// What the transport must do next for a call.
#[derive(Debug)]
pub enum Action {
    /// Resolve the call's method name to an identifier.
    ResolveName,
    /// Invoke the method under this identifier with the call's wire arguments.
    Invoke(i32),
    /// The call is over, with this result.
    Complete(Result<GenericValue, BridgeError>),
}

/// What the transport reports back. Failures carry the runtime's status code.
#[derive(Debug)]
pub enum Event {
    Resolved(Result<i32, i32>),
    Returned(Result<GenericValue, i32>),
}

/// One method call on its way through resolution and invocation.
pub struct PendingCall {
    name: String,
    wire_args: Vec<GenericValue>,
    id: i32,
    phase: Phase,
}

impl PendingCall {
    pub closed spec fn spec_name(&self) -> Seq<char> {
        self.name@
    }

    pub closed spec fn spec_wire_args(&self) -> Seq<GenericValue> {
        self.wire_args@
    }

    pub closed spec fn spec_id(&self) -> i32 {
        self.id
    }

    pub closed spec fn spec_phase(&self) -> Phase {
        self.phase
    }

    pub fn name(&self) -> (r: &str)
        ensures
            r@ == self.spec_name(),
    {
        self.name.as_str()
    }

    /// The arguments in the order the transport must submit them.
    pub fn wire_args(&self) -> (r: &Vec<GenericValue>)
        ensures
            r@ == self.spec_wire_args(),
    {
        &self.wire_args
    }

    pub fn phase(&self) -> (r: Phase)
        ensures
            r == self.spec_phase(),
    {
        self.phase
    }
}

/// The invocation engine of one connection: it decides, for each call, whether
/// the name must be resolved, what to invoke, and what the call returns. The
/// transport carries out each [`Action`] and reports an [`Event`].
pub struct Dispatcher {
    cache: DispatchCache,
}

impl View for Dispatcher {
    type V = Map<Seq<char>, i32>;

    closed spec fn view(&self) -> Map<Seq<char>, i32> {
        self.cache@
    }
}

impl Dispatcher {
    pub closed spec fn wf(&self) -> bool {
        self.cache.wf()
    }

    pub fn new() -> (r: Dispatcher)
        ensures
            r.wf(),
            r@ == Map::<Seq<char>, i32>::empty(),
    {
        Dispatcher { cache: DispatchCache::new() }
    }

    /// The identifier already known for `name`, if any.
    pub fn cached_id(&self, name: &str) -> (r: Option<i32>)
        requires
            self.wf(),
        ensures
            r == (if self@.contains_key(name@) {
                Some(self@[name@])
            } else {
                None
            }),
    {
        self.cache.lookup(name)
    }

    /// Starts a call of method `name` with `args` in declaration order. A name
    /// already resolved on this connection goes straight to invocation.
    pub fn begin_call(&self, name: &str, args: Vec<GenericValue>) -> (r: (PendingCall, Action))
        requires
            self.wf(),
        ensures
            r.0.spec_name() == name@,
            r.0.spec_wire_args() == args@.reverse(),
            r.1 is ResolveName <==> needs_resolution(self@, name@),
            !needs_resolution(self@, name@) ==> r.0.spec_phase() == Phase::AwaitingResult
                && r.0.spec_id() == self@[name@] && r.1 is Invoke && r.1->Invoke_0
                == self@[name@],
            needs_resolution(self@, name@) ==> r.0.spec_phase() == Phase::AwaitingId,
    {
        let wire_args = wire_order(args);
        match self.cache.lookup(name) {
            Some(id) => (
                PendingCall {
                    name: String::from_str(name),
                    wire_args,
                    id,
                    phase: Phase::AwaitingResult,
                },
                Action::Invoke(id),
            ),
            None => (
                PendingCall {
                    name: String::from_str(name),
                    wire_args,
                    id: -1,
                    phase: Phase::AwaitingId,
                },
                Action::ResolveName,
            ),
        }
    }

    /// Takes the transport's report for `call` and decides the next action.
    /// A resolved identifier is remembered for later calls; a failure is
    /// reported as a name-resolution or an invocation error; an event the
    /// call was not waiting for ends it as out of sequence.
    pub fn advance(&mut self, call: &mut PendingCall, event: Event) -> (r: Action)
        requires
            old(self).wf(),
        ensures
            final(self).wf(),
            final(call).spec_name() == old(call).spec_name(),
            final(call).spec_wire_args() == old(call).spec_wire_args(),
            match (old(call).spec_phase(), event) {
                (Phase::AwaitingId, Event::Resolved(Ok(id))) => {
                    &&& final(self)@ == old(self)@.insert(old(call).spec_name(), id)
                    &&& final(call).spec_phase() == Phase::AwaitingResult
                    &&& final(call).spec_id() == id
                    &&& r is Invoke && r->Invoke_0 == id
                },
                (Phase::AwaitingId, Event::Resolved(Err(code))) => {
                    &&& final(self)@ == old(self)@
                    &&& final(call).spec_phase() == Phase::Finished
                    &&& r is Complete && r->Complete_0 == Err::<GenericValue, BridgeError>(
                        BridgeError::NameResolution(code),
                    )
                },
                (Phase::AwaitingResult, Event::Returned(Ok(v))) => {
                    &&& final(self)@ == old(self)@
                    &&& final(call).spec_phase() == Phase::Finished
                    &&& r is Complete && r->Complete_0 == Ok::<GenericValue, BridgeError>(v)
                },
                (Phase::AwaitingResult, Event::Returned(Err(code))) => {
                    &&& final(self)@ == old(self)@
                    &&& final(call).spec_phase() == Phase::Finished
                    &&& r is Complete && r->Complete_0 == Err::<GenericValue, BridgeError>(
                        BridgeError::Invocation(code),
                    )
                },
                _ => {
                    &&& final(self)@ == old(self)@
                    &&& final(call).spec_phase() == Phase::Finished
                    &&& r is Complete && r->Complete_0 == Err::<GenericValue, BridgeError>(
                        BridgeError::OutOfSequence,
                    )
                },
            },
    {
        match (call.phase, event) {
            (Phase::AwaitingId, Event::Resolved(Ok(id))) => {
                self.cache.record(call.name.as_str(), id);
                call.id = id;
                call.phase = Phase::AwaitingResult;
                Action::Invoke(id)
            },
            (Phase::AwaitingId, Event::Resolved(Err(code))) => {
                call.phase = Phase::Finished;
                Action::Complete(Err(BridgeError::NameResolution(code)))
            },
            (Phase::AwaitingResult, Event::Returned(Ok(v))) => {
                call.phase = Phase::Finished;
                Action::Complete(Ok(v))
            },
            (Phase::AwaitingResult, Event::Returned(Err(code))) => {
                call.phase = Phase::Finished;
                Action::Complete(Err(BridgeError::Invocation(code)))
            },
            _ => {
                call.phase = Phase::Finished;
                Action::Complete(Err(BridgeError::OutOfSequence))
            },
        }
    }
}

/// Once a name has resolved to `id`, later calls of that name need no
/// resolution and invoke `id`; names known before stay known.
pub proof fn lemma_resolved_name_stays_resolved(
    known: Map<Seq<char>, i32>,
    name: Seq<char>,
    id: i32,
    other: Seq<char>,
)
    ensures
        !needs_resolution(known.insert(name, id), name),
        known.insert(name, id)[name] == id,
        !needs_resolution(known, other) ==> !needs_resolution(known.insert(name, id), other),
{
}

/// Wire order puts the argument declared at position `i` at position
/// `n - 1 - i`, for every argument count `n`; so of two arguments, the one
/// declared later is submitted earlier.
pub proof fn lemma_wire_position(args: Seq<GenericValue>, i: int, j: int)
    requires
        0 <= i < j < args.len(),
    ensures
        args.reverse().len() == args.len(),
        args.reverse()[args.len() - 1 - i] == args[i],
        args.reverse()[args.len() - 1 - j] == args[j],
        args.len() - 1 - j < args.len() - 1 - i,
{
}

} // verus!
