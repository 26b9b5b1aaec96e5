//! A call together with the half of the exchange that is to be driven next.
//!
//! The engine does the work on the socket and reports what happened. A
//! [`SimpleCall`] takes each report and keeps the books that go with it:
//! which half the caller drives next, and whether the call is still live.
//! The identity is invalidated with the report that ends the exchange and
//! not before; a call that has ended answers every further report with
//! [`Error::Misuse`].

use vstd::prelude::*;
use crate::call::Call;
use crate::call::CallRef;
use crate::state::Error;
use crate::state::RecvState;
use crate::state::SendState;

verus! {

/// Where an exchange stands.
#[derive(Debug, Clone, Copy, PartialEq, Eq, Structural)]
pub enum Phase {
    /// The request is being sent.
    Sending,
    /// The response is being received.
    Receiving,
    /// The exchange has ended, well or badly.
    Finished,
}

/// The phase after a report from the sending half.
pub open spec fn phase_after_send(phase: Phase, reported: SendState) -> Phase {
    if phase is Finished || reported.spec_ends_call() {
        Phase::Finished
    } else if reported is Receiving {
        Phase::Receiving
    } else {
        phase
    }
}

/// The phase after a report from the receiving half.
pub open spec fn phase_after_recv(phase: Phase, reported: RecvState) -> Phase {
    if phase is Finished || reported.spec_ends_call() {
        Phase::Finished
    } else if reported is Sending {
        Phase::Sending
    } else {
        phase
    }
}

/// Once an exchange has ended, no report changes its phase.
pub proof fn lemma_finished_stays_finished(sent: SendState, received: RecvState)
    ensures
        phase_after_send(Phase::Finished, sent) == Phase::Finished,
        phase_after_recv(Phase::Finished, received) == Phase::Finished,
{
}

/// A report changes the phase only if it ends the exchange or tells the
/// caller to change halves: progress, a response head, a request for more
/// body and `Wait` leave the phase as it is.
pub proof fn lemma_progress_keeps_phase(phase: Phase, sent: SendState, received: RecvState)
    requires
        sent is SentBody || sent is WaitReqBody || sent is Wait,
        received is Response || received is ReceivedBody || received is Wait,
    ensures
        phase_after_send(phase, sent) == phase,
        phase_after_recv(phase, received) == phase,
{
}

/// A call and the phase of its exchange.
#[derive(Debug)]
pub struct SimpleCall {
    id: Call,
    phase: Phase,
}

impl SimpleCall {
    /// The identity is empty exactly when the exchange has ended.
    #[verifier::type_invariant]
    pub closed spec fn wf(&self) -> bool {
        self.phase is Finished <==> self.id.spec_is_empty()
    }

    /// The identity of the call.
    pub closed spec fn id(&self) -> Call {
        self.id
    }

    /// Where the exchange stands.
    pub closed spec fn spec_phase(&self) -> Phase {
        self.phase
    }

    /// What a call starts as: about to send if it is live, finished if its
    /// identity is already empty.
    pub closed spec fn spec_from(call: Call) -> SimpleCall {
        SimpleCall {
            id: call,
            phase: if call.spec_is_empty() {
                Phase::Finished
            } else {
                Phase::Sending
            },
        }
    }

    /// A call starts with the identity it is made from, about to send if
    /// the identity is live and finished if it is empty.
    pub proof fn lemma_spec_from(call: Call)
        ensures
            SimpleCall::spec_from(call).id() == call,
            SimpleCall::spec_from(call).spec_phase() == if call.spec_is_empty() {
                Phase::Finished
            } else {
                Phase::Sending
            },
    {
    }

    /// The call.
    pub fn call(&self) -> (c: &Call)
        ensures
            *c == self.id(),
    {
        &self.id
    }

    /// Where the exchange stands.
    #[verifier::when_used_as_spec(spec_phase)]
    pub fn phase(&self) -> (p: Phase)
        ensures
            p == self.spec_phase(),
    {
        self.phase
    }

    /// Whether the exchange has ended. It has exactly when the identity is
    /// empty.
    pub fn is_done(&self) -> (done: bool)
        ensures
            done == (self.spec_phase() is Finished),
            done == self.id().spec_is_empty(),
    {
        proof {
            use_type_invariant(self);
        }
        match self.phase {
            Phase::Finished => true,
            _ => false,
        }
    }

    /// Whether `r` is a key of this call.
    pub fn is_ref(&self, r: CallRef) -> (b: bool)
        ensures
            b == self.id().spec_is_ref(r),
    {
        self.id.is_ref(r)
    }

    /// Takes a report from the sending half and hands it on to the caller.
    ///
    /// A report that ends the exchange invalidates the identity; `Receiving`
    /// moves the call to the receiving half; every other report leaves the
    /// call as it was. A call that has already ended stays as it is and
    /// answers with [`Error::Misuse`] in place of the report.
    pub fn sent(&mut self, reported: SendState) -> (seen: SendState)
        ensures
            final(self).spec_phase() == phase_after_send(old(self).spec_phase(), reported),
            old(self).id().spec_is_empty() ==> final(self).id().spec_is_empty(),
            old(self).spec_phase() is Finished ==> {
                &&& seen == SendState::Error(Error::Misuse)
                &&& final(self).id() == old(self).id()
            },
            !(old(self).spec_phase() is Finished) ==> {
                &&& seen == reported
                &&& final(self).id() == if reported.spec_ends_call() {
                    Call::spec_empty()
                } else {
                    old(self).id()
                }
            },
    {
        proof {
            use_type_invariant(&*self);
        }
        if self.is_done() {
            return SendState::Error(Error::Misuse);
        }
        if reported.ends_call() {
            *self = SimpleCall { id: Call::empty(), phase: Phase::Finished };
        } else {
            match reported {
                SendState::Receiving => {
                    self.phase = Phase::Receiving;
                },
                _ => {},
            }
        }
        reported
    }

    /// Takes a report from the receiving half and hands it on to the caller.
    ///
    /// A report that ends the exchange invalidates the identity; `Sending`
    /// moves the call back to the sending half; every other report, a
    /// response head among them, leaves the call as it was. A call that has
    /// already ended stays as it is and answers with [`Error::Misuse`] in
    /// place of the report.
    pub fn received(&mut self, reported: RecvState) -> (seen: RecvState)
        ensures
            final(self).spec_phase() == phase_after_recv(old(self).spec_phase(), reported),
            old(self).id().spec_is_empty() ==> final(self).id().spec_is_empty(),
            old(self).spec_phase() is Finished ==> {
                &&& seen == RecvState::Error(Error::Misuse)
                &&& final(self).id() == old(self).id()
            },
            !(old(self).spec_phase() is Finished) ==> {
                &&& seen == reported
                &&& final(self).id() == if reported.spec_ends_call() {
                    Call::spec_empty()
                } else {
                    old(self).id()
                }
            },
    {
        proof {
            use_type_invariant(&*self);
        }
        if self.is_done() {
            return RecvState::Error(Error::Misuse);
        }
        if reported.ends_call() {
            *self = SimpleCall { id: Call::empty(), phase: Phase::Finished };
        } else {
            match reported {
                RecvState::Sending => {
                    self.phase = Phase::Sending;
                },
                _ => {},
            }
        }
        reported
    }

    /// Ends the exchange from outside, as for a timeout or a connection
    /// that was torn down: the identity is invalidated.
    pub fn abort(&mut self)
        ensures
            final(self).spec_phase() is Finished,
            final(self).id() == Call::spec_empty(),
    {
        *self = SimpleCall { id: Call::empty(), phase: Phase::Finished };
    }
}

impl From<Call> for SimpleCall {
    /// A live call starts in the sending half; an empty identity makes a
    /// call that has ended.
    fn from(call: Call) -> (sc: SimpleCall) {
        let phase = if call.is_empty() {
            Phase::Finished
        } else {
            Phase::Sending
        };
        SimpleCall { id: call, phase }
    }
}

impl vstd::std_specs::convert::FromSpecImpl<Call> for SimpleCall {
    open spec fn obeys_from_spec() -> bool {
        true
    }

    open spec fn from_spec(call: Call) -> SimpleCall {
        SimpleCall::spec_from(call)
    }
}

} // verus!
