//! The three-capture enrollment sequence.
//!
//! The sequence never stops early: whatever a step's outcome, the next step
//! is still requested, until all three have been recorded. Pacing (prompting
//! the operator, the settling delay between captures) is the caller's.
use vstd::prelude::*;
use crate::codec::{ack_reply, frame_of, parse_ack, AckCode, DecodeError};
use crate::device::{
    enroll_command, enroll_request, user_id_high, user_id_low, EnrollStep,
};

verus! {

/// Number of captures in one enrollment.
pub const ENROLL_STEPS: usize = 3;

/// How one enrollment step ended.
#[derive(PartialEq, Eq, Structural, Clone, Copy, Debug)]
pub enum StepOutcome {
    /// The sensor answered with this acknowledgment.
    Ack(AckCode),
    /// Bytes came back, but not as a frame.
    Malformed,
    /// The channel failed: nothing, or too little, came back in time.
    TransportFailure,
}

/// Abstract state of an enrollment: who is enrolled at which permission, and
/// the outcome of each step taken so far, in order.
pub ghost struct EnrollState {
    pub user_id: u16,
    pub permission: u8,
    pub outcomes: Seq<StepOutcome>,
}

/// The step that comes after `n` recorded outcomes, if any.
pub open spec fn step_after(n: nat) -> Option<EnrollStep> {
    if n == 0 {
        Some(EnrollStep::First)
    } else if n == 1 {
        Some(EnrollStep::Second)
    } else if n == 2 {
        Some(EnrollStep::Third)
    } else {
        None
    }
}

/// The state of a fresh enrollment.
pub open spec fn initial(user_id: u16, permission: u8) -> EnrollState {
    EnrollState { user_id, permission, outcomes: Seq::empty() }
}

/// The state after recording `o`: appended while a step is pending,
/// ignored once all three are in.
pub open spec fn recorded(st: EnrollState, o: StepOutcome) -> EnrollState {
    if st.outcomes.len() < ENROLL_STEPS {
        EnrollState { outcomes: st.outcomes.push(o), ..st }
    } else {
        st
    }
}

/// The outcome that the reply `s` gives a step.
pub open spec fn reply_outcome(s: Seq<u8>) -> StepOutcome {
    match ack_reply(s) {
        Ok(a) => StepOutcome::Ack(a),
        Err(_) => StepOutcome::Malformed,
    }
}

/// An enrollment in progress for one user.
pub struct Enrollment {
    user_id: u16,
    permission: u8,
    outcomes: Vec<StepOutcome>,
}

impl View for Enrollment {
    type V = EnrollState;

    closed spec fn view(&self) -> EnrollState {
        EnrollState {
            user_id: self.user_id,
            permission: self.permission,
            outcomes: self.outcomes@,
        }
    }
}

impl Enrollment {
    /// At most one outcome per step.
    pub open spec fn wf(&self) -> bool {
        self@.outcomes.len() <= ENROLL_STEPS
    }

    /// A fresh enrollment of `user_id` at `permission`, no step taken.
    pub fn new(user_id: u16, permission: u8) -> (r: Enrollment)
        ensures
            r@ == initial(user_id, permission),
            r.wf(),
    {
        Enrollment { user_id, permission, outcomes: Vec::new() }
    }

    /// The step to take next, or `None` once all three are recorded.
    pub fn next_step(&self) -> (r: Option<EnrollStep>)
        ensures
            r == step_after(self@.outcomes.len()),
    {
        let n = self.outcomes.len();
        if n == 0 {
            Some(EnrollStep::First)
        } else if n == 1 {
            Some(EnrollStep::Second)
        } else if n == 2 {
            Some(EnrollStep::Third)
        } else {
            None
        }
    }

    /// The request frame of the next step, or `None` once all three are
    /// recorded.
    pub fn next_request(&self) -> (r: Option<Vec<u8>>)
        ensures
            r is None <==> step_after(self@.outcomes.len()) is None,
            r is Some ==> r->0@ == frame_of(
                enroll_command(step_after(self@.outcomes.len())->0),
                user_id_high(self@.user_id),
                user_id_low(self@.user_id),
                self@.permission,
            ),
    {
        match self.next_step() {
            Some(step) => Some(enroll_request(step, self.user_id, self.permission)),
            None => None,
        }
    }

    /// Whether all three steps are recorded.
    pub fn is_done(&self) -> (r: bool)
        ensures
            r == (self@.outcomes.len() >= ENROLL_STEPS),
    {
        self.outcomes.len() >= ENROLL_STEPS
    }

    /// Records how the pending step ended, whatever it was; the sequence
    /// goes on to the next step either way.
    pub fn record(&mut self, outcome: StepOutcome)
        requires
            old(self).wf(),
        ensures
            final(self)@ == recorded(old(self)@, outcome),
            final(self).wf(),
    {
        if self.outcomes.len() < ENROLL_STEPS {
            self.outcomes.push(outcome);
        }
    }

    /// Records the reply to the pending step.
    pub fn record_reply(&mut self, resp: &[u8])
        requires
            old(self).wf(),
        ensures
            final(self)@ == recorded(old(self)@, reply_outcome(resp@)),
            final(self).wf(),
    {
        let outcome = match parse_ack(resp) {
            Ok(a) => StepOutcome::Ack(a),
            Err(DecodeError::MalformedFrame) => StepOutcome::Malformed,
        };
        self.record(outcome);
    }

    /// Records that the channel failed during the pending step.
    pub fn record_transport_failure(&mut self)
        requires
            old(self).wf(),
        ensures
            final(self)@ == recorded(old(self)@, StepOutcome::TransportFailure),
            final(self).wf(),
    {
        self.record(StepOutcome::TransportFailure);
    }

    /// The outcome of each step taken so far, in order.
    pub fn outcomes(&self) -> (r: Vec<StepOutcome>)
        ensures
            r@ == self@.outcomes,
    {
        let mut r: Vec<StepOutcome> = Vec::new();
        let mut i: usize = 0;
        while i < self.outcomes.len()
            invariant
                i <= self.outcomes@.len(),
                r@ == self.outcomes@.subrange(0, i as int),
            decreases self.outcomes@.len() - i,
        {
            r.push(self.outcomes[i]);
            i = i + 1;
            assert(r@ =~= self.outcomes@.subrange(0, i as int));
        }
        assert(r@ =~= self.outcomes@);
        r
    }

    pub fn user_id(&self) -> (r: u16)
        ensures
            r == self@.user_id,
    {
        self.user_id
    }

    pub fn permission(&self) -> (r: u8)
        ensures
            r == self@.permission,
    {
        self.permission
    }
}

/// An enrollment takes all three steps, in order, whatever each one's
/// outcome: after any two outcomes the third step is still requested, and
/// the final report holds the three outcomes as they were recorded.
pub proof fn lemma_enrollment_runs_every_step(
    user_id: u16,
    permission: u8,
    o1: StepOutcome,
    o2: StepOutcome,
    o3: StepOutcome,
)
    ensures
        ({
            let s0 = initial(user_id, permission);
            let s1 = recorded(s0, o1);
            let s2 = recorded(s1, o2);
            let s3 = recorded(s2, o3);
            &&& step_after(s0.outcomes.len()) == Some(EnrollStep::First)
            &&& step_after(s1.outcomes.len()) == Some(EnrollStep::Second)
            &&& step_after(s2.outcomes.len()) == Some(EnrollStep::Third)
            &&& step_after(s3.outcomes.len()) is None
            &&& s3.outcomes == seq![o1, o2, o3]
            &&& s3.user_id == user_id && s3.permission == permission
        }),
{
    let s0 = initial(user_id, permission);
    let s1 = recorded(s0, o1);
    let s2 = recorded(s1, o2);
    let s3 = recorded(s2, o3);
    assert(s3.outcomes =~= seq![o1, o2, o3]);
}

} // verus!
