use vstd::prelude::*;

use crate::yubicoerror::YubicoError;

verus! {

/// The confirmation returned when some endpoint validated the passcode.
pub const VALID_MESSAGE: &'static str = "The OTP is valid.";

/// What one endpoint attempt produced.
#[derive(Debug, Clone, PartialEq, Eq)]
pub enum EndpointOutcome {
    /// The endpoint's response was validated.
    Success,
    /// The attempt failed, for the given reason.
    Failure(YubicoError),
}

/// Where the aggregation of one verification stands.
#[derive(Debug, Clone, PartialEq, Eq)]
pub enum Phase {
    /// More outcomes are needed before a verdict.
    Pending,
    /// Some endpoint confirmed the passcode.
    Valid,
    /// No endpoint confirmed it; the reason retained.
    Invalid(YubicoError),
}

/// Whether some outcome in `s` is a success.
pub open spec fn has_success(s: Seq<EndpointOutcome>) -> bool {
    exists|i: int| 0 <= i < s.len() && (#[trigger] s[i]) is Success
}

/// The most recently received failure reason in `s`, if any.
pub open spec fn last_failure(s: Seq<EndpointOutcome>) -> Option<YubicoError>
    decreases s.len(),
{
    if s.len() == 0 {
        None
    } else {
        match s.last() {
            EndpointOutcome::Failure(e) => Some(e),
            EndpointOutcome::Success => last_failure(s.drop_last()),
        }
    }
}

/// The phase after the outcomes `received` (in arrival order) of `expected`
/// dispatched attempts, `broken` telling whether the completion channel
/// failed. A success fixes the verdict to valid whatever else arrived; with
/// none, a broken channel is reported as such; once every attempt has
/// reported, the last failure is the reason.
pub open spec fn phase_of(expected: nat, received: Seq<EndpointOutcome>, broken: bool) -> Phase {
    if has_success(received) {
        Phase::Valid
    } else if broken {
        Phase::Invalid(YubicoError::ChannelError)
    } else if received.len() >= expected && last_failure(received) is Some {
        Phase::Invalid(last_failure(received)->Some_0)
    } else {
        Phase::Pending
    }
}

/// If the outcomes of all `expected` attempts arrive in the order `arrivals`
/// and at least one of them is a success, then, whatever the order, the
/// accounting stays pending until the first success arrives and is valid
/// from then on.
pub proof fn lemma_success_is_valid(expected: nat, arrivals: Seq<EndpointOutcome>)
    requires
        arrivals.len() == expected,
        has_success(arrivals),
    ensures
        exists|k: int|
            1 <= k <= arrivals.len() && phase_of(expected, arrivals.take(k), false) == Phase::Valid
                && forall|j: int|
                0 <= j < k ==> (#[trigger] phase_of(expected, arrivals.take(j), false)) is Pending,
{
    lemma_first_success(arrivals);
    let first = choose|i: int|
        0 <= i < arrivals.len() && (#[trigger] arrivals[i]) is Success && forall|j: int|
            0 <= j < i ==> !(#[trigger] arrivals[j] is Success);
    let k = first + 1;
    assert(arrivals.take(k)[first] == arrivals[first]);
    assert(has_success(arrivals.take(k)));
    assert forall|j: int| 0 <= j < k implies (#[trigger] phase_of(
        expected,
        arrivals.take(j),
        false,
    )) is Pending by {
        lemma_prefix_without_success(arrivals, j);
    }
}

/// A prefix of `s` before its first success holds no success.
proof fn lemma_prefix_without_success(s: Seq<EndpointOutcome>, j: int)
    requires
        0 <= j <= s.len(),
        forall|i: int| 0 <= i < j ==> !(#[trigger] s[i] is Success),
    ensures
        !has_success(s.take(j)),
{
    assert forall|i: int| 0 <= i < s.take(j).len() implies !(#[trigger] s.take(j)[i] is Success) by {
        assert(s.take(j)[i] == s[i]);
    }
}

/// Some success in `s` has no success before it.
proof fn lemma_first_success(s: Seq<EndpointOutcome>)
    requires
        has_success(s),
    ensures
        exists|i: int|
            0 <= i < s.len() && (#[trigger] s[i]) is Success && forall|j: int|
                0 <= j < i ==> !(#[trigger] s[j] is Success),
    decreases s.len(),
{
    if s[0] is Success {
        assert(forall|j: int| 0 <= j < 0 ==> !(#[trigger] s[j] is Success));
    } else {
        let t = s.subrange(1, s.len() as int);
        let w = choose|i: int| 0 <= i < s.len() && (#[trigger] s[i]) is Success;
        assert(t[w - 1] == s[w]);
        lemma_first_success(t);
        let i = choose|i: int|
            0 <= i < t.len() && (#[trigger] t[i]) is Success && forall|j: int|
                0 <= j < i ==> !(#[trigger] t[j] is Success);
        assert(s[i + 1] == t[i]);
        assert forall|j: int| 0 <= j < i + 1 implies !(#[trigger] s[j] is Success) by {
            if j > 0 {
                assert(s[j] == t[j - 1]);
            }
        }
    }
}

/// If all `expected` attempts fail, arriving in the order `arrivals`, the
/// accounting stays pending until the last one arrives, and then reports
/// exactly one reason: that of the last failure received, which some
/// endpoint actually produced.
pub proof fn lemma_all_failures_are_invalid(expected: nat, arrivals: Seq<EndpointOutcome>)
    requires
        arrivals.len() == expected,
        expected > 0,
        forall|i: int| 0 <= i < arrivals.len() ==> (#[trigger] arrivals[i]) is Failure,
    ensures
        forall|j: int|
            0 <= j < expected ==> (#[trigger] phase_of(expected, arrivals.take(j), false)) is Pending,
        phase_of(expected, arrivals, false) == Phase::Invalid(arrivals.last()->Failure_0),
        exists|i: int|
            0 <= i < arrivals.len() && arrivals[i] == EndpointOutcome::Failure(
                arrivals.last()->Failure_0,
            ),
{
    assert(arrivals[arrivals.len() - 1] is Failure);
    assert forall|j: int| 0 <= j < expected implies (#[trigger] phase_of(
        expected,
        arrivals.take(j),
        false,
    )) is Pending by {
        lemma_prefix_without_success(arrivals, j);
    }
    assert(!has_success(arrivals));
}

/// The accounting of one verification: it receives the outcome of each
/// dispatched attempt, in completion order, until the verdict is fixed.
pub struct Aggregation {
    expected: usize,
    received: usize,
    success: bool,
    broken: bool,
    last_failure: Option<YubicoError>,
    history: Ghost<Seq<EndpointOutcome>>,
}

impl Aggregation {
    /// Number of attempts dispatched.
    pub closed spec fn expected(&self) -> nat {
        self.expected as nat
    }

    /// The outcomes received so far, in arrival order.
    pub closed spec fn history(&self) -> Seq<EndpointOutcome> {
        self.history@
    }

    /// Whether the completion channel failed.
    pub closed spec fn broken(&self) -> bool {
        self.broken
    }

    pub open spec fn phase(&self) -> Phase {
        phase_of(self.expected(), self.history(), self.broken())
    }

    pub closed spec fn wf(&self) -> bool {
        &&& self.expected > 0
        &&& self.received == self.history@.len()
        &&& self.received <= self.expected
        &&& self.success == has_success(self.history@)
        &&& self.last_failure == last_failure(self.history@)
    }

    /// A well-formed accounting expects at least one outcome and has never
    /// received more than it expects.
    pub proof fn lemma_bounds(&self)
        requires
            self.wf(),
        ensures
            0 < self.expected(),
            self.history().len() <= self.expected(),
    {
    }

    /// Starts the accounting of `expected` dispatched attempts.
    pub fn new(expected: usize) -> (r: Aggregation)
        requires
            expected > 0,
        ensures
            r.wf(),
            r.expected() == expected,
            r.history() == Seq::<EndpointOutcome>::empty(),
            !r.broken(),
            r.phase() == Phase::Pending,
    {
        Aggregation {
            expected,
            received: 0,
            success: false,
            broken: false,
            last_failure: None,
            history: Ghost(Seq::empty()),
        }
    }

    /// Whether the verdict is fixed; once it is, no outcome is taken.
    pub fn is_resolved(&self) -> (r: bool)
        requires
            self.wf(),
        ensures
            r == !(self.phase() is Pending),
    {
        self.success || self.broken || (self.received == self.expected
            && self.last_failure.is_some())
    }

    /// Number of outcomes received so far.
    pub fn received(&self) -> (r: usize)
        requires
            self.wf(),
        ensures
            r == self.history().len(),
    {
        self.received
    }

    /// Takes the outcome of one attempt.
    pub fn receive(&mut self, outcome: EndpointOutcome)
        requires
            old(self).wf(),
            old(self).phase() is Pending,
        ensures
            final(self).wf(),
            final(self).expected() == old(self).expected(),
            final(self).history() == old(self).history().push(outcome),
            final(self).broken() == old(self).broken(),
    {
        let ghost old_h = self.history@;
        let ghost new_h = old_h.push(outcome);
        proof {
            assert(new_h.drop_last() =~= old_h);
            assert(new_h.last() == outcome);
            if has_success(old_h) {
                let i = choose|i: int| 0 <= i < old_h.len() && (#[trigger] old_h[i]) is Success;
                assert(new_h[i] == old_h[i]);
            }
            if outcome is Success {
                assert(new_h[old_h.len() as int] is Success);
            }
            if has_success(new_h) && !(outcome is Success) {
                let i = choose|i: int| 0 <= i < new_h.len() && (#[trigger] new_h[i]) is Success;
                assert(i < old_h.len());
                assert(old_h[i] == new_h[i]);
            }
        }
        self.history = Ghost(new_h);
        self.received = self.received + 1;
        match outcome {
            EndpointOutcome::Success => {
                self.success = true;
            },
            EndpointOutcome::Failure(e) => {
                self.last_failure = Some(e);
            },
        }
    }

    /// Records that the completion channel failed before every attempt
    /// reported.
    pub fn channel_failed(&mut self)
        requires
            old(self).wf(),
            old(self).phase() is Pending,
        ensures
            final(self).wf(),
            final(self).expected() == old(self).expected(),
            final(self).history() == old(self).history(),
            final(self).broken(),
    {
        self.broken = true;
    }

    /// The verdict, once fixed: the confirmation message when valid, the
    /// retained reason when not.
    pub fn finish(self) -> (r: Result<String, YubicoError>)
        requires
            self.wf(),
            !(self.phase() is Pending),
        ensures
            self.phase() is Valid ==> r is Ok && r->Ok_0@ == VALID_MESSAGE@,
            self.phase() matches Phase::Invalid(e) ==> r == Err::<String, YubicoError>(e),
    {
        if self.success {
            proof {
                reveal_strlit("The OTP is valid.");
            }
            Ok(String::from_str(VALID_MESSAGE))
        } else if self.broken {
            Err(YubicoError::ChannelError)
        } else {
            match self.last_failure {
                Some(e) => Err(e),
                None => Err(YubicoError::ChannelError),
            }
        }
    }
}

} // verus!
