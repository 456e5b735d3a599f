//! The one cleanup attempt of a camera.

use vstd::prelude::*;

use crate::error::{
    check, check_spec, from_code_spec, law_codes_round_trip, CleanupError, CleanupFailure,
    CleanupStep, MvsResult,
};
use crate::native::NativeCall;

verus! {

/// The cleanup step that a native call carries out.
pub open spec fn cleanup_step(call: NativeCall) -> Option<CleanupStep> {
    match call {
        NativeCall::StopGrabbing { .. } => Some(CleanupStep::StopGrabbing),
        NativeCall::UnregisterImageCallback { .. } => Some(CleanupStep::UnregisterImageCallback),
        NativeCall::UnregisterExceptionCallback { .. } => Some(
            CleanupStep::UnregisterExceptionCallback,
        ),
        NativeCall::UnregisterEventCallback { .. } => Some(CleanupStep::UnregisterEventCallback),
        NativeCall::CloseDevice { .. } => Some(CleanupStep::CloseDevice),
        NativeCall::DestroyHandle { .. } => Some(CleanupStep::DestroyHandle),
        _ => None,
    }
}

/// Whether the calls clean a camera up: cleanup steps only, with the
/// destruction of the handle at the end and nowhere else.
pub open spec fn is_cleanup_plan(calls: Seq<NativeCall>) -> bool {
    &&& calls.len() > 0
    &&& calls.last() is DestroyHandle
    &&& forall|i: int|
        0 <= i < calls.len() - 1 ==> {
            &&& cleanup_step(#[trigger] calls[i]) is Some
            &&& !(calls[i] is DestroyHandle)
        }
}

/// Index of the first of `codes` that is not a success.
pub open spec fn first_failure(codes: Seq<i32>) -> Option<int>
    decreases codes.len(),
{
    if codes.len() == 0 {
        None
    } else {
        match first_failure(codes.drop_last()) {
            Some(i) => Some(i),
            None => if codes.last() != 0 {
                Some(codes.len() - 1)
            } else {
                None
            },
        }
    }
}

/// The failure of a cleanup call that returned `code`.
pub open spec fn failure_of(call: NativeCall, code: i32) -> CleanupFailure {
    CleanupFailure { step: cleanup_step(call)->0, error: from_code_spec(code as u32) }
}

/// The first failure among the calls that have returned.
pub open spec fn first_prior_failure_spec(calls: Seq<NativeCall>, codes: Seq<i32>) -> Option<
    CleanupFailure,
> {
    match first_failure(codes) {
        Some(i) => Some(failure_of(calls[i], codes[i])),
        None => None,
    }
}

/// The failures that a finished cleanup reports: the first before the
/// destruction of the handle, and that of the destruction itself.
pub open spec fn reported_failures(calls: Seq<NativeCall>, codes: Seq<i32>) -> Seq<
    CleanupFailure,
> {
    let prior = match first_prior_failure_spec(calls, codes.drop_last()) {
        Some(failure) => seq![failure],
        None => Seq::empty(),
    };
    if codes.last() != 0 {
        prior.push(failure_of(calls.last(), codes.last()))
    } else {
        prior
    }
}

/// Keep the first failure of a cleanup; later ones do not replace it.
pub fn record_first_error(
    first_error: &mut Option<CleanupFailure>,
    step: CleanupStep,
    result: MvsResult<()>,
)
    ensures
        *final(first_error) == (match *old(first_error) {
            Some(failure) => Some(failure),
            None => match result {
                Ok(()) => None,
                Err(error) => Some(CleanupFailure { step, error }),
            },
        }),
{
    if first_error.is_none() {
        match result {
            Ok(()) => {},
            Err(error) => {
                *first_error = Some(CleanupFailure { step, error });
            },
        }
    }
}

/// The native calls of one cleanup attempt, in order, and the codes that came
/// back so far. A failed call does not keep the later ones from being made.
#[derive(Debug)]
pub struct Cleanup {
    calls: Vec<NativeCall>,
    codes: Vec<i32>,
}

impl Cleanup {
    /// The native calls, in order.
    pub closed spec fn calls(self) -> Seq<NativeCall> {
        self.calls@
    }

    /// The codes of the calls that have returned.
    pub closed spec fn codes(self) -> Seq<i32> {
        self.codes@
    }

    /// Whether every call has returned.
    pub open spec fn is_finished(self) -> bool {
        self.codes().len() == self.calls().len()
    }

    /// Codes belong to calls of a cleanup plan.
    #[verifier::type_invariant]
    pub open spec fn is_attempt(self) -> bool {
        &&& is_cleanup_plan(self.calls())
        &&& self.codes().len() <= self.calls().len()
    }

    /// Start on a plan.
    pub(crate) fn new(calls: Vec<NativeCall>) -> (r: Self)
        requires
            is_cleanup_plan(calls@),
        ensures
            r.calls() == calls@,
            r.codes() == Seq::<i32>::empty(),
    {
        Cleanup { calls, codes: Vec::new() }
    }

    /// The next call to make, or nothing when every call has returned.
    pub fn next_call(&self) -> (r: Option<NativeCall>)
        ensures
            self.is_finished() ==> r is None,
            !self.is_finished() ==> self.codes().len() < self.calls().len() && r == Some(
                self.calls()[self.codes().len() as int],
            ),
    {
        proof {
            use_type_invariant(self);
        }
        if self.codes.len() < self.calls.len() {
            Some(self.calls[self.codes.len()])
        } else {
            None
        }
    }

    /// Record the code of the call that was next. A reply to a finished cleanup
    /// changes nothing.
    pub fn reply(&mut self, code: i32)
        ensures
            final(self).calls() == old(self).calls(),
            final(self).codes() == (if old(self).is_finished() {
                old(self).codes()
            } else {
                old(self).codes().push(code)
            }),
    {
        proof {
            use_type_invariant(&*self);
        }
        if self.codes.len() < self.calls.len() {
            let mut codes: Vec<i32> = Vec::new();
            std::mem::swap(&mut self.codes, &mut codes);
            codes.push(code);
            self.codes = codes;
        }
    }

    /// Whether the destruction of the handle is confirmed.
    pub fn destroyed(&self) -> (r: bool)
        ensures
            r == (self.is_finished() && self.codes().last() == 0),
    {
        proof {
            use_type_invariant(self);
        }
        self.codes.len() == self.calls.len() && self.codes[self.codes.len() - 1] == 0
    }

    /// Judge a finished cleanup.
    pub fn into_result(self) -> (r: Result<(), CleanupError>)
        requires
            self.is_finished(),
        ensures
            reported_failures(self.calls(), self.codes()).len() == 0 ==> r == Ok::<
                (),
                CleanupError,
            >(()),
            reported_failures(self.calls(), self.codes()).len() > 0 ==> (r matches Err(error)
                && error@ == reported_failures(self.calls(), self.codes())),
            r is Ok <==> forall|i: int| 0 <= i < self.codes().len() ==> self.codes()[i] == 0,
    {
        proof {
            use_type_invariant(&self);
            law_cleanup_reports_first_failure_and_destruction(self.calls@, self.codes@);
        }
        let ghost calls = self.calls@;
        let ghost codes = self.codes@;
        let mut prior: Option<CleanupFailure> = None;
        let mut i: usize = 0;
        assert(codes.take(0) =~= Seq::empty());
        while i < self.calls.len() - 1
            invariant
                calls == self.calls@,
                codes == self.codes@,
                is_cleanup_plan(calls),
                codes.len() == calls.len(),
                i <= calls.len() - 1,
                prior == first_prior_failure_spec(calls, codes.take(i as int)),
                prior is Some ==> 0 <= first_failure(codes.take(i as int))->0 < i,
            decreases calls.len() - i,
        {
            proof {
                assert(codes.take(i + 1).drop_last() =~= codes.take(i as int));
                assert(codes.take(i + 1).last() == codes[i as int]);
                assert(cleanup_step(calls[i as int]) is Some);
            }
            match step_of(self.calls[i]) {
                Some(step) => record_first_error(&mut prior, step, check(self.codes[i])),
                None => {},
            }
            i += 1;
        }
        assert(codes.take(i as int) =~= codes.drop_last());
        let mut failures: Vec<CleanupFailure> = Vec::new();
        match prior {
            Some(failure) => failures.push(failure),
            None => {},
        }
        match check(self.codes[i]) {
            Ok(()) => {},
            Err(error) => failures.push(
                CleanupFailure { step: CleanupStep::DestroyHandle, error },
            ),
        }
        assert(failures@ =~= reported_failures(calls, codes));
        if failures.len() == 0 {
            Ok(())
        } else {
            Err(CleanupError::new(failures))
        }
    }
}

/// The cleanup step that a native call carries out.
pub fn step_of(call: NativeCall) -> (r: Option<CleanupStep>)
    ensures
        r == cleanup_step(call),
{
    match call {
        NativeCall::StopGrabbing { .. } => Some(CleanupStep::StopGrabbing),
        NativeCall::UnregisterImageCallback { .. } => Some(CleanupStep::UnregisterImageCallback),
        NativeCall::UnregisterExceptionCallback { .. } => Some(
            CleanupStep::UnregisterExceptionCallback,
        ),
        NativeCall::UnregisterEventCallback { .. } => Some(CleanupStep::UnregisterEventCallback),
        NativeCall::CloseDevice { .. } => Some(CleanupStep::CloseDevice),
        NativeCall::DestroyHandle { .. } => Some(CleanupStep::DestroyHandle),
        _ => None,
    }
}

/// Where the first failure is, it is a failure and everything before it
/// succeeded; where there is none, everything succeeded.
pub proof fn law_first_failure_is_first(codes: Seq<i32>)
    ensures
        match first_failure(codes) {
            Some(i) => {
                &&& 0 <= i < codes.len()
                &&& codes[i] != 0
                &&& forall|j: int| 0 <= j < i ==> codes[j] == 0
            },
            None => forall|j: int| 0 <= j < codes.len() ==> codes[j] == 0,
        },
    decreases codes.len(),
{
    if codes.len() > 0 {
        law_first_failure_is_first(codes.drop_last());
        assert forall|j: int| 0 <= j < codes.len() - 1 implies codes[j]
            == codes.drop_last()[j] by {}
    }
}

/// A finished cleanup reports nothing exactly when every call succeeded. It
/// never reports more than two failures; the destruction of the handle is
/// reported exactly when it failed, as the last one; and a failure before it is
/// the first that there was.
pub proof fn law_cleanup_reports_first_failure_and_destruction(
    calls: Seq<NativeCall>,
    codes: Seq<i32>,
)
    requires
        is_cleanup_plan(calls),
        codes.len() == calls.len(),
    ensures
        reported_failures(calls, codes).len() <= 2,
        reported_failures(calls, codes).len() == 0 <==> forall|i: int|
            0 <= i < codes.len() ==> codes[i] == 0,
        codes.last() != 0 <==> reported_failures(calls, codes).len() > 0 && reported_failures(
            calls,
            codes,
        ).last().step is DestroyHandle,
        forall|i: int|
            0 <= i < codes.len() - 1 && codes[i] != 0 && (forall|j: int|
                0 <= j < i ==> codes[j] == 0) ==> reported_failures(calls, codes)[0]
                == #[trigger] failure_of(calls[i], codes[i]),
{
    let prior = codes.drop_last();
    law_first_failure_is_first(prior);
    assert forall|j: int| 0 <= j < codes.len() - 1 implies codes[j] == prior[j] by {}
    if first_failure(prior) is Some {
        let k = first_failure(prior)->0;
        assert(cleanup_step(calls[k]) is Some);
        assert(codes[k] != 0);
    }
    assert forall|i: int|
        0 <= i < codes.len() - 1 && codes[i] != 0 && (forall|j: int|
            0 <= j < i ==> codes[j] == 0) implies reported_failures(calls, codes)[0]
        == #[trigger] failure_of(calls[i], codes[i]) by {
        assert(prior[i] == codes[i]);
        let k = first_failure(prior)->0;
        assert(codes[k] == prior[k]);
        assert(k == i);
    }
}

/// What a cleanup reports tells whether the handle is gone: no reported failure
/// keeps it exactly when its destruction succeeded.
pub proof fn law_reported_failures_tell_of_the_handle(calls: Seq<NativeCall>, codes: Seq<i32>)
    requires
        is_cleanup_plan(calls),
        codes.len() == calls.len(),
    ensures
        codes.last() == 0 <==> forall|i: int|
            0 <= i < reported_failures(calls, codes).len() ==> !(#[trigger] reported_failures(
                calls,
                codes,
            )[i]).keeps_handle(),
{
    let prior = codes.drop_last();
    let failures = reported_failures(calls, codes);
    law_first_failure_is_first(prior);
    if first_failure(prior) is Some {
        let k = first_failure(prior)->0;
        assert(cleanup_step(calls[k]) is Some);
        assert(!failure_of(calls[k], prior[k]).keeps_handle());
    }
    if codes.last() != 0 {
        assert(failures[failures.len() - 1].keeps_handle());
    }
}

/// Each cleanup call stands for one step, whatever its handle, and no other
/// call is a cleanup step.
pub proof fn law_cleanup_calls_have_their_step(call: NativeCall)
    ensures
        call is StopGrabbing <==> cleanup_step(call) == Some(CleanupStep::StopGrabbing),
        call is UnregisterImageCallback <==> cleanup_step(call) == Some(
            CleanupStep::UnregisterImageCallback,
        ),
        call is UnregisterExceptionCallback <==> cleanup_step(call) == Some(
            CleanupStep::UnregisterExceptionCallback,
        ),
        call is UnregisterEventCallback <==> cleanup_step(call) == Some(
            CleanupStep::UnregisterEventCallback,
        ),
        call is CloseDevice <==> cleanup_step(call) == Some(CleanupStep::CloseDevice),
        call is DestroyHandle <==> cleanup_step(call) == Some(CleanupStep::DestroyHandle),
        cleanup_step(call) != Some(CleanupStep::DrainCallbacks),
{
}

/// A reported failure names the step of the call that failed and carries its
/// code.
pub proof fn law_failures_carry_step_and_code(call: NativeCall, code: i32)
    requires
        cleanup_step(call) is Some,
    ensures
        Some(failure_of(call, code).step) == cleanup_step(call),
        failure_of(call, code).error.raw_code_spec() == Some(code as u32),
{
    law_codes_round_trip(code as u32);
}

/// Where the handle could not be destroyed, the last report carries the code of
/// the destruction; where a call before it failed, the first report carries the
/// step and the code of the first that did; and there is no other report.
pub proof fn law_reports_carry_their_codes(calls: Seq<NativeCall>, codes: Seq<i32>)
    requires
        is_cleanup_plan(calls),
        codes.len() == calls.len(),
    ensures
        codes.last() != 0 ==> reported_failures(calls, codes).last().error.raw_code_spec() == Some(
            codes.last() as u32,
        ),
        forall|i: int|
            0 <= i < codes.len() - 1 && #[trigger] codes[i] != 0 && (forall|j: int|
                0 <= j < i ==> codes[j] == 0) ==> {
                &&& Some(reported_failures(calls, codes)[0].step) == cleanup_step(calls[i])
                &&& reported_failures(calls, codes)[0].error.raw_code_spec() == Some(
                    codes[i] as u32,
                )
            },
        reported_failures(calls, codes).len() == (if codes.last() != 0 {
            1int
        } else {
            0int
        }) + (if exists|i: int| 0 <= i < codes.len() - 1 && #[trigger] codes[i] != 0 {
            1int
        } else {
            0int
        }),
{
    law_cleanup_reports_first_failure_and_destruction(calls, codes);
    let prior = codes.drop_last();
    law_first_failure_is_first(prior);
    law_codes_round_trip(codes.last() as u32);
    assert forall|j: int| 0 <= j < codes.len() - 1 implies codes[j] == prior[j] by {}
    assert forall|i: int|
        0 <= i < codes.len() - 1 && #[trigger] codes[i] != 0 && (forall|j: int|
            0 <= j < i ==> codes[j] == 0) implies {
        &&& Some(reported_failures(calls, codes)[0].step) == cleanup_step(calls[i])
        &&& reported_failures(calls, codes)[0].error.raw_code_spec() == Some(codes[i] as u32)
    } by {
        let failure = failure_of(calls[i], codes[i]);
        assert(reported_failures(calls, codes)[0] == failure);
        assert(cleanup_step(calls[i]) is Some);
        law_failures_carry_step_and_code(calls[i], codes[i]);
    }
    match first_failure(prior) {
        Some(k) => {
            assert(codes[k] != 0);
        },
        None => {},
    }
}

/// A plan is one of cleanup steps that ends with the destruction and holds no
/// other; an attempt is finished when every call has its code.
pub proof fn law_plans_destroy_once_and_last(calls: Seq<NativeCall>, attempt: Cleanup)
    ensures
        is_cleanup_plan(calls) <==> calls.len() > 0 && calls.last() is DestroyHandle && forall|i: int|
            0 <= i < calls.len() - 1 ==> {
                ||| #[trigger] calls[i] is StopGrabbing
                ||| calls[i] is UnregisterImageCallback
                ||| calls[i] is UnregisterExceptionCallback
                ||| calls[i] is UnregisterEventCallback
                ||| calls[i] is CloseDevice
            },
        attempt.is_finished() <==> attempt.codes().len() == attempt.calls().len(),
{
}

} // verus!
