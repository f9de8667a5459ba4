use vstd::prelude::*;
use crate::stack::Stack;
use crate::body::{BodyStep, GenBody, PanicPayload, StepInput};
use crate::engine::{DoneReason, GenState, GeneratorImpl};
use crate::bodies::{CountBody, EchoBody, PanicBody};

verus! {

/// Whether a resumption handed the caller a value.
pub open spec fn produced<T>(r: Result<Option<T>, PanicPayload>) -> bool {
    match r {
        Ok(Some(_)) => true,
        _ => false,
    }
}

/// One `resume` call as its contract describes it, with `input` the value the
/// wake-up delivered: on a done generator nothing happens and no value comes
/// back, otherwise one wake-up of the body advanced the generator.
pub open spec fn resume_trans<A, T, F: GenBody<A, T>>(
    pre: GeneratorImpl<A, T, F>,
    input: Option<A>,
    post: GeneratorImpl<A, T, F>,
    r: Result<Option<T>, PanicPayload>,
) -> bool {
    if pre.is_done_s() {
        post == pre && r == Ok::<Option<T>, PanicPayload>(None)
    } else {
        GeneratorImpl::advanced(pre, input, post, r)
    }
}

/// A body that never panics: on an ordinary wake-up every behaviour it can
/// show is a yield or a completion.
pub open spec fn never_panics<A, T, F: GenBody<A, T>>() -> bool {
    forall|b1: F, b2: F, s1: Stack, s2: Stack, i: Option<A>, o: BodyStep<T>|
        #[trigger] F::step_post(b1, b2, s1, s2, StepInput::Resume(i), o) ==> !(o is Panicked)
}

/// A body whose remaining yields are measured by `fuel`: while fuel is left
/// an ordinary wake-up yields and burns one unit, with none left it
/// completes, and it never panics.
pub open spec fn counts_down<A, T, F: GenBody<A, T>>(fuel: spec_fn(F) -> nat) -> bool {
    forall|b1: F, b2: F, s1: Stack, s2: Stack, i: Option<A>, o: BodyStep<T>|
        #[trigger] F::step_post(b1, b2, s1, s2, StepInput::Resume(i), o) ==> match o {
            BodyStep::Yielded(_) => fuel(b1) > 0 && fuel(b2) == (fuel(b1) - 1) as nat,
            BodyStep::Complete(_) => fuel(b1) == 0,
            BodyStep::Panicked(_) => false,
        }
}

/// Law (production): a resumption of a live generator whose body never
/// panics always hands the caller a value, and if it finished the generator,
/// it finished it by completion.
pub proof fn lemma_no_panic_resume_produces<A, T, F: GenBody<A, T>>(
    pre: GeneratorImpl<A, T, F>,
    input: Option<A>,
    post: GeneratorImpl<A, T, F>,
    r: Result<Option<T>, PanicPayload>,
)
    requires
        never_panics::<A, T, F>(),
        GeneratorImpl::advanced(pre, input, post, r),
    ensures
        produced(r),
        post.is_done_s() ==> post.state_s() == GenState::Done(DoneReason::Completed),
{
    let (b1, b2, st2, out) = choose|b1: F, b2: F, st2: Stack, out: BodyStep<T>| {
        &&& pre.body_s() == Some(b1)
        &&& #[trigger] F::step_post(b1, b2, pre.stack_s(), st2, StepInput::Resume(input), out)
        &&& GeneratorImpl::resume_outcome(pre, b2, st2, out, post, r)
    };
    assert(F::step_post(b1, b2, pre.stack_s(), st2, StepInput::Resume(input), out));
    assert(!(out is Panicked));
}

/// Law (counted production): resuming a live generator exactly `n` times,
/// when its body has `n - 1` yields of fuel left and then completes, hands
/// the caller a value every single time and leaves the generator completed
/// after the `n`-th resume. Each step of the chain is one `advanced`
/// resumption, exactly what `resume` ensures on a live generator.
pub proof fn lemma_counted_run<A, T, F: GenBody<A, T>>(
    fuel: spec_fn(F) -> nat,
    states: Seq<GeneratorImpl<A, T, F>>,
    inputs: Seq<Option<A>>,
    results: Seq<Result<Option<T>, PanicPayload>>,
    n: nat,
)
    requires
        counts_down::<A, T, F>(fuel),
        n >= 1,
        states.len() == n + 1,
        inputs.len() == n,
        results.len() == n,
        states[0].wf(),
        !states[0].is_done_s(),
        fuel(states[0].body_s()->0) == n - 1,
        forall|k: int|
            0 <= k < n ==> GeneratorImpl::advanced(
                #[trigger] states[k],
                inputs[k],
                states[k + 1],
                results[k],
            ),
    ensures
        forall|k: int| 0 <= k < n ==> produced(#[trigger] results[k]),
        states[n as int].state_s() == GenState::Done(DoneReason::Completed),
    decreases n,
{
    let pre = states[0];
    let (b1, b2, st2, out) = choose|b1: F, b2: F, st2: Stack, out: BodyStep<T>| {
        &&& pre.body_s() == Some(b1)
        &&& #[trigger] F::step_post(b1, b2, pre.stack_s(), st2, StepInput::Resume(inputs[0]), out)
        &&& GeneratorImpl::resume_outcome(pre, b2, st2, out, states[1], results[0])
    };
    assert(F::step_post(b1, b2, pre.stack_s(), st2, StepInput::Resume(inputs[0]), out));
    assert(b1 == pre.body_s()->0);
    if n == 1 {
        assert(out is Complete);
        assert(produced(results[0]));
    } else {
        assert(out is Yielded);
        assert(produced(results[0]));
        assert(states[1].state_s() == GenState::Suspended);
        assert(states[1].body_s() == Some(b2));
        assert(fuel(b2) == n - 2);
        let states2 = states.subrange(1, n as int + 1);
        let inputs2 = inputs.subrange(1, n as int);
        let results2 = results.subrange(1, n as int);
        assert forall|k: int| 0 <= k < n - 1 implies GeneratorImpl::advanced(
            #[trigger] states2[k],
            inputs2[k],
            states2[k + 1],
            results2[k],
        ) by {
            assert(states2[k] == states[k + 1]);
            assert(states2[k + 1] == states[k + 2]);
            assert(inputs2[k] == inputs[k + 1]);
            assert(results2[k] == results[k + 1]);
        }
        lemma_counted_run(fuel, states2, inputs2, results2, (n - 1) as nat);
        assert forall|k: int| 0 <= k < n implies produced(#[trigger] results[k]) by {
            if k > 0 {
                assert(results2[k - 1] == results[k]);
                assert(produced(results2[k - 1]));
            }
        }
        assert(states2[(n - 1) as int] == states[n as int]);
    }
}

/// Law (exhaustion is idempotent): however many times a done generator is
/// resumed, nothing ever changes and no value ever comes back — user code
/// never runs again.
pub proof fn lemma_done_stays_done<A, T, F: GenBody<A, T>>(
    states: Seq<GeneratorImpl<A, T, F>>,
    inputs: Seq<Option<A>>,
    results: Seq<Result<Option<T>, PanicPayload>>,
    n: nat,
)
    requires
        states.len() == n + 1,
        inputs.len() == n,
        results.len() == n,
        states[0].is_done_s(),
        forall|k: int|
            0 <= k < n ==> resume_trans(
                #[trigger] states[k],
                inputs[k],
                states[k + 1],
                results[k],
            ),
    ensures
        forall|k: int| 0 <= k <= n ==> #[trigger] states[k] == states[0],
        forall|k: int| 0 <= k < n ==> #[trigger] results[k] == Ok::<Option<T>, PanicPayload>(None),
    decreases n,
{
    if n > 0 {
        assert(resume_trans(states[0], inputs[0], states[1], results[0]));
        let states2 = states.subrange(1, n as int + 1);
        let inputs2 = inputs.subrange(1, n as int);
        let results2 = results.subrange(1, n as int);
        assert forall|k: int| 0 <= k < n - 1 implies resume_trans(
            #[trigger] states2[k],
            inputs2[k],
            states2[k + 1],
            results2[k],
        ) by {
            assert(states2[k] == states[k + 1]);
            assert(states2[k + 1] == states[k + 2]);
            assert(inputs2[k] == inputs[k + 1]);
            assert(results2[k] == results[k + 1]);
        }
        lemma_done_stays_done(states2, inputs2, results2, (n - 1) as nat);
        assert forall|k: int| 0 <= k <= n implies #[trigger] states[k] == states[0] by {
            if k > 0 {
                assert(states2[k - 1] == states[k]);
            }
        }
        assert forall|k: int| 0 <= k < n implies #[trigger] results[k] == Ok::<
            Option<T>,
            PanicPayload,
        >(None) by {
            if k > 0 {
                assert(results2[k - 1] == results[k]);
            }
        }
    }
}

/// A body that echoes: woken with input `Some(x)` it yields exactly `x`.
pub open spec fn echoes<V, F: GenBody<V, V>>() -> bool {
    forall|b1: F, b2: F, s1: Stack, s2: Stack, x: V, o: BodyStep<V>|
        #[trigger] F::step_post(b1, b2, s1, s2, StepInput::Resume(Some(x)), o) ==> o
            == BodyStep::<V>::Yielded(x)
}

/// Law (round trip): a value sent into a live generator whose body echoes
/// comes back exactly as it went in — no loss, no reordering; `send` hands
/// back precisely `x`.
pub proof fn lemma_send_round_trip<V, F: GenBody<V, V>>(
    pre: GeneratorImpl<V, V, F>,
    x: V,
    post: GeneratorImpl<V, V, F>,
    r0: Result<Option<V>, PanicPayload>,
)
    requires
        echoes::<V, F>(),
        GeneratorImpl::advanced(pre, Some(x), post, r0),
    ensures
        r0 == Ok::<Option<V>, PanicPayload>(Some(x)),
        GeneratorImpl::<V, V, F>::expect_value(r0) == Ok::<V, PanicPayload>(x),
{
    let (b1, b2, st2, out) = choose|b1: F, b2: F, st2: Stack, out: BodyStep<V>| {
        &&& pre.body_s() == Some(b1)
        &&& #[trigger] F::step_post(b1, b2, pre.stack_s(), st2, StepInput::Resume(Some(x)), out)
        &&& GeneratorImpl::resume_outcome(pre, b2, st2, out, post, r0)
    };
    assert(F::step_post(b1, b2, pre.stack_s(), st2, StepInput::Resume(Some(x)), out));
    assert(out == BodyStep::<V>::Yielded(x));
}

/// A body value `b1` that fails: on an ordinary wake-up from stack `s1` it
/// always unwinds with the fixed payload `p`.
pub open spec fn body_fails_with<A, T, F: GenBody<A, T>>(b1: F, s1: Stack, p: PanicPayload) -> bool {
    forall|b2: F, s2: Stack, i: Option<A>, o: BodyStep<T>|
        #[trigger] F::step_post(b1, b2, s1, s2, StepInput::Resume(i), o) ==> o
            == BodyStep::<T>::Panicked(p)
}

/// Law (panic propagation): when the body of a live generator unwinds with a
/// payload other than the cancellation signal, the resuming caller observes
/// exactly that payload — unless a local-data boundary is set, in which case
/// nothing propagates and the payload waits in the panic slot instead.
pub proof fn lemma_panic_propagation<A, T, F: GenBody<A, T>>(
    pre: GeneratorImpl<A, T, F>,
    input: Option<A>,
    post: GeneratorImpl<A, T, F>,
    r: Result<Option<T>, PanicPayload>,
    p: PanicPayload,
)
    requires
        body_fails_with::<A, T, F>(pre.body_s()->0, pre.stack_s(), p),
        p != PanicPayload::Cancel,
        GeneratorImpl::advanced(pre, input, post, r),
    ensures
        pre.local_data_s() == 0 ==> r == Err::<Option<T>, PanicPayload>(p),
        pre.local_data_s() != 0 ==> r == Ok::<Option<T>, PanicPayload>(None) && post.err_s()
            == Some(p),
        post.state_s() == GenState::Done(DoneReason::Failed),
{
    let (b1, b2, st2, out) = choose|b1: F, b2: F, st2: Stack, out: BodyStep<T>| {
        &&& pre.body_s() == Some(b1)
        &&& #[trigger] F::step_post(b1, b2, pre.stack_s(), st2, StepInput::Resume(input), out)
        &&& GeneratorImpl::resume_outcome(pre, b2, st2, out, post, r)
    };
    assert(F::step_post(b1, b2, pre.stack_s(), st2, StepInput::Resume(input), out));
    assert(out == BodyStep::<T>::Panicked(p));
}

/// How many yields a counter body has left.
pub open spec fn count_fuel(b: CountBody) -> nat {
    if b.n > 0 && b.i < b.n - 1 {
        (b.n - 1 - b.i) as nat
    } else {
        0
    }
}

/// The counter body counts down under `count_fuel`: `CountBody::new(n)`
/// carries `n - 1` yields of fuel, so `lemma_counted_run` applies to it.
pub proof fn lemma_count_body_counts_down<A>()
    ensures
        counts_down::<A, u64, CountBody>(|b: CountBody| count_fuel(b)),
{
    assert forall|b1: CountBody, b2: CountBody, s1: Stack, s2: Stack, i: Option<A>, o: BodyStep<
        u64,
    >|
        #[trigger] <CountBody as GenBody<A, u64>>::step_post(
            b1,
            b2,
            s1,
            s2,
            StepInput::Resume(i),
            o,
        ) implies match o {
        BodyStep::Yielded(_) => count_fuel(b1) > 0 && count_fuel(b2) == (count_fuel(b1) - 1) as nat,
        BodyStep::Complete(_) => count_fuel(b1) == 0,
        BodyStep::Panicked(_) => false,
    } by {
    }
}

/// The echo body echoes, so `lemma_send_round_trip` applies to it.
pub proof fn lemma_echo_body_echoes()
    ensures
        echoes::<u64, EchoBody>(),
{
}

/// Every panic body fails with its own code on every wake-up, so
/// `lemma_panic_propagation` applies to it.
pub proof fn lemma_panic_body_fails<A>(b: PanicBody, s: Stack)
    ensures
        body_fails_with::<A, u64, PanicBody>(b, s, PanicPayload::Other(b.code)),
{
}

} // verus!
