use vstd::prelude::*;
use core::marker::PhantomData;
use crate::stack::Stack;
use crate::body::{BodyStep, GenBody, PanicPayload, StepInput};

verus! {

/// Why a generator reached its terminal state.
#[derive(Clone, Copy, PartialEq, Eq, Structural, Debug)]
pub enum DoneReason {
    /// The body ran to completion and produced its final value.
    Completed,
    /// The body was terminated by `cancel`, by a re-arm, or at teardown,
    /// without producing a final value.
    Cancelled,
    /// The body unwound with a payload that was not the cancellation signal.
    Failed,
}

/// The generator lifecycle. A generator moves from `NotStarted` through zero
/// or more suspensions to exactly one terminal state, and never runs user
/// code once done, unless explicitly re-armed with a fresh body.
#[derive(Clone, Copy, PartialEq, Eq, Structural, Debug)]
pub enum GenState {
    /// Armed with a body that has not run yet.
    NotStarted,
    /// The body has run and is suspended at a yield point.
    Suspended,
    /// Terminal: the body is gone and will never run again.
    Done(DoneReason),
}

/// Default stack size, in machine words.
pub const DEFAULT_STACK_SIZE: usize = 0x1000;

/// The generator engine: owns the lifecycle state, the input slot, the
/// not-yet-finished body, the panic slot, the local-data tag, and the stack
/// accounting, and guards every hand-off between the resuming side and the
/// body. It is driven strictly sequentially: a wake-up returns only once the
/// body has suspended or finished.
pub struct GeneratorImpl<A, T, F> {
    state: GenState,
    body: Option<F>,
    para: Option<A>,
    local_data: usize,
    err: Option<PanicPayload>,
    stack: Stack,
    _out: PhantomData<T>,
}

impl<A, T, F: GenBody<A, T>> GeneratorImpl<A, T, F> {
    /// The lifecycle state.
    pub closed spec fn state_s(self) -> GenState {
        self.state
    }

    /// The stored body, present exactly while the generator can still run.
    pub closed spec fn body_s(self) -> Option<F> {
        self.body
    }

    /// The input slot: the value the next wake-up will deliver.
    pub closed spec fn para_s(self) -> Option<A> {
        self.para
    }

    /// The local-data tag; a nonzero tag stops panic propagation here.
    pub closed spec fn local_data_s(self) -> usize {
        self.local_data
    }

    /// The panic slot: a captured payload not yet taken by the caller.
    pub closed spec fn err_s(self) -> Option<PanicPayload> {
        self.err
    }

    /// The stack accounting.
    pub closed spec fn stack_s(self) -> Stack {
        self.stack
    }

    /// Whether the generator is in a terminal state.
    pub open spec fn is_done_s(self) -> bool {
        self.state_s() is Done
    }

    /// Whether the body has ever been woken.
    pub open spec fn is_started_s(self) -> bool {
        !(self.state_s() is NotStarted)
    }

    /// Well-formedness: the engine holds a body exactly while the generator
    /// can still run it.
    pub open spec fn wf(self) -> bool {
        (self.state_s() is NotStarted || self.state_s() is Suspended) <==> self.body_s() is Some
    }

    /// A freshly created generator: armed with `f` over a clean stack of
    /// `size` words, input and panic slots empty, no local-data tag.
    pub open spec fn fresh(self, size: usize, f: F) -> bool {
        &&& self.state_s() == GenState::NotStarted
        &&& self.body_s() == Some(f)
        &&& self.para_s() is None
        &&& self.local_data_s() == 0
        &&& self.err_s() is None
        &&& self.stack_s().size_spec() == size
        &&& self.stack_s().used_spec() == 0
    }

    /// How one resumption integrates the body's outcome `out`: the trampoline
    /// epilogue plus the resuming side. `pre` is the engine before the
    /// switch, `b2` and `st2` the body and stack the step left behind, `post`
    /// the engine after, and `r` what the resumption hands the caller — an
    /// `Err` stands for the caller unwinding with that payload.
    pub open spec fn resume_outcome(
        pre: Self,
        b2: F,
        st2: Stack,
        out: BodyStep<T>,
        post: Self,
        r: Result<Option<T>, PanicPayload>,
    ) -> bool {
        &&& post.stack_s() == st2
        &&& post.para_s() is None
        &&& post.local_data_s() == pre.local_data_s()
        &&& match out {
            BodyStep::Yielded(v) => {
                &&& post.state_s() == GenState::Suspended
                &&& post.body_s() == Some(b2)
                &&& post.err_s() == pre.err_s()
                &&& r == Ok::<Option<T>, PanicPayload>(Some(v))
            },
            BodyStep::Complete(v) => {
                &&& post.state_s() == GenState::Done(DoneReason::Completed)
                &&& post.body_s() is None
                &&& post.err_s() == pre.err_s()
                &&& r == Ok::<Option<T>, PanicPayload>(Some(v))
            },
            BodyStep::Panicked(p) => {
                &&& post.body_s() is None
                &&& if p == PanicPayload::Cancel {
                    // expected control flow: swallowed silently
                    &&& post.state_s() == GenState::Done(DoneReason::Cancelled)
                    &&& post.err_s() == pre.err_s()
                    &&& r == Ok::<Option<T>, PanicPayload>(None)
                } else if pre.local_data_s() == 0 {
                    // no boundary: the payload is re-raised on the caller
                    &&& post.state_s() == GenState::Done(DoneReason::Failed)
                    &&& post.err_s() is None
                    &&& r == Err::<Option<T>, PanicPayload>(p)
                } else {
                    // a local-data boundary absorbs it into the panic slot
                    &&& post.state_s() == GenState::Done(DoneReason::Failed)
                    &&& post.err_s() == Some(p)
                    &&& r == Ok::<Option<T>, PanicPayload>(None)
                }
            },
        }
    }

    /// One non-terminal resumption: some behaviour of the body, woken with
    /// `input`, accounts for the new engine value and the result. The input
    /// slot of `pre` plays no part: the caller of `advanced` says what was
    /// delivered.
    pub open spec fn advanced(
        pre: Self,
        input: Option<A>,
        post: Self,
        r: Result<Option<T>, PanicPayload>,
    ) -> bool {
        exists|b1: F, b2: F, st2: Stack, out: BodyStep<T>| {
            &&& pre.body_s() == Some(b1)
            &&& #[trigger] F::step_post(b1, b2, pre.stack_s(), st2, StepInput::Resume(input), out)
            &&& Self::resume_outcome(pre, b2, st2, out, post, r)
        }
    }

    /// One forced cancellation of a suspended generator: the body is woken
    /// with the cancellation signal, whatever it answers the generator is
    /// done, its return value (if it produced one regardless) is discarded,
    /// and only a payload other than the cancellation signal can reach the
    /// caller.
    pub open spec fn cancel_outcome(pre: Self, post: Self, r: Result<(), PanicPayload>) -> bool {
        exists|b1: F, b2: F, st2: Stack, out: BodyStep<T>| {
            &&& pre.body_s() == Some(b1)
            &&& #[trigger] F::step_post(b1, b2, pre.stack_s(), st2, StepInput::Cancel, out)
            &&& post.stack_s() == st2
            &&& post.body_s() is None
            &&& post.para_s() == pre.para_s()
            &&& post.local_data_s() == pre.local_data_s()
            &&& match out {
                BodyStep::Panicked(p) => {
                    if p == PanicPayload::Cancel {
                        &&& post.state_s() == GenState::Done(DoneReason::Cancelled)
                        &&& post.err_s() == pre.err_s()
                        &&& r == Ok::<(), PanicPayload>(())
                    } else if pre.local_data_s() == 0 {
                        &&& post.state_s() == GenState::Done(DoneReason::Failed)
                        &&& post.err_s() is None
                        &&& r == Err::<(), PanicPayload>(p)
                    } else {
                        &&& post.state_s() == GenState::Done(DoneReason::Failed)
                        &&& post.err_s() == Some(p)
                        &&& r == Ok::<(), PanicPayload>(())
                    }
                },
                // forced finish: a value produced under cancellation is discarded
                _ => {
                    &&& post.state_s() == GenState::Done(DoneReason::Cancelled)
                    &&& post.err_s() == pre.err_s()
                    &&& r == Ok::<(), PanicPayload>(())
                },
            }
        }
    }

    /// Re-arming leaves everything but the body and the lifecycle state as it
    /// was, and the generator ready to start `f`.
    pub open spec fn armed_from(pre: Self, f: F, post: Self) -> bool {
        &&& post.state_s() == GenState::NotStarted
        &&& post.body_s() == Some(f)
        &&& post.para_s() == pre.para_s()
        &&& post.local_data_s() == pre.local_data_s()
        &&& post.err_s() == pre.err_s()
        &&& post.stack_s() == pre.stack_s()
    }

    /// The overflow audit: a stack whose high-water mark reached its capacity
    /// cannot be trusted, and teardown reports that as fatal.
    pub open spec fn overflow_check(st: Stack, r: Result<(), PanicPayload>) -> bool {
        if st.used_spec() < st.size_spec() {
            r == Ok::<(), PanicPayload>(())
        } else {
            r == Err::<(), PanicPayload>(PanicPayload::StackErr)
        }
    }

    /// What `send` makes of a resumption result: a missing value is a
    /// contract violation at the call site.
    pub open spec fn expect_value(r0: Result<Option<T>, PanicPayload>) -> Result<
        T,
        PanicPayload,
    > {
        match r0 {
            Ok(Some(v)) => Ok(v),
            Ok(None) => Err(PanicPayload::NoValue),
            Err(p) => Err(p),
        }
    }

    /// Create a generator: place a fresh engine over a stack of `size` words
    /// and arm it with `f`.
    pub fn create(size: usize, f: F) -> (g: Self)
        ensures
            g.wf(),
            g.fresh(size, f),
    {
        GeneratorImpl {
            state: GenState::NotStarted,
            body: Some(f),
            para: None,
            local_data: 0,
            err: None,
            stack: Stack::new(size),
            _out: PhantomData,
        }
    }

    /// `advanced` does not depend on the input slot of the pre-state: the
    /// delivered input is named explicitly.
    proof fn lemma_advanced_para_irrelevant(
        pre1: Self,
        pre2: Self,
        input: Option<A>,
        post: Self,
        r: Result<Option<T>, PanicPayload>,
    )
        requires
            Self::advanced(pre1, input, post, r),
            pre1.body_s() == pre2.body_s(),
            pre1.stack_s() == pre2.stack_s(),
            pre1.local_data_s() == pre2.local_data_s(),
            pre1.err_s() == pre2.err_s(),
        ensures
            Self::advanced(pre2, input, post, r),
    {
        let (b1, b2, st2, out) = choose|b1: F, b2: F, st2: Stack, out: BodyStep<T>| {
            &&& pre1.body_s() == Some(b1)
            &&& #[trigger] F::step_post(b1, b2, pre1.stack_s(), st2, StepInput::Resume(input), out)
            &&& Self::resume_outcome(pre1, b2, st2, out, post, r)
        };
        assert(F::step_post(b1, b2, pre2.stack_s(), st2, StepInput::Resume(input), out));
        assert(Self::resume_outcome(pre2, b2, st2, out, post, r));
    }

    /// Wake the body once with `input`, then integrate the outcome: the
    /// verified core of every resumption.
    fn advance(&mut self, input: Option<A>) -> (r: Result<Option<T>, PanicPayload>)
        requires
            old(self).wf(),
            !old(self).is_done_s(),
        ensures
            final(self).wf(),
            Self::advanced(*old(self), input, *final(self), r),
    {
        let ghost ginput = input;
        match self.body.take() {
            Some(mut b) => {
                let ghost b1 = b;
                let mut st = self.stack;
                let out = b.step(&mut st, StepInput::Resume(input));
                let ghost b2 = b;
                let ghost gout = out;
                self.stack = st;
                self.para = None;
                match out {
                    BodyStep::Yielded(v) => {
                        self.body = Some(b);
                        self.state = GenState::Suspended;
                        let res: Result<Option<T>, PanicPayload> = Ok(Some(v));
                        proof {
                            let ghost gres = res;
                            assert(old(self).body_s() == Some(b1));
                            assert(F::step_post(
                                b1,
                                b2,
                                old(self).stack_s(),
                                self.stack_s(),
                                StepInput::Resume(ginput),
                                gout,
                            ));
                            assert(Self::resume_outcome(
                                *old(self),
                                b2,
                                self.stack_s(),
                                gout,
                                *self,
                                gres,
                            ));
                            assert(Self::advanced(*old(self), ginput, *self, gres));
                        }
                        res
                    },
                    BodyStep::Complete(v) => {
                        self.state = GenState::Done(DoneReason::Completed);
                        let res: Result<Option<T>, PanicPayload> = Ok(Some(v));
                        proof {
                            let ghost gres = res;
                            assert(old(self).body_s() == Some(b1));
                            assert(F::step_post(
                                b1,
                                b2,
                                old(self).stack_s(),
                                self.stack_s(),
                                StepInput::Resume(ginput),
                                gout,
                            ));
                            assert(Self::resume_outcome(
                                *old(self),
                                b2,
                                self.stack_s(),
                                gout,
                                *self,
                                gres,
                            ));
                            assert(Self::advanced(*old(self), ginput, *self, gres));
                        }
                        res
                    },
                    BodyStep::Panicked(p) => {
                        let res: Result<Option<T>, PanicPayload> = if p == PanicPayload::Cancel {
                            self.state = GenState::Done(DoneReason::Cancelled);
                            Ok(None)
                        } else if self.local_data == 0 {
                            self.state = GenState::Done(DoneReason::Failed);
                            self.err = None;
                            Err(p)
                        } else {
                            self.state = GenState::Done(DoneReason::Failed);
                            self.err = Some(p);
                            Ok(None)
                        };
                        proof {
                            let ghost gres = res;
                            assert(old(self).body_s() == Some(b1));
                            assert(F::step_post(
                                b1,
                                b2,
                                old(self).stack_s(),
                                self.stack_s(),
                                StepInput::Resume(ginput),
                                gout,
                            ));
                            assert(Self::resume_outcome(
                                *old(self),
                                b2,
                                self.stack_s(),
                                gout,
                                *self,
                                gres,
                            ));
                            assert(Self::advanced(*old(self), ginput, *self, gres));
                        }
                        res
                    },
                }
            },
            None => {
                proof {
                    assert(false);
                }
                vstd::pervasive::unreached()
            },
        }
    }

    /// Resume the generator, delivering whatever the input slot holds.
    /// Exhaustion is soft: on an already-done generator nothing runs, nothing
    /// changes, and no value comes back. Otherwise the result and the new
    /// state are exactly one wake-up of the body, integrated by
    /// `resume_outcome`; an `Err` means the caller unwinds with a payload the
    /// body failed with past no local-data boundary.
    pub fn resume(&mut self) -> (r: Result<Option<T>, PanicPayload>)
        requires
            old(self).wf(),
        ensures
            final(self).wf(),
            old(self).is_done_s() ==> r == Ok::<Option<T>, PanicPayload>(None) && *final(self)
                == *old(self),
            !old(self).is_done_s() ==> Self::advanced(
                *old(self),
                old(self).para_s(),
                *final(self),
                r,
            ),
    {
        if self.is_done() {
            Ok(None)
        } else {
            let input = self.para.take();
            let ghost mid = *self;
            let ghost ginput = input;
            let r = self.advance(input);
            proof {
                let ghost gr = r;
                Self::lemma_advanced_para_irrelevant(mid, *old(self), ginput, *self, gr);
            }
            r
        }
    }

    /// Resume with a fresh input: overwrite the input slot with `para`, then
    /// proceed as `resume`. On an already-done generator the slot is left
    /// alone and no value comes back.
    pub fn raw_send(&mut self, para: Option<A>) -> (r: Result<Option<T>, PanicPayload>)
        requires
            old(self).wf(),
        ensures
            final(self).wf(),
            old(self).is_done_s() ==> r == Ok::<Option<T>, PanicPayload>(None) && *final(self)
                == *old(self),
            !old(self).is_done_s() ==> Self::advanced(*old(self), para, *final(self), r),
    {
        if self.is_done() {
            Ok(None)
        } else {
            self.advance(para)
        }
    }

    /// Send `para` into the generator and demand a value back. A resumption
    /// that produces no value — exhaustion, or a swallowed or absorbed panic
    /// — is a contract violation, reported as the fatal `NoValue` payload.
    pub fn send(&mut self, para: A) -> (r: Result<T, PanicPayload>)
        requires
            old(self).wf(),
        ensures
            final(self).wf(),
            old(self).is_done_s() ==> r == Err::<T, PanicPayload>(PanicPayload::NoValue)
                && *final(self) == *old(self),
            !old(self).is_done_s() ==> exists|r0: Result<Option<T>, PanicPayload>| {
                &&& #[trigger] Self::advanced(*old(self), Some(para), *final(self), r0)
                &&& r == Self::expect_value(r0)
            },
    {
        let r0 = self.raw_send(Some(para));
        let ghost gr0 = r0;
        let res = match r0 {
            Ok(Some(v)) => Ok(v),
            Ok(None) => Err(PanicPayload::NoValue),
            Err(p) => Err(p),
        };
        proof {
            let ghost gres = res;
            if !old(self).is_done_s() {
                assert(Self::advanced(*old(self), Some(para), *self, gr0));
                assert(gres == Self::expect_value(gr0));
            }
        }
        res
    }

    /// Cancel the generator. A generator that never started simply loses its
    /// body; a suspended one is woken with the cancellation signal so its
    /// body unwinds through its own frames. Either way the generator is done
    /// afterwards, and the cancellation itself never reaches the caller as a
    /// payload — only an unrelated panic raised during the unwind can.
    pub fn cancel(&mut self) -> (r: Result<(), PanicPayload>)
        requires
            old(self).wf(),
        ensures
            final(self).wf(),
            final(self).is_done_s(),
            r != Err::<(), PanicPayload>(PanicPayload::Cancel),
            old(self).is_done_s() ==> *final(self) == *old(self) && r == Ok::<(), PanicPayload>(()),
            old(self).state_s() is NotStarted ==> {
                &&& final(self).state_s() == GenState::Done(DoneReason::Cancelled)
                &&& final(self).body_s() is None
                &&& final(self).para_s() == old(self).para_s()
                &&& final(self).local_data_s() == old(self).local_data_s()
                &&& final(self).err_s() == old(self).err_s()
                &&& final(self).stack_s() == old(self).stack_s()
                &&& r == Ok::<(), PanicPayload>(())
            },
            old(self).state_s() is Suspended ==> Self::cancel_outcome(*old(self), *final(self), r),
    {
        match self.state {
            GenState::Done(_) => Ok(()),
            GenState::NotStarted => {
                // never started: discard the body, no switch needed
                self.body = None;
                self.state = GenState::Done(DoneReason::Cancelled);
                Ok(())
            },
            GenState::Suspended => {
                match self.body.take() {
                    Some(mut b) => {
                        let ghost b1 = b;
                        let mut st = self.stack;
                        let out = b.step(&mut st, StepInput::Cancel);
                        let ghost b2 = b;
                        let ghost gout = out;
                        self.stack = st;
                        let res: Result<(), PanicPayload> = match out {
                            BodyStep::Panicked(p) => {
                                if p == PanicPayload::Cancel {
                                    self.state = GenState::Done(DoneReason::Cancelled);
                                    Ok(())
                                } else if self.local_data == 0 {
                                    self.state = GenState::Done(DoneReason::Failed);
                                    self.err = None;
                                    Err(p)
                                } else {
                                    self.state = GenState::Done(DoneReason::Failed);
                                    self.err = Some(p);
                                    Ok(())
                                }
                            },
                            _ => {
                                // forced finish: whatever it produced is discarded
                                self.state = GenState::Done(DoneReason::Cancelled);
                                Ok(())
                            },
                        };
                        proof {
                            let ghost gres = res;
                            assert(old(self).body_s() == Some(b1));
                            assert(F::step_post(
                                b1,
                                b2,
                                old(self).stack_s(),
                                self.stack_s(),
                                StepInput::Cancel,
                                gout,
                            ));
                            assert(Self::cancel_outcome(*old(self), *self, gres));
                        }
                        res
                    },
                    None => {
                        proof {
                            assert(false);
                        }
                        vstd::pervasive::unreached()
                    },
                }
            },
        }
    }

    /// Tear the generator down before its memory goes away. A generator
    /// still in flight is force-cancelled first; if that unwinds, the unwind
    /// wins. Once the generator is done, its stack is audited: a fully
    /// consumed stack is a fatal overflow, anything less is fine. A
    /// generator that never started has nothing to unwind and no run to
    /// audit.
    pub fn teardown(&mut self) -> (r: Result<(), PanicPayload>)
        requires
            old(self).wf(),
        ensures
            final(self).wf(),
            final(self).is_done_s(),
            old(self).state_s() is NotStarted ==> {
                &&& final(self).state_s() == GenState::Done(DoneReason::Cancelled)
                &&& final(self).body_s() is None
                &&& final(self).para_s() == old(self).para_s()
                &&& final(self).local_data_s() == old(self).local_data_s()
                &&& final(self).err_s() == old(self).err_s()
                &&& final(self).stack_s() == old(self).stack_s()
                &&& r == Ok::<(), PanicPayload>(())
            },
            old(self).is_done_s() ==> *final(self) == *old(self) && Self::overflow_check(
                old(self).stack_s(),
                r,
            ),
            old(self).state_s() is Suspended ==> exists|r0: Result<(), PanicPayload>| {
                &&& #[trigger] Self::cancel_outcome(*old(self), *final(self), r0)
                &&& (r0 is Err ==> r == r0)
                &&& (r0 is Ok ==> Self::overflow_check(final(self).stack_s(), r))
            },
    {
        if !self.is_started() {
            // never ran: just discard the body; there is no run to audit
            self.body = None;
            self.state = GenState::Done(DoneReason::Cancelled);
            return Ok(());
        }
        if !self.is_done() {
            let c = self.cancel();
            let ghost gc = c;
            match c {
                Err(p) => {
                    proof {
                        assert(Self::cancel_outcome(*old(self), *self, gc));
                    }
                    return Err(p);
                },
                Ok(()) => {
                    let audit = if self.stack.get_used_size() < self.stack.size() {
                        Ok(())
                    } else {
                        Err(PanicPayload::StackErr)
                    };
                    proof {
                        assert(Self::cancel_outcome(*old(self), *self, gc));
                    }
                    return audit;
                },
            }
        }
        if self.stack.get_used_size() < self.stack.size() {
            Ok(())
        } else {
            Err(PanicPayload::StackErr)
        }
    }

    /// Re-arm the generator with a fresh body. Legal at any time: a run
    /// still in flight is force-cancelled first, and if that unwinds the new
    /// body is discarded and nothing is installed.
    pub fn init_code(&mut self, f: F) -> (r: Result<(), PanicPayload>)
        requires
            old(self).wf(),
        ensures
            final(self).wf(),
            !(old(self).state_s() is Suspended) ==> r == Ok::<(), PanicPayload>(())
                && Self::armed_from(*old(self), f, *final(self)),
            old(self).state_s() is Suspended ==> exists|mid: Self, r0: Result<(), PanicPayload>| {
                &&& #[trigger] Self::cancel_outcome(*old(self), mid, r0)
                &&& (r0 is Err ==> r == r0 && *final(self) == mid)
                &&& (r0 is Ok ==> r == Ok::<(), PanicPayload>(()) && Self::armed_from(
                    mid,
                    f,
                    *final(self),
                ))
            },
    {
        let suspended = match self.state {
            GenState::Suspended => true,
            _ => false,
        };
        if suspended {
            let c = self.cancel();
            let ghost gc = c;
            let ghost gmid = *self;
            match c {
                Err(p) => {
                    proof {
                        assert(Self::cancel_outcome(*old(self), gmid, gc));
                    }
                    return Err(p);
                },
                Ok(()) => {
                    self.body = Some(f);
                    self.state = GenState::NotStarted;
                    proof {
                        assert(Self::cancel_outcome(*old(self), gmid, gc));
                        assert(Self::armed_from(gmid, f, *self));
                    }
                    return Ok(());
                },
            }
        }
        self.body = Some(f);
        self.state = GenState::NotStarted;
        Ok(())
    }

    /// Store the input the next wake-up will deliver.
    pub fn set_para(&mut self, para: A)
        ensures
            final(self).state_s() == old(self).state_s(),
            final(self).body_s() == old(self).body_s(),
            final(self).para_s() == Some(para),
            final(self).local_data_s() == old(self).local_data_s(),
            final(self).err_s() == old(self).err_s(),
            final(self).stack_s() == old(self).stack_s(),
    {
        self.para = Some(para);
    }

    /// Set the local-data tag; a nonzero tag marks a boundary past which
    /// panics are not propagated, for layers built on this engine.
    pub fn set_local_data(&mut self, data: usize)
        ensures
            final(self).state_s() == old(self).state_s(),
            final(self).body_s() == old(self).body_s(),
            final(self).para_s() == old(self).para_s(),
            final(self).local_data_s() == data,
            final(self).err_s() == old(self).err_s(),
            final(self).stack_s() == old(self).stack_s(),
    {
        self.local_data = data;
    }

    /// Read the local-data tag.
    pub fn get_local_data(&self) -> (r: usize)
        ensures
            r == self.local_data_s(),
    {
        self.local_data
    }

    /// Take the captured panic payload, if a boundary absorbed one.
    pub fn get_panic_data(&mut self) -> (r: Option<PanicPayload>)
        ensures
            r == old(self).err_s(),
            final(self).state_s() == old(self).state_s(),
            final(self).body_s() == old(self).body_s(),
            final(self).para_s() == old(self).para_s(),
            final(self).local_data_s() == old(self).local_data_s(),
            final(self).err_s() is None,
            final(self).stack_s() == old(self).stack_s(),
    {
        self.err.take()
    }

    /// Whether the generator is finished: terminal, with its body gone.
    pub fn is_done(&self) -> (r: bool)
        ensures
            r == self.is_done_s(),
    {
        match self.state {
            GenState::Done(_) => true,
            _ => false,
        }
    }

    /// Whether the body has ever been woken.
    pub fn is_started(&self) -> (r: bool)
        ensures
            r == self.is_started_s(),
    {
        match self.state {
            GenState::NotStarted => false,
            _ => true,
        }
    }

    /// Total capacity and high-water mark of the generator's own stack, in
    /// words.
    pub fn stack_usage(&self) -> (r: (usize, usize))
        ensures
            r.0 == self.stack_s().size_spec(),
            r.1 == self.stack_s().used_spec(),
    {
        (self.stack.size(), self.stack.get_used_size())
    }

    /// Warm the cache for the saved register block before a switch: a pure
    /// performance hint in the machine implementation, with no observable
    /// behaviour, and accordingly nothing here.
    pub fn prefetch(&self) {
    }
}

/// The generator handle: owns the engine and its stack region as one unit,
/// so the engine can never outlive the memory it lives in. All lifecycle
/// operations pass through to the engine.
pub struct Generator<A, T, F> {
    gen: GeneratorImpl<A, T, F>,
}

impl<A, T, F: GenBody<A, T>> Generator<A, T, F> {
    /// The engine this handle owns.
    pub closed spec fn inner(self) -> GeneratorImpl<A, T, F> {
        self.gen
    }

    /// Well-formedness of the owned engine.
    pub open spec fn wf(self) -> bool {
        self.inner().wf()
    }

    /// See `GeneratorImpl::resume`.
    pub fn resume(&mut self) -> (r: Result<Option<T>, PanicPayload>)
        requires
            old(self).wf(),
        ensures
            final(self).wf(),
            old(self).inner().is_done_s() ==> r == Ok::<Option<T>, PanicPayload>(None)
                && final(self).inner() == old(self).inner(),
            !old(self).inner().is_done_s() ==> GeneratorImpl::advanced(
                old(self).inner(),
                old(self).inner().para_s(),
                final(self).inner(),
                r,
            ),
    {
        self.gen.resume()
    }

    /// See `GeneratorImpl::raw_send`.
    pub fn raw_send(&mut self, para: Option<A>) -> (r: Result<Option<T>, PanicPayload>)
        requires
            old(self).wf(),
        ensures
            final(self).wf(),
            old(self).inner().is_done_s() ==> r == Ok::<Option<T>, PanicPayload>(None)
                && final(self).inner() == old(self).inner(),
            !old(self).inner().is_done_s() ==> GeneratorImpl::advanced(
                old(self).inner(),
                para,
                final(self).inner(),
                r,
            ),
    {
        self.gen.raw_send(para)
    }

    /// See `GeneratorImpl::send`.
    pub fn send(&mut self, para: A) -> (r: Result<T, PanicPayload>)
        requires
            old(self).wf(),
        ensures
            final(self).wf(),
            old(self).inner().is_done_s() ==> r == Err::<T, PanicPayload>(PanicPayload::NoValue)
                && final(self).inner() == old(self).inner(),
            !old(self).inner().is_done_s() ==> exists|r0: Result<Option<T>, PanicPayload>| {
                &&& #[trigger] GeneratorImpl::advanced(
                    old(self).inner(),
                    Some(para),
                    final(self).inner(),
                    r0,
                )
                &&& r == GeneratorImpl::<A, T, F>::expect_value(r0)
            },
    {
        self.gen.send(para)
    }

    /// See `GeneratorImpl::cancel`.
    pub fn cancel(&mut self) -> (r: Result<(), PanicPayload>)
        requires
            old(self).wf(),
        ensures
            final(self).wf(),
            final(self).inner().is_done_s(),
            r != Err::<(), PanicPayload>(PanicPayload::Cancel),
            old(self).inner().is_done_s() ==> final(self).inner() == old(self).inner() && r
                == Ok::<(), PanicPayload>(()),
            old(self).inner().state_s() is NotStarted ==> {
                &&& final(self).inner().state_s() == GenState::Done(DoneReason::Cancelled)
                &&& final(self).inner().body_s() is None
                &&& final(self).inner().err_s() == old(self).inner().err_s()
                &&& final(self).inner().stack_s() == old(self).inner().stack_s()
                &&& r == Ok::<(), PanicPayload>(())
            },
            old(self).inner().state_s() is Suspended ==> GeneratorImpl::cancel_outcome(
                old(self).inner(),
                final(self).inner(),
                r,
            ),
    {
        self.gen.cancel()
    }

    /// See `GeneratorImpl::teardown`. Destroying the handle and its stack is
    /// only sound after this audit ran.
    pub fn teardown(&mut self) -> (r: Result<(), PanicPayload>)
        requires
            old(self).wf(),
        ensures
            final(self).wf(),
            final(self).inner().is_done_s(),
            old(self).inner().is_done_s() ==> final(self).inner() == old(self).inner()
                && GeneratorImpl::<A, T, F>::overflow_check(old(self).inner().stack_s(), r),
            old(self).inner().state_s() is NotStarted ==> final(self).inner().state_s()
                == GenState::Done(DoneReason::Cancelled) && r == Ok::<(), PanicPayload>(()),
            old(self).inner().state_s() is Suspended ==> exists|r0: Result<(), PanicPayload>| {
                &&& #[trigger] GeneratorImpl::cancel_outcome(
                    old(self).inner(),
                    final(self).inner(),
                    r0,
                )
                &&& (r0 is Err ==> r == r0)
                &&& (r0 is Ok ==> GeneratorImpl::<A, T, F>::overflow_check(
                    final(self).inner().stack_s(),
                    r,
                ))
            },
    {
        self.gen.teardown()
    }

    /// See `GeneratorImpl::set_para`.
    pub fn set_para(&mut self, para: A)
        ensures
            final(self).inner().state_s() == old(self).inner().state_s(),
            final(self).inner().body_s() == old(self).inner().body_s(),
            final(self).inner().para_s() == Some(para),
            final(self).inner().local_data_s() == old(self).inner().local_data_s(),
            final(self).inner().err_s() == old(self).inner().err_s(),
            final(self).inner().stack_s() == old(self).inner().stack_s(),
    {
        self.gen.set_para(para)
    }

    /// See `GeneratorImpl::set_local_data`.
    pub fn set_local_data(&mut self, data: usize)
        ensures
            final(self).inner().state_s() == old(self).inner().state_s(),
            final(self).inner().body_s() == old(self).inner().body_s(),
            final(self).inner().para_s() == old(self).inner().para_s(),
            final(self).inner().local_data_s() == data,
            final(self).inner().err_s() == old(self).inner().err_s(),
            final(self).inner().stack_s() == old(self).inner().stack_s(),
    {
        self.gen.set_local_data(data)
    }

    /// See `GeneratorImpl::get_panic_data`.
    pub fn get_panic_data(&mut self) -> (r: Option<PanicPayload>)
        ensures
            r == old(self).inner().err_s(),
            final(self).inner().err_s() is None,
            final(self).inner().state_s() == old(self).inner().state_s(),
    {
        self.gen.get_panic_data()
    }

    /// See `GeneratorImpl::is_done`.
    pub fn is_done(&self) -> (r: bool)
        ensures
            r == self.inner().is_done_s(),
    {
        self.gen.is_done()
    }

    /// See `GeneratorImpl::stack_usage`.
    pub fn stack_usage(&self) -> (r: (usize, usize))
        ensures
            r.0 == self.inner().stack_s().size_spec(),
            r.1 == self.inner().stack_s().used_spec(),
    {
        self.gen.stack_usage()
    }
}

/// Generator construction helper, parameterised over the input type.
pub struct Gn<A = ()> {
    dummy: PhantomData<A>,
}

impl<A> Gn<A> {
    /// Create a generator with the default stack size.
    pub fn new_scoped<T, F: GenBody<A, T>>(f: F) -> (g: Generator<A, T, F>)
        ensures
            g.wf(),
            g.inner().fresh(DEFAULT_STACK_SIZE, f),
    {
        Self::new_scoped_opt(DEFAULT_STACK_SIZE, f)
    }

    /// Create a generator with the given stack size, in words.
    pub fn new_scoped_opt<T, F: GenBody<A, T>>(size: usize, f: F) -> (g: Generator<A, T, F>)
        ensures
            g.wf(),
            g.inner().fresh(size, f),
    {
        Generator { gen: GeneratorImpl::create(size, f) }
    }

    /// Create a generator with the default stack size. Kept beside
    /// `new_scoped` for callers of the older entry point; the two build the
    /// same generator.
    pub fn new<T, F: GenBody<A, T>>(f: F) -> (g: Generator<A, T, F>)
        ensures
            g.wf(),
            g.inner().fresh(DEFAULT_STACK_SIZE, f),
    {
        Self::new_opt(DEFAULT_STACK_SIZE, f)
    }

    /// Create a generator with the given stack size, in words. Kept beside
    /// `new_scoped_opt` for callers of the older entry point.
    pub fn new_opt<T, F: GenBody<A, T>>(size: usize, f: F) -> (g: Generator<A, T, F>)
        ensures
            g.wf(),
            g.inner().fresh(size, f),
    {
        Self::new_scoped_opt(size, f)
    }
}

} // verus!
