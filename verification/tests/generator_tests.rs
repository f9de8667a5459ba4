use generator::bodies::{CountBody, EchoBody, FibBody, PanicBody, StackEatBody, FIB_FINISHED};
use generator::body::PanicPayload;
use generator::engine::{GeneratorImpl, Gn, DEFAULT_STACK_SIZE};

#[test]
fn count_generator_produces_every_resume() {
    // the body yields 3 times and returns once on the 4th resume:
    // exactly 4 non-empty results
    let mut g = Gn::<u64>::new_scoped(CountBody::new(4));
    assert_eq!(g.resume(), Ok(Some(0)));
    assert_eq!(g.resume(), Ok(Some(1)));
    assert_eq!(g.resume(), Ok(Some(2)));
    assert!(!g.is_done());
    assert_eq!(g.resume(), Ok(Some(4)));
    assert!(g.is_done());
    // the (N+1)th resume returns no value
    assert_eq!(g.resume(), Ok(None));
}

#[test]
fn count_generator_single_step() {
    // a body with nothing to yield completes on the very first resume
    let mut g = Gn::<u64>::new_scoped(CountBody::new(1));
    assert_eq!(g.resume(), Ok(Some(1)));
    assert!(g.is_done());
    assert_eq!(g.resume(), Ok(None));
}

#[test]
fn done_generator_is_idempotent() {
    let mut g = Gn::<u64>::new_scoped(CountBody::new(2));
    assert_eq!(g.resume(), Ok(Some(0)));
    assert_eq!(g.resume(), Ok(Some(2)));
    assert!(g.is_done());
    for _ in 0..10 {
        assert_eq!(g.resume(), Ok(None));
        assert_eq!(g.raw_send(Some(99)), Ok(None));
        assert!(g.is_done());
    }
}

#[test]
fn send_round_trip_exact_echo_order() {
    let mut g = Gn::<u64>::new_scoped(EchoBody::new());
    for x in [3u64, 1, 4, 1, 5, 92, 65, 35] {
        assert_eq!(g.send(x), Ok(x));
    }
    // an empty wake-up ends the echo
    assert_eq!(g.resume(), Ok(Some(0)));
    assert!(g.is_done());
}

#[test]
fn send_on_done_generator_is_no_value() {
    let mut g = Gn::<u64>::new_scoped(CountBody::new(1));
    assert_eq!(g.resume(), Ok(Some(1)));
    assert!(g.is_done());
    assert_eq!(g.send(9), Err(PanicPayload::NoValue));
}

#[test]
fn cancel_at_every_suspension_point() {
    for k in 0..6u64 {
        let mut g = Gn::<u64>::new_scoped(CountBody::new(5));
        for i in 0..k {
            let r = g.resume();
            assert!(r.is_ok());
            if i < 4 {
                assert!(r.unwrap().is_some());
            }
        }
        // cancellation always completes, is never itself an error,
        // and always leaves the generator done
        assert_eq!(g.cancel(), Ok(()));
        assert!(g.is_done());
        assert_eq!(g.resume(), Ok(None));
    }
}

#[test]
fn cancel_before_start_discards_the_body() {
    let mut g = Gn::<u64>::new_scoped(CountBody::new(5));
    assert!(!g.is_done());
    assert_eq!(g.cancel(), Ok(()));
    assert!(g.is_done());
    assert_eq!(g.resume(), Ok(None));
}

#[test]
fn panic_propagates_to_the_resumer() {
    let mut g = Gn::<u64>::new_scoped(PanicBody::new(7));
    // the caller of resume observes exactly the body's payload
    assert_eq!(g.resume(), Err(PanicPayload::Other(7)));
    assert!(g.is_done());
    // the payload was re-raised, not stored
    assert_eq!(g.get_panic_data(), None);
    assert_eq!(g.resume(), Ok(None));
}

#[test]
fn local_data_boundary_absorbs_the_panic() {
    let mut g = Gn::<u64>::new_scoped(PanicBody::new(13));
    g.set_local_data(1);
    // with a boundary set, nothing propagates
    assert_eq!(g.resume(), Ok(None));
    assert!(g.is_done());
    // the payload waits in the panic slot instead, and is taken once
    assert_eq!(g.get_panic_data(), Some(PanicPayload::Other(13)));
    assert_eq!(g.get_panic_data(), None);
}

#[test]
fn stack_usage_reports_the_high_water_mark() {
    // the body touches all but 2 of the 100 words
    let mut g = Gn::<()>::new_scoped_opt(100, StackEatBody::new(98));
    assert_eq!(g.stack_usage(), (100, 0));
    assert_eq!(g.resume(), Ok(Some(0)));
    assert_eq!(g.stack_usage(), (100, 98));
    // under capacity: the audit passes
    assert_eq!(g.teardown(), Ok(()));
}

#[test]
fn stack_overflow_is_fatal_at_teardown() {
    let mut g = Gn::<()>::new_scoped_opt(100, StackEatBody::new(100));
    assert_eq!(g.resume(), Ok(Some(0)));
    assert_eq!(g.stack_usage(), (100, 100));
    assert_eq!(g.teardown(), Err(PanicPayload::StackErr));
}

#[test]
fn teardown_cancels_a_generator_in_flight() {
    let mut g = Gn::<u64>::new_scoped(CountBody::new(10));
    assert_eq!(g.resume(), Ok(Some(0)));
    assert_eq!(g.resume(), Ok(Some(1)));
    assert!(!g.is_done());
    assert_eq!(g.teardown(), Ok(()));
    assert!(g.is_done());
}

#[test]
fn teardown_of_a_never_started_generator_skips_the_audit() {
    let mut g = Gn::<()>::new_scoped_opt(10, StackEatBody::new(10));
    // the body never ran, so even a would-be overflower tears down clean
    assert_eq!(g.teardown(), Ok(()));
    assert!(g.is_done());
}

#[test]
fn fibonacci_scenario() {
    let mut g = Gn::<()>::new_scoped(FibBody::new(6));
    let mut got = Vec::new();
    for _ in 0..6 {
        match g.resume() {
            Ok(Some(v)) => got.push(v),
            other => panic!("expected a value, got {other:?}"),
        }
    }
    assert_eq!(got, vec![0, 1, 1, 2, 3, 5]);
    // bounded to stop after 6: the 7th resume returns the finished marker
    assert_eq!(g.resume(), Ok(Some(FIB_FINISHED)));
    // and nothing thereafter
    assert_eq!(g.resume(), Ok(None));
    assert_eq!(g.resume(), Ok(None));
}

#[test]
fn engine_set_para_feeds_the_next_wakeup() {
    let mut e = GeneratorImpl::create(DEFAULT_STACK_SIZE, EchoBody::new());
    assert!(!e.is_started());
    e.set_para(42);
    assert_eq!(e.resume(), Ok(Some(42)));
    assert!(e.is_started());
    // the input slot was consumed: an empty wake-up ends the echo
    assert_eq!(e.resume(), Ok(Some(0)));
    assert!(e.is_done());
}

#[test]
fn engine_raw_send_overwrites_the_input_slot() {
    let mut e = GeneratorImpl::create(DEFAULT_STACK_SIZE, EchoBody::new());
    e.set_para(1);
    assert_eq!(e.raw_send(Some(2)), Ok(Some(2)));
    assert_eq!(e.raw_send(None), Ok(Some(0)));
    assert!(e.is_done());
}

#[test]
fn engine_local_data_round_trip() {
    let mut e = GeneratorImpl::create(DEFAULT_STACK_SIZE, EchoBody::new());
    assert_eq!(e.get_local_data(), 0);
    e.set_local_data(5);
    assert_eq!(e.get_local_data(), 5);
    e.prefetch();
    assert_eq!(e.get_local_data(), 5);
}

#[test]
fn engine_rearm_after_completion() {
    let mut e: GeneratorImpl<u64, u64, CountBody> = GeneratorImpl::create(DEFAULT_STACK_SIZE, CountBody::new(2));
    assert_eq!(e.resume(), Ok(Some(0)));
    assert_eq!(e.resume(), Ok(Some(2)));
    assert!(e.is_done());
    // re-arming a done generator makes it fresh again
    assert_eq!(e.init_code(CountBody::new(3)), Ok(()));
    assert!(!e.is_done());
    assert!(!e.is_started());
    assert_eq!(e.resume(), Ok(Some(0)));
    assert_eq!(e.resume(), Ok(Some(1)));
    assert_eq!(e.resume(), Ok(Some(3)));
    assert!(e.is_done());
}

#[test]
fn engine_rearm_cancels_a_run_in_flight() {
    let mut e: GeneratorImpl<u64, u64, CountBody> = GeneratorImpl::create(DEFAULT_STACK_SIZE, CountBody::new(10));
    assert_eq!(e.resume(), Ok(Some(0)));
    assert!(!e.is_done());
    assert_eq!(e.init_code(CountBody::new(1)), Ok(()));
    assert_eq!(e.resume(), Ok(Some(1)));
    assert!(e.is_done());
}

#[test]
fn engine_cancel_after_panic_boundary() {
    let mut e: GeneratorImpl<u64, u64, PanicBody> = GeneratorImpl::create(DEFAULT_STACK_SIZE, PanicBody::new(3));
    e.set_local_data(2);
    assert_eq!(e.resume(), Ok(None));
    // already done: cancel changes nothing and the payload is still there
    assert_eq!(e.cancel(), Ok(()));
    assert_eq!(e.get_panic_data(), Some(PanicPayload::Other(3)));
}

#[test]
fn default_stack_size_is_applied() {
    assert_eq!(DEFAULT_STACK_SIZE, 0x1000);
    let g = Gn::<u64>::new_scoped(CountBody::new(1));
    assert_eq!(g.stack_usage(), (DEFAULT_STACK_SIZE, 0));
    let g2 = Gn::<u64>::new(CountBody::new(1));
    assert_eq!(g2.stack_usage(), (DEFAULT_STACK_SIZE, 0));
    let g3 = Gn::<u64>::new_opt(64, CountBody::new(1));
    assert_eq!(g3.stack_usage(), (64, 0));
}
