use mutatis::check::{Check, CheckError};
use mutatis::mutators as m;
use mutatis::{Candidates, Error, ErrorKind, Mutate};

#[test]
fn check_run_okay() {
    let result = Check::new().run(m::just(true), vec![true], |b: &bool| {
        if *b {
            Ok(())
        } else {
            Err("expected true!")
        }
    });
    assert!(result.is_ok());
}

#[test]
fn check_run_fail() {
    let failure = Check::new()
        .run(m::bool(), vec![true], |b: &bool| {
            if *b {
                Ok(())
            } else {
                Err("expected true!")
            }
        })
        .err()
        .unwrap()
        .unwrap_failed();

    assert_eq!(failure.value, false);
    assert_eq!(failure.message, "expected true!");
}

#[test]
fn check_run_empty_corpus() {
    let result = Check::new().run(m::bool(), vec![], |b: &bool| {
        if *b {
            Ok(())
        } else {
            Err("expected true!")
        }
    });

    assert!(result.is_err());
    assert!(matches!(result.err().unwrap(), CheckError::EmptyCorpus));
}

#[test]
fn check_run_fail_and_shrink() {
    let failure = Check::new()
        .shrink_iters(1000)
        .run(m::u8(), vec![u8::MAX], |x: &u8| {
            if *x < 10 {
                Ok(())
            } else {
                Err("expected < 10")
            }
        })
        .err()
        .unwrap()
        .unwrap_failed();

    assert_eq!(failure.value, 10);
    assert_eq!(failure.message, "expected < 10");
}

// A property that ends abruptly comes to the check as the outcome `None`,
// which whoever catches the abrupt end hands to `Check::report`.

#[test]
fn check_run_fail_on_panic() {
    let result = Check::new().run(m::bool(), vec![true], |_: &bool| {
        Check::report(None::<Result<(), String>>)
    });
    assert!(result.is_err());
    assert!(matches!(result.err().unwrap(), CheckError::Failed(_)));
}

#[test]
fn check_run_fail_on_panic_and_shrink() {
    let failure = Check::new()
        .shrink_iters(1000)
        .run(m::u8(), vec![u8::MAX], |x: &u8| {
            let caught: Option<Result<(), String>> = if *x < 10 { Some(Ok(())) } else { None };
            Check::report(caught)
        })
        .err()
        .unwrap()
        .unwrap_failed();

    assert_eq!(failure.value, 10);
    assert_eq!(failure.message, "<panicked>");
}

#[test]
fn report_keeps_the_message_of_a_failure() {
    assert_eq!(Check::report(Some(Ok::<(), &str>(()))), Ok(()));
    assert_eq!(Check::report(Some(Err("no"))), Err("no".to_string()));
    assert_eq!(Check::report(None::<Result<(), &str>>), Err("<panicked>".to_string()));
    assert_eq!(Check::PANICKED, "<panicked>");
}

#[test]
fn check_without_shrinking_reports_the_first_failure() {
    let failure = Check::new()
        .iters(0)
        .shrink_iters(0)
        .run(m::u8(), vec![3, 200, 100], |x: &u8| {
            if *x < 10 {
                Ok(())
            } else {
                Err(format!("{} is too big", x))
            }
        })
        .err()
        .unwrap()
        .unwrap_failed();

    assert_eq!(failure.value, 200);
    assert_eq!(failure.message, "200 is too big");
}

#[test]
fn check_without_iterations_passes_a_passing_corpus() {
    let result = Check::new().iters(0).run(m::u8(), vec![1, 2, 3], |x: &u8| {
        if *x < 10 {
            Ok(())
        } else {
            Err("expected < 10")
        }
    });
    assert!(result.is_ok());
}

#[test]
fn check_passes_when_every_value_is_exhausted() {
    // The unit mutator has no candidate, so the one value leaves the corpus
    // in the first iteration and the check passes.
    let mut calls = 0;
    let counter = std::cell::Cell::new(0);
    let result = Check::new().run(m::unit(), vec![()], |_: &()| -> Result<(), String> {
        counter.set(counter.get() + 1);
        Ok(())
    });
    calls += counter.get();
    assert!(result.is_ok());
    assert_eq!(calls, 1);
}

#[test]
fn check_shrinks_only_while_the_property_fails() {
    let failure = Check::new()
        .run(m::u32(), vec![1_000_000], |x: &u32| {
            if *x % 2 == 0 && *x >= 100 {
                Err("even and large")
            } else {
                Ok(())
            }
        })
        .err()
        .unwrap()
        .unwrap_failed();

    assert!(failure.value % 2 == 0);
    assert!(failure.value >= 100);
    assert!(failure.value <= 1_000_000);
    assert_eq!(failure.message, "even and large");
}

/// A mutator that rejects every value.
struct Broken;

impl Mutate<u8> for Broken {
    fn mutate(&mut self, _c: &mut Candidates<'_>, _value: &mut u8) -> Result<(), Error> {
        Err(Error::other("broken"))
    }
}

#[test]
fn check_reports_a_mutator_error() {
    let error = Check::new()
        .run(Broken, vec![1], |_: &u8| -> Result<(), String> { Ok(()) })
        .err()
        .unwrap()
        .unwrap_mutator_error();
    assert!(error.is_other());
    match error.kind() {
        ErrorKind::Other(message) => assert_eq!(message.as_str(), "broken"),
        _ => panic!("the error should be the mutator's"),
    }
}

#[test]
fn check_run_with_defaults_starts_from_the_default_value() {
    let failure = Check::new()
        .run_with_defaults(|b: &bool| if *b { Err("found true") } else { Ok(()) })
        .err()
        .unwrap()
        .unwrap_failed();
    assert_eq!(failure.value, true);
    assert_eq!(failure.message, "found true");
}

#[test]
fn check_default_is_new() {
    let result = Check::default().run(m::just(7u8), vec![7], |x: &u8| {
        if *x == 7 {
            Ok(())
        } else {
            Err("expected 7")
        }
    });
    assert!(result.is_ok());
}

#[test]
fn check_reports_an_inverted_range() {
    let error = Check::new()
        .run(m::range(5u8..=1), vec![0u8], |_: &u8| -> Result<(), String> { Ok(()) })
        .err()
        .unwrap()
        .unwrap_mutator_error();
    assert!(error.is_invalid_range());
}

#[test]
fn check_without_shrinking_reports_the_first_failure_of_the_corpus() {
    let failure = Check::new()
        .shrink_iters(0)
        .run(m::u8(), vec![3, 200, 100], |x: &u8| {
            if *x < 10 {
                Ok(())
            } else {
                Err(format!("{} is too big", x))
            }
        })
        .err()
        .unwrap()
        .unwrap_failed();
    assert_eq!(failure.value, 200);
    assert_eq!(failure.message, "200 is too big");
}

#[test]
fn check_shrinks_from_the_failing_value() {
    // Shrinking an integer only goes down, so the reported value is not above
    // the one that failed.
    let failure = Check::new()
        .iters(0)
        .run(m::u16(), vec![5, 30_000], |x: &u16| if *x < 100 { Ok(()) } else { Err("big") })
        .err()
        .unwrap()
        .unwrap_failed();
    assert!(100 <= failure.value && failure.value <= 30_000);
    assert_eq!(failure.value, 100);
}
