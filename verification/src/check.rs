//! A small framework for property-based testing with mutators.
//!
//! [`Check`] runs a property on every value of an initial corpus and then on
//! values mutated from it. The first value on which the property fails is
//! shrunk, by mutations made in shrink mode, for as long as the property
//! keeps failing, and is reported with the message of its failure.

use crate::context::{mutate_in, mutated};
use crate::error::Error;
use crate::mutate::{DefaultMutate, Mutate};
use crate::rng::Rng;
use std::fmt::Display;
use vstd::prelude::*;
use vstd::string::to_string_from_display_ensures;

verus! {

broadcast use crate::error::group_error_facts;

/// The failure of a check: a value on which the property does not hold, and
/// the message of the property.
#[non_exhaustive]
#[derive(Debug)]
pub struct CheckFailure<T> {
    /// The input value that triggered the failure.
    pub value: T,
    /// The failure message.
    pub message: String,
}

/// An error when running a [`Check`].
#[derive(Debug)]
pub enum CheckError<T> {
    /// The property does not hold for the value of this failure.
    Failed(CheckFailure<T>),
    /// The corpus was empty.
    EmptyCorpus,
    /// A mutator returned an error other than exhaustion.
    MutatorError(Error),
}

impl<T> From<Error> for CheckError<T> {
    fn from(error: Error) -> (ret: Self) {
        CheckError::MutatorError(error)
    }
}

impl<T> vstd::std_specs::convert::FromSpecImpl<Error> for CheckError<T> {
    open spec fn obeys_from_spec() -> bool {
        true
    }

    open spec fn from_spec(error: Error) -> Self {
        CheckError::MutatorError(error)
    }
}

impl<T> From<CheckFailure<T>> for CheckError<T> {
    fn from(failure: CheckFailure<T>) -> (ret: Self) {
        CheckError::Failed(failure)
    }
}

impl<T> vstd::std_specs::convert::FromSpecImpl<CheckFailure<T>> for CheckError<T> {
    open spec fn obeys_from_spec() -> bool {
        true
    }

    open spec fn from_spec(failure: CheckFailure<T>) -> Self {
        CheckError::Failed(failure)
    }
}

impl<T> CheckError<T> {
    /// The failure of a check that failed.
    pub fn unwrap_failed(self) -> (failure: CheckFailure<T>)
        requires
            self is Failed,
        ensures
            failure == self->Failed_0,
    {
        match self {
            CheckError::Failed(failure) => failure,
            _ => vstd::pervasive::unreached(),
        }
    }

    /// The error of a check that a mutator stopped.
    pub fn unwrap_mutator_error(self) -> (error: Error)
        requires
            self is MutatorError,
        ensures
            error == self->MutatorError_0,
    {
        match self {
            CheckError::MutatorError(error) => error,
            _ => vstd::pervasive::unreached(),
        }
    }
}

/// The result of running a check: `Ok(())` where it passes, and otherwise
/// the failure or the error that ended it.
pub type CheckResult<T> = Result<(), CheckError<T>>;

/// Whether `property` can pass on `value`.
pub open spec fn passes<T, S, F: Fn(&T) -> Result<(), S>>(property: F, value: T) -> bool {
    call_ensures(property, (&value,), Ok(()))
}

/// Whether `property` can fail on `value` with an error that reads `message`.
pub open spec fn fails<T, S: Display, F: Fn(&T) -> Result<(), S>>(
    property: F,
    value: T,
    message: String,
) -> bool {
    exists|error: S| #[trigger]
        call_ensures(property, (&value,), Err(error)) && to_string_from_display_ensures(
            &error,
            message,
        )
}

/// Whether `property` can fail on `value`, whatever it says then.
pub open spec fn fails_somehow<T, S: Display, F: Fn(&T) -> Result<(), S>>(
    property: F,
    value: T,
) -> bool {
    exists|message: String| #[trigger] fails(property, value, message)
}

/// Whether one step of shrinking can lead from `value` to `next`: a mutator
/// of type `M`, in shrink mode, makes `next` of a clone of `value`, and the
/// property fails on `next`.
pub open spec fn shrink_step<T: Clone, S: Display, M: Mutate<T>, F: Fn(&T) -> Result<(), S>>(
    property: F,
    value: T,
    next: T,
) -> bool {
    &&& fails_somehow(property, next)
    &&& exists|start: T, before: M, after: M|
        cloned(value, start) && #[trigger] mutated(before, true, start, after, next, Ok(()))
}

/// Whether shrinking can lead from `from` to `to`: there is a row of values
/// that begins with `from` and ends with `to`, each made of the one before by
/// a step of shrinking. A value is shrunk to itself by the row that holds it
/// alone.
pub open spec fn shrunk_to<T: Clone, S: Display, M: Mutate<T>, F: Fn(&T) -> Result<(), S>>(
    property: F,
    from: T,
    to: T,
) -> bool {
    exists|values: Seq<T>|
        {
            &&& values.len() > 0
            &&& values[0] == from
            &&& #[trigger] values[values.len() - 1] == to
            &&& forall|i: int|
                0 <= i < values.len() - 1 ==> shrink_step::<T, S, M, F>(
                    property,
                    #[trigger] values[i],
                    values[i + 1],
                )
        }
}

/// What the first attempt to shrink `value` was, and what it means for the
/// value `reported` in the end. The attempt mutates a clone of `value`,
/// `start`, with `mutator` in shrink mode, which makes `candidate` of it with
/// the result `tried`.
///
/// - Where the mutation succeeds and the property cannot pass on
///   `candidate`, the candidate is kept, and the reported value is shrunk
///   from it.
/// - Where the mutator is exhausted, shrinking ends, and the reported value
///   is `value`.
pub open spec fn first_try<T: Clone, S: Display, M: Mutate<T>, F: Fn(&T) -> Result<(), S>>(
    mutator: M,
    property: F,
    value: T,
    start: T,
    after: M,
    candidate: T,
    tried: Result<(), Error>,
    reported: T,
) -> bool {
    &&& cloned(value, start)
    &&& mutated(mutator, true, start, after, candidate, tried)
    &&& tried is Ok && !passes(property, candidate) ==> shrunk_to::<T, S, M, F>(
        property,
        candidate,
        reported,
    )
    &&& (tried matches Err(e) && e.kind_of() is Exhausted) ==> reported == value
}

/// Whether the value numbered `i` is the first of `corpus` on which
/// `property` fails: it can fail on it, and can pass on all before it.
pub open spec fn first_failure<T, S: Display, F: Fn(&T) -> Result<(), S>>(
    property: F,
    corpus: Seq<T>,
    i: int,
) -> bool {
    &&& 0 <= i < corpus.len()
    &&& fails_somehow(property, corpus[i])
    &&& forall|j: int| 0 <= j < i ==> passes(property, #[trigger] corpus[j])
}

/// What the first mutation of a check was, and what it means for the result
/// `r` of the check. The mutation is made of `start`, a value of the corpus,
/// with `mutator` outside shrink mode, which makes `new_value` of it with the
/// result `tried`.
///
/// - Where the mutation succeeds, the property can pass on the new value, or
///   else the check fails.
/// - Where it does not, the mutator is exhausted, or else its error is the
///   error of the check.
pub open spec fn first_mutation<T, S: Display, M: Mutate<T>, F: Fn(&T) -> Result<(), S>>(
    mutator: M,
    property: F,
    start: T,
    after: M,
    new_value: T,
    tried: Result<(), Error>,
    r: CheckResult<T>,
) -> bool {
    &&& mutated(mutator, false, start, after, new_value, tried)
    &&& match tried {
        Ok(_) => passes(property, new_value) || r matches Err(CheckError::Failed(_)),
        Err(e) => e.kind_of() is Exhausted || r == Err::<(), CheckError<T>>(
            CheckError::MutatorError(e),
        ),
    }
}

/// A value is shrunk to itself.
pub proof fn lemma_shrunk_to_itself<T: Clone, S: Display, M: Mutate<T>, F: Fn(&T) -> Result<(), S>>(
    property: F,
    value: T,
)
    ensures
        shrunk_to::<T, S, M, F>(property, value, value),
{
    let values = seq![value];
    assert(values[values.len() - 1] == value);
}

/// Shrinking goes on by steps: a value shrunk to another, which one more
/// step leads on from, is shrunk to where that step leads.
pub proof fn lemma_shrunk_on<T: Clone, S: Display, M: Mutate<T>, F: Fn(&T) -> Result<(), S>>(
    property: F,
    from: T,
    to: T,
    next: T,
)
    requires
        shrunk_to::<T, S, M, F>(property, from, to),
        shrink_step::<T, S, M, F>(property, to, next),
    ensures
        shrunk_to::<T, S, M, F>(property, from, next),
{
    let values = choose|values: Seq<T>|
        {
            &&& values.len() > 0
            &&& values[0] == from
            &&& #[trigger] values[values.len() - 1] == to
            &&& forall|i: int|
                0 <= i < values.len() - 1 ==> shrink_step::<T, S, M, F>(
                    property,
                    #[trigger] values[i],
                    values[i + 1],
                )
        };
    let longer = values.push(next);
    assert(longer[longer.len() - 1] == next);
    assert forall|i: int| 0 <= i < longer.len() - 1 implies shrink_step::<T, S, M, F>(
        property,
        #[trigger] longer[i],
        longer[i + 1],
    ) by {
        if i < values.len() - 1 {
            assert(longer[i] == values[i]);
            assert(longer[i + 1] == values[i + 1]);
        }
    }
}

/// A check that can be run to test a property.
#[derive(Debug)]
pub struct Check {
    iters: usize,
    shrink_iters: usize,
}

impl Default for Check {
    fn default() -> (check: Check)
        ensures
            check.spec_iters() == 1000,
            check.spec_shrink_iters() == 1000,
    {
        Check::new()
    }
}

impl Check {
    /// The message of the failure that stands for a run of the property
    /// that ended abruptly.
    pub const PANICKED: &'static str = "<panicked>";

    /// The number of mutated values that the check tries.
    pub closed spec fn spec_iters(&self) -> usize {
        self.iters
    }

    /// The number of attempts that the check makes to shrink a failing input.
    pub closed spec fn spec_shrink_iters(&self) -> usize {
        self.shrink_iters
    }

    /// A check of 1000 iterations and 1000 shrink iterations.
    pub fn new() -> (check: Check)
        ensures
            check.spec_iters() == 1000,
            check.spec_shrink_iters() == 1000,
    {
        Check { iters: 1000, shrink_iters: 1000 }
    }

    /// Sets the number of test iterations to run.
    pub fn iters(&mut self, iters: usize) -> (check: &mut Check)
        ensures
            check.spec_iters() == iters,
            check.spec_shrink_iters() == old(self).spec_shrink_iters(),
            *final(self) == *final(check),
    {
        self.iters = iters;
        self
    }

    /// Sets the number of attempts to shrink a failing input before the
    /// failure is reported.
    pub fn shrink_iters(&mut self, shrink_iters: usize) -> (check: &mut Check)
        ensures
            check.spec_iters() == old(self).spec_iters(),
            check.spec_shrink_iters() == shrink_iters,
            *final(self) == *final(check),
    {
        self.shrink_iters = shrink_iters;
        self
    }

    /// Runs this check with the default mutator of `T`, on a corpus that
    /// holds the default value of `T` and nothing else.
    pub fn run_with_defaults<T, S, F>(&self, property: F) -> (r: CheckResult<T>) where
        T: Clone + Default + DefaultMutate,
        S: Display,
        F: Fn(&T) -> Result<(), S>,

        requires
            forall|mutator: T::DefaultMutate| #[trigger]
                call_ensures(T::DefaultMutate::default, (), mutator) ==> mutator.wf()
                    && mutator.max_candidates() <= u32::MAX,
            forall|v: &T| call_requires(property, (v,)),
        ensures
            !(r matches Err(CheckError::EmptyCorpus)),
            exists|mutator: T::DefaultMutate, value: T|
                {
                    &&& call_ensures(T::DefaultMutate::default, (), mutator)
                    &&& call_ensures(T::default, (), value)
                    &&& #[trigger] self.ran(mutator, seq![value], property, r)
                },
    {
        let mut corpus = Vec::new();
        let value = T::default();
        let ghost initial = value;
        corpus.push(value);
        let mutator = crate::mutators::default::<T>();
        let r = self.run(mutator, corpus, property);
        proof {
            assert(corpus@ =~= seq![initial]);
            assert(self.ran(mutator, seq![initial], property, r));
        }
        r
    }

    /// What a run of this check on `corpus` with `mutator` and `property`
    /// comes to.
    ///
    /// - The corpus is empty exactly where the result says so.
    /// - The check passes only where the property can pass on every value of
    ///   the corpus, and fails where it cannot pass on one of them.
    /// - A failure is of a value on which the property fails with the
    ///   message. It is shrunk from the first value of the corpus on which
    ///   the property failed, and is that value where nothing is shrunk, or
    ///   else the corpus passed and a mutated value failed.
    /// - Where there are iterations, a first mutation was made of a value of
    ///   the corpus, unless the corpus failed; what became of it is
    ///   [`first_mutation`].
    /// - An error of the mutator is one that a mutation returned, and is not
    ///   exhaustion.
    pub open spec fn ran<M, T, S, F>(
        &self,
        mutator: M,
        corpus: Seq<T>,
        property: F,
        r: CheckResult<T>,
    ) -> bool where M: Mutate<T>, T: Clone, S: Display, F: Fn(&T) -> Result<(), S> {
        &&& (r matches Err(CheckError::EmptyCorpus) <==> corpus.len() == 0)
        &&& (r is Ok ==> forall|i: int|
            0 <= i < corpus.len() ==> passes(property, #[trigger] corpus[i]))
        &&& ((exists|i: int|
            0 <= i < corpus.len() && !passes(property, #[trigger] corpus[i]))
            ==> r matches Err(CheckError::Failed(_)))
        &&& (r matches Err(CheckError::Failed(failure)) ==> fails(
            property,
            failure.value,
            failure.message,
        ))
        &&& (r matches Err(CheckError::Failed(failure)) ==> {
            ||| exists|i: int|
                {
                    &&& #[trigger] first_failure(property, corpus, i)
                    &&& shrunk_to::<T, S, M, F>(property, corpus[i], failure.value)
                    &&& self.spec_shrink_iters() == 0 ==> failure.value == corpus[i]
                }
            ||| {
                &&& self.spec_iters() > 0
                &&& forall|j: int|
                    0 <= j < corpus.len() ==> passes(
                        property,
                        #[trigger] corpus[j],
                    )
            }
        })
        &&& (self.spec_iters() > 0 && corpus.len() > 0 ==> {
            ||| r matches Err(CheckError::Failed(failure)) && exists|i: int| #[trigger]
                first_failure(property, corpus, i)
            ||| exists|i: int, after: M, new_value: T, tried: Result<(), Error>|
                0 <= i < corpus.len() && #[trigger] first_mutation(
                    mutator,
                    property,
                    corpus[i],
                    after,
                    new_value,
                    tried,
                    r,
                )
        })
        &&& (r matches Err(CheckError::MutatorError(e)) ==> {
            &&& self.spec_iters() > 0
            &&& !e.is_signal()
            &&& !(e.kind_of() is Exhausted)
            &&& exists|before: M, value: T, after: M, new_value: T| #[trigger]
                mutated(before, false, value, after, new_value, Err(e))
        })
    }

    /// Runs this check.
    ///
    /// The property is first run on every value of `initial_corpus`, which
    /// must hold at least one. Then, for the configured number of
    /// iterations, a value of the corpus is drawn and mutated with
    /// `mutator`, and the property is run on what it has become; a value
    /// whose mutator is exhausted leaves the corpus, and the check passes
    /// when none is left. The first value on which the property fails is
    /// shrunk and reported.
    pub fn run<M, T, S, F>(&self, mutator: M, initial_corpus: Vec<T>, property: F) -> (r:
        CheckResult<T>) where M: Mutate<T>, T: Clone, S: Display, F: Fn(&T) -> Result<(), S>
        requires
            mutator.wf(),
            mutator.max_candidates() <= u32::MAX,
            forall|v: &T| call_requires(property, (v,)),
        ensures
            self.ran(mutator, initial_corpus@, property, r),
    {
        let mut current = mutator;
        let mut corpus = initial_corpus;
        if corpus.len() == 0 {
            return Err(CheckError::EmptyCorpus);
        }
        // First, check that the property holds for all values in the initial
        // corpus.

        let mut i: usize = 0;
        while i < corpus.len()
            invariant
                corpus@ == initial_corpus@,
                i <= corpus.len(),
                current == mutator,
                current.wf(),
                current.max_candidates() <= u32::MAX,
                forall|v: &T| call_requires(property, (v,)),
                forall|j: int| 0 <= j < i ==> passes(property, #[trigger] corpus@[j]),
            decreases corpus.len() - i,
        {
            if let Err(message) = Self::check_one(&corpus[i], &property) {
                assert(first_failure(property, initial_corpus@, i as int));
                let value = corpus.swap_remove(i);
                return self.shrink(current, value, property, message);
            }
            i += 1;
        }

        // Second, check values mutated from the corpus, for the configured
        // iterations.
        let ghost first: (int, M, T, Result<(), Error>) = arbitrary();
        let mut rng = Rng::default();
        let mut n: usize = 0;
        while n < self.iters
            invariant
                corpus.len() > 0,
                initial_corpus@.len() > 0,
                current.wf(),
                current.max_candidates() <= u32::MAX,
                forall|v: &T| call_requires(property, (v,)),
                forall|j: int|
                    0 <= j < initial_corpus@.len() ==> passes(
                        property,
                        #[trigger] initial_corpus@[j],
                    ),
                n == 0 ==> current == mutator && corpus@ == initial_corpus@,
                n > 0 ==> 0 <= first.0 < initial_corpus@.len() && first_mutation(
                    mutator,
                    property,
                    initial_corpus@[first.0],
                    first.1,
                    first.2,
                    first.3,
                    Ok::<(), CheckError<T>>(()),
                ),
            decreases self.iters - n,
        {
            let index = match rng.gen_index(corpus.len()) {
                Some(index) => index,
                None => vstd::pervasive::unreached(),
            };
            let ghost before = current;
            let ghost value = corpus@[index as int];
            let tried = mutate_in(&mut rng, false, &mut current, &mut corpus[index]);
            proof {
                if n == 0 {
                    first = (index as int, current, corpus@[index as int], tried);
                }
                assert(tried is Ok ==> tried->Ok_0 == ());
                assert(0 <= first.0 < initial_corpus@.len());
            }
            match tried {
                Ok(_) => {
                    if let Err(message) = Self::check_one(&corpus[index], &property) {
                        let value = corpus.swap_remove(index);
                        let r = self.shrink(current, value, property, message);
                        assert(first_mutation(
                            mutator,
                            property,
                            initial_corpus@[first.0],
                            first.1,
                            first.2,
                            first.3,
                            r,
                        ));
                        return r;
                    }
                },
                Err(e) => {
                    if e.is_exhausted() {
                        corpus.swap_remove(index);
                        if corpus.len() == 0 {
                            assert(first_mutation(
                                mutator,
                                property,
                                initial_corpus@[first.0],
                                first.1,
                                first.2,
                                first.3,
                                Ok::<(), CheckError<T>>(()),
                            ));
                            return Ok(());
                        }
                    } else {
                        assert(mutated(
                            before,
                            false,
                            value,
                            current,
                            corpus@[index as int],
                            Err(e),
                        ));
                        assert(first_mutation(
                            mutator,
                            property,
                            initial_corpus@[first.0],
                            first.1,
                            first.2,
                            first.3,
                            Err::<(), CheckError<T>>(CheckError::MutatorError(e)),
                        ));
                        return Err(CheckError::MutatorError(e));
                    }
                },
            }
            n += 1;
        }

        Ok(())
    }

    fn shrink<M, T, S, F>(&self, mutator: M, value: T, property: F, message: String) -> (r:
        CheckResult<T>) where M: Mutate<T>, T: Clone, S: Display, F: Fn(&T) -> Result<(), S>
        requires
            mutator.wf(),
            mutator.max_candidates() <= u32::MAX,
            fails(property, value, message),
            forall|v: &T| call_requires(property, (v,)),
        ensures
            r matches Err(CheckError::Failed(failure)) && fails(
                property,
                failure.value,
                failure.message,
            ) && shrunk_to::<T, S, M, F>(property, value, failure.value),
            self.spec_shrink_iters() == 0 ==> r == Err::<(), CheckError<T>>(
                CheckError::Failed(CheckFailure { value, message }),
            ),
            self.spec_shrink_iters() > 0 ==> (r matches Err(
                CheckError::Failed(failure),
            ) && exists|start: T, after: M, candidate: T, tried: Result<(), Error>| #[trigger]
                first_try(mutator, property, value, start, after, candidate, tried, failure.value)),
    {
        let mut mutator = mutator;
        let mut value = value;
        let mut message = message;
        proof {
            lemma_shrunk_to_itself::<T, S, M, F>(property, value);
        }
        if self.shrink_iters == 0 {
            return Err(CheckError::Failed(CheckFailure { value, message }));
        }
        let ghost given = mutator;
        let ghost failing = value;
        let ghost first: (T, M, T, Result<(), Error>) = arbitrary();
        let mut rng = Rng::default();
        let mut exhausted = false;
        let mut i: usize = 0;
        while i < self.shrink_iters && !exhausted
            invariant
                mutator.wf(),
                mutator.max_candidates() <= u32::MAX,
                fails(property, value, message),
                forall|v: &T| call_requires(property, (v,)),
                shrunk_to::<T, S, M, F>(property, failing, value),
                i == 0 ==> !exhausted && mutator == given && value == failing,
                i > 0 ==> ((first.3 matches Err(e) && e.kind_of() is Exhausted) ==> exhausted),
                i > 0 ==> first_try(
                    given,
                    property,
                    failing,
                    first.0,
                    first.1,
                    first.2,
                    first.3,
                    value,
                ),
            decreases self.shrink_iters - i,
        {
            let mut candidate = value.clone();
            let ghost start = candidate;
            let ghost before = mutator;
            let ghost kept = value;
            let tried = mutate_in(&mut rng, true, &mut mutator, &mut candidate);
            proof {
                if i == 0 {
                    first = (start, mutator, candidate, tried);
                    lemma_shrunk_to_itself::<T, S, M, F>(property, candidate);
                }
            }
            match tried {
                Ok(_) => {
                    // A candidate on which the property holds is thrown away.
                    if let Err(failed) = Self::check_one(&candidate, &property) {
                        proof {
                            assert(tried is Ok ==> tried->Ok_0 == ());
                            assert(shrink_step::<T, S, M, F>(property, kept, candidate)) by {
                                assert(cloned(kept, start));
                                assert(mutated(before, true, start, mutator, candidate, Ok(())));
                                assert(fails(property, candidate, failed));
                            }
                            lemma_shrunk_on::<T, S, M, F>(property, failing, kept, candidate);
                            if i > 0 && first.3 is Ok && !passes(property, first.2) {
                                lemma_shrunk_on::<T, S, M, F>(property, first.2, kept, candidate);
                            }
                        }
                        message = failed;
                        value = candidate;
                    }
                },
                Err(e) => {
                    // An exhausted mutator ends the shrinking. Any other
                    // error is passed over: the property's failure is what
                    // is reported.
                    if e.is_exhausted() {
                        exhausted = true;
                    }
                },
            }
            i += 1;
        }

        Err(CheckError::Failed(CheckFailure { value, message }))
    }

    fn check_one<T, S, F>(value: &T, property: &F) -> (r: Result<(), String>) where
        S: Display,
        F: Fn(&T) -> Result<(), S>,

        requires
            call_requires(*property, (value,)),
        ensures
            r is Ok ==> passes(*property, *value),
            r matches Err(message) ==> fails(*property, *value, message),
    {
        let outcome = property(value);
        assert(outcome is Ok ==> outcome->Ok_0 == ());
        Self::report(Some(outcome))
    }

    /// What a check makes of one run of a property, where `None` stands
    /// for a run that ended abruptly, without a result: the run passed, or it
    /// failed with a message, which for an abrupt end is
    /// [`PANICKED`](Check::PANICKED).
    ///
    /// A check calls the property as it is. A caller that can catch the
    /// abrupt end of a run wraps the property in a function that hands the
    /// caught outcome to `report`, and runs the check on that.
    pub fn report<S>(outcome: Option<Result<(), S>>) -> (r: Result<(), String>) where S: Display
        ensures
            r is Ok <==> outcome matches Some(Ok(_)),
            outcome matches Some(Err(error)) ==> r is Err && to_string_from_display_ensures(
                &error,
                r->Err_0,
            ),
            outcome is None ==> r is Err && r->Err_0@ == Check::PANICKED@,
    {
        match outcome {
            Some(Ok(_)) => Ok(()),
            Some(Err(error)) => Err(error.to_string()),
            None => Err(Check::PANICKED.to_owned()),
        }
    }
}

} // verus!
