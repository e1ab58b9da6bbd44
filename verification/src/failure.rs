//! Failures of operations, with what was being attempted.

use vstd::prelude::*;

verus! {

/// The failure of an operation.
pub struct Failure<E> {
    /// What was being attempted, from the innermost operation to the outermost.
    pub contexts: Vec<String>,
    /// The error that the innermost operation gave.
    pub cause: E,
}

/// A [`Failure`] in specifications.
pub struct FailureModel<E> {
    pub contexts: Seq<Seq<char>>,
    pub cause: E,
}

impl<E> View for Failure<E> {
    type V = FailureModel<E>;

    open spec fn view(&self) -> FailureModel<E> {
        FailureModel {
            contexts: Seq::new(self.contexts@.len(), |i: int| self.contexts@[i]@),
            cause: self.cause,
        }
    }
}

impl<E> Failure<E> {
    /// A failure with nothing said of what was being attempted.
    pub fn bare(cause: E) -> (failure: Failure<E>)
        ensures
            failure@ == (FailureModel { contexts: Seq::empty(), cause }),
    {
        let failure = Failure { contexts: Vec::new(), cause };
        assert(failure@.contexts =~= Seq::<Seq<char>>::empty());
        failure
    }

    /// The same failure, as one of an outer operation.
    pub fn context(self, context: String) -> (failure: Failure<E>)
        ensures
            failure@ == (FailureModel {
                contexts: self@.contexts.push(context@),
                cause: self.cause,
            }),
    {
        let mut contexts = self.contexts;
        contexts.push(context);
        let failure = Failure { contexts, cause: self.cause };
        assert(failure@.contexts =~= self@.contexts.push(context@));
        failure
    }
}

/// The model of an operation's result.
pub open spec fn result_model<T, E>(result: Result<T, Failure<E>>) -> Result<T, FailureModel<E>> {
    match result {
        Ok(value) => Ok(value),
        Err(failure) => Err(failure@),
    }
}

/// A failure's model says of it what its fields do: the same error, and the same attempts in the
/// same order.
pub proof fn law_failure_model<E>(failure: Failure<E>)
    ensures
        failure@.cause == failure.cause,
        failure@.contexts.len() == failure.contexts@.len(),
        forall|i: int|
            0 <= i < failure.contexts@.len() ==> failure@.contexts[i] == (
            #[trigger] failure.contexts@[i])@,
{
}

} // verus!
