//! Convergence bookkeeping for iterative solvers, such as the strength solver of a lifting line
//! simulation.

use vstd::prelude::*;

verus! {

/// Counts how many iterations in a row have had an error below the allowed error. The solver is
/// converged when the current error is below the allowed error and enough iterations in a row
/// have been so.
pub struct ConvergenceCounter {
    /// Number of iterations in a row with an error below the allowed error.
    pub number_of_sucesses: usize,
    /// Number of iterations in a row with a small error that convergence asks for.
    pub minimum_sucesses: usize,
}

impl ConvergenceCounter {
    /// A counter that has seen no successful iteration yet.
    pub fn new(minimum_sucesses: usize) -> (counter: Self)
        ensures
            counter.number_of_sucesses == 0,
            counter.minimum_sucesses == minimum_sucesses,
    {
        ConvergenceCounter { number_of_sucesses: 0, minimum_sucesses }
    }

    /// Records the result of one iteration, given whether its maximum error was below the allowed
    /// error, and returns whether the solver is converged.
    ///
    /// A small error adds one to the count of successes in a row; any other error resets it to
    /// zero.
    pub fn test(&mut self, error_is_below_allowed: bool) -> (converged: bool)
        requires
            error_is_below_allowed ==> old(self).number_of_sucesses < usize::MAX,
        ensures
            final(self).number_of_sucesses == if error_is_below_allowed {
                old(self).number_of_sucesses + 1
            } else {
                0
            },
            final(self).minimum_sucesses == old(self).minimum_sucesses,
            converged == (error_is_below_allowed && final(self).number_of_sucesses >= final(self).minimum_sucesses),
    {
        if error_is_below_allowed {
            self.number_of_sucesses = self.number_of_sucesses + 1;
        } else {
            self.number_of_sucesses = 0;
        }

        if error_is_below_allowed && self.number_of_sucesses >= self.minimum_sucesses {
            true
        } else {
            false
        }
    }
}

/// Number of results at the end of `history` that had an error below the allowed error, counted
/// from the last one backwards until the first larger error.
pub open spec fn trailing_successes(history: Seq<bool>) -> nat
    decreases history.len(),
{
    if history.len() == 0 {
        0
    } else if history.last() {
        trailing_successes(history.drop_last()) + 1
    } else {
        0
    }
}

/// The counter counts the trailing successes of the results it has recorded: if it holds the count
/// for a history before a call of `test`, it holds the count for the history with the new result
/// after it. Starting from `new`, which holds the count for the empty history, the counter thus
/// always holds the number of iterations in a row, up to the last one, with a small error, and the
/// solver is converged exactly when the last result was small and that number reaches the minimum.
pub proof fn lemma_counter_counts_trailing_successes(
    history: Seq<bool>,
    before: ConvergenceCounter,
    error_is_below_allowed: bool,
    after: ConvergenceCounter,
    converged: bool,
)
    requires
        before.number_of_sucesses == trailing_successes(history),
        after.number_of_sucesses == if error_is_below_allowed {
            before.number_of_sucesses + 1
        } else {
            0
        },
        after.minimum_sucesses == before.minimum_sucesses,
        converged == (error_is_below_allowed && after.number_of_sucesses >= after.minimum_sucesses),
    ensures
        after.number_of_sucesses == trailing_successes(history.push(error_is_below_allowed)),
        converged == (error_is_below_allowed && trailing_successes(history.push(error_is_below_allowed))
            >= before.minimum_sucesses),
{
    assert(history.push(error_is_below_allowed).drop_last() =~= history);
}

} // verus!
