//! Reducing the outcomes of several runs, taken in the order in which the
//! runs were declared, to one report or to the first error.
//!
//! The order is that of declaration, never that of completion: the outcomes
//! are values in a sequence, and a position in the sequence is all that
//! "first" refers to.

use vstd::prelude::*;
use crate::text::texts;
use crate::outcome::RunError;
use crate::outcome::RunErrorView;
use crate::outcome::RunResult;
use crate::outcome::RunStringResult;
use crate::outcome::error_text;
use crate::twin::StringTwinResult;

verus! {

/// The mathematical content of the outcome of one run: the text it gave, or
/// the error that stopped it.
pub type Outcome = Result<Seq<char>, RunErrorView>;

/// The mathematical content of a report: the report's text, or an error's
/// message.
pub type Report = Result<Seq<char>, Seq<char>>;

/// The content of one outcome.
pub open spec fn outcome_of(outcome: RunStringResult) -> Outcome {
    match outcome {
        Ok(payload) => Ok(payload@),
        Err(error) => Err(error@),
    }
}

/// The contents of a sequence of outcomes, in order.
pub open spec fn outcomes_of(outcomes: Seq<RunStringResult>) -> Seq<Outcome> {
    Seq::new(outcomes.len(), |i: int| outcome_of(outcomes[i]))
}

/// The content of a report.
pub open spec fn report_of(report: StringTwinResult) -> Report {
    match report {
        Ok(text) => Ok(text@),
        Err(text) => Err(text@),
    }
}

/// Whether every run succeeded.
pub open spec fn all_succeeded(outcomes: Seq<Outcome>) -> bool {
    forall|i: int| 0 <= i < outcomes.len() ==> (#[trigger] outcomes[i]) is Ok
}

/// Whether the run at position `k` failed and every run declared before it
/// succeeded.
pub open spec fn is_first_failure(outcomes: Seq<Outcome>, k: int) -> bool {
    &&& 0 <= k < outcomes.len()
    &&& outcomes[k] is Err
    &&& forall|j: int| 0 <= j < k ==> (#[trigger] outcomes[j]) is Ok
}

/// The position of the first run, in declared order, that failed. It means
/// something only where some run failed.
pub open spec fn first_failure(outcomes: Seq<Outcome>) -> int {
    choose|k: int| is_first_failure(outcomes, k)
}

/// What the runs gave, in declared order. It means something only where all
/// of them succeeded.
pub open spec fn payloads(outcomes: Seq<Outcome>) -> Seq<Seq<char>> {
    Seq::new(outcomes.len(), |i: int| outcomes[i]->Ok_0)
}

/// What the runs come to before any formatting: all that they gave, or the
/// error of the first that failed.
pub open spec fn gathered(outcomes: Seq<Outcome>) -> Result<Seq<Seq<char>>, RunErrorView> {
    if all_succeeded(outcomes) {
        Ok(payloads(outcomes))
    } else {
        Err(outcomes[first_failure(outcomes)]->Err_0)
    }
}

/// The report of first-error-or-report: what `formatter` makes of all that
/// the runs gave, or the message of the first error.
pub open spec fn first_error_or_formatted(
    outcomes: Seq<Outcome>,
    formatter: spec_fn(Seq<Seq<char>>) -> Seq<char>,
) -> Report {
    match gathered(outcomes) {
        Ok(all) => Ok(formatter(all)),
        Err(error) => Err(error_text(error)),
    }
}

/// Unless all runs succeeded, one of them is the first to have failed, and
/// only one.
pub proof fn lemma_first_failure(outcomes: Seq<Outcome>)
    requires
        !all_succeeded(outcomes),
    ensures
        is_first_failure(outcomes, first_failure(outcomes)),
        forall|k: int| is_first_failure(outcomes, k) ==> k == first_failure(outcomes),
{
    lemma_some_first_failure(outcomes, outcomes.len() as int);
    let first = first_failure(outcomes);
    assert forall|k: int| is_first_failure(outcomes, k) implies k == first by {
        if k < first {
            assert(outcomes[k] is Ok);
        } else if first < k {
            assert(outcomes[first] is Ok);
        }
    }
}

/// If a run among the first `n` failed, one of them is the first to have
/// failed.
proof fn lemma_some_first_failure(outcomes: Seq<Outcome>, n: int)
    requires
        0 <= n <= outcomes.len(),
        exists|i: int| 0 <= i < n && (#[trigger] outcomes[i]) is Err,
    ensures
        exists|k: int| is_first_failure(outcomes, k),
    decreases n,
{
    if exists|i: int| 0 <= i < n - 1 && (#[trigger] outcomes[i]) is Err {
        lemma_some_first_failure(outcomes, n - 1);
    } else {
        assert(outcomes[n - 1] is Err);
        assert(is_first_failure(outcomes, n - 1));
    }
}

/// Where all runs succeed, the report is what the formatter makes of their
/// payloads in declared order. This holds for any number of runs, and says
/// nothing of the order in which they ended: that order is no part of the
/// input.
pub proof fn lemma_all_succeeded_gives_formatted(
    outcomes: Seq<Outcome>,
    formatter: spec_fn(Seq<Seq<char>>) -> Seq<char>,
)
    requires
        all_succeeded(outcomes),
    ensures
        first_error_or_formatted(outcomes, formatter) == Ok::<Seq<char>, Seq<char>>(
            formatter(payloads(outcomes)),
        ),
        payloads(outcomes).len() == outcomes.len(),
        forall|i: int|
            0 <= i < outcomes.len() ==> outcomes[i] == Ok::<Seq<char>, RunErrorView>(
                #[trigger] payloads(outcomes)[i],
            ),
{
}

/// Where the run at position `k` is the first in declared order to fail,
/// the report is the message of that run's error, whatever the runs declared
/// after it came to.
pub proof fn lemma_first_failure_gives_its_error(
    outcomes: Seq<Outcome>,
    formatter: spec_fn(Seq<Seq<char>>) -> Seq<char>,
    k: int,
)
    requires
        is_first_failure(outcomes, k),
    ensures
        first_error_or_formatted(outcomes, formatter) == Err::<Seq<char>, Seq<char>>(
            error_text(outcomes[k]->Err_0),
        ),
{
    assert(!all_succeeded(outcomes));
    lemma_first_failure(outcomes);
}

/// The report depends on the runs up to the first failure only: replacing
/// the outcomes declared after it changes nothing.
pub proof fn lemma_later_outcomes_do_not_matter(
    outcomes: Seq<Outcome>,
    others: Seq<Outcome>,
    formatter: spec_fn(Seq<Seq<char>>) -> Seq<char>,
    k: int,
)
    requires
        is_first_failure(outcomes, k),
        k < others.len(),
        forall|j: int| 0 <= j <= k ==> others[j] == outcomes[j],
    ensures
        first_error_or_formatted(others, formatter) == first_error_or_formatted(
            outcomes,
            formatter,
        ),
{
    assert(is_first_failure(others, k));
    lemma_first_failure_gives_its_error(outcomes, formatter, k);
    lemma_first_failure_gives_its_error(others, formatter, k);
}

/// A report is the first-error-or-report of some outcomes as soon as it is
/// right in the two cases that can arise: all runs succeeded, or some run is
/// the first to have failed.
pub proof fn lemma_report_by_cases(
    outcomes: Seq<Outcome>,
    formatter: spec_fn(Seq<Seq<char>>) -> Seq<char>,
    report: Report,
)
    requires
        all_succeeded(outcomes) ==> report == Ok::<Seq<char>, Seq<char>>(
            formatter(payloads(outcomes)),
        ),
        forall|k: int|
            is_first_failure(outcomes, k) ==> report == Err::<Seq<char>, Seq<char>>(
                error_text(outcomes[k]->Err_0),
            ),
    ensures
        report == first_error_or_formatted(outcomes, formatter),
{
    if !all_succeeded(outcomes) {
        lemma_first_failure(outcomes);
    }
}

/// Runs `ok_filter`; hands what it gathered to `ok_formatter`, or renders the
/// error it stopped at.
pub fn all_ok_formatted_or_first_error<T, G, F>(ok_filter: G, ok_formatter: F) -> (report:
    StringTwinResult) where G: FnOnce() -> RunResult<T>, F: Fn(T) -> String
    requires
        call_requires(ok_filter, ()),
        forall|content: T|
            call_ensures(ok_filter, (), Ok(content)) ==> call_requires(ok_formatter, (content,)),
    ensures
        match report {
            Ok(text) => exists|content: T|
                call_ensures(ok_filter, (), Ok(content)) && call_ensures(
                    ok_formatter,
                    (content,),
                    text,
                ),
            Err(text) => exists|err: RunError|
                call_ensures(ok_filter, (), Err(err)) && text@ == error_text(err@),
        },
{
    match ok_filter() {
        Ok(content) => Ok(ok_formatter(content)),
        Err(err) => Err(err.to_string()),
    }
}

/// Unwraps the outcomes in declared order: all payloads if every run
/// succeeded, else the error of the first run that failed. The outcomes
/// declared after a failure are dropped unread.
pub fn first_error_or_payloads(outcomes: Vec<RunStringResult>) -> (all: RunResult<Vec<String>>)
    ensures
        match all {
            Ok(found) => gathered(outcomes_of(outcomes@)) == Ok::<
                Seq<Seq<char>>,
                RunErrorView,
            >(texts(found@)),
            Err(error) => gathered(outcomes_of(outcomes@)) == Err::<
                Seq<Seq<char>>,
                RunErrorView,
            >(error@),
        },
{
    let ghost views = outcomes_of(outcomes@);
    let mut found: Vec<String> = Vec::new();
    for outcome in it: outcomes.into_iter()
        invariant
            it.seq() == outcomes@,
            views == outcomes_of(outcomes@),
            found@.len() == it.index(),
            forall|j: int|
                #![trigger views[j]]
                #![trigger found@[j]]
                0 <= j < it.index() ==> views[j] == Ok::<Seq<char>, RunErrorView>(found@[j]@),
    {
        match outcome {
            Ok(payload) => {
                found.push(payload);
            },
            Err(error) => {
                proof {
                    let k = it.index();
                    assert(views[k] is Err);
                    assert(is_first_failure(views, k));
                    lemma_first_failure(views);
                }
                return Err(error);
            },
        }
    }
    proof {
        assert(all_succeeded(views));
        assert(texts(found@) =~= payloads(views));
    }
    Ok(found)
}

/// First-error-or-report over any number of runs: the outcomes are unwrapped
/// in declared order; if all succeeded, `formatter` makes the report of their
/// payloads, else the report is the message of the first error.
pub fn first_error_or_report<F>(outcomes: Vec<RunStringResult>, formatter: F) -> (report:
    StringTwinResult) where F: Fn(Vec<String>) -> String
    requires
        forall|found: Vec<String>|
            gathered(outcomes_of(outcomes@)) == Ok::<Seq<Seq<char>>, RunErrorView>(texts(found@))
                ==> call_requires(formatter, (found,)),
    ensures
        match report {
            Ok(text) => exists|found: Vec<String>|
                gathered(outcomes_of(outcomes@)) == Ok::<Seq<Seq<char>>, RunErrorView>(
                    texts(found@),
                ) && call_ensures(formatter, (found,), text),
            Err(text) => gathered(outcomes_of(outcomes@)) is Err && text@ == error_text(
                gathered(outcomes_of(outcomes@))->Err_0,
            ),
        },
{
    match first_error_or_payloads(outcomes) {
        Ok(found) => Ok(formatter(found)),
        Err(error) => Err(error.to_string()),
    }
}

} // verus!
