//! The integer side of BtrMind's learner: how often each action was taken.
use vstd::prelude::*;

use crate::btrmind::actions::Action;

verus! {

/// How many times `a` occurs in `history`.
pub open spec fn occurrences(history: Seq<Action>, a: Action) -> nat
    decreases history.len(),
{
    if history.len() == 0 {
        0
    } else {
        occurrences(history.drop_last(), a) + if history.last() == a { 1nat } else { 0nat }
    }
}

/// Each action, in the order of `Action::all_actions`, with the number of times it
/// occurs in `history`.
pub open spec fn action_distribution(history: Seq<Action>) -> Seq<(Action, nat)> {
    seq![
        (Action::NoOperation, occurrences(history, Action::NoOperation)),
        (Action::DeleteTempFiles, occurrences(history, Action::DeleteTempFiles)),
        (Action::CompressFiles, occurrences(history, Action::CompressFiles)),
        (Action::BalanceMetadata, occurrences(history, Action::BalanceMetadata)),
        (Action::CleanupSnapshots, occurrences(history, Action::CleanupSnapshots)),
    ]
}

/// The counts of each action in the learner's history of taken actions.
pub fn count_actions(history: &Vec<Action>) -> (counts: Vec<(Action, usize)>)
    ensures
        counts@.len() == 5,
        forall|i: int|
            0 <= i < 5 ==> (#[trigger] counts@[i]).0 == action_distribution(history@)[i].0
                && counts@[i].1 == action_distribution(history@)[i].1,
{
    let mut n0: usize = 0;
    let mut n1: usize = 0;
    let mut n2: usize = 0;
    let mut n3: usize = 0;
    let mut n4: usize = 0;
    for i in 0..history.len()
        invariant
            n0 == occurrences(history@.take(i as int), Action::NoOperation),
            n1 == occurrences(history@.take(i as int), Action::DeleteTempFiles),
            n2 == occurrences(history@.take(i as int), Action::CompressFiles),
            n3 == occurrences(history@.take(i as int), Action::BalanceMetadata),
            n4 == occurrences(history@.take(i as int), Action::CleanupSnapshots),
            n0 + n1 + n2 + n3 + n4 == i,
    {
        proof {
            assert(history@.take(i as int + 1).drop_last() =~= history@.take(i as int));
        }
        match history[i] {
            Action::NoOperation => n0 = n0 + 1,
            Action::DeleteTempFiles => n1 = n1 + 1,
            Action::CompressFiles => n2 = n2 + 1,
            Action::BalanceMetadata => n3 = n3 + 1,
            Action::CleanupSnapshots => n4 = n4 + 1,
        }
    }
    assert(history@.take(history.len() as int) =~= history@);
    let mut counts: Vec<(Action, usize)> = Vec::new();
    counts.push((Action::NoOperation, n0));
    counts.push((Action::DeleteTempFiles, n1));
    counts.push((Action::CompressFiles, n2));
    counts.push((Action::BalanceMetadata, n3));
    counts.push((Action::CleanupSnapshots, n4));
    counts
}

/// The counts of the actions add up to the length of the history.
pub proof fn lemma_distribution_total(history: Seq<Action>)
    ensures
        occurrences(history, Action::NoOperation) + occurrences(history, Action::DeleteTempFiles)
            + occurrences(history, Action::CompressFiles) + occurrences(
            history,
            Action::BalanceMetadata,
        ) + occurrences(history, Action::CleanupSnapshots) == history.len(),
    decreases history.len(),
{
    if history.len() > 0 {
        lemma_distribution_total(history.drop_last());
    }
}

} // verus!
