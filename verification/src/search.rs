//! Searches that ask one question at a time.
use vstd::prelude::*;

verus! {

/// The place of the first answer that says yes; the number of answers where
/// none does.
pub open spec fn first_yes(answers: Seq<bool>) -> nat
    decreases answers.len(),
{
    if answers.len() == 0 || answers.first() {
        0
    } else {
        1 + first_yes(answers.drop_first())
    }
}

/// The first yes is at `n` where nothing before it is one; there is none where
/// `n` is the number of answers.
pub proof fn first_yes_is(answers: Seq<bool>, n: int)
    requires
        0 <= n <= answers.len(),
        n < answers.len() ==> answers[n],
        forall|i: int| 0 <= i < n ==> !answers[i],
    ensures
        first_yes(answers) == n,
    decreases n,
{
    if n > 0 {
        let rest = answers.drop_first();
        assert forall|i: int| 0 <= i < n - 1 implies !rest[i] by {
            assert(rest[i] == answers[i + 1]);
        }
        first_yes_is(rest, n - 1);
    }
}

/// The place of the first answer that says yes; the number of answers where
/// none does.
pub fn find_yes(answers: &Vec<bool>) -> (r: usize)
    ensures
        r == first_yes(answers@),
        r <= answers.len(),
{
    let mut i: usize = 0;
    while i < answers.len() && !answers[i]
        invariant
            i <= answers.len(),
            forall|j: int| 0 <= j < i ==> !answers@[j],
        decreases answers.len() - i,
    {
        i = i + 1;
    }
    proof {
        first_yes_is(answers@, i as int);
    }
    i
}

} // verus!
