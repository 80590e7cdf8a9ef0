use vstd::prelude::*;
use crate::error::Error;

verus! {

/// How many handshakes succeeded and how many failed.
#[derive(Debug, Clone, Copy, PartialEq, Eq, Structural)]
pub struct Tally {
    pub succeeded: usize,
    pub failed: usize,
}

/// The number of successes among outcomes, whatever their order.
pub open spec fn successes(outcomes: Seq<Result<(), Error>>) -> nat {
    outcomes.to_multiset().count(Ok(()))
}

impl Tally {
    /// All handshakes, succeeded or failed.
    pub fn total(&self) -> (r: usize)
        requires
            self.succeeded + self.failed <= usize::MAX,
        ensures
            r == self.succeeded + self.failed,
    {
        self.succeeded + self.failed
    }
}

/// Counts the successes and failures among the outcomes of all handshakes.
pub fn tally(outcomes: &[Result<(), Error>]) -> (r: Tally)
    ensures
        r.succeeded == successes(outcomes@),
        r.succeeded + r.failed == outcomes@.len(),
{
    broadcast use vstd::multiset::group_multiset_properties;

    let mut succeeded: usize = 0;
    let mut i: usize = 0;
    proof {
        outcomes@.subrange(0, 0).to_multiset_ensures();
        assert(outcomes@.subrange(0, 0).to_multiset() =~= vstd::multiset::Multiset::empty());
    }
    while i < outcomes.len()
        invariant
            i <= outcomes@.len(),
            succeeded <= i,
            succeeded == successes(outcomes@.subrange(0, i as int)),
        decreases outcomes@.len() - i,
    {
        proof {
            let s = outcomes@.subrange(0, i as int);
            assert(outcomes@.subrange(0, i + 1) =~= s.push(outcomes@[i as int]));
            s.to_multiset_ensures();
            if outcomes@[i as int] is Ok {
                let u: () = outcomes@[i as int]->Ok_0;
                assert(u == ());
                assert(outcomes@[i as int] == Ok::<(), Error>(()));
            }
        }
        if outcomes[i].is_ok() {
            succeeded += 1;
        }
        i += 1;
    }
    assert(outcomes@.subrange(0, i as int) =~= outcomes@);
    Tally { succeeded, failed: outcomes.len() - succeeded }
}

/// The tally of outcomes does not depend on the order in which they came.
pub proof fn lemma_tally_order_free(a: Seq<Result<(), Error>>, b: Seq<Result<(), Error>>)
    requires
        a.to_multiset() == b.to_multiset(),
    ensures
        successes(a) == successes(b),
        a.len() - successes(a) == b.len() - successes(b),
{
    a.to_multiset_ensures();
    b.to_multiset_ensures();
}

} // verus!
