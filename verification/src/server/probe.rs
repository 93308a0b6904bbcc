//! The read path: remotes are asked one after another, in read order,
//! until one replies.

use crate::server::error::{convert_sdk_err, converts_to, is_bare_failure, S3Failure, ServiceFailure};
use crate::server::order::{is_read_order, probed_before, read_order};
use crate::server::remote::S3Remote;
use vstd::prelude::*;

verus! {

/// The first place at or after `from` in `order` whose remote replies.
/// `answered[r]` says whether remote `r` replies at all (with success or
/// with an error of its own); a remote outside `answered` does not.
pub open spec fn first_answering(order: Seq<usize>, answered: Seq<bool>, from: int) -> Option<int>
    decreases order.len() - from,
{
    if from < 0 || from >= order.len() {
        None
    } else if order[from] < answered.len() && answered[order[from] as int] {
        Some(from)
    } else {
        first_answering(order, answered, from + 1)
    }
}

/// The remote whose reply a read returns: the first in `order` that
/// replies.
pub open spec fn serving_remote(order: Seq<usize>, answered: Seq<bool>) -> Option<usize> {
    match first_answering(order, answered, 0) {
        Some(k) => Some(order[k]),
        None => None,
    }
}

/// What `first_answering` finds: a place whose remote replies, with only
/// silent remotes between `from` and it; or nothing, and then no remote
/// from `from` on replies.
pub proof fn lemma_first_answering(order: Seq<usize>, answered: Seq<bool>, from: int)
    requires
        0 <= from,
    ensures
        match first_answering(order, answered, from) {
            Some(k) => {
                &&& from <= k < order.len()
                &&& order[k] < answered.len()
                &&& answered[order[k] as int]
                &&& forall|j: int|
                    from <= j < k ==> !(#[trigger] order[j] < answered.len()
                        && answered[order[j] as int])
            },
            None => forall|j: int|
                from <= j < order.len() ==> !(#[trigger] order[j] < answered.len()
                    && answered[order[j] as int]),
        },
    decreases order.len() - from,
{
    if from < order.len() && !(order[from] < answered.len() && answered[order[from] as int]) {
        lemma_first_answering(order, answered, from + 1);
    }
}

/// A read that found the first `k` remotes of its order silent and got a
/// reply from the next one is served by the remote that `serving_remote`
/// names.
pub proof fn lemma_reply_after_silence_is_serving(order: Seq<usize>, answered: Seq<bool>, k: int)
    requires
        0 <= k < order.len(),
        order[k] < answered.len(),
        answered[order[k] as int],
        forall|j: int| 0 <= j < k ==> !(#[trigger] order[j] < answered.len() && answered[order[j] as int]),
    ensures
        serving_remote(order, answered) == Some(order[k]),
{
    lemma_first_answering(order, answered, 0);
}

/// The remote that serves a read is the best of those that reply: it
/// replies, and it is asked before every other remote that replies, so
/// none of them is preferred to it. Where no remote serves, none replies.
pub proof fn lemma_read_is_served_by_best(
    remotes: Seq<S3Remote>,
    order: Seq<usize>,
    answered: Seq<bool>,
)
    requires
        remotes.len() <= usize::MAX,
        is_read_order(remotes, order),
        answered.len() == remotes.len(),
    ensures
        match serving_remote(order, answered) {
            Some(r) => {
                &&& r < remotes.len()
                &&& answered[r as int]
                &&& forall|q: int|
                    0 <= q < remotes.len() && answered[q] && q != r ==> #[trigger] probed_before(
                        remotes,
                        r as int,
                        q,
                    )
            },
            None => forall|q: int| 0 <= q < remotes.len() ==> !#[trigger] answered[q],
        },
{
    lemma_first_answering(order, answered, 0);
    match first_answering(order, answered, 0) {
        Some(k) => {
            let r = order[k];
            assert forall|q: int| 0 <= q < remotes.len() && answered[q] && q != r implies
                #[trigger] probed_before(remotes, r as int, q) by {
                assert(order.contains(q as usize));
                let l = choose|l: int| 0 <= l < order.len() && order[l] == q as usize;
                if l < k {
                    assert(order[l] < answered.len() && answered[order[l] as int]);
                }
                assert(probed_before(remotes, order[k] as int, order[l] as int));
            }
        },
        None => {
            assert forall|q: int| 0 <= q < remotes.len() implies !#[trigger] answered[q] by {
                assert(order.contains(q as usize));
                let l = choose|l: int| 0 <= l < order.len() && order[l] == q as usize;
                assert(!(order[l] < answered.len() && answered[order[l] as int]));
            }
        },
    }
}

/// The remote that serves a read when the remotes listed in `order` are
/// asked in turn and `answered` says which of them reply.
pub fn serving(order: &Vec<usize>, answered: &Vec<bool>) -> (chosen: Option<usize>)
    ensures
        chosen == serving_remote(order@, answered@),
{
    let mut k: usize = 0;
    while k < order.len()
        invariant
            k <= order.len(),
            first_answering(order@, answered@, 0) == first_answering(order@, answered@, k as int),
        decreases order.len() - k,
    {
        let r = order[k];
        if r < answered.len() && answered[r] {
            return Some(r);
        }
        k += 1;
    }
    None
}

/// Progress of one read: which remotes have been asked without a reply,
/// and which one is asked next.
#[derive(Debug)]
pub struct ReadProbe {
    order: Vec<usize>,
    position: usize,
}

impl ReadProbe {
    #[verifier::type_invariant]
    spec fn fits(self) -> bool {
        self.position <= self.order.len()
    }

    /// The remotes in the order in which this read asks them.
    pub closed spec fn order(&self) -> Seq<usize> {
        self.order@
    }

    /// How many remotes were asked and gave no reply.
    pub closed spec fn skipped(&self) -> nat {
        self.position as nat
    }

    /// Starts a read over `remotes`: nothing asked yet.
    pub fn new(remotes: &Vec<S3Remote>) -> (probe: Self)
        ensures
            is_read_order(remotes@, probe.order()),
            probe.skipped() == 0,
    {
        ReadProbe { order: read_order(remotes), position: 0 }
    }

    /// The remote to ask now, or `None` when every remote was asked and
    /// none replied.
    pub fn target(&self) -> (remote: Option<usize>)
        ensures
            remote == if self.skipped() < self.order().len() {
                Some(self.order()[self.skipped() as int])
            } else {
                None
            },
    {
        proof {
            use_type_invariant(self);
        }
        if self.position < self.order.len() {
            Some(self.order[self.position])
        } else {
            None
        }
    }

    /// Takes the reply of the remote that `target` named. No reply moves
    /// on to the next remote; a reply ends the read with the remote's
    /// output, or with its error translated for the client.
    pub fn on_reply<T>(&mut self, reply: Option<Result<T, ServiceFailure>>) -> (done: Option<
        Result<T, S3Failure>,
    >)
        ensures
            final(self).order() == old(self).order(),
            match reply {
                None => {
                    &&& done is None
                    &&& final(self).skipped() == if old(self).skipped() < old(self).order().len() {
                        old(self).skipped() + 1
                    } else {
                        old(self).skipped()
                    }
                },
                Some(Ok(output)) => {
                    &&& done == Some(Ok::<T, S3Failure>(output))
                    &&& final(self).skipped() == old(self).skipped()
                },
                Some(Err(sdk)) => {
                    &&& done matches Some(Err(failure))
                    &&& converts_to(sdk, failure)
                    &&& final(self).skipped() == old(self).skipped()
                },
            },
    {
        proof {
            use_type_invariant(&*self);
        }
        match reply {
            None => {
                if self.position < self.order.len() {
                    self.position = self.position + 1;
                }
                None
            },
            Some(Ok(output)) => Some(Ok(output)),
            Some(Err(sdk)) => Some(Err(convert_sdk_err(sdk))),
        }
    }

    /// The error of a read that no remote replied to.
    pub fn unavailable() -> (failure: S3Failure)
        ensures
            is_bare_failure(failure, "InternalError"@),
    {
        S3Failure::internal_error()
    }
}

} // verus!
