//! The order in which remotes are asked for a read.

use crate::server::remote::S3Remote;
use itertools::Itertools;
use std::cmp::Ordering;
use vstd::prelude::*;

verus! {

/// `a` is preferred to `b` for reads: a remote that serves reads comes
/// before one that does not, and among equals the higher priority first.
pub open spec fn reads_before(a: S3Remote, b: S3Remote) -> bool {
    (a.read_request && !b.read_request) || (a.read_request == b.read_request && a.priority
        > b.priority)
}

/// Neither of `a` and `b` is preferred to the other.
pub open spec fn same_rank(a: S3Remote, b: S3Remote) -> bool {
    a.read_request == b.read_request && a.priority == b.priority
}

/// Remote `i` is asked before remote `j`: it is preferred, or neither is
/// and it stands earlier in the configuration.
pub open spec fn probed_before(remotes: Seq<S3Remote>, i: int, j: int) -> bool {
    reads_before(remotes[i], remotes[j]) || (same_rank(remotes[i], remotes[j]) && i < j)
}

/// `order` lists every position of `remotes` once, each before all those
/// it is asked before.
pub open spec fn is_read_order(remotes: Seq<S3Remote>, order: Seq<usize>) -> bool {
    &&& order.len() == remotes.len()
    &&& forall|k: int| 0 <= k < order.len() ==> 0 <= #[trigger] order[k] < remotes.len()
    &&& forall|q: usize| q < remotes.len() ==> #[trigger] order.contains(q)
    &&& forall|k: int, l: int|
        0 <= k < l < order.len() ==> probed_before(
            remotes,
            #[trigger] order[k] as int,
            #[trigger] order[l] as int,
        )
}

/// Compares two remotes for the read order: `Less` where `a` is preferred.
pub fn compare_remotes(a: &S3Remote, b: &S3Remote) -> (o: Ordering)
    ensures
        o == Ordering::Less <==> reads_before(*a, *b),
        o == Ordering::Greater <==> reads_before(*b, *a),
        o == Ordering::Equal <==> same_rank(*a, *b),
{
    if a.read_request && !b.read_request {
        Ordering::Less
    } else if !a.read_request && b.read_request {
        Ordering::Greater
    } else if a.priority > b.priority {
        Ordering::Less
    } else if a.priority < b.priority {
        Ordering::Greater
    } else {
        Ordering::Equal
    }
}

/// The preference is a strict order on ranks, and remotes that it does not
/// tell apart have the same rank: what a sort needs of its comparison.
pub proof fn lemma_preference_is_an_order(a: S3Remote, b: S3Remote, c: S3Remote)
    ensures
        !reads_before(a, a),
        reads_before(a, b) ==> !reads_before(b, a),
        reads_before(a, b) && reads_before(b, c) ==> reads_before(a, c),
        reads_before(a, b) || reads_before(b, a) || same_rank(a, b),
        same_rank(a, b) && same_rank(b, c) ==> same_rank(a, c),
{
}

/// `Itertools::sorted_by` on the positions of `remotes`, compared by
/// `compare_remotes` on the remotes they stand for. The sort is stable and
/// hands back every element once, so the result lists every position once,
/// a preferred remote before a less preferred one and equals in the order
/// they came in.
#[verifier::external_body]
fn sorted_positions(remotes: &Vec<S3Remote>) -> (order: Vec<usize>)
    ensures
        is_read_order(remotes@, order@),
{
    remotes.iter().enumerate().sorted_by(|a, b| compare_remotes(a.1, b.1)).map(|entry| entry.0).collect()
}

/// The positions of `remotes` in the order in which a read asks them.
pub fn read_order(remotes: &Vec<S3Remote>) -> (order: Vec<usize>)
    ensures
        is_read_order(remotes@, order@),
{
    sorted_positions(remotes)
}

} // verus!
