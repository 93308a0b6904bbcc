//! The dispatcher: what the proxy answers to each S3 operation, given what
//! its remotes replied.

pub mod clone;
pub mod dto;
pub mod error;
pub mod listing;
pub mod order;
pub mod probe;
pub mod remote;
pub mod stream;
pub mod token;

use crate::server::error::{
    convert_sdk_err, converts_to, is_bare_failure, S3Failure, ServiceFailure,
};
use crate::server::probe::ReadProbe;
use crate::server::order::is_read_order;
use crate::server::remote::S3Remote;
use itertools::Itertools;
use vstd::prelude::*;

verus! {

/// The proxy as its clients see it: one bucket, served by several remotes.
#[derive(Debug, Clone)]
pub struct S3Reproxy {
    pub bucket: String,
    pub remotes: Vec<S3Remote>,
}

/// One line of a bucket listing.
#[derive(Debug, Clone)]
pub struct Bucket {
    pub name: Option<String>,
    pub creation_date: Option<i64>,
}

/// How a remote failed a write.
#[derive(Debug, Clone)]
pub enum RemoteFailure {
    /// The remote could not be reached, or gave no usable reply.
    NoReply,
    /// The remote answered with an error of its own.
    Service(ServiceFailure),
}

/// What a write has collected from the remotes: the outcome of each with
/// the remote's name, in the order the outcomes came in. A remote that
/// gave no reply stands in it as a failure.
pub type Replies<T> = Vec<(String, Result<T, RemoteFailure>)>;

/// How far the remotes agreed on a write.
#[derive(Debug, Clone, Copy, PartialEq, Eq, Structural)]
pub enum Agreement {
    /// There was no remote to ask.
    NoRemote,
    /// Every remote reports success.
    AllSucceeded,
    /// Every remote failed, with an error of its own or without a reply.
    AllFailed,
    /// Some remotes succeeded and some failed: the remotes now differ.
    Inconsistent,
}

/// `Either` of the iterator library, as `partition_map` takes it: a value
/// for the left collection or one for the right. Its two variants are open
/// to the verifier, so that `side_of` can be checked to pick the right one.
#[verifier::external_type_specification]
#[verifier::reject_recursive_types(L)]
#[verifier::reject_recursive_types(R)]
pub struct ExEither<L, R>(itertools::Either<L, R>);

/// The successes among `results`, in the order they came in.
pub open spec fn successes<T>(results: Seq<(String, Result<T, RemoteFailure>)>) -> Seq<
    (String, T),
>
    decreases results.len(),
{
    if results.len() == 0 {
        Seq::empty()
    } else {
        let earlier = successes(results.drop_last());
        match results.last().1 {
            Ok(output) => earlier.push((results.last().0, output)),
            Err(_) => earlier,
        }
    }
}

/// The failures among `results`, silent remotes and remotes with an error
/// of their own alike, in the order they came in.
pub open spec fn failures<T>(results: Seq<(String, Result<T, RemoteFailure>)>) -> Seq<
    (String, RemoteFailure),
>
    decreases results.len(),
{
    if results.len() == 0 {
        Seq::empty()
    } else {
        let earlier = failures(results.drop_last());
        match results.last().1 {
            Ok(_) => earlier,
            Err(failure) => earlier.push((results.last().0, failure)),
        }
    }
}

/// The agreement that `results` show.
pub open spec fn agreement_of<T>(results: Seq<(String, Result<T, RemoteFailure>)>) -> Agreement {
    if failures(results).len() == 0 {
        if successes(results).len() == 0 {
            Agreement::NoRemote
        } else {
            Agreement::AllSucceeded
        }
    } else if successes(results).len() == 0 {
        Agreement::AllFailed
    } else {
        Agreement::Inconsistent
    }
}

/// `failure` is what the client is told of a remote's failure: an error
/// of the remote's own translated into the S3 taxonomy, and a bare
/// `InternalError` for a remote that gave no reply.
pub open spec fn tells_of(cause: RemoteFailure, failure: S3Failure) -> bool {
    match cause {
        RemoteFailure::Service(sdk) => converts_to(sdk, failure),
        RemoteFailure::NoReply => is_bare_failure(failure, "InternalError"@),
    }
}

/// `out` is what a write returns for `results`: the first success where
/// there is one, also when other remotes failed; else what the first
/// failure tells; else, with no remote at all, `InternalError`.
pub open spec fn reconciles<T>(
    results: Seq<(String, Result<T, RemoteFailure>)>,
    out: Result<T, S3Failure>,
) -> bool {
    if successes(results).len() > 0 {
        out == Ok::<T, S3Failure>(successes(results)[0].1)
    } else if failures(results).len() > 0 {
        out matches Err(failure) && tells_of(failures(results)[0].1, failure)
    } else {
        out matches Err(failure) && is_bare_failure(failure, "InternalError"@)
    }
}

/// The first of the successes is the success that came in first: it
/// stands in `results` behind errors only.
pub proof fn lemma_first_success_came_first<T>(results: Seq<(String, Result<T, RemoteFailure>)>)
    requires
        successes(results).len() > 0,
    ensures
        exists|i: int|
            {
                &&& 0 <= i < results.len()
                &&& #[trigger] results[i].1 is Ok
                &&& (results[i].0, results[i].1->Ok_0) == successes(results)[0]
                &&& forall|j: int| 0 <= j < i ==> (#[trigger] results[j]).1 is Err
            },
    decreases results.len(),
{
    let earlier = results.drop_last();
    if successes(earlier).len() > 0 {
        lemma_first_success_came_first(earlier);
        let i = choose|i: int|
            {
                &&& 0 <= i < earlier.len()
                &&& #[trigger] earlier[i].1 is Ok
                &&& (earlier[i].0, earlier[i].1->Ok_0) == successes(earlier)[0]
                &&& forall|j: int| 0 <= j < i ==> (#[trigger] earlier[j]).1 is Err
            };
        assert(results[i] == earlier[i]);
        assert forall|j: int| 0 <= j < i implies (#[trigger] results[j]).1 is Err by {
            assert(results[j] == earlier[j]);
        }
    } else {
        lemma_parts_count(earlier);
        let i = results.len() - 1;
        assert(results[i].1 is Ok);
        assert forall|j: int| 0 <= j < i implies (#[trigger] results[j]).1 is Err by {
            lemma_no_success_means_all_failed(earlier, j);
            assert(results[j] == earlier[j]);
        }
    }
}

/// Every reply is a success or a failure: the two parts together are as
/// many as the replies.
pub proof fn lemma_parts_count<T>(results: Seq<(String, Result<T, RemoteFailure>)>)
    ensures
        successes(results).len() + failures(results).len() == results.len(),
    decreases results.len(),
{
    if results.len() > 0 {
        lemma_parts_count(results.drop_last());
    }
}

/// Where there is no success among the replies, each of them is a failure.
pub proof fn lemma_no_success_means_all_failed<T>(
    results: Seq<(String, Result<T, RemoteFailure>)>,
    j: int,
)
    requires
        successes(results).len() == 0,
        0 <= j < results.len(),
    ensures
        results[j].1 is Err,
    decreases results.len(),
{
    if j < results.len() - 1 {
        lemma_no_success_means_all_failed(results.drop_last(), j);
        assert(results[j] == results.drop_last()[j]);
    }
}

/// There is a success among the outcomes exactly when some remote
/// succeeded, and a failure exactly when some remote failed.
pub proof fn lemma_parts_are_not_empty<T>(results: Seq<(String, Result<T, RemoteFailure>)>)
    ensures
        successes(results).len() > 0 <==> exists|i: int|
            0 <= i < results.len() && (#[trigger] results[i]).1 is Ok,
        failures(results).len() > 0 <==> exists|j: int|
            0 <= j < results.len() && (#[trigger] results[j]).1 is Err,
    decreases results.len(),
{
    if results.len() > 0 {
        let earlier = results.drop_last();
        let last = results.len() - 1;
        lemma_parts_are_not_empty(earlier);
        assert forall|i: int| 0 <= i < earlier.len() implies earlier[i] == results[i] by {}
        if successes(results).len() > 0 {
            if results[last].1 is Ok {
            } else {
                let i = choose|i: int| 0 <= i < earlier.len() && (#[trigger] earlier[i]).1 is Ok;
                assert(results[i].1 is Ok);
            }
        }
        if exists|i: int| 0 <= i < results.len() && (#[trigger] results[i]).1 is Ok {
            let i = choose|i: int| 0 <= i < results.len() && (#[trigger] results[i]).1 is Ok;
            if i < last {
                assert(earlier[i].1 is Ok);
            }
        }
        if failures(results).len() > 0 {
            if results[last].1 is Err {
            } else {
                let j = choose|j: int| 0 <= j < earlier.len() && (#[trigger] earlier[j]).1 is Err;
                assert(results[j].1 is Err);
            }
        }
        if exists|j: int| 0 <= j < results.len() && (#[trigger] results[j]).1 is Err {
            let j = choose|j: int| 0 <= j < results.len() && (#[trigger] results[j]).1 is Err;
            if j < last {
                assert(earlier[j].1 is Err);
            }
        }
    }
}

/// A write succeeds exactly when at least one remote reported success.
/// The remotes agree only when all did the same: one success beside one
/// failure of either kind makes the write inconsistent. Only a write with
/// no remote to ask has no outcome at all.
pub proof fn lemma_write_succeeds_iff_a_remote_did<T>(
    results: Seq<(String, Result<T, RemoteFailure>)>,
    out: Result<T, S3Failure>,
)
    requires
        reconciles(results, out),
    ensures
        out is Ok <==> (agreement_of(results) == Agreement::AllSucceeded || agreement_of(results)
            == Agreement::Inconsistent),
        out is Ok <==> exists|i: int| 0 <= i < results.len() && (#[trigger] results[i]).1 is Ok,
        agreement_of(results) == Agreement::NoRemote <==> results.len() == 0,
        agreement_of(results) == Agreement::Inconsistent <==> ((exists|i: int|
            0 <= i < results.len() && (#[trigger] results[i]).1 is Ok) && (exists|j: int|
            0 <= j < results.len() && (#[trigger] results[j]).1 is Err)),
        agreement_of(results) == Agreement::AllSucceeded <==> (results.len() > 0 && forall|i: int|
            0 <= i < results.len() ==> (#[trigger] results[i]).1 is Ok),
{
    lemma_parts_count(results);
    lemma_parts_are_not_empty(results);
    if agreement_of(results) == Agreement::AllSucceeded {
        assert forall|i: int| 0 <= i < results.len() implies (#[trigger] results[i]).1 is Ok by {
            if results[i].1 is Err {
                assert(failures(results).len() > 0);
            }
        }
    }
    if results.len() > 0 && forall|i: int|
        0 <= i < results.len() ==> (#[trigger] results[i]).1 is Ok {
        assert(results[0].1 is Ok);
    }
}

/// The side of the partition on which a reply falls: successes left,
/// errors right.
pub fn side_of<T>(entry: (String, Result<T, RemoteFailure>)) -> (side: itertools::Either<
    (String, T),
    (String, RemoteFailure),
>)
    ensures
        match entry.1 {
            Ok(output) => side == itertools::Either::<
                (String, T),
                (String, RemoteFailure),
            >::Left((entry.0, output)),
            Err(failure) => side == itertools::Either::<(String, T), (String, RemoteFailure)>::Right(
                (entry.0, failure),
            ),
        },
{
    match entry.1 {
        Ok(output) => itertools::Either::Left((entry.0, output)),
        Err(failure) => itertools::Either::Right((entry.0, failure)),
    }
}

/// `Itertools::partition_map` over the replies, with `side_of` to say where
/// each goes. It hands every element to one of the two collections, in the
/// order of the input, so the first holds the successes and the second the
/// errors, each in the order they came in.
#[verifier::external_body]
fn split_replies<T>(results: Replies<T>) -> (parts: (Vec<(String, T)>, Vec<(String, RemoteFailure)>))
    ensures
        parts.0@ == successes(results@),
        parts.1@ == failures(results@),
{
    results.into_iter().partition_map(|entry| side_of(entry))
}

/// Settles a write from the replies that came in, under the policy of
/// `reconciles`. A remote that failed while another succeeded is not
/// reported to the client.
pub fn output_remote_inconsistent<T>(results: Replies<T>) -> (out: Result<T, S3Failure>)
    ensures
        reconciles(results@, out),
{
    let (mut oks, mut errs) = split_replies(results);
    if oks.len() > 0 {
        let first = oks.remove(0);
        Ok(first.1)
    } else if errs.len() > 0 {
        let first = errs.remove(0);
        match first.1 {
            RemoteFailure::Service(sdk) => Err(convert_sdk_err(sdk)),
            RemoteFailure::NoReply => Err(S3Failure::internal_error()),
        }
    } else {
        Err(S3Failure::internal_error())
    }
}

/// The agreement among the replies collected so far, for the operator's
/// log.
pub fn agreement<T>(results: &Replies<T>) -> (found: Agreement)
    ensures
        found == agreement_of(results@),
{
    let mut oks: usize = 0;
    let mut errs: usize = 0;
    let mut i: usize = 0;
    while i < results.len()
        invariant
            i <= results.len(),
            oks == successes(results@.take(i as int)).len(),
            errs == failures(results@.take(i as int)).len(),
            oks + errs == i,
        decreases results.len() - i,
    {
        proof {
            assert(results@.take(i + 1).drop_last() == results@.take(i as int));
        }
        if results[i].1.is_ok() {
            oks += 1;
        } else {
            errs += 1;
        }
        i += 1;
    }
    proof {
        assert(results@.take(i as int) == results@);
    }
    if errs == 0 {
        if oks == 0 {
            Agreement::NoRemote
        } else {
            Agreement::AllSucceeded
        }
    } else if oks == 0 {
        Agreement::AllFailed
    } else {
        Agreement::Inconsistent
    }
}

/// The outcome that a remote's reply stands for: its output, its own
/// error, or, where it gave no reply, the failure to reply.
pub open spec fn outcome_of<T>(reply: Option<Result<T, ServiceFailure>>) -> Result<T, RemoteFailure> {
    match reply {
        Some(Ok(output)) => Ok(output),
        Some(Err(sdk)) => Err(RemoteFailure::Service(sdk)),
        None => Err(RemoteFailure::NoReply),
    }
}

/// Adds the outcome of `remote` to the outcomes of a write. A remote that
/// could not be reached, or gave no usable reply, is added as a failure.
pub fn collect_reply<T>(
    results: &mut Replies<T>,
    remote: &S3Remote,
    reply: Option<Result<T, ServiceFailure>>,
)
    ensures
        final(results)@ == old(results)@.push((remote.name, outcome_of(reply))),
{
    let outcome = match reply {
        Some(Ok(output)) => Ok(output),
        Some(Err(sdk)) => Err(RemoteFailure::Service(sdk)),
        None => Err(RemoteFailure::NoReply),
    };
    results.push((remote.name.clone(), outcome));
}

/// A write that got a success from one remote and no reply from another
/// is inconsistent, and is answered with the success.
pub proof fn lemma_silent_remote_makes_a_write_inconsistent<T>(
    first: String,
    output: T,
    second: String,
    out: Result<T, S3Failure>,
)
    requires
        reconciles(
            seq![
                (first, outcome_of(Some(Ok::<T, ServiceFailure>(output)))),
                (second, outcome_of::<T>(None)),
            ],
            out,
        ),
    ensures
        agreement_of(
            seq![
                (first, outcome_of(Some(Ok::<T, ServiceFailure>(output)))),
                (second, outcome_of::<T>(None)),
            ],
        ) == Agreement::Inconsistent,
        out == Ok::<T, S3Failure>(output),
{
    let results = seq![
        (first, outcome_of(Some(Ok::<T, ServiceFailure>(output)))),
        (second, outcome_of::<T>(None)),
    ];
    let one = results.drop_last();
    assert(one.drop_last() =~= Seq::empty());
    assert(successes(one.drop_last()).len() == 0);
    assert(failures(one.drop_last()).len() == 0);
    assert(successes(one) =~= seq![(first, output)]);
    assert(failures(one).len() == 0);
    assert(successes(results) =~= seq![(first, output)]);
    assert(failures(results).len() == 1);
}

/// The remotes that a write is sent to when there are `count` of them:
/// all, by position.
pub open spec fn write_plan(count: nat) -> Seq<usize> {
    Seq::new(count, |i: int| i as usize)
}

/// How often `remote` occurs in `plan`.
pub open spec fn times_asked(plan: Seq<usize>, remote: usize) -> nat
    decreases plan.len(),
{
    if plan.len() == 0 {
        0
    } else {
        times_asked(plan.drop_last(), remote) + if plan.last() == remote {
            1nat
        } else {
            0nat
        }
    }
}

/// A write asks each remote exactly once, and nothing that is not a
/// remote: no remote gets a second call for the same write.
pub proof fn lemma_write_asks_each_once(count: nat, remote: usize)
    requires
        count <= usize::MAX,
    ensures
        times_asked(write_plan(count), remote) == if remote < count {
            1nat
        } else {
            0nat
        },
    decreases count,
{
    if count > 0 {
        let shorter = (count - 1) as nat;
        assert(write_plan(count).drop_last() == write_plan(shorter));
        lemma_write_asks_each_once(shorter, remote);
    }
}

impl S3Reproxy {
    /// The bucket listing: the one bucket the proxy shows, and no other.
    /// No remote is asked.
    pub fn list_buckets(&self) -> (buckets: Vec<Bucket>)
        ensures
            buckets@.len() == 1,
            buckets@[0].name == Some(self.bucket),
            buckets@[0].creation_date is None,
    {
        let mut buckets: Vec<Bucket> = Vec::new();
        buckets.push(Bucket { name: Some(self.bucket.clone()), creation_date: None });
        buckets
    }

    /// Answers for the location of `bucket`: success for the bucket the
    /// proxy shows, `NoSuchBucket` for any other. No remote is asked.
    pub fn get_bucket_location(&self, bucket: &String) -> (found: Result<(), S3Failure>)
        ensures
            found is Ok <==> bucket@ == self.bucket@,
            found matches Err(failure) ==> is_bare_failure(failure, "NoSuchBucket"@),
    {
        if *bucket != self.bucket {
            return Err(S3Failure::no_such_bucket());
        }
        Ok(())
    }

    /// Answers whether `bucket` exists: success for the bucket the proxy
    /// shows, `NoSuchBucket` for any other. No remote is asked.
    pub fn head_bucket(&self, bucket: &String) -> (found: Result<(), S3Failure>)
        ensures
            found is Ok <==> bucket@ == self.bucket@,
            found matches Err(failure) ==> is_bare_failure(failure, "NoSuchBucket"@),
    {
        if *bucket != self.bucket {
            return Err(S3Failure::no_such_bucket());
        }
        Ok(())
    }

    /// The remotes that a write is sent to: every remote, once.
    pub fn write_targets(&self) -> (plan: Vec<usize>)
        ensures
            plan@ == write_plan(self.remotes@.len()),
    {
        let mut plan: Vec<usize> = Vec::new();
        let mut i: usize = 0;
        while i < self.remotes.len()
            invariant
                i <= self.remotes.len(),
                plan@ == write_plan(i as nat),
            decreases self.remotes.len() - i,
        {
            plan.push(i);
            i += 1;
        }
        plan
    }

    /// Starts a read: the remotes will be asked in read order.
    pub fn begin_read(&self) -> (probe: ReadProbe)
        ensures
            is_read_order(self.remotes@, probe.order()),
            probe.skipped() == 0,
    {
        ReadProbe::new(&self.remotes)
    }
}

} // verus!
