//! The body multiplexer: one upload body is read once and handed, frame by
//! frame, to one consumer per remote.
//!
//! Two workers share the job. The producer reads the body and passes each
//! frame on through a short queue. The broadcaster takes subscriptions and
//! frames, keeps the frames seen so far for subscribers that join late, and
//! says which queue gets a copy of which frame. The queues themselves belong
//! to the program; what stands here is what the two workers decide.

use vstd::prelude::*;
use vstd::string::StringExecFns;

verus! {

/// Frames that may wait between the producer and the broadcaster.
pub const FRAME_QUEUE_CAPACITY: usize = 4;

/// Subscriptions that may wait for the broadcaster.
pub const SUBSCRIBE_QUEUE_CAPACITY: usize = 4;

/// Frames that may wait for one subscriber.
pub const SUBSCRIBER_QUEUE_CAPACITY: usize = 16;

/// `Bytes` of the byte buffer library: a shared, immutable run of bytes.
/// Nothing of its inside is known here; what it holds goes by the name
/// `frame_bytes`.
#[verifier::external_type_specification]
#[verifier::external_body]
pub struct ExBytes(bytes::Bytes);

/// The bytes that a frame's buffer holds.
pub uninterp spec fn frame_bytes(buffer: bytes::Bytes) -> Seq<u8>;

/// Why a body stream broke.
#[derive(Debug, Clone)]
pub enum ByteStreamError {
    /// The broadcaster went away before the body was complete.
    Disconnected,
    /// Reading the body failed upstream, with this message.
    ByteStreamError(String),
}

/// One piece of a body: bytes, or the error that broke the stream.
pub type Frame = Result<bytes::Bytes, ByteStreamError>;

/// What travels through the queues: a frame, or `None` as the mark that
/// the body is complete.
pub type ByteStreamResult = Option<Frame>;

/// A queue item by what it holds.
pub type FrameView = Option<Result<Seq<u8>, ByteStreamError>>;

/// How many bytes a body still has to yield: at least `lower`, and at most
/// `upper` where that is known.
#[derive(Debug, Clone, Copy)]
pub struct SizeHint {
    lower: u64,
    upper: Option<u64>,
}

/// What a queue item holds.
pub open spec fn view_of(item: ByteStreamResult) -> FrameView {
    match item {
        Some(Ok(buffer)) => Some(Ok(frame_bytes(buffer))),
        Some(Err(error)) => Some(Err(error)),
        None => None,
    }
}

/// What each of `items` holds.
pub open spec fn views_of(items: Seq<ByteStreamResult>) -> Seq<FrameView> {
    Seq::new(items.len(), |i: int| view_of(items[i]))
}

/// The bytes of a body, put together from the frames that carry bytes.
pub open spec fn body_bytes(frames: Seq<FrameView>) -> Seq<u8>
    decreases frames.len(),
{
    if frames.len() == 0 {
        Seq::empty()
    } else {
        let earlier = body_bytes(frames.drop_last());
        match frames.last() {
            Some(Ok(bytes)) => earlier + bytes,
            _ => earlier,
        }
    }
}

/// The subscribers marked in `live`, in the order they joined.
pub open spec fn live_ids(live: Seq<bool>) -> Seq<usize>
    decreases live.len(),
{
    if live.len() == 0 {
        Seq::empty()
    } else {
        let earlier = live_ids(live.drop_last());
        if live.last() {
            earlier.push((live.len() - 1) as usize)
        } else {
            earlier
        }
    }
}

/// `Bytes::clone`: a second handle on the same buffer, so with the same
/// bytes.
#[verifier::external_body]
fn share_bytes(buffer: &bytes::Bytes) -> (shared: bytes::Bytes)
    ensures
        frame_bytes(shared) == frame_bytes(*buffer),
{
    buffer.clone()
}

/// A copy of a queue item, holding what the item holds.
pub fn copy_item(item: &ByteStreamResult) -> (copy: ByteStreamResult)
    ensures
        view_of(copy) == view_of(*item),
{
    match item {
        Some(Ok(buffer)) => Some(Ok(share_bytes(buffer))),
        Some(Err(ByteStreamError::Disconnected)) => Some(Err(ByteStreamError::Disconnected)),
        Some(Err(ByteStreamError::ByteStreamError(message))) => Some(
            Err(ByteStreamError::ByteStreamError(message.clone())),
        ),
        None => None,
    }
}

impl ByteStreamError {
    /// The text of the error, as a consumer of the body reads it.
    pub fn message(&self) -> (text: String)
        ensures
            text@ == match *self {
                ByteStreamError::Disconnected => "disconnected"@,
                ByteStreamError::ByteStreamError(cause) => "byte stream error: "@ + cause@,
            },
    {
        match self {
            ByteStreamError::Disconnected => "disconnected".to_owned(),
            ByteStreamError::ByteStreamError(cause) => {
                let mut text = "byte stream error: ".to_owned();
                text.append(cause.as_str());
                text
            },
        }
    }
}

impl SizeHint {
    #[verifier::type_invariant]
    spec fn ordered(self) -> bool {
        self.upper matches Some(upper) ==> self.lower <= upper
    }

    /// The least number of bytes still to come.
    pub closed spec fn lower(self) -> u64 {
        self.lower
    }

    /// The most bytes still to come, where known.
    pub closed spec fn upper(self) -> Option<u64> {
        self.upper
    }

    /// The hint of a body of which nothing is known.
    pub fn unknown() -> (hint: Self)
        ensures
            hint.lower() == 0,
            hint.upper() is None,
    {
        SizeHint { lower: 0, upper: None }
    }

    /// The least number of bytes still to come.
    pub fn get_lower(&self) -> (lower: u64)
        ensures
            lower == self.lower(),
            self.upper() matches Some(upper) ==> lower <= upper,
    {
        proof {
            use_type_invariant(self);
        }
        self.lower
    }

    /// The most bytes still to come, where known.
    pub fn get_upper(&self) -> (upper: Option<u64>)
        ensures
            upper == self.upper(),
            upper matches Some(most) ==> self.lower() <= most,
    {
        proof {
            use_type_invariant(self);
        }
        self.upper
    }
}

/// The size hint for the bounds that an upstream body reports. The bounds
/// must be in order: an upper bound below the lower one is no hint.
pub fn convert_sizehint(bound: (u64, Option<u64>)) -> (hint: SizeHint)
    requires
        bound.1 matches Some(upper) ==> bound.0 <= upper,
    ensures
        hint.lower() == bound.0,
        hint.upper() == bound.1,
{
    SizeHint { lower: bound.0, upper: bound.1 }
}

/// Whether `bound` is in order, so that `convert_sizehint` takes it.
pub fn bounds_in_order(bound: (u64, Option<u64>)) -> (ordered: bool)
    ensures
        ordered == (bound.1 matches Some(upper) ==> bound.0 <= upper),
{
    match bound.1 {
        Some(upper) => bound.0 <= upper,
        None => true,
    }
}

/// The producer: reads the body and passes each frame on.
#[derive(Debug)]
pub struct Producer {
    first_byte_pending: bool,
}

/// What the producer does with one item read from the body.
#[derive(Debug)]
pub struct ProducerStep {
    /// Fire the first-byte signal now: this is the first item.
    pub fire_first_byte: bool,
    /// What goes into the queue to the broadcaster.
    pub payload: ByteStreamResult,
    /// Stop reading after this item: the body broke, or is complete.
    pub stop: bool,
}

impl Producer {
    /// Whether the first-byte signal is still to be fired.
    pub closed spec fn first_byte_pending(&self) -> bool {
        self.first_byte_pending
    }

    /// A producer that has read nothing yet.
    pub fn new() -> (producer: Self)
        ensures
            producer.first_byte_pending(),
    {
        Producer { first_byte_pending: true }
    }

    /// Takes one item read from the body: bytes, or the message of a read
    /// error. The first item fires the first-byte signal, and only it. Bytes
    /// go on as they are; an error goes on as a frame of its own, so that
    /// every subscriber sees it, and ends the reading.
    pub fn on_item(&mut self, item: Result<bytes::Bytes, String>) -> (step: ProducerStep)
        ensures
            step.fire_first_byte == old(self).first_byte_pending(),
            !final(self).first_byte_pending(),
            step.payload == match item {
                Ok(buffer) => Some(Ok::<bytes::Bytes, ByteStreamError>(buffer)),
                Err(message) => Some(
                    Err::<bytes::Bytes, ByteStreamError>(ByteStreamError::ByteStreamError(message)),
                ),
            },
            step.stop == (item is Err),
    {
        let fire_first_byte = self.first_byte_pending;
        self.first_byte_pending = false;
        match item {
            Ok(buffer) => ProducerStep { fire_first_byte, payload: Some(Ok(buffer)), stop: false },
            Err(message) => ProducerStep {
                fire_first_byte,
                payload: Some(Err(ByteStreamError::ByteStreamError(message))),
                stop: true,
            },
        }
    }

    /// Takes the end of the body. The end mark goes into the queue to the
    /// broadcaster, behind every frame, so that each subscriber, also one
    /// that joins later, sees the body end cleanly. Nothing is read after
    /// it. The first-byte signal is not fired for it: no byte came.
    pub fn on_end(&mut self) -> (step: ProducerStep)
        ensures
            !step.fire_first_byte,
            final(self).first_byte_pending() == old(self).first_byte_pending(),
            step.payload is None,
            step.stop,
    {
        ProducerStep { fire_first_byte: false, payload: None, stop: true }
    }
}

/// What the broadcaster answers to a subscription.
#[derive(Debug)]
pub enum Subscription {
    /// A new subscriber with this number; its queue first gets `replay`,
    /// the frames seen so far.
    Accepted { id: usize, replay: Vec<ByteStreamResult> },
    /// Too late: subscriptions were closed. The broadcaster gives up and
    /// cuts every subscriber off.
    Refused,
}

/// The broadcaster: takes subscriptions and frames, and says what goes into
/// which subscriber's queue.
pub struct Broadcaster {
    read_cache: Vec<ByteStreamResult>,
    live: Vec<bool>,
    will_accept_new_subscribers: bool,
    upstream: Ghost<Seq<FrameView>>,
    delivered: Ghost<Seq<Seq<FrameView>>>,
}

impl Broadcaster {
    /// Every item that the producer handed over so far.
    pub closed spec fn upstream(&self) -> Seq<FrameView> {
        self.upstream@
    }

    /// How many subscribers ever joined.
    pub closed spec fn subscribers(&self) -> nat {
        self.live@.len()
    }

    /// Whether `subscriber` joined and is still served.
    pub closed spec fn is_live(&self, subscriber: int) -> bool {
        0 <= subscriber < self.live@.len() && self.live@[subscriber]
    }

    /// Every item that was put into the queue of `subscriber` so far.
    pub closed spec fn delivered(&self, subscriber: int) -> Seq<FrameView> {
        self.delivered@[subscriber]
    }

    /// Whether a new subscriber may still join.
    pub closed spec fn accepting(&self) -> bool {
        self.will_accept_new_subscribers
    }

    /// How many frames are kept for subscribers that join late.
    pub closed spec fn cached(&self) -> nat {
        self.read_cache@.len()
    }

    /// The subscribers that are still served, in the order they joined.
    pub closed spec fn served(&self) -> Seq<usize> {
        live_ids(self.live@)
    }

    /// The broadcaster is in order: while subscribers may join, the cache
    /// holds the whole body so far, and afterwards nothing; every subscriber
    /// that is still served was given the whole body so far.
    pub closed spec fn wf(&self) -> bool {
        &&& self.delivered@.len() == self.live@.len()
        &&& self.will_accept_new_subscribers ==> views_of(self.read_cache@) == self.upstream@
        &&& !self.will_accept_new_subscribers ==> self.read_cache@.len() == 0
        &&& forall|s: int|
            0 <= s < self.live@.len() && self.live@[s] ==> #[trigger] self.delivered@[s]
                == self.upstream@
    }

    /// A broadcaster before the first frame: no subscriber yet, and
    /// subscriptions open.
    pub fn new() -> (broadcaster: Self)
        ensures
            broadcaster.wf(),
            broadcaster.accepting(),
            broadcaster.subscribers() == 0,
            broadcaster.upstream() == Seq::<FrameView>::empty(),
            broadcaster.cached() == 0,
    {
        let broadcaster = Broadcaster {
            read_cache: Vec::new(),
            live: Vec::new(),
            will_accept_new_subscribers: true,
            upstream: Ghost(Seq::empty()),
            delivered: Ghost(Seq::empty()),
        };
        proof {
            assert(views_of(broadcaster.read_cache@) =~= broadcaster.upstream@);
        }
        broadcaster
    }

    /// Whether a new subscriber may still join.
    pub fn is_accepting(&self) -> (accepting: bool)
        ensures
            accepting == self.accepting(),
    {
        self.will_accept_new_subscribers
    }

    /// How many frames are kept for subscribers that join late.
    pub fn cache_len(&self) -> (cached: usize)
        ensures
            cached == self.cached(),
    {
        self.read_cache.len()
    }

    /// Takes a subscription. While subscriptions are open the subscriber
    /// joins, and its queue is first filled with a copy of every frame seen
    /// so far, so that it too gets the body from its start. Once they are
    /// closed, a subscription is an error that ends the broadcast: no
    /// subscriber is served any longer.
    pub fn subscribe(&mut self) -> (answer: Subscription)
        requires
            old(self).wf(),
        ensures
            final(self).wf(),
            final(self).upstream() == old(self).upstream(),
            final(self).accepting() == old(self).accepting(),
            final(self).cached() == old(self).cached(),
            old(self).accepting() ==> {
                &&& answer matches Subscription::Accepted { id, replay }
                &&& id == old(self).subscribers()
                &&& views_of(replay@) == old(self).upstream()
                &&& final(self).subscribers() == old(self).subscribers() + 1
                &&& final(self).is_live(id as int)
                &&& final(self).delivered(id as int) == old(self).upstream()
                &&& forall|s: int|
                    0 <= s < old(self).subscribers() ==> final(self).is_live(s) == old(
                        self,
                    ).is_live(s) && #[trigger] final(self).delivered(s) == old(self).delivered(s)
            },
            !old(self).accepting() ==> {
                &&& answer is Refused
                &&& final(self).subscribers() == old(self).subscribers()
                &&& forall|s: int| !#[trigger] final(self).is_live(s)
                &&& forall|s: int|
                    0 <= s < old(self).subscribers() ==> #[trigger] final(self).delivered(s) == old(
                        self,
                    ).delivered(s)
            },
    {
        if !self.will_accept_new_subscribers {
            let mut i: usize = 0;
            while i < self.live.len()
                invariant
                    i <= self.live.len(),
                    self.live@.len() == old(self).live@.len(),
                    forall|s: int| 0 <= s < i ==> !#[trigger] self.live@[s],
                    self.delivered == old(self).delivered,
                    self.upstream == old(self).upstream,
                    self.read_cache == old(self).read_cache,
                    self.will_accept_new_subscribers == old(self).will_accept_new_subscribers,
                decreases self.live.len() - i,
            {
                self.live.set(i, false);
                i += 1;
            }
            return Subscription::Refused;
        }
        let mut replay: Vec<ByteStreamResult> = Vec::new();
        let mut i: usize = 0;
        while i < self.read_cache.len()
            invariant
                i <= self.read_cache.len(),
                replay@.len() == i,
                forall|k: int| 0 <= k < i ==> view_of(#[trigger] replay@[k]) == view_of(self.read_cache@[k]),
            decreases self.read_cache.len() - i,
        {
            replay.push(copy_item(&self.read_cache[i]));
            i += 1;
        }
        assert(views_of(replay@) == views_of(self.read_cache@));
        let id = self.live.len();
        self.live.push(true);
        proof {
            self.delivered@ = self.delivered@.push(self.upstream@);
        }
        Subscription::Accepted { id, replay }
    }

    /// Takes a frame from the producer. `subscribe_closed` says whether the
    /// subscription queue is closed by now; once it is, no subscriber joins
    /// any more and the cache is let go. Every subscriber that is still
    /// served gets a copy of the frame, in the order they joined.
    pub fn frame(&mut self, payload: ByteStreamResult, subscribe_closed: bool) -> (copies: Vec<
        (usize, ByteStreamResult),
    >)
        requires
            old(self).wf(),
        ensures
            final(self).wf(),
            final(self).upstream() == old(self).upstream().push(view_of(payload)),
            final(self).accepting() == (old(self).accepting() && !subscribe_closed),
            final(self).cached() == if final(self).accepting() {
                old(self).cached() + 1
            } else {
                0
            },
            final(self).subscribers() == old(self).subscribers(),
            forall|s: int| final(self).is_live(s) == old(self).is_live(s),
            forall|s: int|
                0 <= s < old(self).subscribers() ==> #[trigger] final(self).delivered(s) == if old(
                    self,
                ).is_live(s) {
                    old(self).delivered(s).push(view_of(payload))
                } else {
                    old(self).delivered(s)
                },
            copies@.len() == old(self).served().len(),
            forall|k: int|
                0 <= k < copies@.len() ==> (#[trigger] copies@[k]).0 == old(self).served()[k]
                    && view_of(copies@[k].1) == view_of(payload),
    {
        if subscribe_closed && self.will_accept_new_subscribers {
            self.will_accept_new_subscribers = false;
            self.read_cache = Vec::new();
        }
        let mut copies: Vec<(usize, ByteStreamResult)> = Vec::new();
        let mut i: usize = 0;
        while i < self.live.len()
            invariant
                i <= self.live.len(),
                copies@.len() == live_ids(self.live@.take(i as int)).len(),
                forall|k: int|
                    0 <= k < copies@.len() ==> (#[trigger] copies@[k]).0 == live_ids(
                        self.live@.take(i as int),
                    )[k] && view_of(copies@[k].1) == view_of(payload),
            decreases self.live.len() - i,
        {
            proof {
                assert(self.live@.take(i + 1).drop_last() == self.live@.take(i as int));
            }
            if self.live[i] {
                copies.push((i, copy_item(&payload)));
            }
            i += 1;
        }
        proof {
            assert(self.live@.take(i as int) == self.live@);
            let item = view_of(payload);
            let live = self.live@;
            let before = self.delivered@;
            self.upstream@ = self.upstream@.push(item);
            self.delivered@ = Seq::new(
                before.len(),
                |s: int|
                    if live[s] {
                        before[s].push(item)
                    } else {
                        before[s]
                    },
            );
        }
        if self.will_accept_new_subscribers {
            proof {
                assert(views_of(self.read_cache@.push(payload)) == views_of(self.read_cache@).push(
                    view_of(payload),
                ));
            }
            self.read_cache.push(payload);
        }
        copies
    }

    /// Takes note that the consumer of `subscriber` is gone: it is no
    /// longer served, and the others go on as before.
    pub fn abandon(&mut self, subscriber: usize)
        requires
            old(self).wf(),
        ensures
            final(self).wf(),
            final(self).upstream() == old(self).upstream(),
            final(self).accepting() == old(self).accepting(),
            final(self).cached() == old(self).cached(),
            final(self).subscribers() == old(self).subscribers(),
            forall|s: int| final(self).is_live(s) == (old(self).is_live(s) && s != subscriber),
            forall|s: int|
                0 <= s < old(self).subscribers() ==> #[trigger] final(self).delivered(s) == old(
                    self,
                ).delivered(s),
    {
        if subscriber < self.live.len() {
            self.live.set(subscriber, false);
        }
    }
}

/// Every subscriber that is still served has been given the whole body so
/// far, frame for frame; so any two of them have been given the same
/// bytes, the bytes of the body.
pub proof fn lemma_subscribers_get_the_body(broadcaster: Broadcaster, x: int, y: int)
    requires
        broadcaster.wf(),
        broadcaster.is_live(x),
        broadcaster.is_live(y),
    ensures
        broadcaster.delivered(x) == broadcaster.upstream(),
        broadcaster.delivered(y) == broadcaster.upstream(),
        body_bytes(broadcaster.delivered(x)) == body_bytes(broadcaster.upstream()),
        body_bytes(broadcaster.delivered(x)) == body_bytes(broadcaster.delivered(y)),
{
}

/// The last item of `items` is the end mark.
pub open spec fn ends_cleanly(items: Seq<FrameView>) -> bool {
    items.len() > 0 && items.last() is None
}

/// Once the end mark of a body went through the broadcaster, every
/// subscriber that is still served has it as the last item of its queue,
/// behind the whole body; and one that joins while subscriptions are open
/// is replayed the same, so it too reads the body and then its clean end.
pub proof fn lemma_body_ends_cleanly_for_all(broadcaster: Broadcaster, x: int)
    requires
        broadcaster.wf(),
        broadcaster.is_live(x),
        ends_cleanly(broadcaster.upstream()),
    ensures
        ends_cleanly(broadcaster.delivered(x)),
        body_bytes(broadcaster.delivered(x)) == body_bytes(broadcaster.upstream().drop_last()),
{
}

/// The state of one consumer of the multiplexer.
#[derive(Debug, Clone, Copy)]
pub struct ByteStreamReceiver {
    is_end_stream_reached: bool,
    part_number: Option<i32>,
}

impl ByteStreamReceiver {
    /// Whether the end of the body was seen.
    pub closed spec fn end_reached(&self) -> bool {
        self.is_end_stream_reached
    }

    /// The part of a multipart upload that this body belongs to, if any.
    pub closed spec fn part(&self) -> Option<i32> {
        self.part_number
    }

    /// A consumer that has seen nothing yet.
    pub fn new(part_number: Option<i32>) -> (receiver: Self)
        ensures
            !receiver.end_reached(),
            receiver.part() == part_number,
    {
        ByteStreamReceiver { is_end_stream_reached: false, part_number }
    }

    /// Takes what the consumer's queue yielded and says what the consumer
    /// sees: a frame goes through as it is; the end mark ends the body; a
    /// queue that closed without an end mark shows as a `Disconnected`
    /// error.
    pub fn poll_frame(&mut self, polled: Option<ByteStreamResult>) -> (seen: Option<Frame>)
        ensures
            final(self).part() == old(self).part(),
            match polled {
                Some(Some(frame)) => seen == Some(frame) && final(self).end_reached() == old(
                    self,
                ).end_reached(),
                Some(None) => seen is None && final(self).end_reached(),
                None => seen == Some(Err::<bytes::Bytes, ByteStreamError>(ByteStreamError::Disconnected))
                    && final(self).end_reached() == old(self).end_reached(),
            },
    {
        match polled {
            Some(Some(frame)) => Some(frame),
            Some(None) => {
                self.is_end_stream_reached = true;
                None
            },
            None => Some(Err(ByteStreamError::Disconnected)),
        }
    }

    /// Whether the end of the body was seen.
    pub fn is_end_stream(&self) -> (ended: bool)
        ensures
            ended == self.end_reached(),
    {
        self.is_end_stream_reached
    }

    /// The part of a multipart upload that this body belongs to, if any.
    pub fn part_number(&self) -> (part: Option<i32>)
        ensures
            part == self.part(),
    {
        self.part_number
    }
}

/// The handle on a running multiplexer: through it consumers subscribe,
/// until it is closed.
#[derive(Debug)]
pub struct ByteStreamMultiplier {
    open: bool,
}

impl ByteStreamMultiplier {
    /// Whether consumers may still subscribe through this handle.
    pub closed spec fn is_open(&self) -> bool {
        self.open
    }

    /// Sets up the multiplexer for one body: the handle, the producer and
    /// the broadcaster, all before the first frame.
    pub fn from_bytestream() -> (parts: (Self, Producer, Broadcaster))
        ensures
            parts.0.is_open(),
            parts.1.first_byte_pending(),
            parts.2.wf(),
            parts.2.accepting(),
            parts.2.subscribers() == 0,
            parts.2.upstream() == Seq::<FrameView>::empty(),
    {
        (ByteStreamMultiplier { open: true }, Producer::new(), Broadcaster::new())
    }

    /// A new consumer of the body, or `None` once the handle is closed.
    pub fn subscribe_stream(&self, part_number: Option<i32>) -> (receiver: Option<
        ByteStreamReceiver,
    >)
        ensures
            receiver is Some <==> self.is_open(),
            receiver matches Some(r) ==> !r.end_reached() && r.part() == part_number,
    {
        if !self.open {
            return None;
        }
        Some(ByteStreamReceiver::new(part_number))
    }

    /// Closes the handle: no consumer subscribes through it any more. The
    /// broadcaster learns of it with the next frame.
    pub fn close(&mut self)
        ensures
            !final(self).is_open(),
    {
        self.open = false;
    }
}

} // verus!
