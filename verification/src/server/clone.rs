//! One upload for many remotes: the fields of the request are kept and
//! copied for each remote, and the body is shared through the multiplexer.

use crate::server::dto::{PutObjectInput, UploadPartInput};
use crate::server::stream::{Broadcaster, ByteStreamMultiplier, ByteStreamReceiver, FrameView, Producer};
use vstd::prelude::*;

verus! {

/// What comes out of taking an upload apart: the body to read, and the two
/// workers that will share it out.
pub struct BodyParts<B> {
    pub body: B,
    pub producer: Producer,
    pub broadcaster: Broadcaster,
}

/// A part of a multipart upload, ready to be sent to any number of
/// remotes.
pub struct UploadPartInputMultiplier {
    body: ByteStreamMultiplier,
    fields: UploadPartInput<()>,
}

/// An object to store, ready to be sent to any number of remotes.
pub struct PutObjectInputMultiplier {
    body: ByteStreamMultiplier,
    fields: PutObjectInput<()>,
}

impl<B> BodyParts<B> {
    /// The workers have not seen a frame yet.
    pub open spec fn fresh(&self) -> bool {
        &&& self.producer.first_byte_pending()
        &&& self.broadcaster.wf()
        &&& self.broadcaster.accepting()
        &&& self.broadcaster.subscribers() == 0
        &&& self.broadcaster.upstream() == Seq::<FrameView>::empty()
    }
}

impl UploadPartInputMultiplier {
    /// The fields that every remote's copy carries.
    pub closed spec fn fields(&self) -> UploadPartInput<()> {
        self.fields
    }

    /// Whether copies can still be made.
    pub closed spec fn is_open(&self) -> bool {
        self.body.is_open()
    }

    /// Takes `input` apart: its fields are kept for the copies, its body is
    /// handed back to be read by the producer.
    pub fn from_input<B>(input: UploadPartInput<B>) -> (made: (Self, BodyParts<B>))
        ensures
            input.same_fields(made.0.fields()),
            made.0.is_open(),
            made.1.body == input.body,
            made.1.fresh(),
    {
        let (body, producer, broadcaster) = ByteStreamMultiplier::from_bytestream();
        let (stream, fields) = input.replace_body(());
        (UploadPartInputMultiplier { body, fields }, BodyParts { body: stream, producer, broadcaster })
    }

    /// The request for one more remote: every field as it came in, around
    /// a new consumer of the body. `None` once the multiplier is closed.
    pub fn input(&self) -> (copy: Option<UploadPartInput<ByteStreamReceiver>>)
        ensures
            copy is Some <==> self.is_open(),
            copy matches Some(request) ==> {
                &&& self.fields().same_fields(request)
                &&& !request.body.end_reached()
                &&& request.body.part() == self.fields().part_number
            },
    {
        match self.body.subscribe_stream(self.fields.part_number) {
            Some(receiver) => Some(self.fields.with_body(receiver)),
            None => None,
        }
    }

    /// The requests for `count` remotes, one each, made before any of them
    /// is sent; the multiplier is closed behind them, so that the
    /// broadcaster learns that no more consumers will come. A multiplier
    /// that was closed before makes none.
    pub fn inputs(&mut self, count: usize) -> (copies: Vec<UploadPartInput<ByteStreamReceiver>>)
        ensures
            !final(self).is_open(),
            final(self).fields() == old(self).fields(),
            copies@.len() == if old(self).is_open() {
                count as int
            } else {
                0
            },
            forall|i: int|
                0 <= i < copies@.len() ==> {
                    &&& old(self).fields().same_fields(#[trigger] copies@[i])
                    &&& !copies@[i].body.end_reached()
                    &&& copies@[i].body.part() == old(self).fields().part_number
                },
    {
        let mut copies: Vec<UploadPartInput<ByteStreamReceiver>> = Vec::new();
        let mut i: usize = 0;
        while i < count
            invariant
                i <= count,
                self.fields() == old(self).fields(),
                self.is_open() == old(self).is_open(),
                copies@.len() == if self.is_open() {
                    i as int
                } else {
                    0
                },
                forall|k: int|
                    0 <= k < copies@.len() ==> {
                        &&& self.fields().same_fields(#[trigger] copies@[k])
                        &&& !copies@[k].body.end_reached()
                        &&& copies@[k].body.part() == self.fields().part_number
                    },
            decreases count - i,
        {
            if let Some(request) = self.input() {
                copies.push(request);
            }
            i += 1;
        }
        self.close();
        copies
    }

    /// Says that every remote has its copy: no more will be made.
    pub fn close(&mut self)
        ensures
            !final(self).is_open(),
            final(self).fields() == old(self).fields(),
    {
        self.body.close();
    }
}

impl PutObjectInputMultiplier {
    /// The fields that every remote's copy carries.
    pub closed spec fn fields(&self) -> PutObjectInput<()> {
        self.fields
    }

    /// Whether copies can still be made.
    pub closed spec fn is_open(&self) -> bool {
        self.body.is_open()
    }

    /// Takes `input` apart: its fields are kept for the copies, its body is
    /// handed back to be read by the producer.
    pub fn from_input<B>(input: PutObjectInput<B>) -> (made: (Self, BodyParts<B>))
        ensures
            input.same_fields(made.0.fields()),
            input.wf() ==> made.0.fields().wf(),
            made.0.is_open(),
            made.1.body == input.body,
            made.1.fresh(),
    {
        let (body, producer, broadcaster) = ByteStreamMultiplier::from_bytestream();
        let (stream, fields) = input.replace_body(());
        (PutObjectInputMultiplier { body, fields }, BodyParts { body: stream, producer, broadcaster })
    }

    /// The request for one more remote: every field as it came in, around
    /// a new consumer of the body. `None` once the multiplier is closed.
    pub fn input(&self) -> (copy: Option<PutObjectInput<ByteStreamReceiver>>)
        ensures
            copy is Some <==> self.is_open(),
            copy matches Some(request) ==> {
                &&& self.fields().same_fields(request)
                &&& self.fields().wf() ==> request.wf()
                &&& !request.body.end_reached()
                &&& request.body.part() is None
            },
    {
        match self.body.subscribe_stream(None) {
            Some(receiver) => Some(self.fields.with_body(receiver)),
            None => None,
        }
    }

    /// The requests for `count` remotes, one each, made before any of them
    /// is sent; the multiplier is closed behind them, so that the
    /// broadcaster learns that no more consumers will come. A multiplier
    /// that was closed before makes none.
    pub fn inputs(&mut self, count: usize) -> (copies: Vec<PutObjectInput<ByteStreamReceiver>>)
        ensures
            !final(self).is_open(),
            final(self).fields() == old(self).fields(),
            copies@.len() == if old(self).is_open() {
                count as int
            } else {
                0
            },
            forall|i: int|
                0 <= i < copies@.len() ==> {
                    &&& old(self).fields().same_fields(#[trigger] copies@[i])
                    &&& old(self).fields().wf() ==> copies@[i].wf()
                    &&& !copies@[i].body.end_reached()
                    &&& copies@[i].body.part() is None
                },
    {
        let mut copies: Vec<PutObjectInput<ByteStreamReceiver>> = Vec::new();
        let mut i: usize = 0;
        while i < count
            invariant
                i <= count,
                self.fields() == old(self).fields(),
                self.is_open() == old(self).is_open(),
                copies@.len() == if self.is_open() {
                    i as int
                } else {
                    0
                },
                forall|k: int|
                    0 <= k < copies@.len() ==> {
                        &&& self.fields().same_fields(#[trigger] copies@[k])
                        &&& self.fields().wf() ==> copies@[k].wf()
                        &&& !copies@[k].body.end_reached()
                        &&& copies@[k].body.part() is None
                    },
            decreases count - i,
        {
            if let Some(request) = self.input() {
                copies.push(request);
            }
            i += 1;
        }
        self.close();
        copies
    }

    /// Says that every remote has its copy: no more will be made.
    pub fn close(&mut self)
        ensures
            !final(self).is_open(),
            final(self).fields() == old(self).fields(),
    {
        self.body.close();
    }
}

} // verus!
