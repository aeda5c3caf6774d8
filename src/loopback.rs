use vstd::prelude::*;

use crate::device::{Device, Frame, TxFrame};
use crate::error::Error;

verus! {

/// A device that receives, in order, the frames transmitted through it.
pub struct Loopback {
    mtu: usize,
    queue: Vec<Vec<u8>>,
}

/// The bytes of each queued frame, oldest first.
pub open spec fn frames_of(queue: Seq<Vec<u8>>) -> Seq<Seq<u8>> {
    queue.map_values(|f: Vec<u8>| f@)
}

/// `n` zero bytes.
pub open spec fn zeros(n: nat) -> Seq<u8> {
    Seq::new(n, |i: int| 0u8)
}

impl Loopback {
    /// The frames waiting to be received, oldest first.
    pub closed spec fn frames(self) -> Seq<Seq<u8>> {
        frames_of(self.queue@)
    }

    /// An empty loopback that transmits frames of up to `mtu` bytes.
    pub fn new(mtu: usize) -> (r: Self)
        ensures
            r.spec_mtu() == mtu,
            r.frames().len() == 0,
    {
        Loopback { mtu, queue: Vec::new() }
    }
}

impl<'a> Device<'a> for Loopback {
    type RxBuffer = Vec<u8>;

    type TxBuffer = LoopbackTx<'a>;

    closed spec fn spec_mtu(&self) -> usize {
        self.mtu
    }

    /// A receive takes the oldest queued frame, and fails with `Exhausted`
    /// when none is queued.
    open spec fn receive_spec(pre: Self, post: Self, r: Result<Seq<u8>, Error>) -> bool {
        &&& post.spec_mtu() == pre.spec_mtu()
        &&& if pre.frames().len() == 0 {
            r == Err::<Seq<u8>, Error>(Error::Exhausted) && post.frames() == pre.frames()
        } else {
            r == Ok::<Seq<u8>, Error>(pre.frames()[0]) && post.frames() == pre.frames().drop_first()
        }
    }

    /// A transmit hands out `len` zero bytes, and fails with `Exhausted`
    /// when `len` is over the MTU; a failed one changes nothing.
    open spec fn transmit_spec(pre: Self, post: Self, len: usize, r: Result<Seq<u8>, Error>) -> bool {
        &&& post.spec_mtu() == pre.spec_mtu()
        &&& if len > pre.spec_mtu() {
            r == Err::<Seq<u8>, Error>(Error::Exhausted) && post.frames() == pre.frames()
        } else {
            r == Ok::<Seq<u8>, Error>(zeros(len as nat))
        }
    }

    fn mtu(&self) -> (r: usize) {
        self.mtu
    }

    fn receive(&mut self) -> (r: Result<Vec<u8>, Error>) {
        if self.queue.len() == 0 {
            Err(Error::Exhausted)
        } else {
            let frame = self.queue.remove(0);
            assert(frames_of(self.queue@) =~= frames_of(old(self).queue@).drop_first());
            Ok(frame)
        }
    }

    /// On success the buffer borrows the queue: what its release leaves
    /// there is what the loopback holds afterwards.
    fn transmit(&'a mut self, len: usize) -> (r: Result<LoopbackTx<'a>, Error>)
        ensures
            r is Ok ==> frames_of(r->Ok_0.queue@) == old(self).frames(),
            r is Ok ==> final(self).frames() == frames_of(final(r->Ok_0.queue)@),
    {
        if len > self.mtu {
            Err(Error::Exhausted)
        } else {
            let frame: Vec<u8> = vec![0u8; len];
            assert(frame@ =~= zeros(len as nat));
            Ok(LoopbackTx { frame, queue: &mut self.queue })
        }
    }
}

/// A frame being written for a loopback; releasing it queues the frame to
/// be received. Its fields are public so that contracts can speak of the
/// borrowed queue.
pub struct LoopbackTx<'a> {
    /// The frame being written.
    pub frame: Vec<u8>,
    /// The loopback's queue, borrowed until the frame is released.
    pub queue: &'a mut Vec<Vec<u8>>,
}

impl<'a> Frame for LoopbackTx<'a> {
    open spec fn bytes(&self) -> Seq<u8> {
        self.frame@
    }

    fn as_ref(&self) -> (r: &[u8]) {
        self.frame.as_slice()
    }
}

impl<'a> TxFrame for LoopbackTx<'a> {
    /// Writing leaves the borrowed queue as it was.
    fn as_mut(&mut self) -> (r: &mut [u8])
        ensures
            final(self).queue == old(self).queue,
    {
        self.frame.as_mut_slice()
    }

    /// The frame, as it stands, joins the end of the queue.
    fn release(self)
        ensures
            final(self.queue)@ == old(self.queue)@.push(self.frame),
    {
        let LoopbackTx { frame, queue } = self;
        queue.push(frame);
    }
}

} // verus!
