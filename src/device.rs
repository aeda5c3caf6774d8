use vstd::prelude::*;

use crate::error::Error;

verus! {

/// An owned buffer that holds one frame and can be read as bytes.
pub trait Frame {
    /// The bytes the buffer holds now.
    spec fn bytes(&self) -> Seq<u8>;

    /// The buffer's contents as a slice.
    fn as_ref(&self) -> (r: &[u8])
        ensures
            r@ == self.bytes(),
    ;
}

/// A buffer for an outbound frame: the caller writes the frame into it in
/// place, then releases it, which commits the frame to the device.
pub trait TxFrame: Frame {
    /// The buffer's contents as a writable slice; what is written there is
    /// what the buffer holds afterwards.
    fn as_mut(&mut self) -> (r: &mut [u8])
        ensures
            r@ == old(self).bytes(),
            final(self).bytes() == final(r)@,
    ;

    /// Ends the caller's access and commits the frame as it stands. What a
    /// commit does lands on the device through the buffer's borrow, so each
    /// buffer states it in its own `release` (see `LoopbackTx`).
    fn release(self);
}

impl Frame for Vec<u8> {
    open spec fn bytes(&self) -> Seq<u8> {
        self@
    }

    fn as_ref(&self) -> (r: &[u8]) {
        self.as_slice()
    }
}

impl TxFrame for Vec<u8> {
    fn as_mut(&mut self) -> (r: &mut [u8]) {
        self.as_mut_slice()
    }

    fn release(self) {
    }
}

/// What a call that hands out a buffer came to, with the buffer seen as its
/// bytes.
pub open spec fn outcome<B: Frame>(r: Result<B, Error>) -> Result<Seq<u8>, Error> {
    match r {
        Ok(b) => Ok(b.bytes()),
        Err(e) => Err(e),
    }
}

/// A device that receives and transmits link-layer frames.
///
/// Each device says, through `receive_spec` and `transmit_spec`, how a call
/// may change it and what the call may return; a device that wraps another
/// can then state its own behaviour in terms of the one below.
///
/// The lifetime is that of the borrow a transmit buffer may hold on the
/// device.
pub trait Device<'a>: Sized {
    /// The buffer a received frame comes in.
    type RxBuffer: Frame;

    /// The buffer a frame to transmit is written into.
    type TxBuffer: TxFrame;

    /// The largest frame the device transmits.
    spec fn spec_mtu(&self) -> usize;

    /// Whether a `receive` may take the device from `pre` to `post` and
    /// come to `r`.
    spec fn receive_spec(pre: Self, post: Self, r: Result<Seq<u8>, Error>) -> bool;

    /// Whether a `transmit` of `len` bytes may take the device from `pre`
    /// to `post` and come to `r`.
    spec fn transmit_spec(pre: Self, post: Self, len: usize, r: Result<Seq<u8>, Error>) -> bool;

    /// The maximum transmission unit.
    fn mtu(&self) -> (r: usize)
        ensures
            r == self.spec_mtu(),
    ;

    /// Takes the next received frame, if there is one.
    fn receive(&mut self) -> (r: Result<Self::RxBuffer, Error>)
        ensures
            Self::receive_spec(*old(self), *final(self), outcome(r)),
    ;

    /// Hands out a buffer of `len` bytes for the caller to fill with a frame.
    fn transmit(&'a mut self, len: usize) -> (r: Result<Self::TxBuffer, Error>)
        ensures
            Self::transmit_spec(*old(self), *final(self), len, outcome(r)),
            r is Ok ==> r->Ok_0.bytes().len() == len,
    ;
}

} // verus!
