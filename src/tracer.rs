use vstd::prelude::*;

use crate::device::{Device, Frame, TxFrame};
use crate::error::Error;
use crate::pretty_print::{Direction, PrettyPrint};

verus! {

/// A device that hands every frame crossing it to a formatter and otherwise
/// delegates to the device below it.
///
/// Received frames are traced as soon as they arrive. Frames to transmit are
/// traced when the caller releases their buffer, so the dump shows what the
/// caller wrote.
pub struct Tracer<T, U: PrettyPrint> {
    lower: T,
    printer: U,
}

impl<T, U: PrettyPrint> Tracer<T, U> {
    /// The wrapped device.
    pub closed spec fn lower_view(self) -> T {
        self.lower
    }

    /// The formatter the tracer hands frames to.
    pub closed spec fn printer_view(self) -> U {
        self.printer
    }

    /// The tracer that wraps `lower` and hands frames to `printer`.
    pub closed spec fn wrap(lower: T, printer: U) -> Self {
        Tracer { lower, printer }
    }

    /// Creates a tracer around `lower`, with a formatter that has emitted
    /// nothing yet.
    pub fn new(lower: T) -> (r: Self)
        ensures
            r == Self::wrap(lower, r.printer_view()),
            r.printer_view().emitted().len() == 0,
    {
        Tracer { lower, printer: U::new() }
    }

    /// The formatter, to look at what it has emitted.
    pub fn printer(&self) -> (r: &U)
        ensures
            *r == self.printer_view(),
    {
        &self.printer
    }

    /// Gives back the wrapped device, consuming the tracer.
    pub fn into_lower(self) -> (r: T)
        ensures
            r == self.lower_view(),
    {
        self.lower
    }
}

/// Unwrapping a tracer gives back exactly the device it was made around.
pub proof fn lemma_unwrap_returns_wrapped<T, U: PrettyPrint>(lower: T, printer: U)
    ensures
        Tracer::wrap(lower, printer).lower_view() == lower,
{
}

/// A tracer's maximum transmission unit is always that of the device below.
pub proof fn lemma_mtu_passes_through<'a, T: Device<'a>, U: PrettyPrint + 'a>(t: Tracer<T, U>)
    ensures
        t.spec_mtu() == t.lower_view().spec_mtu(),
{
}

/// A successful receive hands the formatter exactly the bytes it returns,
/// once, marked inbound.
pub proof fn lemma_receive_traces_returned_bytes<'a, T: Device<'a>, U: PrettyPrint + 'a>(
    pre: Tracer<T, U>,
    post: Tracer<T, U>,
    bytes: Seq<u8>,
)
    requires
        Tracer::receive_spec(pre, post, Ok(bytes)),
    ensures
        post.printer_view().emitted().len() == pre.printer_view().emitted().len() + 1,
        post.printer_view().emitted().last() == (Direction::Inbound, bytes),
        post.printer_view().emitted().last().0.spec_marker() == "<- "@,
        T::receive_spec(pre.lower_view(), post.lower_view(), Ok(bytes)),
{
}

/// A failed receive or transmit reports what the device below reported and
/// leaves the formatter untouched.
pub proof fn lemma_failure_traces_nothing<'a, T: Device<'a>, U: PrettyPrint + 'a>(
    pre: Tracer<T, U>,
    post: Tracer<T, U>,
    len: usize,
    e: Error,
)
    ensures
        Tracer::receive_spec(pre, post, Err(e)) ==> post.printer_view() == pre.printer_view()
            && T::receive_spec(pre.lower_view(), post.lower_view(), Err(e)),
        Tracer::transmit_spec(pre, post, len, Err(e)) ==> post.printer_view()
            == pre.printer_view() && T::transmit_spec(
            pre.lower_view(),
            post.lower_view(),
            len,
            Err(e),
        ),
{
}

impl<'a, T: Device<'a>, U: PrettyPrint + 'a> Device<'a> for Tracer<T, U> {
    type RxBuffer = T::RxBuffer;

    type TxBuffer = TxBuffer<'a, T::TxBuffer, U>;

    open spec fn spec_mtu(&self) -> usize {
        self.lower_view().spec_mtu()
    }

    /// A receive does to the wrapped device what that device's own receive
    /// does, and emits one inbound dump of the received bytes when it
    /// succeeds and nothing when it fails.
    open spec fn receive_spec(pre: Self, post: Self, r: Result<Seq<u8>, Error>) -> bool {
        &&& T::receive_spec(pre.lower_view(), post.lower_view(), r)
        &&& match r {
            Ok(bytes) => post.printer_view().emitted() == pre.printer_view().emitted().push(
                (Direction::Inbound, bytes),
            ),
            Err(_) => post.printer_view() == pre.printer_view(),
        }
    }

    /// A transmit does to the wrapped device what that device's own transmit
    /// does, and a failed one leaves the formatter as it was.
    open spec fn transmit_spec(pre: Self, post: Self, len: usize, r: Result<Seq<u8>, Error>) -> bool {
        &&& T::transmit_spec(pre.lower_view(), post.lower_view(), len, r)
        &&& r is Err ==> post.printer_view() == pre.printer_view()
    }

    fn mtu(&self) -> (r: usize) {
        self.lower.mtu()
    }

    fn receive(&mut self) -> (r: Result<T::RxBuffer, Error>) {
        match self.lower.receive() {
            Ok(buffer) => {
                self.printer.pretty_print(Direction::Inbound, buffer.as_ref());
                Ok(buffer)
            },
            Err(e) => Err(e),
        }
    }

    /// On success the buffer borrows the tracer's formatter, which holds
    /// what it held before, and its frame is pending.
    fn transmit(&'a mut self, len: usize) -> (r: Result<TxBuffer<'a, T::TxBuffer, U>, Error>)
        ensures
            r is Ok ==> r->Ok_0.is_pending(),
            r is Ok ==> r->Ok_0.printer_now() == old(self).printer_view(),
    {
        match self.lower.transmit(len) {
            Ok(buffer) => Ok(TxBuffer { buffer: Some(buffer), printer: &mut self.printer }),
            Err(e) => Err(e),
        }
    }
}

/// The buffer a tracer hands out for a frame to transmit. It wraps the
/// buffer of the device below. When its scope ends, however it ends, or
/// when `flush` or `release` is called first, it emits one outbound dump of
/// the bytes as the caller left them and then releases the wrapped buffer.
///
/// A frame reaches the device below only through the wrapped buffer's
/// `release`, and only `flush` calls it, right after the dump: no frame is
/// committed untraced, and none is traced twice.
///
/// Verus does not follow the destructor call at the end of a scope, so the
/// contracts here speak of `flush`, which the destructor calls; what the
/// formatter holds once the buffer is gone is left unstated rather than
/// stated wrongly.
pub struct TxBuffer<'a, B: TxFrame, U: PrettyPrint> {
    buffer: Option<B>,
    printer: &'a mut U,
}

impl<'a, B: TxFrame, U: PrettyPrint> TxBuffer<'a, B, U> {
    /// Whether the frame is still to be traced and committed.
    pub closed spec fn is_pending(&self) -> bool {
        self.buffer is Some
    }

    /// The borrowed formatter as it stands now.
    pub closed spec fn printer_now(&self) -> U {
        *self.printer
    }

    /// Emits the outbound dump of the bytes held now and releases the
    /// wrapped buffer, if that has not happened yet; otherwise does nothing.
    /// The end of the buffer's scope then adds nothing.
    pub fn flush(&mut self)
        ensures
            !final(self).is_pending(),
            old(self).is_pending() ==> final(self).printer_now().emitted() == old(
                self,
            ).printer_now().emitted().push((Direction::Outbound, old(self).bytes())),
            !old(self).is_pending() ==> final(self).printer_now() == old(self).printer_now(),
    {
        match self.buffer.take() {
            Some(buffer) => {
                self.printer.pretty_print(Direction::Outbound, buffer.as_ref());
                buffer.release();
            },
            None => {},
        }
    }
}

impl<'a, B: TxFrame, U: PrettyPrint> Drop for TxBuffer<'a, B, U> {
    /// Traces and commits a frame whose scope ends before it was flushed.
    ///
    /// Verus checks a destructor only where nothing it calls can unwind, and
    /// the formatter and the wrapped buffer's release may allocate; so this
    /// body, a single call of the verified `flush`, is taken as written.
    #[verifier::external_body]
    fn drop(&mut self)
        opens_invariants none
        no_unwind
    {
        self.flush();
    }
}

impl<'a, B: TxFrame, U: PrettyPrint> Frame for TxBuffer<'a, B, U> {
    closed spec fn bytes(&self) -> Seq<u8> {
        match self.buffer {
            Some(b) => b.bytes(),
            None => Seq::empty(),
        }
    }

    fn as_ref(&self) -> (r: &[u8]) {
        match &self.buffer {
            Some(b) => b.as_ref(),
            None => &[],
        }
    }
}

impl<'a, B: TxFrame, U: PrettyPrint> TxFrame for TxBuffer<'a, B, U> {
    /// Writing leaves the borrowed formatter as it was.
    fn as_mut(&mut self) -> (r: &mut [u8])
        ensures
            final(self).is_pending() == old(self).is_pending(),
            final(self).printer_now() == old(self).printer_now(),
    {
        match &mut self.buffer {
            Some(b) => b.as_mut(),
            None => &mut [],
        }
    }

    /// Flushes the buffer now rather than at the end of its scope.
    fn release(self) {
        let mut buffer = self;
        buffer.flush();
    }
}

} // verus!
