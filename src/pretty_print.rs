use vstd::prelude::*;
use vstd::slice::slice_to_vec;

verus! {

/// Which way a traced frame went.
#[derive(Debug, Clone, Copy, PartialEq, Eq, Structural)]
pub enum Direction {
    /// Received from the device.
    Inbound,
    /// Handed to the device for transmission.
    Outbound,
}

impl Direction {
    /// The marker that leads each line of a dump in this direction.
    pub open spec fn spec_marker(self) -> Seq<char> {
        match self {
            Direction::Inbound => "<- "@,
            Direction::Outbound => "-> "@,
        }
    }

    /// The marker that leads each line of a dump in this direction.
    pub fn marker(&self) -> (r: &'static str)
        ensures
            r@ == self.spec_marker(),
    {
        match self {
            Direction::Inbound => "<- ",
            Direction::Outbound => "-> ",
        }
    }
}

/// A formatter that renders frames as a readable dump and emits it.
///
/// Its model is the list of dumps it has emitted so far, each as the
/// direction and the bytes that were handed to it, oldest first.
pub trait PrettyPrint: Sized {
    /// The dumps emitted so far.
    spec fn emitted(&self) -> Seq<(Direction, Seq<u8>)>;

    /// A formatter that has emitted nothing.
    fn new() -> (r: Self)
        ensures
            r.emitted().len() == 0,
    ;

    /// Renders `buffer` as a dump in `direction` and emits it.
    fn pretty_print(&mut self, direction: Direction, buffer: &[u8])
        ensures
            final(self).emitted() == old(self).emitted().push((direction, buffer@)),
    ;
}

/// A formatter that keeps each dump as the direction and a copy of the
/// bytes, so that they can be looked at afterwards.
pub struct Recorder {
    records: Vec<(Direction, Vec<u8>)>,
}

/// A kept record seen as the direction and the bytes.
pub open spec fn record_view(r: (Direction, Vec<u8>)) -> (Direction, Seq<u8>) {
    (r.0, r.1@)
}

impl Recorder {
    /// The records kept so far, oldest first.
    pub fn records(&self) -> (r: &[(Direction, Vec<u8>)])
        ensures
            r@.map_values(|x: (Direction, Vec<u8>)| record_view(x)) == self.emitted(),
    {
        self.records.as_slice()
    }
}

impl PrettyPrint for Recorder {
    closed spec fn emitted(&self) -> Seq<(Direction, Seq<u8>)> {
        self.records@.map_values(|x: (Direction, Vec<u8>)| record_view(x))
    }

    fn new() -> (r: Self) {
        Recorder { records: Vec::new() }
    }

    fn pretty_print(&mut self, direction: Direction, buffer: &[u8]) {
        let bytes = slice_to_vec(buffer);
        self.records.push((direction, bytes));
        assert(self.records@.map_values(|x: (Direction, Vec<u8>)| record_view(x))
            =~= old(self).records@.map_values(|x: (Direction, Vec<u8>)| record_view(x)).push(
            (direction, buffer@),
        ));
    }
}

} // verus!
