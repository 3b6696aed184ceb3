//! The injected control-link transport and two in-memory transports.
//!
//! The physical link is write-only: one operation, transmitting a two-byte
//! control frame, is all the driver requires of it.  A transport carries a
//! ghost log of the frames it has transmitted successfully, so that the
//! driver's contracts can speak of exactly what reached the chip.

use vstd::prelude::*;

verus! {

use crate::error::TransportFault;

/// A write-only control link carrying two-byte frames to the codec.
///
/// `log` is the sequence of `(high byte, low byte)` frames transmitted
/// successfully so far, oldest first.  A failed write transmits nothing.
pub trait Transport: Sized {
    /// The frames transmitted successfully so far, oldest first.
    ///
    /// The default leaves the log unspecified, so that a transport written
    /// outside the verified world only has to supply [`Transport::write`];
    /// a transport whose callers reason about the log overrides it.
    open spec fn log(&self) -> Seq<(u8, u8)> {
        arbitrary()
    }

    /// Transmits one frame, most-significant byte first.
    fn write(&mut self, high: u8, low: u8) -> (r: Result<(), TransportFault>)
        ensures
            r is Ok ==> final(self).log() == old(self).log().push((high, low)),
            r is Err ==> final(self).log() == old(self).log(),
    ;
}

/// A transport that keeps every frame in memory and never fails.
pub struct RecordingTransport {
    /// The frames written so far, oldest first, as `(high, low)` byte pairs.
    pub frames: Vec<(u8, u8)>,
}

impl RecordingTransport {
    /// An empty recording transport.
    pub fn new() -> (t: Self)
        ensures
            t.log() == Seq::<(u8, u8)>::empty(),
    {
        let t = RecordingTransport { frames: Vec::new() };
        proof {
            assert(t.frames@ =~= Seq::<(u8, u8)>::empty());
        }
        t
    }
}

impl Transport for RecordingTransport {
    open spec fn log(&self) -> Seq<(u8, u8)> {
        self.frames@
    }

    fn write(&mut self, high: u8, low: u8) -> (r: Result<(), TransportFault>) {
        self.frames.push((high, low));
        Ok(())
    }
}

/// A transport that records frames but fails every write from a fixed
/// point on: the write of frame number `fail_from` (counting from zero),
/// and each write after it, reports a fault and transmits nothing.
pub struct FailingTransport {
    /// The frames transmitted before the failure point, oldest first.
    pub frames: Vec<(u8, u8)>,
    /// Number of writes that succeed before every write fails.
    pub fail_from: usize,
}

impl FailingTransport {
    /// A transport whose first `fail_from` writes succeed.
    pub fn new(fail_from: usize) -> (t: Self)
        ensures
            t.log() == Seq::<(u8, u8)>::empty(),
            t.fail_from == fail_from,
    {
        let t = FailingTransport { frames: Vec::new(), fail_from };
        proof {
            assert(t.frames@ =~= Seq::<(u8, u8)>::empty());
        }
        t
    }
}

impl Transport for FailingTransport {
    open spec fn log(&self) -> Seq<(u8, u8)> {
        self.frames@
    }

    fn write(&mut self, high: u8, low: u8) -> (r: Result<(), TransportFault>) {
        if self.frames.len() >= self.fail_from {
            Err(TransportFault)
        } else {
            self.frames.push((high, low));
            Ok(())
        }
    }
}

} // verus!
