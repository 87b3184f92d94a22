//! Byte sinks that generated code is written to.

use core::convert::Infallible;
use vstd::prelude::*;

verus! {

/// A destination for generated bytes.
pub trait CodeGenWrite {
    /// What the sink reports when it rejects a write.
    type Error;

    /// The bytes the sink has accepted so far, in order.
    ///
    /// The default is for sinks that are written without proofs, such as an
    /// adapter around a file: they implement `write_all` alone.
    open spec fn written(&self) -> Seq<u8> {
        Seq::empty()
    }

    /// Whether the sink accepts every write. No write to a reliable sink
    /// fails; of a sink that is not known to be reliable, any write may.
    open spec fn reliable(&self) -> bool {
        false
    }

    /// Hands `buf` to the sink. On success the whole of `buf` has been appended
    /// to what the sink holds; after a failure nothing is known of its contents.
    fn write_all(&mut self, buf: &[u8]) -> (r: Result<(), Self::Error>)
        ensures
            r is Ok ==> final(self).written() == old(self).written() + buf@,
            r is Ok ==> final(self).reliable() == old(self).reliable(),
            old(self).reliable() ==> r is Ok,
    ;
}

/// A growable in-memory buffer takes every write.
impl CodeGenWrite for Vec<u8> {
    type Error = Infallible;

    open spec fn written(&self) -> Seq<u8> {
        self@
    }

    open spec fn reliable(&self) -> bool {
        true
    }

    fn write_all(&mut self, buf: &[u8]) -> (r: Result<(), Infallible>) {
        self.extend_from_slice(buf);
        assert(self@ =~= old(self)@ + buf@);
        Ok(())
    }
}

} // verus!
