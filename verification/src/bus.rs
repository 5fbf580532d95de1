//! The byte-level transport under the sensor driver.
//!
//! The driver owns no pins and no timing: it talks to the line through
//! this interface, injected at composition time.  Reset and presence
//! handling live inside the transport; each call is one complete bus
//! transaction.

use vstd::prelude::*;

verus! {

/// A byte-level transport over the physical 1-Wire line.
///
/// The one thing the driver relies on is the transport's framing: a read
/// of `count` bytes hands back exactly `count` bytes.  Nothing is assumed
/// about the bytes' values — the devices on the line determine those, and
/// the driver validates everything it reads.
pub trait OneWireBus {
    /// Writes `bytes` on the line, one complete transaction.
    fn write_bytes(&mut self, bytes: &[u8]);

    /// Reads exactly `count` bytes from the line, one complete
    /// transaction.
    fn read_bytes(&mut self, count: usize) -> (r: Vec<u8>)
        ensures
            r@.len() == count,
    ;
}

} // verus!
