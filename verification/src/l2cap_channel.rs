//! What every L2CAP connection-oriented channel offers, whatever the
//! platform under it.

use crate::futures_channel::{FuturesCFStream, ReadAdapter, WriteAdapter};
use vstd::prelude::*;

verus! {

/// A Bluetooth LE L2CAP connection-oriented channel.
pub type L2CapChannel = FuturesCFStream;

/// The reader half of a channel.
pub type L2CapReader = ReadAdapter;

/// The writer half of a channel.
pub type L2CapWriter = WriteAdapter;

/// What all L2CAP channels have.
pub trait L2CapChannelImpl: Sized {
    /// The reader half.
    type Reader;

    /// The writer half.
    type Writer;

    /// Splits the channel into a reader and a writer half, which two tasks
    /// can drive at the same time.
    fn split(self) -> (Self::Reader, Self::Writer);
}

} // verus!
