//! The protocol's message vocabulary. Each Host command has exactly one
//! valid Device acknowledgement; anything else is a protocol error.

use vstd::prelude::*;

verus! {

/// Host-to-Device commands.
pub enum ToBootloader {
    /// Announce an update of `total_size` bytes; must not exceed the
    /// Device's flash capacity.
    Start { total_size: usize },
    /// Erase the full sector `[addr, addr + len)`; `len` must equal the
    /// sector size and `addr` must be sector-aligned.
    EraseSector { addr: usize, len: usize },
    /// Write one chunk at `addr`, which must be the Device's cursor; `data`
    /// must be exactly one chunk and `crc` its CRC-32 tag.
    WriteData { addr: usize, data: Vec<u8>, crc: u32 },
    /// Finish the update and hand control to the new image.
    Boot,
    /// Unilateral Host-side abort notification.
    Abort,
}

/// Device-to-Host acknowledgements.
pub enum FromBootloader {
    /// `Start` accepted.
    Starting,
    /// `EraseSector` accepted and the sector erased.
    SectorErased,
    /// `WriteData` accepted and the chunk written.
    ChunkWritten,
    /// `Boot` accepted; the run completed.
    Booting,
    /// The command was rejected, or the Device aborted.
    ErrorReset,
}

} // verus!
