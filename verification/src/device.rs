//! The Device executor: a state machine that consumes Host commands one at
//! a time, validates each against its current phase, cursor and geometry,
//! applies accepted commands to its flash, and answers each command with
//! exactly one reply. Any invalid command aborts the run; an aborted run
//! processes nothing further.

use crate::crc::check_crc;
use crate::crc::crc32_of;
use crate::flash::flash_erased_range;
use crate::flash::flash_wrote_range;
use crate::flash::Flash;
use crate::flash::ERASED_BYTE;
use crate::msg::FromBootloader;
use crate::msg::ToBootloader;
use vstd::prelude::*;

verus! {

/// The Device's protocol phase.
#[derive(Clone, Copy, PartialEq, Eq, Structural, Debug)]
pub enum DevicePhase {
    /// No run announced yet; only `Start` is valid.
    Idle,
    /// A run is announced but no sector erased yet.
    Started,
    /// At least one sector erased; chunks may be written.
    Writing,
    /// The run completed; control passed to the new image.
    Booted,
    /// The run failed; nothing further is processed.
    Aborted,
}

/// The Device side of the protocol: flash storage, geometry, and the run's
/// progress.
pub struct Bootloader {
    flash: Flash,
    sector_size: usize,
    chunk_size: usize,
    image_len: usize,
    cursor: usize,
    phase: DevicePhase,
}

impl Bootloader {
    /// The flash storage.
    pub closed spec fn flash(self) -> Flash {
        self.flash
    }

    /// Erase granularity in bytes.
    pub closed spec fn sector_size(self) -> usize {
        self.sector_size
    }

    /// Write granularity in bytes.
    pub closed spec fn chunk_size(self) -> usize {
        self.chunk_size
    }

    /// The announced image length of the current run.
    pub closed spec fn image_len(self) -> usize {
        self.image_len
    }

    /// The next address a chunk write must target.
    pub closed spec fn cursor(self) -> usize {
        self.cursor
    }

    /// The current protocol phase.
    pub closed spec fn phase(self) -> DevicePhase {
        self.phase
    }

    /// Well-formed Device: sane geometry, flash well-formed, and the run's
    /// bookkeeping inside the flash range.
    pub open spec fn wf(self) -> bool {
        &&& self.flash().wf()
        &&& self.sector_size() > 0
        &&& self.chunk_size() > 0
        &&& self.sector_size() % self.chunk_size() == 0
        &&& self.image_len() <= self.flash().size()
        &&& self.cursor() <= self.flash().size()
    }
}

/// The geometry never changes across a step.
pub open spec fn config_kept(pre: Bootloader, post: Bootloader) -> bool {
    &&& post.sector_size() == pre.sector_size()
    &&& post.chunk_size() == pre.chunk_size()
}

/// A rejecting step: the Device moves to `Aborted` and changes nothing
/// else, in particular not the flash.
pub open spec fn device_aborts(pre: Bootloader, post: Bootloader) -> bool {
    &&& post.phase() is Aborted
    &&& post.flash() == pre.flash()
    &&& post.cursor() == pre.cursor()
    &&& post.image_len() == pre.image_len()
    &&& config_kept(pre, post)
}

/// `Start` is accepted only in `Idle` and only if the announced image fits
/// the flash capacity.
pub open spec fn start_accepted(pre: Bootloader, total_size: usize) -> bool {
    &&& pre.phase() is Idle
    &&& total_size <= pre.flash().size()
}

/// `EraseSector` is accepted after `Start`, for exactly one sector-aligned,
/// sector-sized, in-range span. The Device trusts the Host's choice of
/// sector address; a stale address is caught by the following chunk write.
pub open spec fn erase_accepted(pre: Bootloader, addr: usize, len: usize) -> bool {
    &&& pre.phase() is Started || pre.phase() is Writing
    &&& len == pre.sector_size()
    &&& addr % pre.sector_size() == 0
    &&& addr + len <= pre.flash().size()
}

/// `WriteData` is accepted only after an erase, at exactly the cursor, for
/// exactly one chunk with a matching integrity tag, targeting in-range bytes
/// that are all still erased.
pub open spec fn write_accepted(pre: Bootloader, addr: usize, data: Seq<u8>, crc: u32) -> bool {
    &&& pre.phase() is Writing
    &&& addr == pre.cursor()
    &&& data.len() == pre.chunk_size()
    &&& crc == crc32_of(data)
    &&& addr + data.len() <= pre.flash().size()
    &&& forall|i: int| addr <= i < addr + data.len() ==> !pre.flash().is_written(i)
}

/// `Boot` is accepted once the cursor has covered the whole announced image.
pub open spec fn boot_accepted(pre: Bootloader) -> bool {
    &&& pre.phase() is Started || pre.phase() is Writing
    &&& pre.cursor() >= pre.image_len()
}

/// The Device's full step relation: what one received message does to the
/// state and which reply it provokes.
pub open spec fn device_step(
    pre: Bootloader,
    msg: ToBootloader,
    post: Bootloader,
    reply: FromBootloader,
) -> bool {
    match msg {
        ToBootloader::Start { total_size } => if start_accepted(pre, total_size) {
            &&& reply is Starting
            &&& post.phase() is Started
            &&& post.image_len() == total_size
            &&& post.cursor() == 0
            &&& post.flash() == pre.flash()
            &&& config_kept(pre, post)
        } else {
            reply is ErrorReset && device_aborts(pre, post)
        },
        ToBootloader::EraseSector { addr, len } => if erase_accepted(pre, addr, len) {
            &&& reply is SectorErased
            &&& post.phase() is Writing
            &&& flash_erased_range(pre.flash(), post.flash(), addr as int, len as int)
            &&& post.cursor() == pre.cursor()
            &&& post.image_len() == pre.image_len()
            &&& config_kept(pre, post)
        } else {
            reply is ErrorReset && device_aborts(pre, post)
        },
        ToBootloader::WriteData { addr, data, crc } => if write_accepted(pre, addr, data@, crc) {
            &&& reply is ChunkWritten
            &&& post.phase() is Writing
            &&& flash_wrote_range(pre.flash(), post.flash(), addr as int, data@)
            &&& post.cursor() == addr + pre.chunk_size()
            &&& post.image_len() == pre.image_len()
            &&& config_kept(pre, post)
        } else {
            reply is ErrorReset && device_aborts(pre, post)
        },
        ToBootloader::Boot => if boot_accepted(pre) {
            &&& reply is Booting
            &&& post.phase() is Booted
            &&& post.flash() == pre.flash()
            &&& post.cursor() == pre.cursor()
            &&& post.image_len() == pre.image_len()
            &&& config_kept(pre, post)
        } else {
            reply is ErrorReset && device_aborts(pre, post)
        },
        ToBootloader::Abort => reply is ErrorReset && device_aborts(pre, post),
    }
}

/// Law: erase before write. A chunk write is accepted only when every byte
/// it targets is still in the erased state, so accepted writes never
/// overwrite written storage.
pub proof fn lemma_erase_before_write(
    pre: Bootloader,
    msg: ToBootloader,
    post: Bootloader,
    reply: FromBootloader,
)
    requires
        pre.wf(),
        device_step(pre, msg, post, reply),
        reply is ChunkWritten,
    ensures
        msg matches ToBootloader::WriteData { addr, data, crc } ==> forall|i: int|
            addr <= i < addr + data@.len() ==> !pre.flash().is_written(i) && pre.flash().byte_at(i)
                == ERASED_BYTE,
{
    pre.flash().lemma_wf_blank();
}

/// Law: monotonic addressing. Two consecutively accepted chunk writes have
/// addresses exactly one chunk size apart, so accepted chunk addresses
/// strictly increase in steps of the chunk size.
pub proof fn lemma_monotonic_addresses(
    s0: Bootloader,
    m1: ToBootloader,
    s1: Bootloader,
    r1: FromBootloader,
    m2: ToBootloader,
    s2: Bootloader,
    r2: FromBootloader,
    a1: usize,
    a2: usize,
)
    requires
        device_step(s0, m1, s1, r1),
        device_step(s1, m2, s2, r2),
        r1 is ChunkWritten,
        r2 is ChunkWritten,
        (m1 matches ToBootloader::WriteData { addr, .. } && addr == a1),
        (m2 matches ToBootloader::WriteData { addr, .. } && addr == a2),
    ensures
        a2 == a1 + s0.chunk_size(),
{
}

/// Law: idempotent rejection. A chunk addressed below the Device's cursor
/// is rejected whatever the phase, and the Device aborts; a once-written
/// position can never be re-sent.
pub proof fn lemma_stale_chunk_rejected(
    pre: Bootloader,
    msg: ToBootloader,
    post: Bootloader,
    reply: FromBootloader,
    a: usize,
)
    requires
        device_step(pre, msg, post, reply),
        (msg matches ToBootloader::WriteData { addr, .. } && addr == a),
        a < pre.cursor(),
    ensures
        reply is ErrorReset,
        post.phase() is Aborted,
{
}

impl Bootloader {
    /// A fresh Device over `total_size` bytes of fully erased flash, with
    /// the given erase and write granularity.
    pub fn new(total_size: usize, sector_size: usize, chunk_size: usize) -> (d: Bootloader)
        requires
            sector_size > 0,
            chunk_size > 0,
            sector_size % chunk_size == 0,
        ensures
            d.wf(),
            d.phase() is Idle,
            d.cursor() == 0,
            d.image_len() == 0,
            d.sector_size() == sector_size,
            d.chunk_size() == chunk_size,
            d.flash().size() == total_size,
            forall|i: int| 0 <= i < total_size ==> !d.flash().is_written(i),
            forall|i: int| 0 <= i < total_size ==> d.flash().byte_at(i) == ERASED_BYTE,
    {
        Bootloader {
            flash: Flash::new(total_size),
            sector_size,
            chunk_size,
            image_len: 0,
            cursor: 0,
            phase: DevicePhase::Idle,
        }
    }

    /// Rejects the current command: enter `Aborted`, touch nothing else,
    /// and notify the Host once.
    fn abort(&mut self) -> (reply: FromBootloader)
        requires
            old(self).wf(),
        ensures
            final(self).wf(),
            device_aborts(*old(self), *final(self)),
            reply is ErrorReset,
    {
        self.phase = DevicePhase::Aborted;
        FromBootloader::ErrorReset
    }

    /// Executes one received command and produces the one reply the
    /// protocol owes for it, as described by `device_step`.
    pub fn handle(&mut self, msg: &ToBootloader) -> (reply: FromBootloader)
        requires
            old(self).wf(),
        ensures
            final(self).wf(),
            device_step(*old(self), *msg, *final(self), reply),
    {
        match msg {
            ToBootloader::Start { total_size } => {
                if self.phase == DevicePhase::Idle && *total_size <= self.flash.len() {
                    self.phase = DevicePhase::Started;
                    self.image_len = *total_size;
                    self.cursor = 0;
                    FromBootloader::Starting
                } else {
                    self.abort()
                }
            },
            ToBootloader::EraseSector { addr, len } => {
                if (self.phase == DevicePhase::Started || self.phase == DevicePhase::Writing)
                    && *len == self.sector_size && *addr % self.sector_size == 0 {
                    match self.flash.erase_sector(*addr, *len) {
                        Ok(()) => {
                            self.phase = DevicePhase::Writing;
                            FromBootloader::SectorErased
                        },
                        Err(()) => self.abort(),
                    }
                } else {
                    self.abort()
                }
            },
            ToBootloader::WriteData { addr, data, crc } => {
                if self.phase == DevicePhase::Writing && *addr == self.cursor && data.len()
                    == self.chunk_size && check_crc(data.as_slice(), *crc).is_ok() {
                    match self.flash.write_chunk(*addr, data.as_slice()) {
                        Ok(()) => {
                            // The accepted write bounds the new cursor by
                            // the flash size, which `len` names as a usize.
                            let _cap: usize = self.flash.len();
                            self.cursor = *addr + self.chunk_size;
                            FromBootloader::ChunkWritten
                        },
                        Err(()) => self.abort(),
                    }
                } else {
                    self.abort()
                }
            },
            ToBootloader::Boot => {
                if (self.phase == DevicePhase::Started || self.phase == DevicePhase::Writing)
                    && self.cursor >= self.image_len {
                    self.phase = DevicePhase::Booted;
                    FromBootloader::Booting
                } else {
                    self.abort()
                }
            },
            ToBootloader::Abort => self.abort(),
        }
    }

    /// The current protocol phase, for callers outside the protocol.
    pub fn current_phase(&self) -> (p: DevicePhase)
        ensures
            p == self.phase(),
    {
        self.phase
    }

    /// Reads flash contents; fails exactly when the range does not lie
    /// inside the storage.
    pub fn read_flash(&self, start: usize, len: usize) -> (r: Result<Vec<u8>, ()>)
        ensures
            r is Ok <==> start + len <= self.flash().size(),
            r matches Ok(bytes) ==> bytes@.len() == len && (forall|i: int|
                0 <= i < len ==> bytes@[i] == self.flash().byte_at(start + i)),
    {
        self.flash.read(start, len)
    }
}

} // verus!
