//! The Host driver: a state machine that owns the firmware image and drives
//! the update from the other side of the link. It emits one command at a
//! time, awaits the one acknowledgement the protocol owes for it, and
//! advances only on that acknowledgement; any other reply fails the run.
//!
//! The image is sent sector by sector and chunk by chunk. A final partial
//! chunk is padded with the erased sentinel; chunks of the last sector that
//! lie entirely past the image end are accounted for without being sent.

use crate::align::lemma_mod_chain;
use crate::align::lemma_multiple_gap;
use crate::crc::crc32;
use crate::crc::crc32_of;
use crate::flash::ERASED_BYTE;
use crate::msg::FromBootloader;
use crate::msg::ToBootloader;
use vstd::arithmetic::div_mod::lemma_add_mod_noop;
use vstd::arithmetic::div_mod::lemma_mod_self_0;
use vstd::arithmetic::div_mod::lemma_small_mod;
use vstd::prelude::*;

verus! {

/// The Host's protocol phase.
#[derive(Clone, Copy, PartialEq, Eq, Structural, Debug)]
pub enum HostPhase {
    /// About to announce the update.
    Init,
    /// About to request the erase of the sector at the cursor.
    Erase,
    /// Sending the current sector's chunks.
    Write,
    /// All sectors processed; about to request the boot.
    Boot,
    /// The run completed successfully.
    Done,
    /// The run failed; an abort notification is owed to the Device.
    Failed,
}

/// What the Host wants to do next.
pub enum HostAction {
    /// Send this command and await its acknowledgement.
    Send(ToBootloader),
    /// The run completed successfully; nothing more to send.
    Done,
    /// The run failed; notify the Device and stop.
    Failed,
}

/// The `size`-byte chunk of `img` starting at `start`, padded with the
/// erased sentinel where it reaches past the image end.
pub open spec fn chunk_of(img: Seq<u8>, start: int, size: int) -> Seq<u8> {
    Seq::new(
        size as nat,
        |i: int|
            if start + i < img.len() {
                img[start + i]
            } else {
                ERASED_BYTE
            },
    )
}

/// The Host side of the protocol: the image, the geometry it assumes of the
/// Device, and the run's progress.
pub struct Host {
    image: Vec<u8>,
    sector_size: usize,
    chunk_size: usize,
    cursor: usize,
    sector_end: usize,
    phase: HostPhase,
}

impl Host {
    /// The firmware image being sent.
    pub closed spec fn image(self) -> Seq<u8> {
        self.image@
    }

    /// Erase granularity in bytes.
    pub closed spec fn sector_size(self) -> usize {
        self.sector_size
    }

    /// Write granularity in bytes.
    pub closed spec fn chunk_size(self) -> usize {
        self.chunk_size
    }

    /// The next address to process.
    pub closed spec fn cursor(self) -> usize {
        self.cursor
    }

    /// The end of the sector currently being written.
    pub closed spec fn sector_end(self) -> usize {
        self.sector_end
    }

    /// The current protocol phase.
    pub closed spec fn phase(self) -> HostPhase {
        self.phase
    }

    /// Well-formed Host: sane geometry, no address computation can
    /// overflow, and the cursor agrees with the phase.
    pub open spec fn wf(self) -> bool {
        &&& self.sector_size() > 0
        &&& self.chunk_size() > 0
        &&& self.sector_size() % self.chunk_size() == 0
        &&& self.chunk_size() <= self.sector_size()
        &&& self.image().len() + self.sector_size() <= usize::MAX
        &&& self.cursor() % self.chunk_size() == 0
        &&& match self.phase() {
            HostPhase::Init => self.cursor() == 0,
            HostPhase::Erase => self.cursor() % self.sector_size() == 0 && self.cursor()
                < self.image().len(),
            HostPhase::Write => {
                &&& self.sector_end() % self.sector_size() == 0
                &&& self.sector_end() >= self.sector_size()
                &&& self.sector_end() - self.sector_size() <= self.cursor() <= self.sector_end()
                &&& self.sector_end() - self.sector_size() < self.image().len()
            },
            HostPhase::Boot => self.cursor() >= self.image().len(),
            HostPhase::Done => true,
            HostPhase::Failed => true,
        }
    }
}

/// The Host's emission relation: in which states it emits which command,
/// and how skipping an untransmitted image tail moves the cursor.
pub open spec fn host_advance(pre: Host, post: Host, act: HostAction) -> bool {
    match pre.phase() {
        HostPhase::Init => post == pre && act == HostAction::Send(
            ToBootloader::Start { total_size: pre.image().len() as usize },
        ),
        HostPhase::Erase => post == pre && act == HostAction::Send(
            ToBootloader::EraseSector { addr: pre.cursor(), len: pre.sector_size() },
        ),
        HostPhase::Write => if pre.cursor() < pre.sector_end() && pre.cursor()
            < pre.image().len() {
            &&& post == pre
            &&& act matches HostAction::Send(m) && (m matches ToBootloader::WriteData {
                addr,
                data,
                crc,
            } && addr == pre.cursor() && data@ == chunk_of(
                pre.image(),
                pre.cursor() as int,
                pre.chunk_size() as int,
            ) && crc == crc32_of(data@))
        } else {
            &&& post.image() == pre.image()
            &&& post.sector_size() == pre.sector_size()
            &&& post.chunk_size() == pre.chunk_size()
            &&& post.cursor() == pre.sector_end()
            &&& post.sector_end() == pre.sector_end()
            &&& if pre.sector_end() < pre.image().len() {
                post.phase() is Erase && act == HostAction::Send(
                    ToBootloader::EraseSector { addr: pre.sector_end(), len: pre.sector_size() },
                )
            } else {
                post.phase() is Boot && act == HostAction::Send(ToBootloader::Boot)
            }
        },
        HostPhase::Boot => post == pre && act == HostAction::Send(ToBootloader::Boot),
        HostPhase::Done => post == pre && act is Done,
        HostPhase::Failed => post == pre && act is Failed,
    }
}

/// The run fails: only the phase changes.
pub open spec fn host_fails(pre: Host, post: Host) -> bool {
    &&& post.phase() is Failed
    &&& post.cursor() == pre.cursor()
    &&& post.sector_end() == pre.sector_end()
}

/// The Host's acknowledgement relation: how the one reply to the command
/// just sent moves the run forward, and that any other reply fails it.
pub open spec fn host_reply(pre: Host, reply: FromBootloader, post: Host) -> bool {
    &&& post.image() == pre.image()
    &&& post.sector_size() == pre.sector_size()
    &&& post.chunk_size() == pre.chunk_size()
    &&& match pre.phase() {
        HostPhase::Init => if reply is Starting {
            &&& post.cursor() == 0
            &&& post.sector_end() == pre.sector_end()
            &&& post.phase() == (if pre.image().len() == 0 {
                HostPhase::Boot
            } else {
                HostPhase::Erase
            })
        } else {
            host_fails(pre, post)
        },
        HostPhase::Erase => if reply is SectorErased {
            &&& post.cursor() == pre.cursor()
            &&& post.sector_end() == pre.cursor() + pre.sector_size()
            &&& post.phase() is Write
        } else {
            host_fails(pre, post)
        },
        HostPhase::Write => if reply is ChunkWritten && pre.cursor() < pre.sector_end()
            && pre.cursor() < pre.image().len() {
            &&& post.cursor() == pre.cursor() + pre.chunk_size()
            &&& post.sector_end() == pre.sector_end()
            &&& post.phase() is Write
        } else {
            host_fails(pre, post)
        },
        HostPhase::Boot => if reply is Booting {
            &&& post.cursor() == pre.cursor()
            &&& post.sector_end() == pre.sector_end()
            &&& post.phase() is Done
        } else {
            host_fails(pre, post)
        },
        HostPhase::Done => host_fails(pre, post),
        HostPhase::Failed => host_fails(pre, post),
    }
}

impl Host {
    /// A fresh Host about to drive an update of `image` with the given
    /// geometry. The image must leave room for one sector of address
    /// arithmetic below `usize::MAX`.
    pub fn new(image: Vec<u8>, sector_size: usize, chunk_size: usize) -> (h: Host)
        requires
            sector_size > 0,
            chunk_size > 0,
            sector_size % chunk_size == 0,
            image@.len() + sector_size <= usize::MAX,
        ensures
            h.wf(),
            h.phase() is Init,
            h.image() == image@,
            h.sector_size() == sector_size,
            h.chunk_size() == chunk_size,
            h.cursor() == 0,
    {
        proof {
            if sector_size < chunk_size {
                lemma_small_mod(sector_size as nat, chunk_size as nat);
            }
            lemma_small_mod(0nat, chunk_size as nat);
        }
        Host { image, sector_size, chunk_size, cursor: 0, sector_end: 0, phase: HostPhase::Init }
    }

    /// Builds the chunk at the cursor: image bytes up to the image end,
    /// the erased sentinel beyond it.
    fn build_chunk(&self) -> (data: Vec<u8>)
        requires
            self.wf(),
            self.cursor() < self.image().len(),
        ensures
            data@ == chunk_of(self.image(), self.cursor() as int, self.chunk_size() as int),
            data@.len() == self.chunk_size(),
    {
        let mut data: Vec<u8> = Vec::new();
        let mut i: usize = 0;
        while i < self.chunk_size
            invariant
                i <= self.chunk_size,
                data@.len() == i,
                self.cursor() + self.chunk_size() <= usize::MAX,
                forall|j: int|
                    0 <= j < i ==> data@[j] == (if self.cursor() + j < self.image().len() {
                        self.image()[self.cursor() + j]
                    } else {
                        ERASED_BYTE
                    }),
            decreases self.chunk_size() - i,
        {
            if self.cursor + i < self.image.len() {
                data.push(self.image[self.cursor + i]);
            } else {
                data.push(ERASED_BYTE);
            }
            i = i + 1;
        }
        proof {
            assert(data@ =~= chunk_of(
                self.image(),
                self.cursor() as int,
                self.chunk_size() as int,
            ));
        }
        data
    }

    /// Decides the next step of the run: the command to send, or the run's
    /// outcome. Skips over chunks of the current sector that lie entirely
    /// past the image end, advancing the cursor without sending them.
    pub fn advance(&mut self) -> (act: HostAction)
        requires
            old(self).wf(),
        ensures
            final(self).wf(),
            host_advance(*old(self), *final(self), act),
    {
        match self.phase {
            HostPhase::Init => HostAction::Send(
                ToBootloader::Start { total_size: self.image.len() },
            ),
            HostPhase::Erase => HostAction::Send(
                ToBootloader::EraseSector { addr: self.cursor, len: self.sector_size },
            ),
            HostPhase::Write => {
                if self.cursor < self.sector_end && self.cursor < self.image.len() {
                    let data = self.build_chunk();
                    let crc = crc32(data.as_slice());
                    HostAction::Send(ToBootloader::WriteData { addr: self.cursor, data, crc })
                } else {
                    proof {
                        lemma_mod_chain(
                            self.sector_end() as int,
                            self.sector_size() as int,
                            self.chunk_size() as int,
                        );
                    }
                    self.cursor = self.sector_end;
                    if self.cursor < self.image.len() {
                        self.phase = HostPhase::Erase;
                        HostAction::Send(
                            ToBootloader::EraseSector { addr: self.cursor, len: self.sector_size },
                        )
                    } else {
                        self.phase = HostPhase::Boot;
                        HostAction::Send(ToBootloader::Boot)
                    }
                }
            },
            HostPhase::Boot => HostAction::Send(ToBootloader::Boot),
            HostPhase::Done => HostAction::Done,
            HostPhase::Failed => HostAction::Failed,
        }
    }

    /// Consumes the one reply owed for the command just sent: the expected
    /// acknowledgement advances the run, anything else fails it.
    pub fn handle_reply(&mut self, reply: &FromBootloader)
        requires
            old(self).wf(),
        ensures
            final(self).wf(),
            host_reply(*old(self), *reply, *final(self)),
    {
        match self.phase {
            HostPhase::Init => {
                if matches!(reply, FromBootloader::Starting) {
                    if self.image.len() == 0 {
                        self.phase = HostPhase::Boot;
                    } else {
                        self.phase = HostPhase::Erase;
                    }
                } else {
                    self.phase = HostPhase::Failed;
                }
            },
            HostPhase::Erase => {
                if matches!(reply, FromBootloader::SectorErased) {
                    proof {
                        lemma_add_mod_noop(
                            self.cursor() as int,
                            self.sector_size() as int,
                            self.sector_size() as int,
                        );
                        lemma_mod_self_0(self.sector_size() as int);
                        lemma_small_mod(0nat, self.sector_size() as nat);
                    }
                    self.sector_end = self.cursor + self.sector_size;
                    self.phase = HostPhase::Write;
                } else {
                    self.phase = HostPhase::Failed;
                }
            },
            HostPhase::Write => {
                if matches!(reply, FromBootloader::ChunkWritten) && self.cursor < self.sector_end
                    && self.cursor < self.image.len() {
                    proof {
                        lemma_mod_chain(
                            self.sector_end() as int,
                            self.sector_size() as int,
                            self.chunk_size() as int,
                        );
                        lemma_multiple_gap(
                            self.cursor() as int,
                            self.sector_end() as int,
                            self.chunk_size() as int,
                        );
                        lemma_add_mod_noop(
                            self.cursor() as int,
                            self.chunk_size() as int,
                            self.chunk_size() as int,
                        );
                        lemma_mod_self_0(self.chunk_size() as int);
                        lemma_small_mod(0nat, self.chunk_size() as nat);
                    }
                    self.cursor = self.cursor + self.chunk_size;
                } else {
                    self.phase = HostPhase::Failed;
                }
            },
            HostPhase::Boot => {
                if matches!(reply, FromBootloader::Booting) {
                    self.phase = HostPhase::Done;
                } else {
                    self.phase = HostPhase::Failed;
                }
            },
            HostPhase::Done => {
                self.phase = HostPhase::Failed;
            },
            HostPhase::Failed => {
                self.phase = HostPhase::Failed;
            },
        }
    }

    /// The current protocol phase, for callers outside the protocol.
    pub fn current_phase(&self) -> (p: HostPhase)
        ensures
            p == self.phase(),
    {
        self.phase
    }
}

} // verus!
