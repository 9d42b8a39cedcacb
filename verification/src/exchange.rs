//! A complete update run: the Host driver and the Device executor composed
//! over a reliable, ordered, full-duplex link, which delivers each command
//! and its one acknowledgement directly. The run's contract is the
//! protocol's headline guarantee: a run succeeds exactly when the image,
//! rounded up to whole sectors, fits the Device's flash, and a successful
//! run leaves the image verbatim in flash, the padding of the last sector
//! erased, and everything beyond untouched. A failed run leaves the Host
//! failed and the Device aborted, after one best-effort abort notification.

use crate::align::lemma_mod_chain;
use crate::align::lemma_multiple_gap;
use crate::align::lemma_round_up;
use crate::align::round_up;
use crate::device::Bootloader;
use crate::flash::Flash;
use crate::flash::ERASED_BYTE;
use crate::host::Host;
use crate::host::HostAction;
use crate::host::HostPhase;
use crate::msg::ToBootloader;
use vstd::arithmetic::div_mod::lemma_small_mod;
use vstd::prelude::*;

verus! {

/// Flash agrees with the image over `[0, upto)`: image bytes verbatim, and
/// the erased sentinel where the image has ended.
pub open spec fn done_region(f: Flash, img: Seq<u8>, upto: int) -> bool {
    &&& forall|i: int| 0 <= i < upto && i < img.len() ==> f.byte_at(i) == img[i]
    &&& forall|i: int| img.len() <= i < upto ==> f.byte_at(i) == ERASED_BYTE
}

/// `[from, to)` is erased and unwritten.
pub open spec fn blank_region(f: Flash, from: int, to: int) -> bool {
    forall|i: int| from <= i < to ==> !f.is_written(i) && f.byte_at(i) == ERASED_BYTE
}

/// Flash is unchanged from `f0` at every address from `from` on.
pub open spec fn untouched_from(f: Flash, f0: Flash, from: int) -> bool {
    forall|i: int|
        from <= i < f0.size() ==> f.is_written(i) == f0.is_written(i) && f.byte_at(i)
            == f0.byte_at(i)
}

/// The two sides kept in lockstep: what each Host phase guarantees of the
/// Device's phase, cursor and flash, for an image `img` over an initial
/// flash `f0`.
pub open spec fn exchange_inv(h: Host, d: Bootloader, img: Seq<u8>, f0: Flash) -> bool {
    &&& h.wf()
    &&& d.wf()
    &&& h.image() == img
    &&& d.sector_size() == h.sector_size()
    &&& d.chunk_size() == h.chunk_size()
    &&& d.flash().size() == f0.size()
    &&& match h.phase() {
        HostPhase::Init => {
            &&& d.phase() is Idle
            &&& h.cursor() == 0
            &&& d.flash() == f0
        },
        HostPhase::Erase => {
            &&& d.phase() is Started || d.phase() is Writing
            &&& d.image_len() == img.len()
            &&& d.cursor() == h.cursor()
            &&& done_region(d.flash(), img, h.cursor() as int)
            &&& untouched_from(d.flash(), f0, h.cursor() as int)
        },
        HostPhase::Write => {
            &&& d.phase() is Writing
            &&& d.image_len() == img.len()
            &&& d.cursor() == h.cursor()
            &&& h.sector_end() <= d.flash().size()
            &&& done_region(d.flash(), img, h.cursor() as int)
            &&& blank_region(d.flash(), h.cursor() as int, h.sector_end() as int)
            &&& untouched_from(d.flash(), f0, h.sector_end() as int)
        },
        HostPhase::Boot => {
            &&& d.phase() is Started || d.phase() is Writing
            &&& d.image_len() == img.len()
            &&& d.cursor() >= img.len()
            &&& h.cursor() == round_up(img.len() as int, h.sector_size() as int)
            &&& h.cursor() <= d.flash().size()
            &&& done_region(d.flash(), img, h.cursor() as int)
            &&& untouched_from(d.flash(), f0, h.cursor() as int)
        },
        HostPhase::Done => {
            &&& d.phase() is Booted
            &&& h.cursor() == round_up(img.len() as int, h.sector_size() as int)
            &&& h.cursor() <= d.flash().size()
            &&& done_region(d.flash(), img, h.cursor() as int)
            &&& untouched_from(d.flash(), f0, h.cursor() as int)
        },
        HostPhase::Failed => {
            &&& d.phase() is Aborted
            &&& round_up(img.len() as int, h.sector_size() as int) > d.flash().size()
        },
    }
}

/// Termination rank of the run: the Host's phases in the order they are
/// left behind.
pub open spec fn phase_rank(h: Host) -> int {
    match h.phase() {
        HostPhase::Init => 3,
        HostPhase::Erase => 2,
        HostPhase::Write => 2,
        HostPhase::Boot => 1,
        HostPhase::Done => 0,
        HostPhase::Failed => 0,
    }
}

/// Termination rank within the sector loop: how much image is left before
/// the current sector's end.
pub open spec fn sector_progress(h: Host) -> int {
    match h.phase() {
        HostPhase::Erase => h.image().len() - h.cursor() + 1,
        HostPhase::Write => h.image().len() + h.sector_size() - h.sector_end(),
        _ => 0,
    }
}

/// Termination rank within the chunk loop: how much of the current sector
/// is left.
pub open spec fn chunk_progress(h: Host) -> int {
    match h.phase() {
        HostPhase::Write => h.sector_end() - h.cursor(),
        _ => 0,
    }
}

/// Drives one whole update run to its end, delivering each command and its
/// acknowledgement over the (here direct) reliable link. On a Host-side
/// failure the Device is sent one best-effort `Abort` before the run
/// returns failure.
#[verifier::loop_isolation(false)]
pub fn run_exchange(host: &mut Host, dev: &mut Bootloader) -> (r: Result<(), ()>)
    requires
        old(host).wf(),
        old(dev).wf(),
        old(host).phase() is Init,
        old(dev).phase() is Idle,
        old(host).sector_size() == old(dev).sector_size(),
        old(host).chunk_size() == old(dev).chunk_size(),
    ensures
        final(host).wf(),
        final(dev).wf(),
        final(host).image() == old(host).image(),
        final(dev).flash().size() == old(dev).flash().size(),
        r is Ok <==> round_up(
            old(host).image().len() as int,
            old(host).sector_size() as int,
        ) <= old(dev).flash().size(),
        r is Ok ==> final(host).phase() is Done && final(dev).phase() is Booted,
        r is Ok ==> forall|i: int|
            0 <= i < old(host).image().len() ==> final(dev).flash().byte_at(i) == old(
                host,
            ).image()[i],
        r is Ok ==> forall|i: int|
            old(host).image().len() <= i < round_up(
                old(host).image().len() as int,
                old(host).sector_size() as int,
            ) ==> final(dev).flash().byte_at(i) == ERASED_BYTE,
        r is Ok ==> forall|i: int|
            round_up(old(host).image().len() as int, old(host).sector_size() as int) <= i < old(
                dev,
            ).flash().size() ==> final(dev).flash().byte_at(i) == old(dev).flash().byte_at(i)
                && final(dev).flash().is_written(i) == old(dev).flash().is_written(i),
        r is Err ==> final(host).phase() is Failed && final(dev).phase() is Aborted,
{
    let ghost img = old(host).image();
    let ghost f0 = old(dev).flash();
    loop
        invariant
            host.image() == img,
            host.sector_size() == old(host).sector_size(),
            host.chunk_size() == old(host).chunk_size(),
            exchange_inv(*host, *dev, img, f0),
        decreases phase_rank(*host), sector_progress(*host), chunk_progress(*host),
    {
        let ghost h0 = *host;
        let ghost d0 = *dev;
        let act = host.advance();
        let ghost h1 = *host;
        proof {
            let l = img.len() as int;
            let ss = h0.sector_size() as int;
            let ru = round_up(l, ss);
            lemma_round_up(l, ss);
            lemma_small_mod(0nat, ss as nat);
            if h1.phase() is Erase && h1.cursor() < ru {
                lemma_multiple_gap(h1.cursor() as int, ru, ss);
            }
            if h0.phase() is Write && h1.phase() is Boot {
                if h0.sector_end() < ru {
                    lemma_multiple_gap(h0.sector_end() as int, ru, ss);
                } else if ru < h0.sector_end() {
                    lemma_multiple_gap(ru, h0.sector_end() as int, ss);
                }
            }
            if h1.phase() is Write && h1.cursor() < h1.sector_end() {
                lemma_mod_chain(
                    h1.sector_end() as int,
                    h1.sector_size() as int,
                    h1.chunk_size() as int,
                );
                lemma_multiple_gap(
                    h1.cursor() as int,
                    h1.sector_end() as int,
                    h1.chunk_size() as int,
                );
            }
        }
        match act {
            HostAction::Done => {
                return Ok(());
            },
            HostAction::Failed => {
                let _ = dev.handle(&ToBootloader::Abort);
                return Err(());
            },
            HostAction::Send(msg) => {
                let reply = dev.handle(&msg);
                host.handle_reply(&reply);
            },
        }
    }
}

} // verus!
