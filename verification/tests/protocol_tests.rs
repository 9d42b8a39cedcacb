use bootloader::crc::crc32;
use bootloader::device::Bootloader;
use bootloader::device::DevicePhase;
use bootloader::exchange::run_exchange;
use bootloader::flash::Flash;
use bootloader::host::Host;
use bootloader::host::HostAction;
use bootloader::host::HostPhase;
use bootloader::msg::FromBootloader;
use bootloader::msg::ToBootloader;

const SECTOR: usize = 4096;
const CHUNK: usize = 256;
const CAPACITY: usize = 32768;

fn test_image(len: usize) -> Vec<u8> {
    (0..len).map(|i| (i * 7 + 3) as u8).collect()
}

fn chunk_with_tag(addr: usize, data: Vec<u8>) -> ToBootloader {
    let crc = crc32(&data);
    ToBootloader::WriteData { addr, data, crc }
}

#[test]
fn full_run_writes_image_and_leaves_rest_untouched() {
    // 15 KiB image, 4096-byte sectors, 256-byte chunks, 32 KiB capacity.
    let image = test_image(15360);
    let mut host = Host::new(image.clone(), SECTOR, CHUNK);
    let mut dev = Bootloader::new(CAPACITY, SECTOR, CHUNK);
    let r = run_exchange(&mut host, &mut dev);
    assert!(r.is_ok());
    assert_eq!(host.current_phase(), HostPhase::Done);
    assert_eq!(dev.current_phase(), DevicePhase::Booted);
    let written = dev.read_flash(0, 15360).unwrap();
    assert_eq!(written, image);
    // The tail of the last written sector is padding, erased value.
    let pad = dev.read_flash(15360, 16384 - 15360).unwrap();
    assert!(pad.iter().all(|&b| b == 0xFF));
    // Beyond the rounded-up image: untouched, still erased.
    let rest = dev.read_flash(16384, CAPACITY - 16384).unwrap();
    assert!(rest.iter().all(|&b| b == 0xFF));
}

#[test]
fn empty_image_run_succeeds() {
    let mut host = Host::new(Vec::new(), SECTOR, CHUNK);
    let mut dev = Bootloader::new(CAPACITY, SECTOR, CHUNK);
    let r = run_exchange(&mut host, &mut dev);
    assert!(r.is_ok());
    assert_eq!(dev.current_phase(), DevicePhase::Booted);
    let all = dev.read_flash(0, CAPACITY).unwrap();
    assert!(all.iter().all(|&b| b == 0xFF));
}

#[test]
fn partial_final_chunk_is_padded() {
    // 300 bytes: one full chunk, one padded chunk, the rest of the sector
    // skipped.
    let image = test_image(300);
    let mut host = Host::new(image.clone(), SECTOR, CHUNK);
    let mut dev = Bootloader::new(8192, SECTOR, CHUNK);
    assert!(run_exchange(&mut host, &mut dev).is_ok());
    assert_eq!(dev.read_flash(0, 300).unwrap(), image);
    let pad = dev.read_flash(300, 512 - 300).unwrap();
    assert!(pad.iter().all(|&b| b == 0xFF));
    let skipped = dev.read_flash(512, SECTOR - 512).unwrap();
    assert!(skipped.iter().all(|&b| b == 0xFF));
}

#[test]
fn oversized_image_aborts_both_sides() {
    // Image larger than the Device's capacity: the Device rejects `Start`,
    // the Host fails and notifies, the Device never boots.
    let image = test_image(40000);
    let mut host = Host::new(image, SECTOR, CHUNK);
    let mut dev = Bootloader::new(CAPACITY, SECTOR, CHUNK);
    let r = run_exchange(&mut host, &mut dev);
    assert!(r.is_err());
    assert_eq!(host.current_phase(), HostPhase::Failed);
    assert_eq!(dev.current_phase(), DevicePhase::Aborted);
}

#[test]
fn unaligned_tail_sector_aborts_mid_run() {
    // The image itself fits the capacity, so `Start` is accepted, but its
    // last sector rounds up past the capacity: the run aborts at that
    // sector's erase, keeping what was written before.
    let image = test_image(30000);
    let mut host = Host::new(image.clone(), SECTOR, CHUNK);
    let mut dev = Bootloader::new(30000, SECTOR, CHUNK);
    let r = run_exchange(&mut host, &mut dev);
    assert!(r.is_err());
    assert_eq!(host.current_phase(), HostPhase::Failed);
    assert_eq!(dev.current_phase(), DevicePhase::Aborted);
    // Seven whole sectors went through before the failing erase.
    let written = dev.read_flash(0, 7 * SECTOR).unwrap();
    assert_eq!(written, image[0..7 * SECTOR].to_vec());
}

#[test]
fn start_beyond_capacity_rejected() {
    let mut dev = Bootloader::new(CAPACITY, SECTOR, CHUNK);
    let reply = dev.handle(&ToBootloader::Start { total_size: 40000 });
    assert!(matches!(reply, FromBootloader::ErrorReset));
    assert_eq!(dev.current_phase(), DevicePhase::Aborted);
}

#[test]
fn write_without_erase_rejected() {
    // A chunk right after `Start`, without any `EraseSector`, is rejected.
    let mut dev = Bootloader::new(CAPACITY, SECTOR, CHUNK);
    let reply = dev.handle(&ToBootloader::Start { total_size: 1024 });
    assert!(matches!(reply, FromBootloader::Starting));
    let reply = dev.handle(&chunk_with_tag(256, vec![0xAB; CHUNK]));
    assert!(matches!(reply, FromBootloader::ErrorReset));
    assert_eq!(dev.current_phase(), DevicePhase::Aborted);
}

#[test]
fn chunk_at_wrong_address_rejected() {
    // The cursor expects address 0 first.
    let mut dev = Bootloader::new(CAPACITY, SECTOR, CHUNK);
    dev.handle(&ToBootloader::Start { total_size: 1024 });
    let reply = dev.handle(&ToBootloader::EraseSector { addr: 0, len: SECTOR });
    assert!(matches!(reply, FromBootloader::SectorErased));
    let reply = dev.handle(&chunk_with_tag(256, vec![0xAB; CHUNK]));
    assert!(matches!(reply, FromBootloader::ErrorReset));
    assert_eq!(dev.current_phase(), DevicePhase::Aborted);
}

#[test]
fn corrupted_tag_rejected_before_write() {
    let mut dev = Bootloader::new(CAPACITY, SECTOR, CHUNK);
    dev.handle(&ToBootloader::Start { total_size: 1024 });
    dev.handle(&ToBootloader::EraseSector { addr: 0, len: SECTOR });
    let data = vec![0x55u8; CHUNK];
    let bad_crc = crc32(&data) ^ 0xDEAD;
    let reply = dev.handle(&ToBootloader::WriteData { addr: 0, data, crc: bad_crc });
    assert!(matches!(reply, FromBootloader::ErrorReset));
    assert_eq!(dev.current_phase(), DevicePhase::Aborted);
    // Nothing was written at that address.
    let bytes = dev.read_flash(0, CHUNK).unwrap();
    assert!(bytes.iter().all(|&b| b == 0xFF));
}

#[test]
fn stale_chunk_address_always_rejected() {
    // Re-sending a chunk below the cursor is rejected even though the data
    // and tag are valid.
    let mut dev = Bootloader::new(CAPACITY, SECTOR, CHUNK);
    dev.handle(&ToBootloader::Start { total_size: 1024 });
    dev.handle(&ToBootloader::EraseSector { addr: 0, len: SECTOR });
    let reply = dev.handle(&chunk_with_tag(0, vec![0x11; CHUNK]));
    assert!(matches!(reply, FromBootloader::ChunkWritten));
    let reply = dev.handle(&chunk_with_tag(0, vec![0x22; CHUNK]));
    assert!(matches!(reply, FromBootloader::ErrorReset));
    assert_eq!(dev.current_phase(), DevicePhase::Aborted);
    // The first write stands; no silent overwrite happened.
    let bytes = dev.read_flash(0, CHUNK).unwrap();
    assert!(bytes.iter().all(|&b| b == 0x11));
}

#[test]
fn chunk_addresses_advance_by_exactly_one_chunk() {
    let mut dev = Bootloader::new(CAPACITY, SECTOR, CHUNK);
    dev.handle(&ToBootloader::Start { total_size: 1024 });
    dev.handle(&ToBootloader::EraseSector { addr: 0, len: SECTOR });
    let reply = dev.handle(&chunk_with_tag(0, vec![0x01; CHUNK]));
    assert!(matches!(reply, FromBootloader::ChunkWritten));
    // Skipping ahead by one chunk is rejected...
    let reply = dev.handle(&chunk_with_tag(2 * CHUNK, vec![0x02; CHUNK]));
    assert!(matches!(reply, FromBootloader::ErrorReset));

    // ...while the exact successor address is accepted.
    let mut dev = Bootloader::new(CAPACITY, SECTOR, CHUNK);
    dev.handle(&ToBootloader::Start { total_size: 1024 });
    dev.handle(&ToBootloader::EraseSector { addr: 0, len: SECTOR });
    dev.handle(&chunk_with_tag(0, vec![0x01; CHUNK]));
    let reply = dev.handle(&chunk_with_tag(CHUNK, vec![0x02; CHUNK]));
    assert!(matches!(reply, FromBootloader::ChunkWritten));
}

#[test]
fn double_write_faults_on_flash() {
    let mut flash = Flash::new(1024);
    assert!(flash.erase_sector(0, 1024).is_ok());
    assert!(flash.write_chunk(0, &[1, 2, 3, 4]).is_ok());
    // Writing written bytes is a fault and changes nothing.
    assert!(flash.write_chunk(0, &[9, 9, 9, 9]).is_err());
    assert_eq!(flash.read(0, 4).unwrap(), vec![1, 2, 3, 4]);
    // After a fresh erase the range is writable again.
    assert!(flash.erase_sector(0, 1024).is_ok());
    assert!(flash.write_chunk(0, &[9, 9, 9, 9]).is_ok());
    assert_eq!(flash.read(0, 4).unwrap(), vec![9, 9, 9, 9]);
}

#[test]
fn flash_range_checks() {
    let mut flash = Flash::new(512);
    assert!(flash.erase_sector(0, 1024).is_err());
    assert!(flash.erase_sector(512, 1).is_err());
    assert!(flash.read(500, 13).is_err());
    assert!(flash.read(500, 12).is_ok());
    assert!(flash.write_chunk(510, &[0, 0, 0]).is_err());
}

#[test]
fn erase_with_wrong_geometry_rejected() {
    let mut dev = Bootloader::new(CAPACITY, SECTOR, CHUNK);
    dev.handle(&ToBootloader::Start { total_size: 1024 });
    // Wrong length.
    let reply = dev.handle(&ToBootloader::EraseSector { addr: 0, len: 1024 });
    assert!(matches!(reply, FromBootloader::ErrorReset));
    assert_eq!(dev.current_phase(), DevicePhase::Aborted);

    // Misaligned address.
    let mut dev = Bootloader::new(CAPACITY, SECTOR, CHUNK);
    dev.handle(&ToBootloader::Start { total_size: 1024 });
    let reply = dev.handle(&ToBootloader::EraseSector { addr: 100, len: SECTOR });
    assert!(matches!(reply, FromBootloader::ErrorReset));

    // Out of range.
    let mut dev = Bootloader::new(CAPACITY, SECTOR, CHUNK);
    dev.handle(&ToBootloader::Start { total_size: 1024 });
    let reply = dev.handle(&ToBootloader::EraseSector { addr: CAPACITY, len: SECTOR });
    assert!(matches!(reply, FromBootloader::ErrorReset));
}

#[test]
fn boot_before_image_complete_rejected() {
    let mut dev = Bootloader::new(CAPACITY, SECTOR, CHUNK);
    dev.handle(&ToBootloader::Start { total_size: 1024 });
    let reply = dev.handle(&ToBootloader::Boot);
    assert!(matches!(reply, FromBootloader::ErrorReset));
    assert_eq!(dev.current_phase(), DevicePhase::Aborted);
}

#[test]
fn abort_notification_aborts_device() {
    let mut dev = Bootloader::new(CAPACITY, SECTOR, CHUNK);
    dev.handle(&ToBootloader::Start { total_size: 1024 });
    let reply = dev.handle(&ToBootloader::Abort);
    assert!(matches!(reply, FromBootloader::ErrorReset));
    assert_eq!(dev.current_phase(), DevicePhase::Aborted);
}

#[test]
fn aborted_device_processes_nothing_further() {
    let mut dev = Bootloader::new(CAPACITY, SECTOR, CHUNK);
    dev.handle(&ToBootloader::Abort);
    assert_eq!(dev.current_phase(), DevicePhase::Aborted);
    let reply = dev.handle(&ToBootloader::Start { total_size: 16 });
    assert!(matches!(reply, FromBootloader::ErrorReset));
    assert_eq!(dev.current_phase(), DevicePhase::Aborted);
}

#[test]
fn host_fails_on_unexpected_reply() {
    let image = test_image(1024);
    let mut host = Host::new(image, SECTOR, CHUNK);
    let act = host.advance();
    match act {
        HostAction::Send(ToBootloader::Start { total_size }) => {
            assert_eq!(total_size, 1024);
        },
        _ => panic!("the first command must announce the update"),
    }
    host.handle_reply(&FromBootloader::ErrorReset);
    assert_eq!(host.current_phase(), HostPhase::Failed);
    let act = host.advance();
    assert!(matches!(act, HostAction::Failed));
}

#[test]
fn host_sends_erase_then_chunks_in_order() {
    let image = test_image(512);
    let mut host = Host::new(image.clone(), SECTOR, CHUNK);
    host.advance();
    host.handle_reply(&FromBootloader::Starting);
    let act = host.advance();
    match act {
        HostAction::Send(ToBootloader::EraseSector { addr, len }) => {
            assert_eq!(addr, 0);
            assert_eq!(len, SECTOR);
        },
        _ => panic!("an erase must precede the first chunk"),
    }
    host.handle_reply(&FromBootloader::SectorErased);
    let act = host.advance();
    match act {
        HostAction::Send(ToBootloader::WriteData { addr, data, crc }) => {
            assert_eq!(addr, 0);
            assert_eq!(data, image[0..CHUNK].to_vec());
            assert_eq!(crc, crc32(&data));
        },
        _ => panic!("the first chunk must follow the erase"),
    }
}
