//! A verified firmware-update protocol between a Host, which owns a firmware
//! image, and a Device, which owns flash storage. The Host drives the update
//! sector by sector and chunk by chunk; the Device validates every command
//! against its own state and geometry, enforces that flash is never written
//! before being erased, and answers each command with exactly one reply.
//! Any violation on either side aborts the run.

pub mod align;
pub mod crc;
pub mod device;
pub mod exchange;
pub mod flash;
pub mod host;
pub mod msg;
