//! Early bring-up layer for a BCM2837 (Raspberry Pi 3) kernel: register
//! apertures, mailbox framing, the property-tag client, the UART0 driver,
//! the console slot and the boot decisions.
//!
//! Every operation that touches a device is written as a decision over the
//! values read from its registers, and as the stores to perform; the volatile
//! accesses themselves are made by the caller.

pub mod platform;
pub mod util;
pub mod regapi;
pub mod mbox;
pub mod property;
pub mod uart0;
pub mod console;
pub mod boot;
