use vstd::prelude::*;

verus! {

/// Physical base of the peripheral window.
pub const MMIO_BASE: usize = 0x3F00_0000;

/// Physical base of the GPIO aperture.
pub const GPIO_BASE: usize = 0x3F20_0000;

/// Physical base of the UART0 (PL011) aperture.
pub const UART0_BASE: usize = 0x3F20_1000;

/// Physical base of the VideoCore mailbox aperture.
pub const MBOX_BASE: usize = 0x3F00_B880;

} // verus!
