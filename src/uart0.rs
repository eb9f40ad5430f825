//! The UART0 (PL011) driver: its initialisation as an ordered list of
//! register stores, and the polled transmit and receive decisions.
use vstd::prelude::*;
use crate::mbox::PROPERTY_TAGS_VC;
use crate::property::{padded, set_clock_rate, MboxError, PropertyCall, CLOCK_UART, SET_CLOCK_RATE};
use crate::regapi::RegFile;
use vstd::string::StringSliceAdditionalSpecFns;

verus! {

/// GPIO register: pull-up/down control.
pub const GPPUD: u32 = 0x94;

/// GPIO register: pull-up/down clock for pins 0 to 31.
pub const GPPUD_CLK0: u32 = 0x98;

/// UART register: data.
pub const DR: u32 = 0x00;

/// UART register: flags.
pub const FR: u32 = 0x18;

/// UART register: integer baud divisor.
pub const IBRD: u32 = 0x24;

/// UART register: fractional baud divisor.
pub const FBRD: u32 = 0x28;

/// UART register: line control.
pub const LCRH: u32 = 0x2C;

/// UART register: control.
pub const CR: u32 = 0x30;

/// `FR` bit: the receive FIFO is empty.
pub const FR_RXFE: u32 = 0x10;

/// `FR` bit: the transmit FIFO is full.
pub const FR_TXFF: u32 = 0x20;

/// Pins 14 and 15 in `GPPUD_CLK0`.
pub const PINS_14_15: u32 = 0xC000;

/// `LCRH`: FIFOs on (bit 4), 8-bit words (bits 5 and 6).
pub const LCRH_FIFO_8BIT: u32 = 0x70;

/// `CR`: UART on (bit 0), transmit on (bit 8), receive on (bit 9).
pub const CR_UART_TX_RX: u32 = 0x301;

/// Integer baud divisor for 115200 baud from a 3 MHz clock.
pub const BAUD_IBRD: u32 = 1;

/// Fractional baud divisor for 115200 baud from a 3 MHz clock.
pub const BAUD_FBRD: u32 = 40;

/// The UART reference clock rate, in Hz.
pub const UART_CLOCK_HZ: u32 = 3_000_000;

/// Core cycles to wait for the GPIO pull state to settle.
pub const SETTLE_CYCLES: u32 = 150;

/// Which of the driver's two apertures a register belongs to.
#[derive(Clone, Copy, Debug, PartialEq, Eq, Hash, Structural)]
pub enum Aperture {
    Uart,
    Gpio,
}

/// A 32-bit store of `value` to the register at `offset` in `aperture`.
#[derive(Clone, Copy, Debug, PartialEq, Eq, Structural)]
pub struct RegStore {
    pub aperture: Aperture,
    pub offset: u32,
    pub value: u32,
}

/// A store of the initialisation, and the core cycles to wait after it.
#[derive(Clone, Copy, Debug, PartialEq, Eq, Structural)]
pub struct InitStep {
    pub store: RegStore,
    pub settle: u32,
}

/// The values of the driver's registers, by aperture and offset.
pub type RegState = Map<(Aperture, u32), u32>;

/// The register state after `stores`, in order, on `regs`.
pub open spec fn apply_stores(regs: RegState, stores: Seq<RegStore>) -> RegState
    decreases stores.len(),
{
    if stores.len() == 0 {
        regs
    } else {
        let s = stores.last();
        apply_stores(regs, stores.drop_last()).insert((s.aperture, s.offset), s.value)
    }
}

/// The store of `value` to the register at `offset` in `aperture`.
pub open spec fn store(aperture: Aperture, offset: u32, value: u32) -> RegStore {
    RegStore { aperture, offset, value }
}

/// Every register store of the initialisation, in order: UART off; GPIO
/// pull state off for pins 14 and 15; then, once the UART clock is set,
/// the baud divisors, the line control and UART, transmit and receive on.
pub open spec fn init_stores() -> Seq<RegStore> {
    seq![
        store(Aperture::Uart, CR, 0),
        store(Aperture::Gpio, GPPUD, 0),
        store(Aperture::Gpio, GPPUD_CLK0, PINS_14_15),
        store(Aperture::Gpio, GPPUD, 0),
        store(Aperture::Uart, IBRD, BAUD_IBRD),
        store(Aperture::Uart, FBRD, BAUD_FBRD),
        store(Aperture::Uart, LCRH, LCRH_FIFO_8BIT),
        store(Aperture::Uart, CR, CR_UART_TX_RX),
    ]
}

/// What the initialisation yields for the outcome of the UART clock call.
pub open spec fn clock_check(reply: Result<u32, MboxError>) -> Result<(), MboxError> {
    match reply {
        Err(e) => Err(e),
        Ok(rate) => if rate == UART_CLOCK_HZ {
            Ok(())
        } else {
            Err(MboxError::ClockProgrammingFailed)
        },
    }
}

/// The UART0 driver: the UART aperture and the GPIO aperture.
#[derive(Clone, Copy, Debug, PartialEq, Eq, Structural)]
pub struct Uart0 {
    uart: RegFile,
    gpio: RegFile,
}

impl Uart0 {
    pub closed spec fn uart_spec(&self) -> RegFile {
        self.uart
    }

    pub closed spec fn gpio_spec(&self) -> RegFile {
        self.gpio
    }

    /// The driver on the UART aperture `uart` and the GPIO aperture `gpio`.
    pub fn new(uart: RegFile, gpio: RegFile) -> (r: Uart0)
        ensures
            r.uart_spec() == uart,
            r.gpio_spec() == gpio,
    {
        Uart0 { uart, gpio }
    }

    /// The UART aperture.
    pub fn uart(&self) -> (r: RegFile)
        ensures
            r == self.uart_spec(),
    {
        self.uart
    }

    /// The GPIO aperture.
    pub fn gpio(&self) -> (r: RegFile)
        ensures
            r == self.gpio_spec(),
    {
        self.gpio
    }

    /// The first part of the initialisation, up to the UART clock call:
    /// the first four stores of `init_stores()`, with the settle wait
    /// after the two stores that precede a pull-state change.
    pub fn init_prelude() -> (r: Vec<InitStep>)
        ensures
            r@.len() == 4,
            forall|i: int| 0 <= i < 4 ==> #[trigger] r@[i].store == init_stores()[i],
            r@[0].settle == 0,
            r@[1].settle == SETTLE_CYCLES,
            r@[2].settle == SETTLE_CYCLES,
            r@[3].settle == 0,
    {
        let r = vec![
            InitStep { store: RegStore { aperture: Aperture::Uart, offset: CR, value: 0 }, settle: 0 },
            InitStep { store: RegStore { aperture: Aperture::Gpio, offset: GPPUD, value: 0 }, settle: SETTLE_CYCLES },
            InitStep { store: RegStore { aperture: Aperture::Gpio, offset: GPPUD_CLK0, value: PINS_14_15 }, settle: SETTLE_CYCLES },
            InitStep { store: RegStore { aperture: Aperture::Gpio, offset: GPPUD, value: 0 }, settle: 0 },
        ];
        r
    }

    /// The property call that sets the UART clock to 3 MHz, turbo kept.
    pub fn uart_clock_call() -> (r: PropertyCall)
        ensures
            r.channel == PROPERTY_TAGS_VC,
            r.tag == SET_CLOCK_RATE,
            r.payload.buffer@ == padded(seq![CLOCK_UART, UART_CLOCK_HZ, 0u32]),
            r.payload.len == 12,
    {
        set_clock_rate(CLOCK_UART, UART_CLOCK_HZ, false)
    }

    /// Whether the initialisation may go on after the UART clock call: the
    /// call's error; `ClockProgrammingFailed` where the firmware set another
    /// rate than 3 MHz; else `Ok`. Any error is fatal to the initialisation.
    pub fn check_uart_clock(reply: Result<u32, MboxError>) -> (r: Result<(), MboxError>)
        ensures
            r == clock_check(reply),
    {
        match reply {
            Err(e) => Err(e),
            Ok(rate) => {
                if rate == UART_CLOCK_HZ {
                    Ok(())
                } else {
                    Err(MboxError::ClockProgrammingFailed)
                }
            },
        }
    }

    /// The rest of the initialisation, after the UART clock is set: the
    /// last four stores of `init_stores()`.
    pub fn init_finish() -> (r: Vec<RegStore>)
        ensures
            r@ == init_stores().subrange(4, 8),
    {
        let r = vec![
            RegStore { aperture: Aperture::Uart, offset: IBRD, value: BAUD_IBRD },
            RegStore { aperture: Aperture::Uart, offset: FBRD, value: BAUD_FBRD },
            RegStore { aperture: Aperture::Uart, offset: LCRH, value: LCRH_FIFO_8BIT },
            RegStore { aperture: Aperture::Uart, offset: CR, value: CR_UART_TX_RX },
        ];
        assert(r@ =~= init_stores().subrange(4, 8));
        r
    }

    /// One round of the transmit wait, given the `FR` value just loaded:
    /// `true` while the transmit FIFO is full (load `FR` again).
    pub fn wait_for_space(fr: u32) -> (r: bool)
        ensures
            r == (fr & FR_TXFF != 0),
    {
        fr & FR_TXFF != 0
    }

    /// One round of the receive wait, given the `FR` value just loaded:
    /// `true` while the receive FIFO is empty (load `FR` again).
    pub fn wait_for_data(fr: u32) -> (r: bool)
        ensures
            r == (fr & FR_RXFE != 0),
    {
        fr & FR_RXFE != 0
    }

    /// The store that sends `c`, once `wait_for_space` is over.
    pub fn putc(&self, c: u8) -> (r: RegStore)
        ensures
            r == store(Aperture::Uart, DR, c as u32),
    {
        RegStore { aperture: Aperture::Uart, offset: DR, value: c as u32 }
    }

    /// The byte received, given the `DR` value loaded once
    /// `wait_for_data` is over: its low eight bits.
    pub fn getc(&self, dr: u32) -> (r: u8)
        ensures
            r == (dr & 0xFFu32) as u8,
    {
        (dr & 0xFF) as u8
    }

    /// The stores that send the bytes of `s`, in order; each waits for
    /// `wait_for_space`.
    pub fn puts(&self, s: &str) -> (r: Vec<RegStore>)
        ensures
            r@ == data_stores(s.spec_bytes()),
    {
        put_bytes(s.as_bytes())
    }
}

/// The stores of `bytes` to `DR`, in order.
pub open spec fn data_stores(bytes: Seq<u8>) -> Seq<RegStore> {
    bytes.map_values(|b: u8| store(Aperture::Uart, DR, b as u32))
}

/// The stores of `bytes` to `DR`, in order.
pub fn put_bytes(bytes: &[u8]) -> (r: Vec<RegStore>)
    ensures
        r@ == data_stores(bytes@),
{
    let mut r: Vec<RegStore> = Vec::new();
    let mut i: usize = 0;
    while i < bytes.len()
        invariant
            i <= bytes@.len(),
            r@ == data_stores(bytes@.subrange(0, i as int)),
        decreases bytes@.len() - i,
    {
        r.push(RegStore { aperture: Aperture::Uart, offset: DR, value: bytes[i] as u32 });
        i += 1;
        assert(data_stores(bytes@.subrange(0, i as int)) =~= data_stores(bytes@.subrange(0, i - 1)).push(
            store(Aperture::Uart, DR, bytes@[i - 1] as u32),
        ));
    }
    assert(bytes@.subrange(0, bytes@.len() as int) =~= bytes@);
    r
}

/// Initialising twice leaves the registers as initialising once does.
pub proof fn lemma_init_idempotent(regs: RegState)
    ensures
        apply_stores(apply_stores(regs, init_stores()), init_stores()) == apply_stores(regs, init_stores()),
{
    reveal_with_fuel(apply_stores, 9);
    assert(apply_stores(apply_stores(regs, init_stores()), init_stores()) =~= apply_stores(regs, init_stores()));
}

} // verus!
