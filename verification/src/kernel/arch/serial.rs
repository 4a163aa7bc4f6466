//! 16550 UART serial ports: the register programming that initialises a
//! port, and the transmit-ready test.
use vstd::prelude::*;

verus! {

/// I/O base of the first serial port.
pub const COM1: u16 = 0x3F8;

/// Line status register bit: the transmit holding register is empty.
pub const LSR_TRANSMIT_EMPTY: u8 = 0x20;

/// The register writes, in order, that set up a UART at `base`: interrupts
/// off, divisor latch on, divisor 3 (38400 baud), 8N1 framing, FIFOs on and
/// cleared with a 14-byte threshold, and modem control with IRQs, RTS and
/// DSR.
pub open spec fn uart_init_sequence(base: u16) -> Seq<(u16, u8)> {
    seq![
        ((base + 1) as u16, 0x00u8),
        ((base + 3) as u16, 0x80u8),
        (base, 0x03u8),
        ((base + 1) as u16, 0x00u8),
        ((base + 3) as u16, 0x03u8),
        ((base + 2) as u16, 0xC7u8),
        ((base + 4) as u16, 0x0Bu8),
    ]
}

/// The writes of `uart_init_sequence` for the port at `base`.
pub fn uart_init_writes(base: u16) -> (r: Vec<(u16, u8)>)
    requires
        base + 4 <= u16::MAX,
    ensures
        r@ == uart_init_sequence(base),
{
    let mut w: Vec<(u16, u8)> = Vec::new();
    w.push((base + 1, 0x00));
    w.push((base + 3, 0x80));
    w.push((base + 0, 0x03));
    w.push((base + 1, 0x00));
    w.push((base + 3, 0x03));
    w.push((base + 2, 0xC7));
    w.push((base + 4, 0x0B));
    assert(w@ =~= uart_init_sequence(base));
    w
}

/// Whether a line status value says a byte can be sent.
pub fn transmit_ready(line_status: u8) -> (r: bool)
    ensures
        r == (line_status & LSR_TRANSMIT_EMPTY != 0),
{
    (line_status & LSR_TRANSMIT_EMPTY) != 0
}

/// A serial port at an I/O base.
pub struct SerialPort {
    port: u16,
}

impl SerialPort {
    /// The port's I/O base.
    pub closed spec fn base(&self) -> u16 {
        self.port
    }

    /// The serial port at `port`.
    pub fn new(port: u16) -> (r: SerialPort)
        ensures
            r.base() == port,
    {
        SerialPort { port }
    }

    /// The port's I/O base.
    pub fn port(&self) -> (r: u16)
        ensures
            r == self.base(),
    {
        self.port
    }

    /// The register writes that initialise this port.
    pub fn init_writes(&self) -> (r: Vec<(u16, u8)>)
        requires
            self.base() + 4 <= u16::MAX,
        ensures
            r@ == uart_init_sequence(self.base()),
    {
        uart_init_writes(self.port)
    }

    /// The port's line status register.
    pub fn line_status_port(&self) -> (r: u16)
        requires
            self.base() + 5 <= u16::MAX,
        ensures
            r == self.base() + 5,
    {
        self.port + 5
    }
}

} // verus!
