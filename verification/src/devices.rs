//! The closed set of emulated port-I/O devices the dispatch layer owns.
//!
//! The registry treats a device as a capability: a coverage predicate over
//! its address space plus read and write operations. Device internals are
//! not this layer's subject, so each model below carries exactly the state
//! the dispatch contracts need — a serial port records the bytes the guest
//! transmits, a PIC holds its interrupt mask, the chipset bundle keeps the
//! few legacy-port latches whose bits interact (which is why its ports form
//! one device rather than four), and the inert ranges the guest merely
//! probes read as zero. Every operation has an exact specification-level
//! transition over the device's view, so dispatch proofs can follow a value
//! all the way into a device and back.

use vstd::prelude::*;

use crate::err::HvResult;

verus! {

/// A 16550-style serial port: eight registers at `base`. Transmitted bytes
/// (writes to the transmit-holding register at `base`) are recorded; the
/// line-status register reports the transmitter idle and empty, so a guest
/// never stalls waiting to send.
#[derive(Debug)]
pub struct Uart16550 {
    /// First port of the eight-register window.
    pub base: u16,
    /// Every byte the guest has written to the transmit-holding register.
    pub tx: Vec<u8>,
}

/// Mathematical view of a serial port: the transmit record as a sequence.
pub struct UartView {
    /// First port of the eight-register window.
    pub base: u16,
    /// The transmitted bytes, oldest first.
    pub tx: Seq<u8>,
}

/// Line-status value a guest reads: transmit-holding register empty and
/// transmitter idle.
pub const UART_LSR_IDLE: u32 = 0x60;

impl View for Uart16550 {
    type V = UartView;

    open spec fn view(&self) -> UartView {
        UartView { base: self.base, tx: self.tx@ }
    }
}

impl UartView {
    /// Whether `port` lies in this port window.
    pub open spec fn spec_covers(self, port: u16) -> bool {
        self.base <= port < self.base + 8
    }

    /// The value a read of `port` returns.
    pub open spec fn spec_read(self, port: u16) -> u32 {
        if port == self.base + 5 {
            UART_LSR_IDLE
        } else {
            0
        }
    }

    /// The port state after a write of `value` to `port`.
    pub open spec fn spec_write(self, port: u16, value: u32) -> UartView {
        if port == self.base {
            UartView { tx: self.tx.push(#[verifier::truncate] ((value & 0xff) as u8)), ..self }
        } else {
            self
        }
    }
}

impl Uart16550 {
    /// A serial port at `base` that has transmitted nothing.
    pub fn new(base: u16) -> (r: Uart16550)
        ensures
            r.base == base,
            r.tx@ == Seq::<u8>::empty(),
    {
        Uart16550 { base, tx: Vec::new() }
    }
}

/// One 8259A interrupt controller: a command port at `base` and a data port
/// at `base + 1`. Only the interrupt-mask register is modeled; it is what
/// the periodic tick consults before injecting the legacy timer vector.
#[derive(Clone, Copy, Debug, PartialEq, Eq, Structural)]
pub struct I8259Pic {
    /// The command port; the data port is one above.
    pub base: u16,
    /// Interrupt-mask register: a set bit masks the corresponding line.
    pub mask: u8,
}

impl I8259Pic {
    /// Whether `port` is the command or data port.
    pub open spec fn spec_covers(self, port: u16) -> bool {
        self.base <= port < self.base + 2
    }

    /// The value a read of `port` returns: the mask from the data port,
    /// zero from the command port.
    pub open spec fn spec_read(self, port: u16) -> u32 {
        if port == self.base + 1 {
            self.mask as u32
        } else {
            0
        }
    }

    /// The controller after a write: the data port sets the mask, command
    /// writes are accepted and ignored.
    pub open spec fn spec_write(self, port: u16, value: u32) -> I8259Pic {
        if port == self.base + 1 {
            I8259Pic { mask: #[verifier::truncate] ((value & 0xff) as u8), ..self }
        } else {
            self
        }
    }

    /// A controller at `base` with every line masked.
    pub fn new(base: u16) -> (r: I8259Pic)
        ensures
            r.base == base,
            r.mask == 0xffu8,
    {
        I8259Pic { base, mask: 0xff }
    }
}

/// The classic one-byte debug port: writes are accepted and dropped, reads
/// return zero.
#[derive(Clone, Copy, Debug, PartialEq, Eq, Structural)]
pub struct DebugPort {
    /// The single covered port.
    pub base: u16,
}

/// An inert port range the guest probes but that need not function: reads
/// return zero, writes are dropped.
#[derive(Clone, Copy, Debug, PartialEq, Eq, Structural)]
pub struct DummyPort {
    /// First covered port.
    pub base: u16,
    /// Number of covered ports.
    pub len: u16,
}

impl DummyPort {
    /// Whether `port` lies in the inert range.
    pub open spec fn spec_covers(self, port: u16) -> bool {
        self.base <= port < self.base + self.len
    }
}

/// The conflict-prone legacy chipset ports behind one shared state: system
/// control ports A (0x92) and B (0x61), the CMOS index/data pair
/// (0x70/0x71) whose index's top bit also masks NMI delivery, and the PIT
/// counter ports (0x40–0x43). Because these ports interact through shared
/// bits they form one device with one state, not four independent ones.
#[derive(Clone, Copy, Debug, PartialEq, Eq, Structural)]
pub struct Bundle {
    /// System control port A latch.
    pub system_control_a: u8,
    /// System control port B latch.
    pub system_control_b: u8,
    /// CMOS index latch; bit 7 is the NMI-disable bit.
    pub cmos_index: u8,
}

impl Bundle {
    /// Whether `port` belongs to any of the bundled legacy ranges.
    pub open spec fn spec_covers(self, port: u16) -> bool {
        ||| port == 0x92
        ||| port == 0x61
        ||| 0x70 <= port < 0x72
        ||| 0x40 <= port < 0x44
    }

    /// The value a read returns: the stored latch for the latched ports,
    /// zero for the CMOS data and PIT counter ports.
    pub open spec fn spec_read(self, port: u16) -> u32 {
        if port == 0x92 {
            self.system_control_a as u32
        } else if port == 0x61 {
            self.system_control_b as u32
        } else if port == 0x70 {
            self.cmos_index as u32
        } else {
            0
        }
    }

    /// The bundle after a write: the latched ports store the low byte,
    /// writes to the CMOS data and PIT counter ports are dropped.
    pub open spec fn spec_write(self, port: u16, value: u32) -> Bundle {
        if port == 0x92 {
            Bundle { system_control_a: #[verifier::truncate] ((value & 0xff) as u8), ..self }
        } else if port == 0x61 {
            Bundle { system_control_b: #[verifier::truncate] ((value & 0xff) as u8), ..self }
        } else if port == 0x70 {
            Bundle { cmos_index: #[verifier::truncate] ((value & 0xff) as u8), ..self }
        } else {
            self
        }
    }

    /// A bundle with all latches clear.
    pub fn new() -> (r: Bundle)
        ensures
            r.system_control_a == 0u8,
            r.system_control_b == 0u8,
            r.cmos_index == 0u8,
    {
        Bundle { system_control_a: 0, system_control_b: 0, cmos_index: 0 }
    }
}

/// The PCI host bridge's configuration-access ports (0xcf8–0xcff). Only the
/// address latch is modeled; configuration-space emulation beyond range
/// lookup is out of scope, so data reads answer "no device".
#[derive(Clone, Copy, Debug, PartialEq, Eq, Structural)]
pub struct PciConfigPorts {
    /// The configuration-address latch written at 0xcf8.
    pub config_address: u32,
}

impl PciConfigPorts {
    /// Whether `port` is one of the configuration-access ports.
    pub open spec fn spec_covers(self, port: u16) -> bool {
        0xcf8 <= port < 0xd00
    }

    /// The value a read returns: the address latch at 0xcf8, "no device"
    /// (all bits set) at the data port, zero elsewhere.
    pub open spec fn spec_read(self, port: u16) -> u32 {
        if port == 0xcf8 {
            self.config_address
        } else if port == 0xcfc {
            0xffff_ffff
        } else {
            0
        }
    }

    /// The latch after a write: 0xcf8 stores the address, data writes are
    /// dropped.
    pub open spec fn spec_write(self, port: u16, value: u32) -> PciConfigPorts {
        if port == 0xcf8 {
            PciConfigPorts { config_address: value }
        } else {
            self
        }
    }
}

/// A port-I/O capable device: the coverage predicate plus read and write,
/// each with an exact specification-level transition over its view.
#[derive(Debug)]
pub enum PortDevice {
    /// A 16550-style serial port.
    Uart(Uart16550),
    /// An 8259A interrupt controller.
    Pic(I8259Pic),
    /// The one-byte debug port.
    Dbg(DebugPort),
    /// The legacy chipset port bundle.
    Bundle(Bundle),
    /// An inert probed range.
    Dummy(DummyPort),
    /// The PCI host bridge's configuration ports.
    PciConfig(PciConfigPorts),
}

/// Mathematical view of a port device.
pub enum PortDeviceView {
    /// A 16550-style serial port.
    Uart(UartView),
    /// An 8259A interrupt controller.
    Pic(I8259Pic),
    /// The one-byte debug port.
    Dbg(DebugPort),
    /// The legacy chipset port bundle.
    Bundle(Bundle),
    /// An inert probed range.
    Dummy(DummyPort),
    /// The PCI host bridge's configuration ports.
    PciConfig(PciConfigPorts),
}

impl View for PortDevice {
    type V = PortDeviceView;

    open spec fn view(&self) -> PortDeviceView {
        match self {
            PortDevice::Uart(d) => PortDeviceView::Uart(d@),
            PortDevice::Pic(d) => PortDeviceView::Pic(*d),
            PortDevice::Dbg(d) => PortDeviceView::Dbg(*d),
            PortDevice::Bundle(d) => PortDeviceView::Bundle(*d),
            PortDevice::Dummy(d) => PortDeviceView::Dummy(*d),
            PortDevice::PciConfig(d) => PortDeviceView::PciConfig(*d),
        }
    }
}

impl DeepView for PortDevice {
    type V = PortDeviceView;

    open spec fn deep_view(&self) -> PortDeviceView {
        self@
    }
}

impl PortDeviceView {
    /// Whether this device claims `port`.
    pub open spec fn spec_covers(self, port: u16) -> bool {
        match self {
            PortDeviceView::Uart(d) => d.spec_covers(port),
            PortDeviceView::Pic(d) => d.spec_covers(port),
            PortDeviceView::Dbg(d) => port == d.base,
            PortDeviceView::Bundle(d) => d.spec_covers(port),
            PortDeviceView::Dummy(d) => d.spec_covers(port),
            PortDeviceView::PciConfig(d) => d.spec_covers(port),
        }
    }

    /// The value a read of `port` returns. Every model answers reads, so
    /// the result is always `Ok`; the `Result` is the capability's shape,
    /// through which a fallible device would report its own errors.
    pub open spec fn spec_read(self, port: u16) -> HvResult<u32> {
        match self {
            PortDeviceView::Uart(d) => Ok(d.spec_read(port)),
            PortDeviceView::Pic(d) => Ok(d.spec_read(port)),
            PortDeviceView::Dbg(_) => Ok(0),
            PortDeviceView::Bundle(d) => Ok(d.spec_read(port)),
            PortDeviceView::Dummy(_) => Ok(0),
            PortDeviceView::PciConfig(d) => Ok(d.spec_read(port)),
        }
    }

    /// The device state after a write of `value` to `port`.
    pub open spec fn spec_write(self, port: u16, value: u32) -> PortDeviceView {
        match self {
            PortDeviceView::Uart(d) => PortDeviceView::Uart(d.spec_write(port, value)),
            PortDeviceView::Pic(d) => PortDeviceView::Pic(d.spec_write(port, value)),
            PortDeviceView::Dbg(d) => PortDeviceView::Dbg(d),
            PortDeviceView::Bundle(d) => PortDeviceView::Bundle(d.spec_write(port, value)),
            PortDeviceView::Dummy(d) => PortDeviceView::Dummy(d),
            PortDeviceView::PciConfig(d) => PortDeviceView::PciConfig(d.spec_write(port, value)),
        }
    }
}

impl PortDevice {
    /// Whether this device claims `port`.
    pub fn covers(&self, port: u16) -> (r: bool)
        ensures
            r == self@.spec_covers(port),
    {
        match self {
            PortDevice::Uart(d) => d.base <= port && (port as u32) < d.base as u32 + 8,
            PortDevice::Pic(d) => d.base <= port && (port as u32) < d.base as u32 + 2,
            PortDevice::Dbg(d) => port == d.base,
            PortDevice::Bundle(_) => {
                port == 0x92 || port == 0x61 || (0x70 <= port && port < 0x72) || (0x40 <= port
                    && port < 0x44)
            },
            PortDevice::Dummy(d) => d.base <= port && (port as u32) < d.base as u32 + d.len as u32,
            PortDevice::PciConfig(_) => 0xcf8 <= port && port < 0xd00,
        }
    }

    /// Read `access_size` bytes from `port`. The models answer any width
    /// with the same register value; the dispatch protocol above is what
    /// gives the width its architectural meaning.
    pub fn read(&self, port: u16, access_size: u8) -> (r: HvResult<u32>)
        ensures
            r == self@.spec_read(port),
    {
        let _ = access_size;
        match self {
            PortDevice::Uart(d) => {
                if port as u32 == d.base as u32 + 5 {
                    Ok(UART_LSR_IDLE)
                } else {
                    Ok(0)
                }
            },
            PortDevice::Pic(d) => {
                if port as u32 == d.base as u32 + 1 {
                    Ok(d.mask as u32)
                } else {
                    Ok(0)
                }
            },
            PortDevice::Dbg(_) => Ok(0),
            PortDevice::Bundle(d) => {
                if port == 0x92 {
                    Ok(d.system_control_a as u32)
                } else if port == 0x61 {
                    Ok(d.system_control_b as u32)
                } else if port == 0x70 {
                    Ok(d.cmos_index as u32)
                } else {
                    Ok(0)
                }
            },
            PortDevice::Dummy(_) => Ok(0),
            PortDevice::PciConfig(d) => {
                if port == 0xcf8 {
                    Ok(d.config_address)
                } else if port == 0xcfc {
                    Ok(0xffff_ffff)
                } else {
                    Ok(0)
                }
            },
        }
    }

    /// Write the low `access_size` bytes of `value` to `port`.
    pub fn write(&mut self, port: u16, access_size: u8, value: u32) -> (r: HvResult)
        ensures
            r is Ok,
            final(self)@ == old(self)@.spec_write(port, value),
    {
        let _ = access_size;
        match self {
            PortDevice::Uart(d) => {
                if port == d.base {
                    d.tx.push(#[verifier::truncate] ((value & 0xff) as u8));
                }
            },
            PortDevice::Pic(d) => {
                if port as u32 == d.base as u32 + 1 {
                    d.mask = #[verifier::truncate] ((value & 0xff) as u8);
                }
            },
            PortDevice::Dbg(_) => {},
            PortDevice::Bundle(d) => {
                if port == 0x92 {
                    d.system_control_a = #[verifier::truncate] ((value & 0xff) as u8);
                } else if port == 0x61 {
                    d.system_control_b = #[verifier::truncate] ((value & 0xff) as u8);
                } else if port == 0x70 {
                    d.cmos_index = #[verifier::truncate] ((value & 0xff) as u8);
                }
            },
            PortDevice::Dummy(_) => {},
            PortDevice::PciConfig(d) => {
                if port == 0xcf8 {
                    d.config_address = value;
                }
            },
        }
        Ok(())
    }
}

/// A write never changes which ports a device claims, nor which variant it
/// is: a device's declared range is immutable after registration.
pub proof fn lemma_port_write_keeps_coverage(d: PortDeviceView, port: u16, value: u32)
    ensures
        forall|p: u16| d.spec_write(port, value).spec_covers(p) == d.spec_covers(p),
        d.spec_write(port, value) is Uart == d is Uart,
        d.spec_write(port, value) is Pic == d is Pic,
        d is Uart ==> d.spec_write(port, value)->Uart_0.base == d->Uart_0.base,
        d is Pic ==> d.spec_write(port, value)->Pic_0.base == d->Pic_0.base,
{
}

} // verus!
