//! Line discipline of the serial device: which bits of the settings are
//! programmed for the sensor, and what they mean.
//!
//! Nothing here touches a descriptor. The functions compute the settings that
//! are handed to the operating system.

use vstd::prelude::*;

verus! {

/// Number of control-character slots in the basic settings block.
pub const CONTROL_SLOTS: usize = 32;

/// Number of control-character slots in the extended settings block.
pub const EXTENDED_CONTROL_SLOTS: usize = 19;

/// Control flags that a fresh settings block starts from.
pub const TEMPLATE_CONTROL_FLAGS: u32 = 6304;

/// Minimum number of bytes a read waits for.
pub const READ_MIN_BYTES: u8 = 0;

/// Read timeout in tenths of a second.
pub const READ_TIMEOUT_TENTHS: u8 = 10;

/// Baud rate used when none is configured.
pub const DEFAULT_BAUD_RATE: u32 = 9600;

/// The platform's bit masks and slot numbers, as plain numbers.
#[derive(Clone, Copy, Debug, PartialEq, Eq, Structural)]
pub struct RawMasks {
    /// Ignore modem control lines.
    pub clocal: u32,
    /// Enable the receiver.
    pub cread: u32,
    /// All character-size bits.
    pub csize: u32,
    /// Character size of eight bits.
    pub cs8: u32,
    /// Parity generation and checking.
    pub parenb: u32,
    /// Two stop bits instead of one.
    pub cstopb: u32,
    /// Hardware flow control.
    pub crtscts: u32,
    /// Input parity checking.
    pub inpck: u32,
    /// All baud-rate selector bits.
    pub cbaud: u32,
    /// Selector value for a rate given as a number.
    pub bother: u32,
    /// Slot of the minimum byte count.
    pub vmin: usize,
    /// Slot of the read timeout.
    pub vtime: usize,
}

impl RawMasks {
    /// The masks name different bits, the eight-bit size lies within the size
    /// mask, the numeric-rate selector lies within the selector mask, and the
    /// two slots are distinct and exist in both settings blocks.
    pub open spec fn consistent(self) -> bool {
        &&& self.cs8 & !self.csize == 0
        &&& self.bother & !self.cbaud == 0
        &&& self.clocal & self.cread == 0
        &&& self.clocal & self.csize == 0
        &&& self.clocal & self.parenb == 0
        &&& self.clocal & self.cstopb == 0
        &&& self.clocal & self.crtscts == 0
        &&& self.cread & self.csize == 0
        &&& self.cread & self.parenb == 0
        &&& self.cread & self.cstopb == 0
        &&& self.cread & self.crtscts == 0
        &&& self.csize & self.parenb == 0
        &&& self.csize & self.cstopb == 0
        &&& self.csize & self.crtscts == 0
        &&& self.parenb & self.cstopb == 0
        &&& self.parenb & self.crtscts == 0
        &&& self.cstopb & self.crtscts == 0
        &&& self.vmin < EXTENDED_CONTROL_SLOTS
        &&& self.vtime < EXTENDED_CONTROL_SLOTS
        &&& self.vmin != self.vtime
    }

    /// Tests `consistent` at run time.
    pub fn is_consistent(&self) -> (ok: bool)
        ensures
            ok == self.consistent(),
    {
        self.cs8 & !self.csize == 0 && self.bother & !self.cbaud == 0 && self.clocal & self.cread
            == 0 && self.clocal & self.csize == 0 && self.clocal & self.parenb == 0 && self.clocal
            & self.cstopb == 0 && self.clocal & self.crtscts == 0 && self.cread & self.csize == 0
            && self.cread & self.parenb == 0 && self.cread & self.cstopb == 0 && self.cread
            & self.crtscts == 0 && self.csize & self.parenb == 0 && self.csize & self.cstopb == 0
            && self.csize & self.crtscts == 0 && self.parenb & self.cstopb == 0 && self.parenb
            & self.crtscts == 0 && self.cstopb & self.crtscts == 0 && self.vmin
            < EXTENDED_CONTROL_SLOTS && self.vtime < EXTENDED_CONTROL_SLOTS && self.vmin
            != self.vtime
    }
}

/// Masks that have passed the consistency test.
pub struct ControlMasks {
    raw: RawMasks,
}

impl View for ControlMasks {
    type V = RawMasks;

    closed spec fn view(&self) -> RawMasks {
        self.raw
    }
}

/// Reads the termios constants of the `libc` crate: `CLOCAL`, `CREAD`, `CSIZE`,
/// `CS8`, `PARENB`, `CSTOPB`, `CRTSCTS`, `INPCK`, `CBAUD`, `BOTHER`, `VMIN` and
/// `VTIME`. Their values differ between machines, so nothing is claimed of them.
#[verifier::external_body]
fn libc_masks() -> (raw: RawMasks) {
    RawMasks {
        clocal: libc::CLOCAL,
        cread: libc::CREAD,
        csize: libc::CSIZE,
        cs8: libc::CS8,
        parenb: libc::PARENB,
        cstopb: libc::CSTOPB,
        crtscts: libc::CRTSCTS,
        inpck: libc::INPCK,
        cbaud: libc::CBAUD,
        bother: libc::BOTHER,
        vmin: libc::VMIN,
        vtime: libc::VTIME,
    }
}

impl ControlMasks {
    #[verifier::type_invariant]
    spec fn inv(self) -> bool {
        self.raw.consistent()
    }

    /// Accepts the masks if and only if they are consistent.
    pub fn checked(raw: RawMasks) -> (r: Option<ControlMasks>)
        ensures
            raw.consistent() ==> r.is_some() && r.unwrap()@ == raw,
            !raw.consistent() ==> r.is_none(),
    {
        if raw.is_consistent() {
            Some(ControlMasks { raw })
        } else {
            None
        }
    }

    /// The masks of the machine this runs on, if they are consistent.
    pub fn platform() -> (r: Option<ControlMasks>)
        ensures
            r.is_some() ==> r.unwrap()@.consistent(),
    {
        ControlMasks::checked(libc_masks())
    }

    /// The numbers behind the masks.
    pub fn raw(&self) -> (raw: RawMasks)
        ensures
            raw == self@,
            raw.consistent(),
    {
        proof {
            use_type_invariant(self);
        }
        self.raw
    }
}

/// The basic settings block of a terminal device.
#[derive(Clone, Copy, Debug)]
pub struct Termios {
    pub iflag: u32,
    pub oflag: u32,
    pub cflag: u32,
    pub lflag: u32,
    pub line: u8,
    pub cc: [u8; 32],
    pub ispeed: u32,
    pub ospeed: u32,
}

/// The extended settings block, which carries the line speed as a number.
#[derive(Clone, Copy, Debug)]
pub struct Termios2 {
    pub iflag: u32,
    pub oflag: u32,
    pub cflag: u32,
    pub lflag: u32,
    pub line: u8,
    pub cc: [u8; 19],
    pub ispeed: u32,
    pub ospeed: u32,
}

/// All control-flag bits that programming the line may change.
pub open spec fn touched_control_bits(m: RawMasks) -> u32 {
    m.clocal | m.cread | m.csize | m.parenb | m.cstopb | m.crtscts
}

/// Control flags for eight data bits, no parity and one stop bit on a local
/// line with the receiver on: the size, parity, stop and flow bits of `base`
/// are dropped, then the local, receiver and eight-bit bits are set, and the
/// flow bit too if hardware flow control is wanted.
pub open spec fn control_flags(base: u32, m: RawMasks, hardware_flow: bool) -> u32 {
    (base & !(m.csize | m.parenb | m.cstopb | m.crtscts)) | m.clocal | m.cread | m.cs8 | (if hardware_flow {
        m.crtscts
    } else {
        0u32
    })
}

/// `out` is `base` programmed for the sensor line: control flags as
/// `control_flags` gives them, input parity checking off, reads that wait for no
/// minimum count and time out after one second, all else as in `base`.
pub open spec fn programmed(base: Termios, m: RawMasks, hardware_flow: bool, out: Termios) -> bool {
    &&& out.cflag == control_flags(base.cflag, m, hardware_flow)
    &&& out.iflag == base.iflag & !m.inpck
    &&& out.cc@ == base.cc@.update(m.vmin as int, READ_MIN_BYTES).update(
        m.vtime as int,
        READ_TIMEOUT_TENTHS,
    )
    &&& out.oflag == base.oflag
    &&& out.lflag == base.lflag
    &&& out.line == base.line
    &&& out.ispeed == base.ispeed
    &&& out.ospeed == base.ospeed
}

/// Control flags that select a line speed given as a number: the selector bits
/// of `base` are replaced by the numeric-rate selector.
pub open spec fn custom_baud_flags(base: u32, m: RawMasks) -> u32 {
    (base & !m.cbaud) | m.bother
}

/// `out` is `base` with both speeds set to `baudrate` and the selector switched
/// to a numeric rate, all else as in `base`.
pub open spec fn speed_programmed(base: Termios2, m: RawMasks, baudrate: u32, out: Termios2) -> bool {
    &&& out.cflag == custom_baud_flags(base.cflag, m)
    &&& out.ispeed == baudrate
    &&& out.ospeed == baudrate
    &&& out.iflag == base.iflag
    &&& out.oflag == base.oflag
    &&& out.lflag == base.lflag
    &&& out.line == base.line
    &&& out.cc@ == base.cc@
}

/// What `control_flags` means bit by bit: local and receiver bits are set, the
/// character size is eight bits, parity and the second stop bit are off, the
/// flow bit is as asked, and every other bit is that of `base`.
pub proof fn lemma_control_flags_meaning(base: u32, m: RawMasks, hardware_flow: bool)
    requires
        m.consistent(),
    ensures
        control_flags(base, m, hardware_flow) & m.clocal == m.clocal,
        control_flags(base, m, hardware_flow) & m.cread == m.cread,
        control_flags(base, m, hardware_flow) & m.csize == m.cs8,
        control_flags(base, m, hardware_flow) & m.parenb == 0,
        control_flags(base, m, hardware_flow) & m.cstopb == 0,
        control_flags(base, m, hardware_flow) & m.crtscts == (if hardware_flow {
            m.crtscts
        } else {
            0u32
        }),
        control_flags(base, m, hardware_flow) & !touched_control_bits(m) == base
            & !touched_control_bits(m),
{
    let clocal = m.clocal;
    let cread = m.cread;
    let csize = m.csize;
    let cs8 = m.cs8;
    let parenb = m.parenb;
    let cstopb = m.cstopb;
    let crtscts = m.crtscts;
    let flow: u32 = if hardware_flow {
        crtscts
    } else {
        0u32
    };
    let c: u32 = (base & !(csize | parenb | cstopb | crtscts)) | clocal | cread | cs8 | flow;
    assert(c == control_flags(base, m, hardware_flow));
    assert(c & clocal == clocal && c & cread == cread && c & csize == cs8 && c & parenb == 0 && c
        & cstopb == 0 && c & crtscts == flow && c & !(clocal | cread | csize | parenb | cstopb
        | crtscts) == base & !(clocal | cread | csize | parenb | cstopb | crtscts))
        by (bit_vector)
        requires
            c == (base & !(csize | parenb | cstopb | crtscts)) | clocal | cread | cs8 | flow,
            flow == crtscts || flow == 0,
            cs8 & !csize == 0,
            clocal & cread == 0,
            clocal & csize == 0,
            clocal & parenb == 0,
            clocal & cstopb == 0,
            clocal & crtscts == 0,
            cread & csize == 0,
            cread & parenb == 0,
            cread & cstopb == 0,
            cread & crtscts == 0,
            csize & parenb == 0,
            csize & cstopb == 0,
            csize & crtscts == 0,
            parenb & cstopb == 0,
            parenb & crtscts == 0,
            cstopb & crtscts == 0,
    ;
}

/// What `custom_baud_flags` means bit by bit: the selector reads as a numeric
/// rate, and every bit outside the selector is that of `base`.
pub proof fn lemma_custom_baud_flags_meaning(base: u32, m: RawMasks)
    requires
        m.consistent(),
    ensures
        custom_baud_flags(base, m) & m.cbaud == m.bother,
        custom_baud_flags(base, m) & !m.cbaud == base & !m.cbaud,
{
    let cbaud = m.cbaud;
    let bother = m.bother;
    let c: u32 = (base & !cbaud) | bother;
    assert(c & cbaud == bother && c & !cbaud == base & !cbaud) by (bit_vector)
        requires
            c == (base & !cbaud) | bother,
            bother & !cbaud == 0,
    ;
}

impl Termios {
    /// The block that programming starts from: template control flags and
    /// nothing else set.
    pub fn template() -> (tio: Termios)
        ensures
            tio.iflag == 0,
            tio.oflag == 0,
            tio.cflag == TEMPLATE_CONTROL_FLAGS,
            tio.lflag == 0,
            tio.line == 0,
            tio.cc@ == Seq::new(CONTROL_SLOTS as nat, |i: int| 0u8),
            tio.ispeed == 0,
            tio.ospeed == 0,
    {
        Termios {
            iflag: 0,
            oflag: 0,
            cflag: TEMPLATE_CONTROL_FLAGS,
            lflag: 0,
            line: 0,
            cc: [0u8; 32],
            ispeed: 0,
            ospeed: 0,
        }
    }
}

impl Termios2 {
    /// An all-zero block, to be filled by the operating system.
    pub fn zeroed() -> (tio: Termios2)
        ensures
            tio.iflag == 0,
            tio.oflag == 0,
            tio.cflag == 0,
            tio.lflag == 0,
            tio.line == 0,
            tio.cc@ == Seq::new(EXTENDED_CONTROL_SLOTS as nat, |i: int| 0u8),
            tio.ispeed == 0,
            tio.ospeed == 0,
    {
        Termios2 {
            iflag: 0,
            oflag: 0,
            cflag: 0,
            lflag: 0,
            line: 0,
            cc: [0u8; 19],
            ispeed: 0,
            ospeed: 0,
        }
    }
}

/// Programs `tio` for the sensor line: 8 data bits, no parity, 1 stop bit,
/// local line, receiver on, hardware flow control as asked, reads that return
/// after at most one second.
pub fn set_opt(tio: &mut Termios, masks: &ControlMasks, hardware_flow: bool)
    ensures
        programmed(*old(tio), masks@, hardware_flow, *final(tio)),
{
    let m: RawMasks = masks.raw();
    let base: u32 = tio.cflag;
    let mut c: u32 = base | (m.clocal | m.cread);
    c = c & !m.csize;
    c = c | m.cs8;
    c = c & !m.parenb;
    c = c & !m.cstopb;
    if hardware_flow {
        c = c | m.crtscts;
    } else {
        c = c & !m.crtscts;
    }
    proof {
        lemma_sequence_gives_control_flags(base, m, hardware_flow);
    }
    tio.cflag = c;
    tio.iflag = tio.iflag & !m.inpck;
    tio.cc[m.vmin] = READ_MIN_BYTES;
    tio.cc[m.vtime] = READ_TIMEOUT_TENTHS;
}

/// Switches `tio` to the line speed `baudrate`, given as a number rather than
/// picked from the table of standard rates.
pub fn set_custom_baudrate(tio: &mut Termios2, masks: &ControlMasks, baudrate: u32)
    ensures
        speed_programmed(*old(tio), masks@, baudrate, *final(tio)),
{
    let m: RawMasks = masks.raw();
    tio.cflag = (tio.cflag & !m.cbaud) | m.bother;
    tio.ispeed = baudrate;
    tio.ospeed = baudrate;
}

/// Setting and clearing the bits one after the other gives `control_flags`.
proof fn lemma_sequence_gives_control_flags(base: u32, m: RawMasks, hardware_flow: bool)
    requires
        m.consistent(),
    ensures
        hardware_flow ==> ((((((base | (m.clocal | m.cread)) & !m.csize) | m.cs8) & !m.parenb)
            & !m.cstopb) | m.crtscts) == control_flags(base, m, true),
        !hardware_flow ==> ((((((base | (m.clocal | m.cread)) & !m.csize) | m.cs8) & !m.parenb)
            & !m.cstopb) & !m.crtscts) == control_flags(base, m, false),
{
    let clocal = m.clocal;
    let cread = m.cread;
    let csize = m.csize;
    let cs8 = m.cs8;
    let parenb = m.parenb;
    let cstopb = m.cstopb;
    let crtscts = m.crtscts;
    assert(((((((base | (clocal | cread)) & !csize) | cs8) & !parenb) & !cstopb) | crtscts) == (
    base & !(csize | parenb | cstopb | crtscts)) | clocal | cread | cs8 | crtscts
        && ((((((base | (clocal | cread)) & !csize) | cs8) & !parenb) & !cstopb) & !crtscts) == (
    base & !(csize | parenb | cstopb | crtscts)) | clocal | cread | cs8 | 0u32) by (bit_vector)
        requires
            cs8 & !csize == 0,
            clocal & csize == 0,
            clocal & parenb == 0,
            clocal & cstopb == 0,
            clocal & crtscts == 0,
            cread & csize == 0,
            cread & parenb == 0,
            cread & cstopb == 0,
            cread & crtscts == 0,
            csize & parenb == 0,
            csize & cstopb == 0,
            csize & crtscts == 0,
    ;
}

} // verus!
