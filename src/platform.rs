use vstd::prelude::*;
use crate::tasks::waker::AtomicWaker;

verus! {

/// Exit status reported to the emulator's debug-exit port.
#[derive(Clone, Copy, PartialEq, Eq, Debug)]
pub enum ExitCode {
    Success,
    Failed,
}

impl ExitCode {
    pub open spec fn spec_code(self) -> u32 {
        match self {
            ExitCode::Success => 0x10,
            ExitCode::Failed => 0x11,
        }
    }

    /// The value written to the debug-exit port for this status.
    pub fn code(self) -> (r: u32)
        ensures
            r == self.spec_code(),
    {
        match self {
            ExitCode::Success => 0x10,
            ExitCode::Failed => 0x11,
        }
    }
}

/// Vector of the first line of the primary interrupt controller.
pub const PIC1_OFFSET: u8 = 32;

/// The hardware interrupt lines, numbered from `PIC1_OFFSET` on.
#[derive(Clone, Copy, Debug, PartialEq, Eq, Structural)]
pub enum InterruptIndex {
    Timer,
    Keyboard,
    SecondaryPic,
    SerialPort2,
    SerialPort1,
    ParallelPort23,
    FloppyDisk,
    ParallelPort1,
    Rtc,
    Acpi,
    Available1,
    Available2,
    Mouse,
    CoProcessor,
    PrimaryAta,
    SecondaryAta,
}

/// The line number of each interrupt, counted from the first.
pub open spec fn line_of(i: InterruptIndex) -> u8 {
    match i {
        InterruptIndex::Timer => 0,
        InterruptIndex::Keyboard => 1,
        InterruptIndex::SecondaryPic => 2,
        InterruptIndex::SerialPort2 => 3,
        InterruptIndex::SerialPort1 => 4,
        InterruptIndex::ParallelPort23 => 5,
        InterruptIndex::FloppyDisk => 6,
        InterruptIndex::ParallelPort1 => 7,
        InterruptIndex::Rtc => 8,
        InterruptIndex::Acpi => 9,
        InterruptIndex::Available1 => 10,
        InterruptIndex::Available2 => 11,
        InterruptIndex::Mouse => 12,
        InterruptIndex::CoProcessor => 13,
        InterruptIndex::PrimaryAta => 14,
        InterruptIndex::SecondaryAta => 15,
    }
}

impl InterruptIndex {
    /// The interrupt vector.
    pub fn as_u8(self) -> (r: u8)
        ensures
            r == PIC1_OFFSET + line_of(self),
    {
        let line: u8 = match self {
            InterruptIndex::Timer => 0,
            InterruptIndex::Keyboard => 1,
            InterruptIndex::SecondaryPic => 2,
            InterruptIndex::SerialPort2 => 3,
            InterruptIndex::SerialPort1 => 4,
            InterruptIndex::ParallelPort23 => 5,
            InterruptIndex::FloppyDisk => 6,
            InterruptIndex::ParallelPort1 => 7,
            InterruptIndex::Rtc => 8,
            InterruptIndex::Acpi => 9,
            InterruptIndex::Available1 => 10,
            InterruptIndex::Available2 => 11,
            InterruptIndex::Mouse => 12,
            InterruptIndex::CoProcessor => 13,
            InterruptIndex::PrimaryAta => 14,
            InterruptIndex::SecondaryAta => 15,
        };
        PIC1_OFFSET + line
    }

    /// The interrupt vector, as an index into the descriptor table.
    pub fn as_usize(self) -> (r: usize)
        ensures
            r == PIC1_OFFSET + line_of(self),
    {
        self.as_u8() as usize
    }
}

/// The sixteen colours of the text-mode display.
#[derive(Clone, Copy, Debug, PartialEq, Eq, Structural)]
pub enum Color {
    Black,
    Blue,
    Green,
    Cyan,
    Red,
    Magenta,
    Brown,
    LightGray,
    DarkGray,
    LightBlue,
    LightGreen,
    LightCyan,
    LightRed,
    Pink,
    Yellow,
    White,
}

pub open spec fn color_value(c: Color) -> u8 {
    match c {
        Color::Black => 0,
        Color::Blue => 1,
        Color::Green => 2,
        Color::Cyan => 3,
        Color::Red => 4,
        Color::Magenta => 5,
        Color::Brown => 6,
        Color::LightGray => 7,
        Color::DarkGray => 8,
        Color::LightBlue => 9,
        Color::LightGreen => 10,
        Color::LightCyan => 11,
        Color::LightRed => 12,
        Color::Pink => 13,
        Color::Yellow => 14,
        Color::White => 15,
    }
}

impl Color {
    /// The colour's number in the display's palette.
    pub fn value(self) -> (r: u8)
        ensures
            r == color_value(self),
    {
        match self {
            Color::Black => 0,
            Color::Blue => 1,
            Color::Green => 2,
            Color::Cyan => 3,
            Color::Red => 4,
            Color::Magenta => 5,
            Color::Brown => 6,
            Color::LightGray => 7,
            Color::DarkGray => 8,
            Color::LightBlue => 9,
            Color::LightGreen => 10,
            Color::LightCyan => 11,
            Color::LightRed => 12,
            Color::Pink => 13,
            Color::Yellow => 14,
            Color::White => 15,
        }
    }
}

/// A foreground and background colour packed into one attribute byte.
#[derive(Clone, Copy, Debug, PartialEq, Eq, Structural)]
pub struct ColorCode(pub u8);

impl ColorCode {
    /// The background in the high four bits, the foreground in the low four.
    pub fn new(foreground: Color, background: Color) -> (r: ColorCode)
        ensures
            r.0 == color_value(background) * 16 + color_value(foreground),
    {
        ColorCode(background.value() * 16 + foreground.value())
    }
}

/// The two ATA buses that have interrupt lines.
#[derive(Clone, Copy, Debug, PartialEq, Eq, Structural)]
pub enum BusKind {
    Primary,
    Secondary,
}

impl BusKind {
    pub fn name(&self) -> (r: &'static str)
        ensures
            *self is Primary ==> r@ == "primary"@,
            *self is Secondary ==> r@ == "secondary"@,
    {
        match self {
            BusKind::Primary => "primary",
            BusKind::Secondary => "secondary",
        }
    }
}

/// The disk-interrupt state of the two buses: a flag per bus, set from
/// interrupt context and cleared by the driver, and the continuation of the
/// driver task waiting on each bus.
#[derive(Debug)]
pub struct AtaInterrupts {
    primary: bool,
    secondary: bool,
    primary_waker: AtomicWaker,
    secondary_waker: AtomicWaker,
}

impl AtaInterrupts {
    pub closed spec fn flag(&self, bus: BusKind) -> bool {
        match bus {
            BusKind::Primary => self.primary,
            BusKind::Secondary => self.secondary,
        }
    }

    /// The registered continuation of the task waiting on `bus`.
    pub closed spec fn waiter(&self, bus: BusKind) -> Option<u64> {
        match bus {
            BusKind::Primary => self.primary_waker@,
            BusKind::Secondary => self.secondary_waker@,
        }
    }

    pub fn new() -> (r: AtaInterrupts)
        ensures
            !r.flag(BusKind::Primary),
            !r.flag(BusKind::Secondary),
            r.waiter(BusKind::Primary) == None::<u64>,
            r.waiter(BusKind::Secondary) == None::<u64>,
    {
        AtaInterrupts {
            primary: false,
            secondary: false,
            primary_waker: AtomicWaker::new(),
            secondary_waker: AtomicWaker::new(),
        }
    }

    /// Registers the continuation of `task`, which waits on `bus`.
    pub fn register(&mut self, bus: BusKind, task: u64)
        ensures
            final(self).waiter(bus) == Some(task),
            forall|b: BusKind| b != bus ==> final(self).waiter(b) == old(self).waiter(b),
            forall|b: BusKind| final(self).flag(b) == old(self).flag(b),
    {
        match bus {
            BusKind::Primary => self.primary_waker.register(task),
            BusKind::Secondary => self.secondary_waker.register(task),
        }
    }

    /// Reads and clears the flag of `bus`.
    pub fn take_flag(&mut self, bus: BusKind) -> (r: bool)
        ensures
            r == old(self).flag(bus),
            !final(self).flag(bus),
            forall|b: BusKind| b != bus ==> final(self).flag(b) == old(self).flag(b),
            forall|b: BusKind| final(self).waiter(b) == old(self).waiter(b),
    {
        match bus {
            BusKind::Primary => {
                let r = self.primary;
                self.primary = false;
                r
            },
            BusKind::Secondary => {
                let r = self.secondary;
                self.secondary = false;
                r
            },
        }
    }
}

/// Records a disk interrupt on `bus`: its flag is set and the waiting
/// driver's continuation is invoked; the task returned is to be scheduled.
pub fn interrupt(state: &mut AtaInterrupts, bus: BusKind) -> (r: Option<u64>)
    ensures
        r == old(state).waiter(bus),
        final(state).flag(bus),
        final(state).waiter(bus) == None::<u64>,
        forall|b: BusKind| b != bus ==> final(state).flag(b) == old(state).flag(b) && final(state).waiter(b) == old(state).waiter(b),
{
    match bus {
        BusKind::Primary => {
            let r = state.primary_waker.wake();
            state.primary = true;
            r
        },
        BusKind::Secondary => {
            let r = state.secondary_waker.wake();
            state.secondary = true;
            r
        },
    }
}

/// What answered the identify command on a drive.
#[derive(Clone, Copy, Debug, PartialEq, Eq, Structural)]
pub enum DriveKind {
    PataPi,
    SataPi,
    Pata,
    Sata,
}

impl DriveKind {
    /// The drive kind that a cylinder-register signature announces.
    pub fn identify(cylinder: u16) -> (r: Option<DriveKind>)
        ensures
            r == (if cylinder == 0xEB14 {
                Some(DriveKind::PataPi)
            } else if cylinder == 0x9669 {
                Some(DriveKind::SataPi)
            } else if cylinder == 0 {
                Some(DriveKind::Pata)
            } else if cylinder == 0xC33C {
                Some(DriveKind::Sata)
            } else {
                None
            }),
    {
        if cylinder == 0xEB14 {
            Some(DriveKind::PataPi)
        } else if cylinder == 0x9669 {
            Some(DriveKind::SataPi)
        } else if cylinder == 0 {
            Some(DriveKind::Pata)
        } else if cylinder == 0xC33C {
            Some(DriveKind::Sata)
        } else {
            None
        }
    }
}

/// One of the two drives of a bus.
#[derive(Clone, Copy, Debug, PartialEq, Eq, Structural)]
pub enum DriveSelector {
    First,
    Second,
}

impl DriveSelector {
    /// Both drives, first one first.
    pub fn all() -> (r: Vec<DriveSelector>)
        ensures
            r@ == seq![DriveSelector::First, DriveSelector::Second],
    {
        let mut v: Vec<DriveSelector> = Vec::new();
        v.push(DriveSelector::First);
        v.push(DriveSelector::Second);
        v
    }
}

/// Why a disk read failed.
#[derive(Clone, Copy, Debug, PartialEq, Eq, Structural)]
pub enum ReadError {
    DiskBusy,
    ReqReadTooBig,
    OutOfMemory { size: usize, align: usize },
    AtaError(u8),
    NotImplemented,
}

/// Why the ACPI tables could not be read.
#[derive(Clone, Copy, Debug, PartialEq, Eq, Structural)]
pub enum AcpiInitError {
    NoRsdbAddr,
}

/// A frame allocator with no frames.
#[derive(Clone, Copy, Debug, Default)]
pub struct EmptyFrameAllocator;

impl EmptyFrameAllocator {
    /// Never has a frame to give.
    pub fn allocate_frame(&mut self) -> (r: Option<u64>)
        ensures
            r is None,
    {
        None
    }
}

} // verus!
