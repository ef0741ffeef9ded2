use vstd::prelude::*;

verus! {

/// The sixteen entries of the console's fixed palette.
#[derive(Clone, Copy, PartialEq, Eq, Structural, Debug)]
pub enum Paint {
    Black,
    Blue,
    Green,
    Cyan,
    Red,
    Magenta,
    Brown,
    LightGray,
    DarkGray,
    LightBlue,
    LightGreen,
    LightCyan,
    LightRed,
    Pink,
    Yellow,
    White,
}

/// Palette index of a paint, 0 (black) through 15 (white).
pub open spec fn paint_index(p: Paint) -> u8 {
    match p {
        Paint::Black => 0,
        Paint::Blue => 1,
        Paint::Green => 2,
        Paint::Cyan => 3,
        Paint::Red => 4,
        Paint::Magenta => 5,
        Paint::Brown => 6,
        Paint::LightGray => 7,
        Paint::DarkGray => 8,
        Paint::LightBlue => 9,
        Paint::LightGreen => 10,
        Paint::LightCyan => 11,
        Paint::LightRed => 12,
        Paint::Pink => 13,
        Paint::Yellow => 14,
        Paint::White => 15,
    }
}

impl Paint {
    pub fn index(self) -> (r: u8)
        ensures
            r == paint_index(self),
            r < 16,
    {
        match self {
            Paint::Black => 0,
            Paint::Blue => 1,
            Paint::Green => 2,
            Paint::Cyan => 3,
            Paint::Red => 4,
            Paint::Magenta => 5,
            Paint::Brown => 6,
            Paint::LightGray => 7,
            Paint::DarkGray => 8,
            Paint::LightBlue => 9,
            Paint::LightGreen => 10,
            Paint::LightCyan => 11,
            Paint::LightRed => 12,
            Paint::Pink => 13,
            Paint::Yellow => 14,
            Paint::White => 15,
        }
    }
}

/// The two outcomes a test run reports to the hosting machine.
#[derive(Clone, Copy, PartialEq, Eq, Structural, Debug)]
pub enum QemuExitCode {
    Success,
    Failed,
}

pub open spec fn exit_code_value(c: QemuExitCode) -> u32 {
    match c {
        QemuExitCode::Success => 0x10,
        QemuExitCode::Failed => 0x11,
    }
}

impl QemuExitCode {
    /// The value written to the debug exit port for this outcome.
    pub fn value(self) -> (r: u32)
        ensures
            r == exit_code_value(self),
    {
        match self {
            QemuExitCode::Success => 0x10,
            QemuExitCode::Failed => 0x11,
        }
    }
}

} // verus!
