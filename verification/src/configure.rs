//! The order in which a freshly opened device is configured, and which answers
//! of the operating system count as failures.
//!
//! Configuration is best effort: a failed step yields a warning and the next
//! step is taken all the same. The caller performs each step and reports the
//! code that the operating system returned.

use vstd::prelude::*;

verus! {

/// Flags of the `open` and `fcntl` calls, as plain numbers.
#[derive(Clone, Copy, Debug, PartialEq, Eq, Structural)]
pub struct FileFlags {
    /// Open for reading and writing.
    pub rdwr: i32,
    /// Do not make the device the controlling terminal.
    pub noctty: i32,
    /// Do not wait for the line to come up when opening.
    pub ndelay: i32,
    /// Reads return at once when no data is there.
    pub nonblock: i32,
}

/// Reads the constants `O_RDWR`, `O_NOCTTY`, `O_NDELAY` and `O_NONBLOCK` of the
/// `libc` crate. Their values differ between machines, so nothing is claimed of
/// them.
#[verifier::external_body]
fn libc_file_flags() -> (flags: FileFlags) {
    FileFlags {
        rdwr: libc::O_RDWR,
        noctty: libc::O_NOCTTY,
        ndelay: libc::O_NDELAY,
        nonblock: libc::O_NONBLOCK,
    }
}

impl FileFlags {
    /// The flags of the machine this runs on.
    pub fn platform() -> FileFlags {
        libc_file_flags()
    }

    /// Flags to open the device with: read and write, not as controlling
    /// terminal, without waiting for the line.
    pub fn open_flags(&self) -> (flags: i32)
        ensures
            flags == self.rdwr | self.noctty | self.ndelay,
    {
        self.rdwr | self.noctty | self.ndelay
    }

    /// The descriptor flags `current` with the non-blocking flag taken out.
    pub fn clear_nonblocking(&self, current: i32) -> (flags: i32)
        ensures
            flags == current & !self.nonblock,
            flags & self.nonblock == 0,
            flags | (current & self.nonblock) == current,
    {
        let nonblock: i32 = self.nonblock;
        assert((current & !nonblock) & nonblock == 0 && (current & !nonblock) | (current
            & nonblock) == current) by (bit_vector);
        current & !self.nonblock
    }
}

/// One request to the operating system while configuring the device.
#[derive(Clone, Copy, Debug, PartialEq, Eq, Structural)]
pub enum ConfigStep {
    /// Read the descriptor flags.
    QueryFlags,
    /// Write the descriptor flags back without the non-blocking flag.
    SetFlags,
    /// Ask whether the descriptor is a terminal.
    CheckTerminal,
    /// Fetch the current line settings.
    FetchSettings,
    /// Discard input and output that is still queued.
    FlushInput,
    /// Apply the programmed line settings at once.
    ApplySettings,
    /// Fetch the extended settings.
    FetchSpeed,
    /// Apply the extended settings with the numeric line speed.
    ApplySpeed,
    /// Fetch the extended settings once more.
    ConfirmSpeed,
    /// Nothing is left to do.
    Done,
}

/// What went wrong in a step that configuration carried on from.
#[derive(Clone, Copy, Debug, PartialEq, Eq, Structural)]
pub enum ConfigWarning {
    QueryFlags,
    SetFlags,
    NotATerminal,
    FetchSettings,
    ApplySettings,
    FetchSpeed,
    ApplySpeed,
    ConfirmSpeed,
}

impl ConfigStep {
    /// The step that follows `self`, whatever `self` returned.
    pub open spec fn successor(self) -> ConfigStep {
        match self {
            ConfigStep::QueryFlags => ConfigStep::SetFlags,
            ConfigStep::SetFlags => ConfigStep::CheckTerminal,
            ConfigStep::CheckTerminal => ConfigStep::FetchSettings,
            ConfigStep::FetchSettings => ConfigStep::FlushInput,
            ConfigStep::FlushInput => ConfigStep::ApplySettings,
            ConfigStep::ApplySettings => ConfigStep::FetchSpeed,
            ConfigStep::FetchSpeed => ConfigStep::ApplySpeed,
            ConfigStep::ApplySpeed => ConfigStep::ConfirmSpeed,
            ConfigStep::ConfirmSpeed => ConfigStep::Done,
            ConfigStep::Done => ConfigStep::Done,
        }
    }

    /// Number of requests that are still to be made, `self` included.
    pub open spec fn remaining(self) -> nat {
        match self {
            ConfigStep::QueryFlags => 9,
            ConfigStep::SetFlags => 8,
            ConfigStep::CheckTerminal => 7,
            ConfigStep::FetchSettings => 6,
            ConfigStep::FlushInput => 5,
            ConfigStep::ApplySettings => 4,
            ConfigStep::FetchSpeed => 3,
            ConfigStep::ApplySpeed => 2,
            ConfigStep::ConfirmSpeed => 1,
            ConfigStep::Done => 0,
        }
    }

    /// The warning that the return code `code` of step `self` gives rise to.
    /// Reading or writing the descriptor flags fails with a negative code, the
    /// terminal test answers zero for a device that is no terminal, fetching
    /// and applying settings fail with any code but zero, and the code of the
    /// flush is not looked at.
    pub open spec fn warning_for(self, code: i32) -> Option<ConfigWarning> {
        match self {
            ConfigStep::QueryFlags => if code < 0 {
                Some(ConfigWarning::QueryFlags)
            } else {
                None
            },
            ConfigStep::SetFlags => if code < 0 {
                Some(ConfigWarning::SetFlags)
            } else {
                None
            },
            ConfigStep::CheckTerminal => if code == 0 {
                Some(ConfigWarning::NotATerminal)
            } else {
                None
            },
            ConfigStep::FetchSettings => if code != 0 {
                Some(ConfigWarning::FetchSettings)
            } else {
                None
            },
            ConfigStep::FlushInput => None,
            ConfigStep::ApplySettings => if code != 0 {
                Some(ConfigWarning::ApplySettings)
            } else {
                None
            },
            ConfigStep::FetchSpeed => if code != 0 {
                Some(ConfigWarning::FetchSpeed)
            } else {
                None
            },
            ConfigStep::ApplySpeed => if code != 0 {
                Some(ConfigWarning::ApplySpeed)
            } else {
                None
            },
            ConfigStep::ConfirmSpeed => if code != 0 {
                Some(ConfigWarning::ConfirmSpeed)
            } else {
                None
            },
            ConfigStep::Done => None,
        }
    }

    /// The step that configuration begins with.
    pub fn first() -> (step: ConfigStep)
        ensures
            step == ConfigStep::QueryFlags,
            step.remaining() == 9,
    {
        ConfigStep::QueryFlags
    }

    /// Whether nothing is left to do.
    pub fn is_done(self) -> (done: bool)
        ensures
            done == (self == ConfigStep::Done),
            done == (self.remaining() == 0),
    {
        match self {
            ConfigStep::Done => true,
            _ => false,
        }
    }

    /// The step to take after `self`. No answer of the operating system stops
    /// the configuration, so the order does not depend on any.
    pub fn next(self) -> (step: ConfigStep)
        ensures
            step == self.successor(),
            self != ConfigStep::Done ==> step.remaining() + 1 == self.remaining(),
            self == ConfigStep::Done ==> step == ConfigStep::Done,
    {
        match self {
            ConfigStep::QueryFlags => ConfigStep::SetFlags,
            ConfigStep::SetFlags => ConfigStep::CheckTerminal,
            ConfigStep::CheckTerminal => ConfigStep::FetchSettings,
            ConfigStep::FetchSettings => ConfigStep::FlushInput,
            ConfigStep::FlushInput => ConfigStep::ApplySettings,
            ConfigStep::ApplySettings => ConfigStep::FetchSpeed,
            ConfigStep::FetchSpeed => ConfigStep::ApplySpeed,
            ConfigStep::ApplySpeed => ConfigStep::ConfirmSpeed,
            ConfigStep::ConfirmSpeed => ConfigStep::Done,
            ConfigStep::Done => ConfigStep::Done,
        }
    }

    /// Judges the code that the operating system returned for step `self`.
    pub fn warning(self, code: i32) -> (w: Option<ConfigWarning>)
        ensures
            w == self.warning_for(code),
    {
        match self {
            ConfigStep::QueryFlags => if code < 0 {
                Some(ConfigWarning::QueryFlags)
            } else {
                None
            },
            ConfigStep::SetFlags => if code < 0 {
                Some(ConfigWarning::SetFlags)
            } else {
                None
            },
            ConfigStep::CheckTerminal => if code == 0 {
                Some(ConfigWarning::NotATerminal)
            } else {
                None
            },
            ConfigStep::FetchSettings => if code != 0 {
                Some(ConfigWarning::FetchSettings)
            } else {
                None
            },
            ConfigStep::FlushInput => None,
            ConfigStep::ApplySettings => if code != 0 {
                Some(ConfigWarning::ApplySettings)
            } else {
                None
            },
            ConfigStep::FetchSpeed => if code != 0 {
                Some(ConfigWarning::FetchSpeed)
            } else {
                None
            },
            ConfigStep::ApplySpeed => if code != 0 {
                Some(ConfigWarning::ApplySpeed)
            } else {
                None
            },
            ConfigStep::ConfirmSpeed => if code != 0 {
                Some(ConfigWarning::ConfirmSpeed)
            } else {
                None
            },
            ConfigStep::Done => None,
        }
    }
}

impl ConfigWarning {
    /// The line that is logged for the warning.
    pub open spec fn text(self) -> Seq<char> {
        match self {
            ConfigWarning::QueryFlags => "error get."@,
            ConfigWarning::SetFlags => "error set."@,
            ConfigWarning::NotATerminal => "no tty."@,
            ConfigWarning::FetchSettings => "error tcgetattr."@,
            ConfigWarning::ApplySettings => "error tcsetattr."@,
            ConfigWarning::FetchSpeed => "TCGETS2"@,
            ConfigWarning::ApplySpeed => "TCSETS2"@,
            ConfigWarning::ConfirmSpeed => "TCGETS2"@,
        }
    }

    /// The line to log for the warning.
    pub fn message(self) -> (line: &'static str)
        ensures
            line@ == self.text(),
    {
        match self {
            ConfigWarning::QueryFlags => "error get.",
            ConfigWarning::SetFlags => "error set.",
            ConfigWarning::NotATerminal => "no tty.",
            ConfigWarning::FetchSettings => "error tcgetattr.",
            ConfigWarning::ApplySettings => "error tcsetattr.",
            ConfigWarning::FetchSpeed => "TCGETS2",
            ConfigWarning::ApplySpeed => "TCSETS2",
            ConfigWarning::ConfirmSpeed => "TCGETS2",
        }
    }
}

/// The steps taken from `step` on, in order, up to the end.
pub open spec fn steps_from(step: ConfigStep) -> Seq<ConfigStep>
    decreases step.remaining(),
{
    if step == ConfigStep::Done {
        Seq::empty()
    } else {
        seq![step] + steps_from(step.successor())
    }
}

/// Configuration ends after nine requests whatever the operating system
/// answers, and the queued input is flushed before the settings are applied.
pub proof fn lemma_configuration_order()
    ensures
        steps_from(ConfigStep::QueryFlags) == seq![
            ConfigStep::QueryFlags,
            ConfigStep::SetFlags,
            ConfigStep::CheckTerminal,
            ConfigStep::FetchSettings,
            ConfigStep::FlushInput,
            ConfigStep::ApplySettings,
            ConfigStep::FetchSpeed,
            ConfigStep::ApplySpeed,
            ConfigStep::ConfirmSpeed,
        ],
{
    reveal_with_fuel(steps_from, 11);
    assert(steps_from(ConfigStep::QueryFlags) =~= seq![
        ConfigStep::QueryFlags,
        ConfigStep::SetFlags,
        ConfigStep::CheckTerminal,
        ConfigStep::FetchSettings,
        ConfigStep::FlushInput,
        ConfigStep::ApplySettings,
        ConfigStep::FetchSpeed,
        ConfigStep::ApplySpeed,
        ConfigStep::ConfirmSpeed,
    ]);
}

} // verus!
