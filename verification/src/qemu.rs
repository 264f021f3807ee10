//! Exit codes for the hosting emulator's debug-exit device. The device
//! doubles the code it receives and adds one before the host can observe
//! it, so both codes are chosen to stay distinct from each other and from
//! the host's own failure-to-launch report of 1.

use vstd::prelude::*;

verus! {

/// An exit code for exiting the emulator.
#[derive(Clone, Copy, Debug, Eq, PartialEq, Structural)]
pub enum QemuExitCode {
    /// The kernel exited normally. Deliberately nonzero: a zero code would
    /// become 1 after the host's transform and be indistinguishable from
    /// the emulator failing to run at all.
    Success,
    /// The kernel exited abnormally.
    Failure,
}

impl QemuExitCode {
    /// The value written to the debug-exit device.
    pub open spec fn spec_code(self) -> u32 {
        match self {
            QemuExitCode::Success => 0b10,
            QemuExitCode::Failure => 0b11,
        }
    }

    /// The value written to the debug-exit device.
    pub fn code(self) -> (r: u32)
        ensures
            r == self.spec_code(),
    {
        match self {
            QemuExitCode::Success => 0b10,
            QemuExitCode::Failure => 0b11,
        }
    }
}

/// What the host observes for a code written to the debug-exit device: the
/// code doubled, plus one.
pub open spec fn spec_host_observed(code: u32) -> int {
    2 * code + 1
}

/// The two exit codes remain distinguishable after the host's transform,
/// and neither collides with the host's own failure-to-launch report of 1.
pub proof fn lemma_exit_codes_distinguishable()
    ensures
        spec_host_observed(QemuExitCode::Success.spec_code()) == 5,
        spec_host_observed(QemuExitCode::Failure.spec_code()) == 7,
        spec_host_observed(QemuExitCode::Success.spec_code())
            != spec_host_observed(QemuExitCode::Failure.spec_code()),
        spec_host_observed(QemuExitCode::Success.spec_code()) != 1,
        spec_host_observed(QemuExitCode::Failure.spec_code()) != 1,
{
}

} // verus!
