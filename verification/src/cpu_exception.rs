//! The taxonomy of CPU-raised exceptions: one variant for every defined
//! vector in `0x00..=0x1E`, a checked conversion from raw vector codes, and
//! the four classification predicates (abort, fault, interrupt, trap).

use vstd::prelude::*;

pub mod interrupts;

verus! {

/// An exception thrown by the CPU.
///
/// The mapping between variants and vector codes is a total bijection over
/// the defined vectors; codes `0x0F`, `0x15..=0x1D` and `0x1F` are reserved
/// by the architecture and have no variant.
#[derive(Clone, Copy, Debug, PartialEq, Eq, Structural)]
pub enum CpuException {
    /// The result of executing `DIV` or `IDIV` with 0 as the denominator,
    /// or of a division whose result does not fit in the destination.
    DivideByZero,
    /// The result of an instruction fetch breakpoint, a general detect
    /// condition, a data or I/O breakpoint, a single-step, or a task switch.
    /// The first two cases are faults; the others are traps.
    Debug,
    /// A hardware-asynchronous interrupt that cannot be masked.
    NonMaskableInterrupt,
    /// The result of the `INT3` instruction. The saved instruction is the
    /// instruction after the interrupt, so the handler may simply return.
    Breakpoint,
    /// The result of `INTO` with the Overflow flag set, or of an integer
    /// division whose result is too large for the target.
    Overflow,
    /// The result of executing `BOUND` with an index outside of the array.
    BoundRangeExceeded,
    /// The result of a failure to parse an instruction.
    InvalidOpcode,
    /// The result of executing an FPU instruction when there is no FPU or
    /// the FPU has been disabled.
    DeviceNotAvailable,
    /// The result of any exception for which no handler could be called.
    /// A process which double faults cannot be recovered.
    DoubleFault,
    /// A general protection fault from an external FPU. Not applicable with
    /// an integrated FPU; the vector remains defined for compatibility.
    CoprocessorSegmentOverrun,
    /// The result of an attempt to reference an invalid stack-segment
    /// selector in the task-state segment.
    InvalidTss,
    /// The result of an attempt to load a segment or gate which is not
    /// present, outside of stack-segment references.
    SegmentNotPresent,
    /// The result of a stack-segment reference to a non-present descriptor,
    /// a push or pop with a non-canonical stack address, or a failed
    /// stack-limit check.
    StackSegmentFault,
    /// The result of taking an action without the associated privilege.
    GeneralProtectionFault,
    /// The result of an access to a page that is not present, not
    /// accessible, or whose translation entries are malformed.
    PageFault,
    /// The result of a waiting floating-point instruction while an x87
    /// exception is pending.
    X87FloatingPointException,
    /// The result of an unaligned data reference while alignment checking
    /// is enabled at privilege level 3.
    AlignmentCheck,
    /// The result of the processor detecting a model-specific internal
    /// error. Never recoverable.
    MachineCheck,
    /// The result of an unmasked 128-bit media floating-point exception.
    SimdFloatingPointException,
    /// An exception related to hardware virtualization.
    VirtualizationException,
    /// An exception related to security-sensitive events.
    SecurityException,
}

/// The error returned when a raw byte does not name a defined exception
/// vector: either the byte is one of the vectors the architecture reserves,
/// or it lies entirely outside the range reserved for CPU use.
#[derive(Clone, Copy, Debug, PartialEq, Eq, Structural)]
pub enum VectorError {
    /// The byte lies in `0x00..=0x1F` but names a reserved vector.
    Reserved(u8),
    /// The byte lies outside the 32 vectors reserved for CPU use.
    Unknown(u8),
}

impl VectorError {
    /// The raw byte that was rejected.
    pub fn code(&self) -> (r: u8)
        ensures
            r == self.spec_code(),
    {
        match self {
            VectorError::Reserved(c) => *c,
            VectorError::Unknown(c) => *c,
        }
    }

    /// The raw byte that was rejected.
    pub open spec fn spec_code(self) -> u8 {
        match self {
            VectorError::Reserved(c) => c,
            VectorError::Unknown(c) => c,
        }
    }
}

impl CpuException {
    /// The vector code of this exception.
    pub open spec fn spec_code(self) -> u8 {
        match self {
            CpuException::DivideByZero => 0x00,
            CpuException::Debug => 0x01,
            CpuException::NonMaskableInterrupt => 0x02,
            CpuException::Breakpoint => 0x03,
            CpuException::Overflow => 0x04,
            CpuException::BoundRangeExceeded => 0x05,
            CpuException::InvalidOpcode => 0x06,
            CpuException::DeviceNotAvailable => 0x07,
            CpuException::DoubleFault => 0x08,
            CpuException::CoprocessorSegmentOverrun => 0x09,
            CpuException::InvalidTss => 0x0A,
            CpuException::SegmentNotPresent => 0x0B,
            CpuException::StackSegmentFault => 0x0C,
            CpuException::GeneralProtectionFault => 0x0D,
            CpuException::PageFault => 0x0E,
            CpuException::X87FloatingPointException => 0x10,
            CpuException::AlignmentCheck => 0x11,
            CpuException::MachineCheck => 0x12,
            CpuException::SimdFloatingPointException => 0x13,
            CpuException::VirtualizationException => 0x14,
            CpuException::SecurityException => 0x1E,
        }
    }

    /// The vector code of this exception.
    pub fn code(&self) -> (r: u8)
        ensures
            r == self.spec_code(),
    {
        match self {
            CpuException::DivideByZero => 0x00,
            CpuException::Debug => 0x01,
            CpuException::NonMaskableInterrupt => 0x02,
            CpuException::Breakpoint => 0x03,
            CpuException::Overflow => 0x04,
            CpuException::BoundRangeExceeded => 0x05,
            CpuException::InvalidOpcode => 0x06,
            CpuException::DeviceNotAvailable => 0x07,
            CpuException::DoubleFault => 0x08,
            CpuException::CoprocessorSegmentOverrun => 0x09,
            CpuException::InvalidTss => 0x0A,
            CpuException::SegmentNotPresent => 0x0B,
            CpuException::StackSegmentFault => 0x0C,
            CpuException::GeneralProtectionFault => 0x0D,
            CpuException::PageFault => 0x0E,
            CpuException::X87FloatingPointException => 0x10,
            CpuException::AlignmentCheck => 0x11,
            CpuException::MachineCheck => 0x12,
            CpuException::SimdFloatingPointException => 0x13,
            CpuException::VirtualizationException => 0x14,
            CpuException::SecurityException => 0x1E,
        }
    }

    /// True of the codes the architecture reserves inside the 32 CPU
    /// vectors: `0x0F`, `0x15..=0x1D` and `0x1F`.
    pub open spec fn is_reserved_code(code: u8) -> bool {
        code == 0x0F || (0x15 <= code <= 0x1D) || code == 0x1F
    }

    /// True of the codes that name a defined exception.
    pub open spec fn is_defined_code(code: u8) -> bool {
        code <= 0x1E && !Self::is_reserved_code(code)
    }

    /// What conversion from a raw byte returns.
    pub open spec fn spec_try_from(code: u8) -> Result<CpuException, VectorError> {
        if code == 0x00 {
            Ok(CpuException::DivideByZero)
        } else if code == 0x01 {
            Ok(CpuException::Debug)
        } else if code == 0x02 {
            Ok(CpuException::NonMaskableInterrupt)
        } else if code == 0x03 {
            Ok(CpuException::Breakpoint)
        } else if code == 0x04 {
            Ok(CpuException::Overflow)
        } else if code == 0x05 {
            Ok(CpuException::BoundRangeExceeded)
        } else if code == 0x06 {
            Ok(CpuException::InvalidOpcode)
        } else if code == 0x07 {
            Ok(CpuException::DeviceNotAvailable)
        } else if code == 0x08 {
            Ok(CpuException::DoubleFault)
        } else if code == 0x09 {
            Ok(CpuException::CoprocessorSegmentOverrun)
        } else if code == 0x0A {
            Ok(CpuException::InvalidTss)
        } else if code == 0x0B {
            Ok(CpuException::SegmentNotPresent)
        } else if code == 0x0C {
            Ok(CpuException::StackSegmentFault)
        } else if code == 0x0D {
            Ok(CpuException::GeneralProtectionFault)
        } else if code == 0x0E {
            Ok(CpuException::PageFault)
        } else if code == 0x10 {
            Ok(CpuException::X87FloatingPointException)
        } else if code == 0x11 {
            Ok(CpuException::AlignmentCheck)
        } else if code == 0x12 {
            Ok(CpuException::MachineCheck)
        } else if code == 0x13 {
            Ok(CpuException::SimdFloatingPointException)
        } else if code == 0x14 {
            Ok(CpuException::VirtualizationException)
        } else if code == 0x1E {
            Ok(CpuException::SecurityException)
        } else if Self::is_reserved_code(code) {
            Err(VectorError::Reserved(code))
        } else {
            Err(VectorError::Unknown(code))
        }
    }

    /// Convert a raw vector code to the exception it names. Succeeds exactly
    /// on the defined codes; a reserved code and a code outside the CPU's 32
    /// vectors are rejected with distinct errors.
    pub fn try_from(code: u8) -> (r: Result<CpuException, VectorError>)
        ensures
            r == Self::spec_try_from(code),
            r is Ok <==> Self::is_defined_code(code),
    {
        match code {
            0x00 => Ok(CpuException::DivideByZero),
            0x01 => Ok(CpuException::Debug),
            0x02 => Ok(CpuException::NonMaskableInterrupt),
            0x03 => Ok(CpuException::Breakpoint),
            0x04 => Ok(CpuException::Overflow),
            0x05 => Ok(CpuException::BoundRangeExceeded),
            0x06 => Ok(CpuException::InvalidOpcode),
            0x07 => Ok(CpuException::DeviceNotAvailable),
            0x08 => Ok(CpuException::DoubleFault),
            0x09 => Ok(CpuException::CoprocessorSegmentOverrun),
            0x0A => Ok(CpuException::InvalidTss),
            0x0B => Ok(CpuException::SegmentNotPresent),
            0x0C => Ok(CpuException::StackSegmentFault),
            0x0D => Ok(CpuException::GeneralProtectionFault),
            0x0E => Ok(CpuException::PageFault),
            0x0F => Err(VectorError::Reserved(code)),
            0x10 => Ok(CpuException::X87FloatingPointException),
            0x11 => Ok(CpuException::AlignmentCheck),
            0x12 => Ok(CpuException::MachineCheck),
            0x13 => Ok(CpuException::SimdFloatingPointException),
            0x14 => Ok(CpuException::VirtualizationException),
            0x15..=0x1D => Err(VectorError::Reserved(code)),
            0x1E => Ok(CpuException::SecurityException),
            0x1F => Err(VectorError::Reserved(code)),
            _ => Err(VectorError::Unknown(code)),
        }
    }

    /// An exception is an *abort* if the context that raised it cannot be
    /// meaningfully resumed under any circumstances. The only aborts are
    /// `DoubleFault` and `MachineCheck`.
    pub fn is_abort(&self) -> (r: bool)
        ensures
            r <==> (*self is DoubleFault || *self is MachineCheck),
    {
        match self {
            CpuException::DivideByZero => false,
            CpuException::Debug => false,
            CpuException::NonMaskableInterrupt => false,
            CpuException::Breakpoint => false,
            CpuException::Overflow => false,
            CpuException::BoundRangeExceeded => false,
            CpuException::InvalidOpcode => false,
            CpuException::DeviceNotAvailable => false,
            CpuException::DoubleFault => true,
            CpuException::CoprocessorSegmentOverrun => false,
            CpuException::InvalidTss => false,
            CpuException::SegmentNotPresent => false,
            CpuException::StackSegmentFault => false,
            CpuException::GeneralProtectionFault => false,
            CpuException::PageFault => false,
            CpuException::X87FloatingPointException => false,
            CpuException::AlignmentCheck => false,
            CpuException::MachineCheck => true,
            CpuException::SimdFloatingPointException => false,
            CpuException::VirtualizationException => false,
            CpuException::SecurityException => false,
        }
    }

    /// An exception is a *fault* if the condition that caused it can in
    /// principle be corrected and execution resumed as if the exception had
    /// never been thrown.
    pub fn is_fault(&self) -> (r: bool)
        ensures
            r <==> (*self is DivideByZero || *self is Debug || *self is BoundRangeExceeded
                || *self is InvalidOpcode || *self is DeviceNotAvailable
                || *self is CoprocessorSegmentOverrun || *self is InvalidTss
                || *self is SegmentNotPresent || *self is StackSegmentFault
                || *self is GeneralProtectionFault || *self is PageFault
                || *self is X87FloatingPointException || *self is AlignmentCheck
                || *self is SimdFloatingPointException || *self is VirtualizationException),
    {
        match self {
            CpuException::DivideByZero => true,
            CpuException::Debug => true,
            CpuException::NonMaskableInterrupt => false,
            CpuException::Breakpoint => false,
            CpuException::Overflow => false,
            CpuException::BoundRangeExceeded => true,
            CpuException::InvalidOpcode => true,
            CpuException::DeviceNotAvailable => true,
            CpuException::DoubleFault => false,
            CpuException::CoprocessorSegmentOverrun => true,
            CpuException::InvalidTss => true,
            CpuException::SegmentNotPresent => true,
            CpuException::StackSegmentFault => true,
            CpuException::GeneralProtectionFault => true,
            CpuException::PageFault => true,
            CpuException::X87FloatingPointException => true,
            CpuException::AlignmentCheck => true,
            CpuException::MachineCheck => false,
            CpuException::SimdFloatingPointException => true,
            CpuException::VirtualizationException => true,
            CpuException::SecurityException => false,
        }
    }

    /// An exception is an *interrupt* if it is caused by hardware rather
    /// than by something the program did. The only such exception is
    /// `NonMaskableInterrupt`.
    pub fn is_interrupt(&self) -> (r: bool)
        ensures
            r <==> *self is NonMaskableInterrupt,
    {
        match self {
            CpuException::NonMaskableInterrupt => true,
            _ => false,
        }
    }

    /// An exception is a *trap* if the instruction that caused it is allowed
    /// to retire before the exception fires, so that a normal return resumes
    /// the next instruction. The traps are `Debug`, `Breakpoint` and
    /// `Overflow`.
    pub fn is_trap(&self) -> (r: bool)
        ensures
            r <==> (*self is Debug || *self is Breakpoint || *self is Overflow),
    {
        match self {
            CpuException::DivideByZero => false,
            CpuException::Debug => true,
            CpuException::NonMaskableInterrupt => false,
            CpuException::Breakpoint => true,
            CpuException::Overflow => true,
            CpuException::BoundRangeExceeded => false,
            CpuException::InvalidOpcode => false,
            CpuException::DeviceNotAvailable => false,
            CpuException::DoubleFault => false,
            CpuException::CoprocessorSegmentOverrun => false,
            CpuException::InvalidTss => false,
            CpuException::SegmentNotPresent => false,
            CpuException::StackSegmentFault => false,
            CpuException::GeneralProtectionFault => false,
            CpuException::PageFault => false,
            CpuException::X87FloatingPointException => false,
            CpuException::AlignmentCheck => false,
            CpuException::MachineCheck => false,
            CpuException::SimdFloatingPointException => false,
            CpuException::VirtualizationException => false,
            CpuException::SecurityException => false,
        }
    }

    /// Every defined exception, in vector order.
    pub open spec fn spec_all() -> Seq<CpuException> {
        seq![
            CpuException::DivideByZero,
            CpuException::Debug,
            CpuException::NonMaskableInterrupt,
            CpuException::Breakpoint,
            CpuException::Overflow,
            CpuException::BoundRangeExceeded,
            CpuException::InvalidOpcode,
            CpuException::DeviceNotAvailable,
            CpuException::DoubleFault,
            CpuException::CoprocessorSegmentOverrun,
            CpuException::InvalidTss,
            CpuException::SegmentNotPresent,
            CpuException::StackSegmentFault,
            CpuException::GeneralProtectionFault,
            CpuException::PageFault,
            CpuException::X87FloatingPointException,
            CpuException::AlignmentCheck,
            CpuException::MachineCheck,
            CpuException::SimdFloatingPointException,
            CpuException::VirtualizationException,
            CpuException::SecurityException,
        ]
    }

    /// Every defined exception, in vector order. Lets callers and tests
    /// check a property against each variant, so that no variant can be
    /// passed over silently.
    pub fn all() -> (r: Vec<CpuException>)
        ensures
            r@ == Self::spec_all(),
    {
        let mut v: Vec<CpuException> = Vec::new();
        v.push(CpuException::DivideByZero);
        v.push(CpuException::Debug);
        v.push(CpuException::NonMaskableInterrupt);
        v.push(CpuException::Breakpoint);
        v.push(CpuException::Overflow);
        v.push(CpuException::BoundRangeExceeded);
        v.push(CpuException::InvalidOpcode);
        v.push(CpuException::DeviceNotAvailable);
        v.push(CpuException::DoubleFault);
        v.push(CpuException::CoprocessorSegmentOverrun);
        v.push(CpuException::InvalidTss);
        v.push(CpuException::SegmentNotPresent);
        v.push(CpuException::StackSegmentFault);
        v.push(CpuException::GeneralProtectionFault);
        v.push(CpuException::PageFault);
        v.push(CpuException::X87FloatingPointException);
        v.push(CpuException::AlignmentCheck);
        v.push(CpuException::MachineCheck);
        v.push(CpuException::SimdFloatingPointException);
        v.push(CpuException::VirtualizationException);
        v.push(CpuException::SecurityException);
        proof {
            assert(v@ =~= Self::spec_all());
        }
        v
    }
}

/// Conversion from a raw byte succeeds exactly on the defined vector codes,
/// and the exception it returns carries the same numeric code back.
pub proof fn lemma_code_round_trip(code: u8)
    ensures
        CpuException::spec_try_from(code) is Ok <==> CpuException::is_defined_code(code),
        CpuException::spec_try_from(code) matches Ok(e) ==> e.spec_code() == code,
{
}

/// Every defined exception survives a round trip through its vector code.
pub proof fn lemma_exception_round_trip(e: CpuException)
    ensures
        CpuException::spec_try_from(e.spec_code()) == Ok::<CpuException, VectorError>(e),
{
}

/// A reserved code is rejected with the `Reserved` error naming it, and a
/// code outside the 32 CPU vectors with the distinct `Unknown` error: the
/// two kinds of rejection never overlap.
pub proof fn lemma_rejection_classified(code: u8)
    ensures
        CpuException::is_reserved_code(code) <==> CpuException::spec_try_from(code)
            == Err::<CpuException, VectorError>(VectorError::Reserved(code)),
        code >= 0x20 <==> CpuException::spec_try_from(code)
            == Err::<CpuException, VectorError>(VectorError::Unknown(code)),
{
}

/// The enumeration of defined exceptions is complete and in vector order:
/// every variant occurs in it, and the entry at each position carries
/// a strictly larger code than the one before it.
pub proof fn lemma_all_exceptions_complete(e: CpuException)
    ensures
        CpuException::spec_all().contains(e),
        forall|i: int, j: int|
            0 <= i < j < CpuException::spec_all().len()
                ==> (#[trigger] CpuException::spec_all()[i]).spec_code()
                < (#[trigger] CpuException::spec_all()[j]).spec_code(),
{
    let all = CpuException::spec_all();
    match e {
        CpuException::DivideByZero => assert(all[0] == e),
        CpuException::Debug => assert(all[1] == e),
        CpuException::NonMaskableInterrupt => assert(all[2] == e),
        CpuException::Breakpoint => assert(all[3] == e),
        CpuException::Overflow => assert(all[4] == e),
        CpuException::BoundRangeExceeded => assert(all[5] == e),
        CpuException::InvalidOpcode => assert(all[6] == e),
        CpuException::DeviceNotAvailable => assert(all[7] == e),
        CpuException::DoubleFault => assert(all[8] == e),
        CpuException::CoprocessorSegmentOverrun => assert(all[9] == e),
        CpuException::InvalidTss => assert(all[10] == e),
        CpuException::SegmentNotPresent => assert(all[11] == e),
        CpuException::StackSegmentFault => assert(all[12] == e),
        CpuException::GeneralProtectionFault => assert(all[13] == e),
        CpuException::PageFault => assert(all[14] == e),
        CpuException::X87FloatingPointException => assert(all[15] == e),
        CpuException::AlignmentCheck => assert(all[16] == e),
        CpuException::MachineCheck => assert(all[17] == e),
        CpuException::SimdFloatingPointException => assert(all[18] == e),
        CpuException::VirtualizationException => assert(all[19] == e),
        CpuException::SecurityException => assert(all[20] == e),
    }
}

} // verus!
