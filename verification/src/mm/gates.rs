//! The gates of a trampoline through which AArch64 code finds the thread
//! pointer of the guest.

use vstd::prelude::*;
use vstd::string::StringExecFns;

use crate::text::{decimal, decimal_digits};

verus! {

/// The offsets that the gates are made to hold.
#[derive(Clone, Copy, Debug, PartialEq, Eq, Structural)]
pub enum GateOffsets {
    /// The offset of the guest's thread pointer.
    ThreadPointer(u16),
    /// The offsets of the guest's thread pointer and of its register x18.
    WithX18 { thread_pointer: u16, x18: u16 },
}

/// Why the gates cannot be made to work.
#[derive(Clone, Copy, Debug, PartialEq, Eq, Structural)]
pub enum GateError {
    /// The platform has no offset for the guest's thread pointer.
    NoOffset,
    /// A gate cannot hold the offset.
    TooLarge(usize),
    /// The offset of register x18 goes past what a gate can hold.
    X18Overflow,
}

/// The offsets for the gates of a platform that keeps the guest's thread
/// pointer at `offset` and, where it stands in for register x18, keeps that
/// `x18_delta` bytes past it.
pub fn finalize_trampoline_gates(
    offset: Option<usize>,
    virtualizes_x18: bool,
    x18_delta: u16,
) -> (offsets: Result<GateOffsets, GateError>)
    ensures
        offsets == match offset {
            None => Err::<GateOffsets, GateError>(GateError::NoOffset),
            Some(o) if o > u16::MAX => Err(GateError::TooLarge(o)),
            Some(o) if !virtualizes_x18 => Ok(GateOffsets::ThreadPointer(o as u16)),
            Some(o) if o + x18_delta > u16::MAX => Err(GateError::X18Overflow),
            Some(o) => Ok(
                (GateOffsets::WithX18 { thread_pointer: o as u16, x18: (o + x18_delta) as u16 }),
            ),
        },
        offsets matches Ok(GateOffsets::ThreadPointer(o)) ==> !virtualizes_x18 && (
        offset matches Some(at) && at == o),
        offsets matches Ok(GateOffsets::WithX18 { thread_pointer, x18 }) ==> virtualizes_x18 && (
        offset matches Some(at) && at == thread_pointer) && x18 - thread_pointer == x18_delta,
        offsets matches Err(GateError::TooLarge(o)) ==> offset == Some(o) && o > u16::MAX,
        offsets is Err ==> offset is None || offset->0 > u16::MAX || (virtualizes_x18 && offset->0
            + x18_delta > u16::MAX),
{
    let Some(o) = offset else {
        return Err(GateError::NoOffset);
    };
    if o > u16::MAX as usize {
        return Err(GateError::TooLarge(o));
    }
    let thread_pointer: u16 = o as u16;
    if !virtualizes_x18 {
        return Ok(GateOffsets::ThreadPointer(thread_pointer));
    }
    match thread_pointer.checked_add(x18_delta) {
        Some(x18) => Ok(GateOffsets::WithX18 { thread_pointer, x18 }),
        None => Err(GateError::X18Overflow),
    }
}

impl GateError {
    /// The error in words.
    pub open spec fn text(self) -> Seq<char> {
        match self {
            GateError::NoOffset => "platform supplied no guest thread-pointer offset"@,
            GateError::TooLarge(o) => "guest thread-pointer offset "@ + decimal_digits(o as nat)
                + " is too large for a gate"@,
            GateError::X18Overflow => "guest x18 offset overflow"@,
        }
    }

    /// The error in words.
    pub fn message(self) -> (message: String)
        ensures
            message@ == self.text(),
    {
        match self {
            GateError::NoOffset => String::from_str(
                "platform supplied no guest thread-pointer offset",
            ),
            GateError::TooLarge(o) => {
                let mut text = String::from_str("guest thread-pointer offset ");
                text.append(decimal(o as u64).as_str());
                text.append(" is too large for a gate");
                text
            },
            GateError::X18Overflow => String::from_str("guest x18 offset overflow"),
        }
    }
}

impl GateOffsets {
    /// What is said where the gates cannot be made to hold the offsets.
    pub open spec fn refusal(self, reason: Seq<char>) -> Seq<char> {
        match self {
            GateOffsets::ThreadPointer(o) => "failed to patch guest thread-pointer offset "@
                + decimal_digits(o as nat) + ": "@ + reason,
            GateOffsets::WithX18 { thread_pointer, x18 } => "failed to patch guest offsets "@
                + decimal_digits(thread_pointer as nat) + "/"@ + decimal_digits(x18 as nat) + ": "@
                + reason,
        }
    }

    /// What is said where the gates cannot be made to hold the offsets.
    pub fn refusal_message(self, reason: &str) -> (message: String)
        ensures
            message@ == self.refusal(reason@),
    {
        let mut text = match self {
            GateOffsets::ThreadPointer(o) => {
                let mut text = String::from_str("failed to patch guest thread-pointer offset ");
                text.append(decimal(o as u64).as_str());
                text
            },
            GateOffsets::WithX18 { thread_pointer, x18 } => {
                let mut text = String::from_str("failed to patch guest offsets ");
                text.append(decimal(thread_pointer as u64).as_str());
                text.append("/");
                text.append(decimal(x18 as u64).as_str());
                text
            },
        };
        text.append(": ");
        text.append(reason);
        text
    }
}

} // verus!
