//! The decisions of the owner lookup protocol on platforms with security
//! descriptors. The caller performs each requested action against the
//! operating system and reports the outcome as the next event:
//!
//! 1. open the file for reading, sharing read access;
//! 2. query the owner identifier from its security descriptor;
//! 3. look the identifier up with empty buffers, which must fail and report
//!    the buffer sizes needed;
//! 4. look it up again with buffers of those sizes, check that the name
//!    fills its buffer up to the terminator, and decode it.
//!
//! The first failure ends the lookup with its error; no partial name is
//! returned.
use vstd::prelude::*;
use crate::wide::{utf16_of, WideString, WideStringError};

verus! {

/// Why the owner of a file could not be determined.
#[derive(Debug, Clone, Copy, PartialEq, Eq, Structural)]
pub enum OwnerError {
    /// The file could not be opened for reading.
    AccessError,
    /// The security descriptor's owner could not be queried.
    QueryError,
    /// The operating system answered out of protocol: the sizing lookup
    /// succeeded, an event came out of turn, or a name came back with
    /// another size than was asked for.
    ProtocolViolation,
    /// The identity lookup did not produce a name.
    LookupError,
    /// The account name was not a terminated, well-formed UTF-16 string.
    DecodeError(WideStringError),
}

/// Where a lookup stands.
#[derive(Debug, Clone, Copy, PartialEq, Eq, Structural)]
pub enum OwnerState {
    Start,
    AwaitOpen,
    AwaitQuery,
    AwaitSizes,
    /// The sized lookup was requested with a name buffer of this many units.
    AwaitName { name_units: u32 },
    Finished,
}

/// What the operating system answered to the last action.
#[derive(Debug)]
pub enum OwnerEvent {
    Begin,
    Opened { ok: bool },
    Queried { ok: bool },
    SizesReported { succeeded: bool, name_units: u32, domain_units: u32 },
    /// The sized lookup's answer: the filled name buffer, and the length of
    /// the name that the operating system reports, without its terminator.
    NameReported { succeeded: bool, name: WideString, name_len: u32 },
}

/// What the caller is to do next.
#[derive(Debug)]
pub enum OwnerAction {
    OpenFile,
    QueryOwner,
    /// Look the identifier up with zero-length name and domain buffers.
    LookupSizes,
    /// Look the identifier up with buffers of these many units.
    LookupName { name_units: u32, domain_units: u32 },
    /// The lookup is over, with the owner's account name or an error.
    Finish(Result<String, OwnerError>),
}

/// The lookup ends with `err`.
pub open spec fn ends_with(r: (OwnerState, OwnerAction), err: OwnerError) -> bool {
    r.0 == OwnerState::Finished && r.1 == OwnerAction::Finish(Err(err))
}

/// The next state and action of a lookup in `state` on `event`.
pub fn owner_step(state: OwnerState, event: OwnerEvent) -> (r: (OwnerState, OwnerAction))
    ensures
        match (state, event) {
            (OwnerState::Start, OwnerEvent::Begin) => r == (
            OwnerState::AwaitOpen,
            OwnerAction::OpenFile,
            ),
            (OwnerState::AwaitOpen, OwnerEvent::Opened { ok }) => if ok {
                r == (OwnerState::AwaitQuery, OwnerAction::QueryOwner)
            } else {
                ends_with(r, OwnerError::AccessError)
            },
            (OwnerState::AwaitQuery, OwnerEvent::Queried { ok }) => if ok {
                r == (OwnerState::AwaitSizes, OwnerAction::LookupSizes)
            } else {
                ends_with(r, OwnerError::QueryError)
            },
            (
                OwnerState::AwaitSizes,
                OwnerEvent::SizesReported { succeeded, name_units, domain_units },
            ) => if succeeded {
                ends_with(r, OwnerError::ProtocolViolation)
            } else if name_units == 0 {
                ends_with(r, OwnerError::LookupError)
            } else {
                r == (
                OwnerState::AwaitName { name_units },
                OwnerAction::LookupName { name_units, domain_units },
                )
            },
            (
                OwnerState::AwaitName { name_units },
                OwnerEvent::NameReported { succeeded, name, name_len },
            ) => if !succeeded {
                ends_with(r, OwnerError::LookupError)
            } else if name@.len() != name_units || name_len + 1 != name_units {
                ends_with(r, OwnerError::ProtocolViolation)
            } else if name@.len() == 0 || name@.last() != 0 {
                ends_with(r, OwnerError::DecodeError(WideStringError::MissingTerminator))
            } else {
                r.0 == OwnerState::Finished && match r.1 {
                    OwnerAction::Finish(Ok(t)) => utf16_of(t@) == name@.drop_last(),
                    OwnerAction::Finish(Err(e)) => e == OwnerError::DecodeError(
                        WideStringError::InvalidUtf16,
                    ) && forall|t: Seq<char>| utf16_of(t) != name@.drop_last(),
                    _ => false,
                }
            },
            _ => ends_with(r, OwnerError::ProtocolViolation),
        },
{
    let violation = (OwnerState::Finished, OwnerAction::Finish(Err(OwnerError::ProtocolViolation)));
    match (state, event) {
        (OwnerState::Start, OwnerEvent::Begin) => (OwnerState::AwaitOpen, OwnerAction::OpenFile),
        (OwnerState::AwaitOpen, OwnerEvent::Opened { ok }) => {
            if ok {
                (OwnerState::AwaitQuery, OwnerAction::QueryOwner)
            } else {
                (OwnerState::Finished, OwnerAction::Finish(Err(OwnerError::AccessError)))
            }
        },
        (OwnerState::AwaitQuery, OwnerEvent::Queried { ok }) => {
            if ok {
                (OwnerState::AwaitSizes, OwnerAction::LookupSizes)
            } else {
                (OwnerState::Finished, OwnerAction::Finish(Err(OwnerError::QueryError)))
            }
        },
        (
            OwnerState::AwaitSizes,
            OwnerEvent::SizesReported { succeeded, name_units, domain_units },
        ) => {
            if succeeded {
                violation
            } else if name_units == 0 {
                (OwnerState::Finished, OwnerAction::Finish(Err(OwnerError::LookupError)))
            } else {
                (
                    OwnerState::AwaitName { name_units },
                    OwnerAction::LookupName { name_units, domain_units },
                )
            }
        },
        (
            OwnerState::AwaitName { name_units },
            OwnerEvent::NameReported { succeeded, name, name_len },
        ) => {
            if !succeeded {
                (OwnerState::Finished, OwnerAction::Finish(Err(OwnerError::LookupError)))
            } else if name.as_slice().len() != name_units as usize || name_len as u64 + 1
                != name_units as u64 {
                violation
            } else {
                let decoded = match name.to_string() {
                    Ok(t) => Ok(t),
                    Err(e) => Err(OwnerError::DecodeError(e)),
                };
                (OwnerState::Finished, OwnerAction::Finish(decoded))
            }
        },
        _ => violation,
    }
}

} // verus!
