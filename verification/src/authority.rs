//! The policy in front of every change of a record: yes-or-no questions about
//! the caller and the storage slot, answered from facts that the hosting
//! ledger supplies.

use vstd::prelude::*;
use crate::bytes::keys_equal;
use crate::error::ProgramError;

verus! {

/// What the hosting ledger tells about one invocation.
#[derive(Debug, Clone, Copy)]
pub struct Accounts {
    /// address of the account that invokes the program
    pub caller: [u8; 32],
    /// whether that account signed the invocation
    pub caller_is_signer: bool,
    /// address of the controlling authority, derived from the program's identity
    pub authority: [u8; 32],
    /// address of the program that owns the storage slot
    pub owner: [u8; 32],
    /// whether the balance of the storage slot exempts it from rent at its size
    pub rent_exempt: bool,
}

impl Accounts {
    /// The caller is the controlling authority.
    pub open spec fn is_authority(self) -> bool {
        self.caller@ == self.authority@
    }

    /// The storage slot belongs to the program `program_id`.
    pub open spec fn owned_by(self, program_id: Seq<u8>) -> bool {
        self.owner@ == program_id
    }
}

/// What [`require_signer`] answers.
pub open spec fn spec_require_signer(did_caller_sign: bool) -> Result<(), ProgramError> {
    if did_caller_sign {
        Ok(())
    } else {
        Err(ProgramError::MissingRequiredSignature)
    }
}

/// What [`require_controlling_authority`] answers.
pub open spec fn spec_require_controlling_authority(
    candidate: Seq<u8>,
    derived: Seq<u8>,
) -> Result<(), ProgramError> {
    if candidate == derived {
        Ok(())
    } else {
        Err(ProgramError::MissingRequiredSignature)
    }
}

/// What [`require_rent_exempt`] answers.
pub open spec fn spec_require_rent_exempt(exempt: bool) -> Result<(), ProgramError> {
    if exempt {
        Ok(())
    } else {
        Err(ProgramError::AccountNotRentExempt)
    }
}

/// What [`require_owner`] answers.
pub open spec fn spec_require_owner(owner: Seq<u8>, program_id: Seq<u8>) -> Result<
    (),
    ProgramError,
> {
    if owner == program_id {
        Ok(())
    } else {
        Err(ProgramError::IncorrectProgramId)
    }
}

/// Passes a caller that signed the invocation.
pub fn require_signer(did_caller_sign: bool) -> (res: Result<(), ProgramError>)
    ensures
        res == spec_require_signer(did_caller_sign),
{
    if did_caller_sign {
        Ok(())
    } else {
        Err(ProgramError::MissingRequiredSignature)
    }
}

/// Passes a caller whose address is that of the controlling authority.
pub fn require_controlling_authority(candidate: &[u8; 32], derived: &[u8; 32]) -> (res: Result<
    (),
    ProgramError,
>)
    ensures
        res == spec_require_controlling_authority(candidate@, derived@),
{
    if keys_equal(candidate, derived) {
        Ok(())
    } else {
        Err(ProgramError::MissingRequiredSignature)
    }
}

/// Passes a storage slot that the rent oracle found exempt.
pub fn require_rent_exempt(exempt: bool) -> (res: Result<(), ProgramError>)
    ensures
        res == spec_require_rent_exempt(exempt),
{
    if exempt {
        Ok(())
    } else {
        Err(ProgramError::AccountNotRentExempt)
    }
}

/// Passes a storage slot that the program `program_id` owns.
pub fn require_owner(owner: &[u8; 32], program_id: &[u8; 32]) -> (res: Result<(), ProgramError>)
    ensures
        res == spec_require_owner(owner@, program_id@),
{
    if keys_equal(owner, program_id) {
        Ok(())
    } else {
        Err(ProgramError::IncorrectProgramId)
    }
}

} // verus!
