//! Errors the program reports to the submitter of a rejected invocation.

use vstd::prelude::*;
use vstd::std_specs::convert::FromSpecImpl;

verus! {

/// The failures that are specific to this program.
///
/// Each one reaches the submitter as a small stable number, see [`RngesusError::code`].
#[derive(Debug, Copy, Clone, PartialEq, Eq, Structural)]
pub enum RngesusError {
    /// The instruction bytes name no known request, or are too short for it.
    InvalidInstruction,
    /// A record claims, or would need, more callbacks than it has room for.
    TooManyCallbacks,
    /// The revealed secret does not link the claimed commitment to the current one.
    IncorrectSecretOrHash,
}

impl RngesusError {
    /// The number under which the error is reported.
    pub open spec fn spec_code(self) -> u32 {
        match self {
            RngesusError::InvalidInstruction => 0,
            RngesusError::TooManyCallbacks => 1,
            RngesusError::IncorrectSecretOrHash => 2,
        }
    }

    /// The number under which the error is reported.
    #[verifier::when_used_as_spec(spec_code)]
    pub fn code(self) -> (code: u32)
        ensures
            code == self.spec_code(),
    {
        match self {
            RngesusError::InvalidInstruction => 0,
            RngesusError::TooManyCallbacks => 1,
            RngesusError::IncorrectSecretOrHash => 2,
        }
    }

    /// The text that describes the error.
    pub open spec fn spec_message(self) -> Seq<char> {
        match self {
            RngesusError::InvalidInstruction => "Invalid Instruction"@,
            RngesusError::TooManyCallbacks => "More Callbacks than space allocated"@,
            RngesusError::IncorrectSecretOrHash => "Incorrect Secret or Hash"@,
        }
    }

    /// The text that describes the error.
    pub fn message(self) -> (text: String)
        ensures
            text@ == self.spec_message(),
    {
        match self {
            RngesusError::InvalidInstruction => "Invalid Instruction".to_owned(),
            RngesusError::TooManyCallbacks => "More Callbacks than space allocated".to_owned(),
            RngesusError::IncorrectSecretOrHash => "Incorrect Secret or Hash".to_owned(),
        }
    }
}

/// Every reason for which an invocation is rejected.
///
/// The generic reasons are those of the hosting ledger; the program's own
/// failures travel as [`ProgramError::Custom`] with their number.
#[derive(Debug, Copy, Clone, PartialEq, Eq, Structural)]
pub enum ProgramError {
    /// A failure of this program, by its number.
    Custom(u32),
    /// The storage slot does not have the size of a record.
    InvalidAccountData,
    /// The caller did not sign, or is not the controlling authority.
    MissingRequiredSignature,
    /// The storage slot is not owned by this program.
    IncorrectProgramId,
    /// The storage slot already holds an initialized record.
    AccountAlreadyInitialized,
    /// The storage slot holds no initialized record.
    UninitializedAccount,
    /// The storage slot is not funded well enough to persist.
    AccountNotRentExempt,
}

impl From<RngesusError> for ProgramError {
    fn from(e: RngesusError) -> (err: ProgramError) {
        ProgramError::Custom(e.code())
    }
}

impl FromSpecImpl<RngesusError> for ProgramError {
    open spec fn obeys_from_spec() -> bool {
        true
    }

    open spec fn from_spec(e: RngesusError) -> ProgramError {
        ProgramError::Custom(e.spec_code())
    }
}

/// The rejection that reports `e` to the submitter.
pub open spec fn custom(e: RngesusError) -> ProgramError {
    ProgramError::Custom(e.spec_code())
}

/// A result with what its value holds in place of the value.
pub open spec fn result_view<T: View>(res: Result<T, ProgramError>) -> Result<T::V, ProgramError> {
    match res {
        Ok(value) => Ok(value@),
        Err(e) => Err(e),
    }
}

} // verus!
