use vstd::prelude::*;

verus! {

/// Failures specific to the forge's rules.
#[derive(Debug, Clone, Copy, PartialEq, Eq, Structural)]
pub enum ForgeError {
    /// The caller is not the required identity.
    AuthFailed,
    /// A resource tag outside the fixed lookup table.
    InvalidResource,
    /// Settlement before the committed target tick has passed.
    SlotTooEarly,
    /// Reserved for items whose durability is exhausted.
    ItemDegraded,
}

impl ForgeError {
    pub open spec fn spec_code(self) -> u32 {
        match self {
            ForgeError::AuthFailed => 7,
            ForgeError::InvalidResource => 8,
            ForgeError::SlotTooEarly => 9,
            ForgeError::ItemDegraded => 10,
        }
    }

    /// The numeric code reported to the runtime.
    pub fn code(&self) -> (r: u32)
        ensures
            r == self.spec_code(),
    {
        match self {
            ForgeError::AuthFailed => 7,
            ForgeError::InvalidResource => 8,
            ForgeError::SlotTooEarly => 9,
            ForgeError::ItemDegraded => 10,
        }
    }
}

/// The error codes an instruction reports to the host runtime.
#[derive(Debug, Clone, Copy, PartialEq, Eq, Structural)]
pub enum ProgramError {
    Custom(u32),
    InvalidArgument,
    InvalidInstructionData,
    InvalidAccountData,
    InsufficientFunds,
    NotEnoughAccountKeys,
    MissingRequiredSignature,
    AccountAlreadyInitialized,
    UninitializedAccount,
    InvalidSeeds,
    IncorrectProgramId,
    InvalidAccountOwner,
}

impl From<ForgeError> for ProgramError {
    fn from(e: ForgeError) -> (r: ProgramError)
        ensures
            r == ProgramError::Custom(e.spec_code()),
    {
        ProgramError::Custom(e.code())
    }
}

impl vstd::std_specs::convert::FromSpecImpl<ForgeError> for ProgramError {
    open spec fn obeys_from_spec() -> bool {
        true
    }

    open spec fn from_spec(e: ForgeError) -> ProgramError {
        ProgramError::Custom(e.spec_code())
    }
}

} // verus!
