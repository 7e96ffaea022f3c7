use vstd::prelude::*;

verus! {

/// Every way in which a request can be refused. A refused request has no
/// effect on any record.
#[derive(Clone, Copy, Debug, PartialEq, Eq, Structural)]
pub enum TeleportError {
    /// The caller is not the owner, or the owner did not sign.
    AuthFailed,
    /// The record is already initialized, or a hash was already settled.
    AlreadyInUse,
    /// The record's balance is below the minimum-balance policy.
    NotRentExempt,
    /// The record has not been initialized.
    UninitializedAccount,
    /// The record is not owned by this program or has the wrong size.
    IncorrectProgramAccount,
    /// A collaborator identity, an admin or an amount does not match.
    UnexpectedError,
    /// A signer-proof is missing.
    MissingRequiredSignature,
    /// The configuration is frozen.
    Freeze,
}

/// Why closing a replay-protection record failed: one of the bridge's own
/// refusals, or a balance that the host cannot hold.
#[derive(Clone, Copy, Debug, PartialEq, Eq, Structural)]
pub enum CloseError {
    /// A precondition of the bridge failed.
    Refused(TeleportError),
    /// The target's balance would pass `u64::MAX`. This is the host's own
    /// account-data failure, not one of the bridge's error kinds.
    InvalidAccountData,
}

impl TeleportError {
    /// The numeric code under which the error is reported to the host.
    pub open spec fn spec_code(self) -> u32 {
        match self {
            TeleportError::AuthFailed => 0,
            TeleportError::AlreadyInUse => 1,
            TeleportError::NotRentExempt => 2,
            TeleportError::UninitializedAccount => 3,
            TeleportError::IncorrectProgramAccount => 4,
            TeleportError::UnexpectedError => 5,
            TeleportError::MissingRequiredSignature => 6,
            TeleportError::Freeze => 7,
        }
    }

    pub fn code(&self) -> (r: u32)
        ensures
            r == self.spec_code(),
    {
        match self {
            TeleportError::AuthFailed => 0,
            TeleportError::AlreadyInUse => 1,
            TeleportError::NotRentExempt => 2,
            TeleportError::UninitializedAccount => 3,
            TeleportError::IncorrectProgramAccount => 4,
            TeleportError::UnexpectedError => 5,
            TeleportError::MissingRequiredSignature => 6,
            TeleportError::Freeze => 7,
        }
    }

    /// The diagnostic text reported beside the code.
    pub open spec fn spec_message(self) -> Seq<char> {
        match self {
            TeleportError::AuthFailed => "Auth Failed"@,
            TeleportError::AlreadyInUse => "Already In Use"@,
            TeleportError::NotRentExempt => "Not Rent Exempt"@,
            TeleportError::UninitializedAccount => "Uninitialized Account"@,
            TeleportError::IncorrectProgramAccount => "Incorrect Program Account"@,
            TeleportError::UnexpectedError => "Unexpected Error"@,
            TeleportError::MissingRequiredSignature => "Missing Required Signature"@,
            TeleportError::Freeze => "Freeze"@,
        }
    }

    pub fn message(&self) -> (r: &'static str)
        ensures
            r@ == self.spec_message(),
    {
        match self {
            TeleportError::AuthFailed => "Auth Failed",
            TeleportError::AlreadyInUse => "Already In Use",
            TeleportError::NotRentExempt => "Not Rent Exempt",
            TeleportError::UninitializedAccount => "Uninitialized Account",
            TeleportError::IncorrectProgramAccount => "Incorrect Program Account",
            TeleportError::UnexpectedError => "Unexpected Error",
            TeleportError::MissingRequiredSignature => "Missing Required Signature",
            TeleportError::Freeze => "Freeze",
        }
    }

    /// The error whose code is `code`, if there is one.
    pub fn from_code(code: u32) -> (r: Option<TeleportError>)
        ensures
            code < 8 <==> r is Some,
            r matches Some(e) ==> e.spec_code() == code,
    {
        match code {
            0 => Some(TeleportError::AuthFailed),
            1 => Some(TeleportError::AlreadyInUse),
            2 => Some(TeleportError::NotRentExempt),
            3 => Some(TeleportError::UninitializedAccount),
            4 => Some(TeleportError::IncorrectProgramAccount),
            5 => Some(TeleportError::UnexpectedError),
            6 => Some(TeleportError::MissingRequiredSignature),
            7 => Some(TeleportError::Freeze),
            _ => None,
        }
    }
}

} // verus!
