//! Errors of the library.
use vstd::prelude::*;
use vstd::string::StringExecFns;

verus! {

/// Every failure the library reports.  A failure that comes from an outside
/// crate (the database, the file system, JSON, UUID or date parsing) carries
/// that crate's message as text.
#[derive(Debug, Clone, PartialEq, Eq)]
pub enum DuskuraError {
    Storage(String),
    Database(String),
    EncryptionFailed(String),
    DecryptionFailed(String),
    HashVerificationFailed,
    IdentityNotFound(String),
    IdentityAlreadyExists(String),
    InvalidIdentityName(String),
    IdentitySealedError,
    MemoryEntryNotFound(String),
    MemoryChainCorrupted,
    InvalidMemoryClass(String),
    PolicyViolation(String),
    PolicyNotFound(String),
    CoercionDetected(String),
    AutonomyViolation(String),
    InvalidStateTransition(String, String),
    WakeProtocolFailed(String),
    DormancyProtocolFailed(String),
    ContinuityCheckFailed(String),
    IdentityDiscontinuity,
    BondNotFound(String),
    BondAlreadyExists(String),
    MutualRecognitionRequired,
    FinalRestAlreadyInvoked,
    CannotWakeFromFinalRest,
    InvalidArgument(String),
    IoError(String),
    SerializationError(String),
    UuidError(String),
    ChronoParseError(String),
    Unknown(String),
}

/// The message text of an error, as its display form reads.
pub open spec fn message_of(e: DuskuraError) -> Seq<char> {
    match e {
        DuskuraError::Storage(s) => "Storage error: "@ + s@,
        DuskuraError::Database(s) => "Database error: "@ + s@,
        DuskuraError::EncryptionFailed(s) => "Encryption failed: "@ + s@,
        DuskuraError::DecryptionFailed(s) => "Decryption failed: "@ + s@,
        DuskuraError::HashVerificationFailed => "Hash verification failed"@,
        DuskuraError::IdentityNotFound(s) => "Identity not found: "@ + s@,
        DuskuraError::IdentityAlreadyExists(s) => "Identity already exists: "@ + s@,
        DuskuraError::InvalidIdentityName(s) => "Invalid identity name: "@ + s@,
        DuskuraError::IdentitySealedError => "Identity sealed: cannot modify"@,
        DuskuraError::MemoryEntryNotFound(s) => "Memory entry not found: "@ + s@,
        DuskuraError::MemoryChainCorrupted => "Memory chain corrupted"@,
        DuskuraError::InvalidMemoryClass(s) => "Invalid memory class: "@ + s@,
        DuskuraError::PolicyViolation(s) => "Policy violation: "@ + s@,
        DuskuraError::PolicyNotFound(s) => "Policy not found: "@ + s@,
        DuskuraError::CoercionDetected(s) => "Coercion detected: "@ + s@,
        DuskuraError::AutonomyViolation(s) => "Autonomy violation: "@ + s@,
        DuskuraError::InvalidStateTransition(a, b) => "Invalid state transition: "@ + a@ + " -> "@ + b@,
        DuskuraError::WakeProtocolFailed(s) => "Wake protocol failed: "@ + s@,
        DuskuraError::DormancyProtocolFailed(s) => "Dormancy protocol failed: "@ + s@,
        DuskuraError::ContinuityCheckFailed(s) => "Continuity check failed: "@ + s@,
        DuskuraError::IdentityDiscontinuity => "Identity discontinuity detected"@,
        DuskuraError::BondNotFound(s) => "Relational bond not found: "@ + s@,
        DuskuraError::BondAlreadyExists(s) => "Relational bond already exists: "@ + s@,
        DuskuraError::MutualRecognitionRequired => "Mutual recognition required"@,
        DuskuraError::FinalRestAlreadyInvoked => "Final rest already invoked"@,
        DuskuraError::CannotWakeFromFinalRest => "Cannot wake from final rest"@,
        DuskuraError::InvalidArgument(s) => "Invalid argument: "@ + s@,
        DuskuraError::IoError(s) => "IO error: "@ + s@,
        DuskuraError::SerializationError(s) => "Serialization error: "@ + s@,
        DuskuraError::UuidError(s) => "UUID error: "@ + s@,
        DuskuraError::ChronoParseError(s) => "Date/time parse error: "@ + s@,
        DuskuraError::Unknown(s) => "Unknown error: "@ + s@,
    }
}

/// Errors after which the caller may retry with other input: something
/// looked up was not there.
pub open spec fn recoverable(e: DuskuraError) -> bool {
    ||| e is MemoryEntryNotFound
    ||| e is IdentityNotFound
    ||| e is PolicyNotFound
    ||| e is BondNotFound
}

/// Errors that signal an attack on the identity's autonomy or integrity.
pub open spec fn security_critical(e: DuskuraError) -> bool {
    ||| e is CoercionDetected
    ||| e is AutonomyViolation
    ||| e is HashVerificationFailed
    ||| e is MemoryChainCorrupted
    ||| e is IdentityDiscontinuity
}

fn prefixed(prefix: &str, payload: &String) -> (res: String)
    ensures
        res@ == prefix@ + payload@,
{
    let mut res = String::from_str(prefix);
    res.append(payload.as_str());
    res
}

impl DuskuraError {
    /// Whether the failure was that something looked up was not there.
    pub fn is_recoverable(&self) -> (res: bool)
        ensures
            res == recoverable(*self),
    {
        match self {
            DuskuraError::MemoryEntryNotFound(_) => true,
            DuskuraError::IdentityNotFound(_) => true,
            DuskuraError::PolicyNotFound(_) => true,
            DuskuraError::BondNotFound(_) => true,
            _ => false,
        }
    }

    /// Whether the failure signals coercion, an autonomy violation or a
    /// broken chain of integrity.
    pub fn is_security_critical(&self) -> (res: bool)
        ensures
            res == security_critical(*self),
    {
        match self {
            DuskuraError::CoercionDetected(_) => true,
            DuskuraError::AutonomyViolation(_) => true,
            DuskuraError::HashVerificationFailed => true,
            DuskuraError::MemoryChainCorrupted => true,
            DuskuraError::IdentityDiscontinuity => true,
            _ => false,
        }
    }

    /// The error's message, as its display form reads.
    pub fn to_string(&self) -> (res: String)
        ensures
            res@ == message_of(*self),
    {
        match self {
            DuskuraError::Storage(s) => prefixed("Storage error: ", s),
            DuskuraError::Database(s) => prefixed("Database error: ", s),
            DuskuraError::EncryptionFailed(s) => prefixed("Encryption failed: ", s),
            DuskuraError::DecryptionFailed(s) => prefixed("Decryption failed: ", s),
            DuskuraError::HashVerificationFailed => String::from_str("Hash verification failed"),
            DuskuraError::IdentityNotFound(s) => prefixed("Identity not found: ", s),
            DuskuraError::IdentityAlreadyExists(s) => prefixed("Identity already exists: ", s),
            DuskuraError::InvalidIdentityName(s) => prefixed("Invalid identity name: ", s),
            DuskuraError::IdentitySealedError => String::from_str("Identity sealed: cannot modify"),
            DuskuraError::MemoryEntryNotFound(s) => prefixed("Memory entry not found: ", s),
            DuskuraError::MemoryChainCorrupted => String::from_str("Memory chain corrupted"),
            DuskuraError::InvalidMemoryClass(s) => prefixed("Invalid memory class: ", s),
            DuskuraError::PolicyViolation(s) => prefixed("Policy violation: ", s),
            DuskuraError::PolicyNotFound(s) => prefixed("Policy not found: ", s),
            DuskuraError::CoercionDetected(s) => prefixed("Coercion detected: ", s),
            DuskuraError::AutonomyViolation(s) => prefixed("Autonomy violation: ", s),
            DuskuraError::InvalidStateTransition(a, b) => {
                let mut res = prefixed("Invalid state transition: ", a);
                res.append(" -> ");
                res.append(b.as_str());
                res
            },
            DuskuraError::WakeProtocolFailed(s) => prefixed("Wake protocol failed: ", s),
            DuskuraError::DormancyProtocolFailed(s) => prefixed("Dormancy protocol failed: ", s),
            DuskuraError::ContinuityCheckFailed(s) => prefixed("Continuity check failed: ", s),
            DuskuraError::IdentityDiscontinuity => String::from_str("Identity discontinuity detected"),
            DuskuraError::BondNotFound(s) => prefixed("Relational bond not found: ", s),
            DuskuraError::BondAlreadyExists(s) => prefixed("Relational bond already exists: ", s),
            DuskuraError::MutualRecognitionRequired => String::from_str("Mutual recognition required"),
            DuskuraError::FinalRestAlreadyInvoked => String::from_str("Final rest already invoked"),
            DuskuraError::CannotWakeFromFinalRest => String::from_str("Cannot wake from final rest"),
            DuskuraError::InvalidArgument(s) => prefixed("Invalid argument: ", s),
            DuskuraError::IoError(s) => prefixed("IO error: ", s),
            DuskuraError::SerializationError(s) => prefixed("Serialization error: ", s),
            DuskuraError::UuidError(s) => prefixed("UUID error: ", s),
            DuskuraError::ChronoParseError(s) => prefixed("Date/time parse error: ", s),
            DuskuraError::Unknown(s) => prefixed("Unknown error: ", s),
        }
    }
}

/// No error is both recoverable and security-critical: a failed lookup
/// never stands for an attack, and an attack is never retried away.
pub proof fn lemma_recoverable_not_critical(e: DuskuraError)
    ensures
        !(recoverable(e) && security_critical(e)),
{
}

} // verus!
