use vstd::prelude::*;
use vstd::utf8::encode_utf8;

verus! {

/// Largest encoded length, in bytes, of an agent label.
pub const MAX_AGENT_ID_LEN: usize = 32;

/// Largest encoded length, in bytes, of a version string.
pub const MAX_VERSION_LEN: usize = 16;

/// Bytes of the account discriminator that prefixes every stored record.
pub const DISCRIMINATOR_LEN: usize = 8;

/// Bytes of an owner key.
pub const OWNER_KEY_LEN: usize = 32;

/// Bytes of the registration timestamp.
pub const TIMESTAMP_LEN: usize = 8;

/// Bytes of the length prefix in front of each string field.
pub const STRING_PREFIX_LEN: usize = 4;

/// Encoded (UTF-8) length of a string, in bytes.
pub open spec fn byte_len(s: Seq<char>) -> nat {
    encode_utf8(s).len()
}

/// Encoded (UTF-8) length of `s`, in bytes.
pub fn encoded_len(s: &String) -> (r: usize)
    ensures
        r == byte_len(s@),
{
    s.as_str().as_bytes().len()
}

/// Serialized size of a record with the given label and version: discriminator,
/// owner key, timestamp, and each string behind its length prefix.
pub open spec fn record_space(agent_id: Seq<char>, version: Seq<char>) -> nat {
    (DISCRIMINATOR_LEN + OWNER_KEY_LEN + TIMESTAMP_LEN + STRING_PREFIX_LEN + byte_len(agent_id)
        + STRING_PREFIX_LEN + byte_len(version)) as nat
}

/// Checks a registration's label and version against their bounds, the label
/// first.
pub fn check_registration(agent_id: &String, version: &String) -> (r: Result<(), RegistryError>)
    ensures
        byte_len(agent_id@) > MAX_AGENT_ID_LEN ==> r == Err::<(), RegistryError>(RegistryError::AgentIdTooLong),
        byte_len(agent_id@) <= MAX_AGENT_ID_LEN && byte_len(version@) > MAX_VERSION_LEN ==> r == Err::<
            (),
            RegistryError,
        >(RegistryError::VersionTooLong),
        byte_len(agent_id@) <= MAX_AGENT_ID_LEN && byte_len(version@) <= MAX_VERSION_LEN ==> r is Ok,
{
    if encoded_len(agent_id) > MAX_AGENT_ID_LEN {
        return Err(RegistryError::AgentIdTooLong);
    }
    check_version(version)
}

/// Checks a version against its bound.
pub fn check_version(version: &String) -> (r: Result<(), RegistryError>)
    ensures
        byte_len(version@) > MAX_VERSION_LEN ==> r == Err::<(), RegistryError>(RegistryError::VersionTooLong),
        byte_len(version@) <= MAX_VERSION_LEN ==> r is Ok,
{
    if encoded_len(version) > MAX_VERSION_LEN {
        Err(RegistryError::VersionTooLong)
    } else {
        Ok(())
    }
}

/// Why an operation on the registry was refused.
#[derive(Debug, Clone, Copy, PartialEq, Eq)]
pub enum RegistryError {
    /// The agent label is longer than 32 bytes.
    AgentIdTooLong,
    /// The version is longer than 16 bytes.
    VersionTooLong,
    /// A record already exists at the owner's address.
    AlreadyRegistered,
    /// No record at the owner's address belongs to the caller.
    Unauthorized,
    /// No program address could be derived for the owner.
    NoProgramAddress,
    /// The runtime gave no clock to stamp the registration with.
    ClockUnavailable,
}

impl RegistryError {
    /// The message shown for this error.
    pub fn message(&self) -> (r: String) {
        match self {
            RegistryError::AgentIdTooLong => "agent_id too long (max 32 chars)".to_string(),
            RegistryError::VersionTooLong => "version too long (max 16 chars)".to_string(),
            RegistryError::AlreadyRegistered => "agent already registered".to_string(),
            RegistryError::Unauthorized => "signer does not own this record".to_string(),
            RegistryError::NoProgramAddress => "no program address for this owner".to_string(),
            RegistryError::ClockUnavailable => "clock unavailable".to_string(),
        }
    }
}

/// The stored record of one agent.
pub struct AgentRegistry {
    /// Public key of the owner who registered the agent.
    pub agent: [u8; 32],
    /// Seconds since the epoch at registration.
    pub registered_at: i64,
    /// Human-readable label, set once.
    pub agent_id: String,
    /// Version string, rewritable by the owner.
    pub version: String,
}

/// What a record holds, as mathematical values.
pub struct RecordView {
    pub agent: Seq<u8>,
    pub registered_at: i64,
    pub agent_id: Seq<char>,
    pub version: Seq<char>,
}

impl View for AgentRegistry {
    type V = RecordView;

    open spec fn view(&self) -> RecordView {
        RecordView {
            agent: self.agent@,
            registered_at: self.registered_at,
            agent_id: self.agent_id@,
            version: self.version@,
        }
    }
}

impl AgentRegistry {
    /// Bytes to allocate for a record holding `agent_id` and `version`.
    pub fn space(agent_id: &String, version: &String) -> (r: usize)
        requires
            record_space(agent_id@, version@) <= usize::MAX,
        ensures
            r == record_space(agent_id@, version@),
    {
        DISCRIMINATOR_LEN + OWNER_KEY_LEN + TIMESTAMP_LEN + STRING_PREFIX_LEN + encoded_len(agent_id)
            + STRING_PREFIX_LEN + encoded_len(version)
    }
}

} // verus!
