use crate::address::record_address;
use crate::ledger::AccountView;
use crate::record::{byte_len, RecordView, RegistryError, MAX_AGENT_ID_LEN, MAX_VERSION_LEN};
use crate::registry::{follows, record_of, register_outcome, update_outcome};
use vstd::prelude::*;

verus! {

/// After a successful registration, deriving the owner's address again reaches
/// the record just written, with the owner, timestamp, label and version given.
pub proof fn register_then_locate(
    m: Map<Seq<u8>, AccountView>,
    owner: Seq<u8>,
    agent_id: Seq<char>,
    version: Seq<char>,
    now: i64,
)
    requires
        register_outcome(m, owner, agent_id, version, now) is Ok,
    ensures
        record_of(register_outcome(m, owner, agent_id, version, now)->Ok_0, owner) == Some(
            RecordView { agent: owner, registered_at: now, agent_id, version },
        ),
{
}

/// A second registration by the same owner is refused with `AlreadyRegistered`,
/// whatever label, version and time it carries (within the length bounds), and
/// the first record stays as it was written.
pub proof fn register_twice_rejected(
    m: Map<Seq<u8>, AccountView>,
    owner: Seq<u8>,
    agent_id: Seq<char>,
    version: Seq<char>,
    now: i64,
    agent_id2: Seq<char>,
    version2: Seq<char>,
    now2: i64,
)
    requires
        register_outcome(m, owner, agent_id, version, now) is Ok,
        byte_len(agent_id2) <= MAX_AGENT_ID_LEN,
        byte_len(version2) <= MAX_VERSION_LEN,
    ensures
        register_outcome(register_outcome(m, owner, agent_id, version, now)->Ok_0, owner, agent_id2, version2, now2)
            == Err::<Map<Seq<u8>, AccountView>, RegistryError>(RegistryError::AlreadyRegistered),
        forall|after: Map<Seq<u8>, AccountView>, r: Result<(), RegistryError>|
            #[trigger] follows(
                register_outcome(register_outcome(m, owner, agent_id, version, now)->Ok_0, owner, agent_id2, version2, now2),
                register_outcome(m, owner, agent_id, version, now)->Ok_0,
                after,
                r,
            ) ==> record_of(after, owner) == Some(RecordView { agent: owner, registered_at: now, agent_id, version }),
{
}

/// A label longer than 32 bytes is refused with `AgentIdTooLong`, before
/// anything else is looked at, and the ledger is left as it was.
pub proof fn long_agent_id_rejected(
    m: Map<Seq<u8>, AccountView>,
    owner: Seq<u8>,
    agent_id: Seq<char>,
    version: Seq<char>,
    now: i64,
)
    requires
        byte_len(agent_id) > MAX_AGENT_ID_LEN,
    ensures
        register_outcome(m, owner, agent_id, version, now) == Err::<Map<Seq<u8>, AccountView>, RegistryError>(
            RegistryError::AgentIdTooLong,
        ),
        forall|after: Map<Seq<u8>, AccountView>, r: Result<(), RegistryError>|
            #[trigger] follows(register_outcome(m, owner, agent_id, version, now), m, after, r) ==> after == m,
{
}

/// A version longer than 16 bytes is refused with `VersionTooLong`, by an update
/// always and by a registration whose label is within bounds; either way the
/// ledger is left as it was.
pub proof fn long_version_rejected(
    m: Map<Seq<u8>, AccountView>,
    owner: Seq<u8>,
    agent_id: Seq<char>,
    version: Seq<char>,
    now: i64,
)
    requires
        byte_len(version) > MAX_VERSION_LEN,
    ensures
        byte_len(agent_id) <= MAX_AGENT_ID_LEN ==> register_outcome(m, owner, agent_id, version, now)
            == Err::<Map<Seq<u8>, AccountView>, RegistryError>(RegistryError::VersionTooLong),
        update_outcome(m, owner, version) == Err::<Map<Seq<u8>, AccountView>, RegistryError>(
            RegistryError::VersionTooLong,
        ),
        forall|after: Map<Seq<u8>, AccountView>, r: Result<(), RegistryError>|
            #[trigger] follows(register_outcome(m, owner, agent_id, version, now), m, after, r) ==> after == m,
        forall|after: Map<Seq<u8>, AccountView>, r: Result<(), RegistryError>|
            #[trigger] follows(update_outcome(m, owner, version), m, after, r) ==> after == m,
{
}

/// An update signed by anyone but a record's owner never changes that record:
/// where the signer's derived address holds it, the update is refused with
/// `Unauthorized`, and any update that does succeed leaves it as it was.
pub proof fn other_signer_cannot_update(
    m: Map<Seq<u8>, AccountView>,
    address: Seq<u8>,
    signer: Seq<u8>,
    version: Seq<char>,
)
    requires
        m.contains_key(address),
        m[address].record.agent != signer,
    ensures
        byte_len(version) <= MAX_VERSION_LEN && record_address(signer) == Some(address) ==> update_outcome(
            m,
            signer,
            version,
        ) == Err::<Map<Seq<u8>, AccountView>, RegistryError>(RegistryError::Unauthorized),
        forall|after: Map<Seq<u8>, AccountView>, r: Result<(), RegistryError>|
            #[trigger] follows(update_outcome(m, signer, version), m, after, r) ==> after.contains_key(address)
                && after[address] == m[address],
{
}

/// A successful update rewrites the version of the signer's record and keeps
/// its owner, timestamp, label and allocated space.
pub proof fn update_keeps_other_fields(m: Map<Seq<u8>, AccountView>, owner: Seq<u8>, version: Seq<char>)
    requires
        update_outcome(m, owner, version) is Ok,
    ensures
        record_address(owner) is Some,
        ({
            let a = record_address(owner)->Some_0;
            let m2 = update_outcome(m, owner, version)->Ok_0;
            m.contains_key(a) && m2.contains_key(a) && m2[a].space == m[a].space && m2[a].record == RecordView {
                version,
                ..m[a].record
            }
        }),
{
}

} // verus!
