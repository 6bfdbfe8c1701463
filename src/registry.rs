use crate::address::{agent_address, record_address};
use crate::ledger::{AccountView, Ledger, RegistryAccount, version_update};
use crate::record::{
    AgentRegistry, RecordView, RegistryError, byte_len, check_registration, check_version, record_space, MAX_AGENT_ID_LEN, MAX_VERSION_LEN,
};
use anchor_lang::prelude::{Clock, ProgramError, SolanaSysvar};
use vstd::prelude::*;

verus! {

/// The runtime's program error, carried through unread.
#[verifier::external_type_specification]
#[verifier::external_body]
pub struct ExProgramError(ProgramError);

/// Relies on Clock::get: the runtime's clock sysvar, of which only the unix
/// timestamp is kept; the runtime's error where it offers no clock.
#[verifier::external_body]
fn clock_unix_timestamp() -> (r: Result<i64, ProgramError>) {
    Clock::get().map(|clock| clock.unix_timestamp)
}

/// The signer of a registration.
pub struct RegisterAgent {
    /// Public key of the signer, who becomes the record's owner.
    pub agent: [u8; 32],
}

/// The signer of a version update.
pub struct UpdateVersion {
    /// Public key of the signer, who must own the record.
    pub agent: [u8; 32],
}

/// The record that a lookup by `owner`'s derived address reaches in `m`.
pub open spec fn record_of(m: Map<Seq<u8>, AccountView>, owner: Seq<u8>) -> Option<RecordView> {
    match record_address(owner) {
        Some(a) => if m.contains_key(a) {
            Some(m[a].record)
        } else {
            None
        },
        None => None,
    }
}

/// The ledger after `owner` registers `agent_id` and `version` at time `now`, or
/// the error that refuses it: label length first, then version length, then the
/// address, which must be derivable and free.
pub open spec fn register_outcome(
    m: Map<Seq<u8>, AccountView>,
    owner: Seq<u8>,
    agent_id: Seq<char>,
    version: Seq<char>,
    now: i64,
) -> Result<Map<Seq<u8>, AccountView>, RegistryError> {
    if byte_len(agent_id) > MAX_AGENT_ID_LEN {
        Err(RegistryError::AgentIdTooLong)
    } else if byte_len(version) > MAX_VERSION_LEN {
        Err(RegistryError::VersionTooLong)
    } else {
        match record_address(owner) {
            None => Err(RegistryError::NoProgramAddress),
            Some(a) => if m.contains_key(a) {
                Err(RegistryError::AlreadyRegistered)
            } else {
                Ok(
                    m.insert(
                        a,
                        AccountView {
                            space: record_space(agent_id, version),
                            record: RecordView { agent: owner, registered_at: now, agent_id, version },
                        },
                    ),
                )
            },
        }
    }
}

/// The ledger after `owner` sets its record's version to `version`, or the error
/// that refuses it.
pub open spec fn update_outcome(
    m: Map<Seq<u8>, AccountView>,
    owner: Seq<u8>,
    version: Seq<char>,
) -> Result<Map<Seq<u8>, AccountView>, RegistryError> {
    if byte_len(version) > MAX_VERSION_LEN {
        Err(RegistryError::VersionTooLong)
    } else {
        match record_address(owner) {
            Some(a) => match version_update(m, a, owner, version) {
                Some(m2) => Ok(m2),
                None => Err(RegistryError::Unauthorized),
            },
            None => Err(RegistryError::Unauthorized),
        }
    }
}

/// A call that ended in `r` took the ledger from `before` to `after` as `outcome`
/// says: the new ledger on success, the same ledger and the same error otherwise.
pub open spec fn follows(
    outcome: Result<Map<Seq<u8>, AccountView>, RegistryError>,
    before: Map<Seq<u8>, AccountView>,
    after: Map<Seq<u8>, AccountView>,
    r: Result<(), RegistryError>,
) -> bool {
    match outcome {
        Ok(m) => r is Ok && after == m,
        Err(e) => r == Err::<(), RegistryError>(e) && after == before,
    }
}

/// Registers the signer's agent with `agent_id` and `version`, stamped `now`.
pub fn register_agent(
    ledger: &mut Ledger,
    ctx: &RegisterAgent,
    agent_id: String,
    version: String,
    now: i64,
) -> (r: Result<(), RegistryError>)
    requires
        old(ledger).wf(),
    ensures
        final(ledger).wf(),
        follows(register_outcome(old(ledger)@, ctx.agent@, agent_id@, version@, now), old(ledger)@, final(ledger)@, r),
{
    if let Err(e) = check_registration(&agent_id, &version) {
        return Err(e);
    }
    let address = match agent_address(&ctx.agent) {
        Some(a) => a,
        None => return Err(RegistryError::NoProgramAddress),
    };
    let space = AgentRegistry::space(&agent_id, &version);
    let account = RegistryAccount {
        address,
        space,
        data: AgentRegistry { agent: ctx.agent, registered_at: now, agent_id, version },
    };
    ledger.create_account(account)
}

/// Registers the signer's agent, stamped with the runtime clock's unix
/// timestamp. Over-long fields are refused before the clock is read.
pub fn register_agent_now(
    ledger: &mut Ledger,
    ctx: &RegisterAgent,
    agent_id: String,
    version: String,
) -> (r: Result<(), RegistryError>)
    requires
        old(ledger).wf(),
    ensures
        final(ledger).wf(),
        r == Err::<(), RegistryError>(RegistryError::ClockUnavailable) ==> final(ledger)@ == old(ledger)@
            && byte_len(agent_id@) <= MAX_AGENT_ID_LEN && byte_len(version@) <= MAX_VERSION_LEN,
        r != Err::<(), RegistryError>(RegistryError::ClockUnavailable) ==> exists|now: i64|
            #[trigger] follows(
                register_outcome(old(ledger)@, ctx.agent@, agent_id@, version@, now),
                old(ledger)@,
                final(ledger)@,
                r,
            ),
{
    if let Err(e) = check_registration(&agent_id, &version) {
        let r = Err(e);
        assert(follows(register_outcome(old(ledger)@, ctx.agent@, agent_id@, version@, 0), old(ledger)@, ledger@, r));
        return r;
    }
    match clock_unix_timestamp() {
        Ok(now) => register_agent(ledger, ctx, agent_id, version, now),
        Err(_) => Err(RegistryError::ClockUnavailable),
    }
}

/// Sets the version of the signer's record to `version`.
pub fn update_version(ledger: &mut Ledger, ctx: &UpdateVersion, version: String) -> (r: Result<(), RegistryError>)
    requires
        old(ledger).wf(),
    ensures
        final(ledger).wf(),
        follows(update_outcome(old(ledger)@, ctx.agent@, version@), old(ledger)@, final(ledger)@, r),
{
    if let Err(e) = check_version(&version) {
        return Err(e);
    }
    match agent_address(&ctx.agent) {
        Some(address) => ledger.update_version_at(&address, &ctx.agent, version),
        None => Err(RegistryError::Unauthorized),
    }
}

/// The record found at `owner`'s derived address, if any.
pub fn find_agent<'a>(ledger: &'a Ledger, owner: &[u8; 32]) -> (r: Option<&'a AgentRegistry>)
    requires
        ledger.wf(),
    ensures
        r matches Some(rec) ==> record_of(ledger@, owner@) == Some(rec@),
        r is None ==> record_of(ledger@, owner@) is None,
{
    match agent_address(owner) {
        Some(address) => match ledger.account(&address) {
            Some(acct) => Some(&acct.data),
            None => None,
        },
        None => None,
    }
}

} // verus!
