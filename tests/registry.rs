use agent_registry::address::{agent_address, agent_seed, program_id};
use agent_registry::ledger::Ledger;
use agent_registry::record::{encoded_len, AgentRegistry, RegistryError};
use agent_registry::registry::{
    find_agent, register_agent, register_agent_now, update_version, RegisterAgent, UpdateVersion,
};
use anchor_lang::prelude::Pubkey;

fn alice() -> [u8; 32] {
    let mut k = [0u8; 32];
    k[..5].copy_from_slice(b"Alice");
    k
}

fn bob() -> [u8; 32] {
    let mut k = [0u8; 32];
    k[..3].copy_from_slice(b"Bob");
    k
}

fn register(l: &mut Ledger, owner: [u8; 32], id: &str, ver: &str, now: i64) -> Result<(), RegistryError> {
    register_agent(l, &RegisterAgent { agent: owner }, id.to_string(), ver.to_string(), now)
}

fn update(l: &mut Ledger, owner: [u8; 32], ver: &str) -> Result<(), RegistryError> {
    update_version(l, &UpdateVersion { agent: owner }, ver.to_string())
}

fn fields(l: &Ledger, owner: [u8; 32]) -> Option<([u8; 32], i64, String, String)> {
    find_agent(l, &owner).map(|r| (r.agent, r.registered_at, r.agent_id.clone(), r.version.clone()))
}

#[test]
fn register_then_update_scenario() {
    let mut l = Ledger::new();
    assert_eq!(register(&mut l, alice(), "bot-1", "1.0", 1_700_000_000), Ok(()));
    assert_eq!(
        fields(&l, alice()),
        Some((alice(), 1_700_000_000, "bot-1".to_string(), "1.0".to_string()))
    );
    assert_eq!(update(&mut l, alice(), "1.1"), Ok(()));
    assert_eq!(
        fields(&l, alice()),
        Some((alice(), 1_700_000_000, "bot-1".to_string(), "1.1".to_string()))
    );
}

#[test]
fn agent_id_of_33_chars_is_refused() {
    let mut l = Ledger::new();
    let id = "a".repeat(33);
    assert_eq!(register(&mut l, alice(), &id, "1.0", 1), Err(RegistryError::AgentIdTooLong));
    assert_eq!(fields(&l, alice()), None);
}

#[test]
fn rederived_address_reaches_the_record() {
    let mut l = Ledger::new();
    assert_eq!(register(&mut l, alice(), "bot-1", "1.0", 42), Ok(()));
    let addr = agent_address(&alice()).unwrap();
    assert_eq!(agent_address(&alice()), Some(addr));
    let acct = l.account(&addr).unwrap();
    assert_eq!(acct.address, addr);
    assert_eq!(acct.data.agent, alice());
    assert_eq!(acct.data.registered_at, 42);
    assert_eq!(acct.data.agent_id, "bot-1");
    assert_eq!(acct.data.version, "1.0");
}

#[test]
fn second_registration_is_refused() {
    let mut l = Ledger::new();
    assert_eq!(register(&mut l, alice(), "bot-1", "1.0", 10), Ok(()));
    assert_eq!(register(&mut l, alice(), "bot-2", "2.0", 20), Err(RegistryError::AlreadyRegistered));
    assert_eq!(fields(&l, alice()), Some((alice(), 10, "bot-1".to_string(), "1.0".to_string())));
}

#[test]
fn long_agent_id_is_refused_even_when_registered() {
    let mut l = Ledger::new();
    assert_eq!(register(&mut l, alice(), "bot-1", "1.0", 10), Ok(()));
    let id = "x".repeat(40);
    assert_eq!(register(&mut l, alice(), &id, "1.0", 20), Err(RegistryError::AgentIdTooLong));
    assert_eq!(fields(&l, alice()), Some((alice(), 10, "bot-1".to_string(), "1.0".to_string())));
}

#[test]
fn long_version_is_refused_by_both_operations() {
    let mut l = Ledger::new();
    let ver = "1".repeat(17);
    assert_eq!(register(&mut l, alice(), "bot-1", &ver, 10), Err(RegistryError::VersionTooLong));
    assert_eq!(fields(&l, alice()), None);
    assert_eq!(register(&mut l, alice(), "bot-1", "1.0", 10), Ok(()));
    assert_eq!(update(&mut l, alice(), &ver), Err(RegistryError::VersionTooLong));
    assert_eq!(fields(&l, alice()), Some((alice(), 10, "bot-1".to_string(), "1.0".to_string())));
}

#[test]
fn agent_id_is_checked_before_version() {
    let mut l = Ledger::new();
    let id = "a".repeat(33);
    let ver = "1".repeat(17);
    assert_eq!(register(&mut l, alice(), &id, &ver, 1), Err(RegistryError::AgentIdTooLong));
}

#[test]
fn other_signer_cannot_update() {
    let mut l = Ledger::new();
    assert_eq!(register(&mut l, alice(), "bot-1", "1.0", 10), Ok(()));
    assert_eq!(update(&mut l, bob(), "9.9"), Err(RegistryError::Unauthorized));
    assert_eq!(fields(&l, alice()), Some((alice(), 10, "bot-1".to_string(), "1.0".to_string())));
    assert_eq!(fields(&l, bob()), None);
}

#[test]
fn owners_have_separate_records() {
    let mut l = Ledger::new();
    assert_eq!(register(&mut l, alice(), "bot-1", "1.0", 10), Ok(()));
    assert_eq!(register(&mut l, bob(), "bot-2", "2.0", 20), Ok(()));
    assert_ne!(agent_address(&alice()), agent_address(&bob()));
    assert_eq!(update(&mut l, bob(), "2.1"), Ok(()));
    assert_eq!(fields(&l, alice()), Some((alice(), 10, "bot-1".to_string(), "1.0".to_string())));
    assert_eq!(fields(&l, bob()), Some((bob(), 20, "bot-2".to_string(), "2.1".to_string())));
}

#[test]
fn update_without_record_is_unauthorized() {
    let mut l = Ledger::new();
    assert_eq!(update(&mut l, alice(), "1.1"), Err(RegistryError::Unauthorized));
    assert_eq!(fields(&l, alice()), None);
}

#[test]
fn bounds_are_inclusive() {
    let mut l = Ledger::new();
    let id = "a".repeat(32);
    let ver = "1".repeat(16);
    assert_eq!(register(&mut l, alice(), &id, &ver, 0), Ok(()));
    assert_eq!(update(&mut l, alice(), &ver), Ok(()));
}

#[test]
fn bounds_count_encoded_bytes() {
    let mut l = Ledger::new();
    // 17 characters, 34 bytes.
    let id = "\u{e9}".repeat(17);
    assert_eq!(encoded_len(&id), 34);
    assert_eq!(register(&mut l, alice(), &id, "1.0", 0), Err(RegistryError::AgentIdTooLong));
    // 9 characters, 18 bytes.
    let ver = "\u{e9}".repeat(9);
    assert_eq!(register(&mut l, alice(), "bot", &ver, 0), Err(RegistryError::VersionTooLong));
    // 16 characters, 32 bytes.
    let id = "\u{e9}".repeat(16);
    assert_eq!(register(&mut l, alice(), &id, "1.0", 0), Ok(()));
}

#[test]
fn space_is_exact() {
    assert_eq!(AgentRegistry::space(&"bot-1".to_string(), &"1.0".to_string()), 64);
    assert_eq!(AgentRegistry::space(&String::new(), &String::new()), 56);
    assert_eq!(AgentRegistry::space(&"\u{e9}".to_string(), &String::new()), 58);
}

#[test]
fn allocated_space_is_kept_on_update() {
    let mut l = Ledger::new();
    assert_eq!(register(&mut l, alice(), "bot-1", "1.0", 0), Ok(()));
    let addr = agent_address(&alice()).unwrap();
    assert_eq!(l.account(&addr).unwrap().space, 64);
    assert_eq!(update(&mut l, alice(), "1.0.1-beta"), Ok(()));
    assert_eq!(l.account(&addr).unwrap().space, 64);
    assert_eq!(l.account(&addr).unwrap().data.version, "1.0.1-beta");
}

#[test]
fn address_is_the_program_derived_address() {
    let (expected, _bump) = Pubkey::find_program_address(
        &[b"agent", alice().as_ref()],
        &Pubkey::new_from_array([0u8; 32]),
    );
    assert_eq!(agent_address(&alice()), Some(expected.to_bytes()));
    assert_ne!(agent_address(&alice()), Some(alice()));
}

#[test]
fn seed_and_program_id() {
    assert_eq!(&agent_seed(), b"agent");
    assert_eq!(program_id(), [0u8; 32]);
    assert_eq!(
        Pubkey::new_from_array(program_id()),
        "11111111111111111111111111111111".parse::<Pubkey>().unwrap()
    );
}

#[test]
fn clock_register_checks_lengths_first() {
    let mut l = Ledger::new();
    let ctx = RegisterAgent { agent: alice() };
    let id = "a".repeat(33);
    assert_eq!(
        register_agent_now(&mut l, &ctx, id, "1.0".to_string()),
        Err(RegistryError::AgentIdTooLong)
    );
    assert_eq!(
        register_agent_now(&mut l, &ctx, "bot".to_string(), "1".repeat(17)),
        Err(RegistryError::VersionTooLong)
    );
}

#[test]
fn clock_register_without_runtime_clock() {
    let mut l = Ledger::new();
    let ctx = RegisterAgent { agent: alice() };
    assert_eq!(
        register_agent_now(&mut l, &ctx, "bot-1".to_string(), "1.0".to_string()),
        Err(RegistryError::ClockUnavailable)
    );
    assert_eq!(fields(&l, alice()), None);
}

#[test]
fn error_messages() {
    assert_eq!(RegistryError::AgentIdTooLong.message(), "agent_id too long (max 32 chars)");
    assert_eq!(RegistryError::VersionTooLong.message(), "version too long (max 16 chars)");
    assert_eq!(RegistryError::AlreadyRegistered.message(), "agent already registered");
    assert_eq!(RegistryError::Unauthorized.message(), "signer does not own this record");
}
