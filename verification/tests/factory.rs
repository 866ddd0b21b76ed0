use inverse_arena::factory::{
    salt_for_pool, ArenaInit, ArenaStatus, FactoryContract, FactoryError, PoolConfig,
    DEFAULT_MAX_ACTIVE_POOLS,
};
use inverse_arena::AccountId;

const ADMIN: AccountId = 1;
const HOST: AccountId = 2;

fn setup() -> FactoryContract {
    let mut f = FactoryContract::new();
    f.initialize(ADMIN, 100).unwrap();
    f
}

fn pool_config(entry_fee: i128) -> PoolConfig {
    PoolConfig { stake_token: 31, yield_vault: 32, entry_fee, oracle_contract: 33 }
}

/// Create a pool the way the host does: reserve it, deploy, record it.
fn create_and_record(f: &mut FactoryContract, host: AccountId, fee: i128, arena: AccountId, now: u64) -> Result<u32, FactoryError> {
    let d = f.create_pool(host, pool_config(fee))?;
    f.record_pool(&d, arena, now);
    Ok(d.pool_id)
}

#[test]
fn whitelist_add_and_remove_controls_host_status() {
    let mut f = setup();
    assert!(!f.is_whitelisted(HOST));
    f.add_to_whitelist(HOST).unwrap();
    assert!(f.is_whitelisted(HOST));
    f.remove_from_whitelist(HOST).unwrap();
    assert!(!f.is_whitelisted(HOST));
}

#[test]
fn create_pool_rejects_unwhitelisted_host() {
    let mut f = setup();
    let err = f.create_pool(HOST, pool_config(100)).err().expect("unwhitelisted host must error");
    assert_eq!(err, FactoryError::HostNotWhitelisted);
}

#[test]
fn create_pool_enforces_minimum_stake_before_deploying() {
    let mut f = setup();
    f.add_to_whitelist(HOST).unwrap();
    let err = f.create_pool(HOST, pool_config(99)).err().expect("stake below minimum must error");
    assert_eq!(err, FactoryError::StakeBelowMinimum);
}

#[test]
fn initialize_validates() {
    let mut f = FactoryContract::new();
    assert_eq!(f.initialize(ADMIN, 0), Err(FactoryError::InvalidStakeAmount));
    f.initialize(ADMIN, 5).unwrap();
    assert_eq!(f.initialize(ADMIN, 5), Err(FactoryError::AlreadyInitialized));
    assert_eq!(f.get_min_stake(), Ok(5));
}

#[test]
fn admin_operations_need_initialization() {
    let mut f = FactoryContract::new();
    assert_eq!(f.add_to_whitelist(HOST), Err(FactoryError::NotInitialized));
    assert_eq!(f.pause(), Err(FactoryError::NotInitialized));
    assert_eq!(f.set_max_active_pools(3), Err(FactoryError::NotInitialized));
    assert_eq!(f.get_min_stake(), Err(FactoryError::NotInitialized));
}

#[test]
fn create_pool_needs_wasm_hash_and_checks_fee() {
    let mut f = setup();
    f.add_to_whitelist(HOST).unwrap();
    assert_eq!(f.create_pool(HOST, pool_config(0)).err(), Some(FactoryError::InvalidStakeAmount));
    assert_eq!(f.create_pool(HOST, pool_config(100)).err(), Some(FactoryError::WasmHashNotSet));
    f.set_arena_wasm_hash([7u8; 32]).unwrap();
    let d = f.create_pool(HOST, pool_config(100)).unwrap();
    assert_eq!(d.pool_id, 1);
    assert_eq!(d.wasm_hash, [7u8; 32]);
}

#[test]
fn create_pool_hands_out_the_arena_initialisation() {
    let mut f = setup();
    f.add_to_whitelist(HOST).unwrap();
    f.set_arena_wasm_hash([7u8; 32]).unwrap();
    let d = f.create_pool(HOST, pool_config(150)).unwrap();
    assert_eq!(d.host, HOST);
    assert_eq!(d.config, pool_config(150));
    assert_eq!(
        d.init,
        ArenaInit { admin: HOST, stake_token: 31, yield_vault: 32, entry_fee: 150, oracle_contract: 33 }
    );
    assert_eq!(d.salt, salt_for_pool(1));
    f.record_pool(&d, 77, 5);
    let meta = f.get_arena(1).unwrap();
    assert_eq!(meta.arena_address, 77);
    assert_eq!(meta.host, HOST);
    assert_eq!(meta.entry_fee, 150);
    assert_eq!(meta.created_at, 5);
}

#[test]
fn pools_are_recorded_and_listed_in_order() {
    let mut f = setup();
    f.add_to_whitelist(HOST).unwrap();
    f.set_arena_wasm_hash([7u8; 32]).unwrap();
    let id1 = create_and_record(&mut f, HOST, 100, 501, 10).unwrap();
    let id2 = create_and_record(&mut f, HOST, 150, 502, 20).unwrap();
    assert_eq!((id1, id2), (1, 2));
    let meta = f.get_arena(2).unwrap();
    assert_eq!(meta.arena_address, 502);
    assert_eq!(meta.entry_fee, 150);
    assert_eq!(meta.status, ArenaStatus::Active);
    assert_eq!(meta.created_at, 20);
    let page = f.get_arenas(0, 10);
    assert_eq!(page.len(), 2);
    assert_eq!(page[0].pool_id, 1);
    assert_eq!(page[1].pool_id, 2);
    assert_eq!(f.get_arenas(1, 10).len(), 1);
    assert_eq!(f.get_arenas(2, 10).len(), 0);
    assert_eq!(f.get_creator_stake(501).unwrap().creator, HOST);
    assert_eq!(f.get_creator_stake(501).unwrap().amount, 100);
}

#[test]
fn active_pool_limit_and_release() {
    let mut f = setup();
    f.add_to_whitelist(HOST).unwrap();
    f.set_arena_wasm_hash([7u8; 32]).unwrap();
    assert_eq!(f.get_max_active_pools(), DEFAULT_MAX_ACTIVE_POOLS);
    f.set_max_active_pools(1).unwrap();
    create_and_record(&mut f, HOST, 100, 501, 10).unwrap();
    assert_eq!(f.create_pool(HOST, pool_config(100)).err(), Some(FactoryError::MaxActivePoolsReached));
    assert_eq!(f.release_arena(999), Err(FactoryError::ArenaNotFound));
    f.release_arena(501).unwrap();
    assert!(create_and_record(&mut f, HOST, 100, 502, 11).is_ok());
}

#[test]
fn pause_blocks_creation_and_release() {
    let mut f = setup();
    f.add_to_whitelist(HOST).unwrap();
    f.set_arena_wasm_hash([7u8; 32]).unwrap();
    create_and_record(&mut f, HOST, 100, 501, 10).unwrap();
    f.pause().unwrap();
    assert_eq!(f.create_pool(HOST, pool_config(100)).err(), Some(FactoryError::ContractPaused));
    assert_eq!(f.release_arena(501), Err(FactoryError::ContractPaused));
    f.unpause().unwrap();
    assert!(f.release_arena(501).is_ok());
}

#[test]
fn update_arena_status_only_by_the_arena() {
    let mut f = setup();
    f.add_to_whitelist(HOST).unwrap();
    f.set_arena_wasm_hash([7u8; 32]).unwrap();
    let id = create_and_record(&mut f, HOST, 100, 501, 10).unwrap();
    assert_eq!(f.update_arena_status(id, ArenaStatus::Finished, 777), Err(FactoryError::Unauthorized));
    assert_eq!(f.update_arena_status(99, ArenaStatus::Finished, 501), Err(FactoryError::PoolNotFound));
    f.update_arena_status(id, ArenaStatus::Finished, 501).unwrap();
    assert_eq!(f.get_arena(id).unwrap().status, ArenaStatus::Finished);
}

#[test]
fn salt_encodes_pool_id_big_endian() {
    let salt = salt_for_pool(0x0102_0304);
    assert_eq!(&salt[..28], &[0u8; 28][..]);
    assert_eq!(&salt[28..], &[1u8, 2, 3, 4][..]);
}

#[test]
fn page_is_capped_at_fifty() {
    let mut f = setup();
    f.add_to_whitelist(HOST).unwrap();
    f.set_arena_wasm_hash([7u8; 32]).unwrap();
    f.set_max_active_pools(100).unwrap();
    for i in 0..60u64 {
        create_and_record(&mut f, HOST, 100, 1_000 + i, i).unwrap();
    }
    assert_eq!(f.get_arenas(0, 100).len(), 50);
    assert_eq!(f.get_arenas(50, 100).len(), 10);
    assert_eq!(f.get_arenas(5, 3).len(), 3);
}

#[test]
fn vault_and_oracle_approvals() {
    let mut f = setup();
    f.add_approved_vault(40).unwrap();
    f.add_approved_oracle(41).unwrap();
    assert!(f.storage.is_approved_vault(40));
    assert!(f.storage.is_approved_oracle(41));
    f.remove_approved_vault(40).unwrap();
    f.remove_approved_oracle(41).unwrap();
    assert!(!f.storage.is_approved_vault(40));
    assert!(!f.storage.is_approved_oracle(41));
}
