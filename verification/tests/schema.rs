use stakingapp::state::{
    address_eq, Address, PoolStorageAccount, UserStorageAccount, POOL_STORAGE_TOTAL_BYTES,
    USER_STORAGE_TOTAL_BYTES,
};

fn addr(fill: u8) -> Address {
    Address { bytes: vec![fill; 32] }
}

#[test]
fn pool_record_round_trip() {
    let pool = PoolStorageAccount {
        pool_authority: addr(7),
        total_staked: 123456789012345,
        user_count: 42,
        rewards_per_token: 0xdead_beef_0bad_cafe,
        is_initialized: true,
    };
    let bytes = pool.serialize();
    assert_eq!(bytes.len(), POOL_STORAGE_TOTAL_BYTES);
    let back = PoolStorageAccount::try_from_slice(&bytes).unwrap();
    assert_eq!(back.pool_authority.bytes, pool.pool_authority.bytes);
    assert_eq!(back.total_staked, pool.total_staked);
    assert_eq!(back.user_count, pool.user_count);
    assert_eq!(back.rewards_per_token, pool.rewards_per_token);
    assert_eq!(back.is_initialized, pool.is_initialized);
    // Serializing the re-read record reproduces the bytes exactly.
    assert_eq!(back.serialize(), bytes);
}

#[test]
fn user_record_round_trip() {
    let user = UserStorageAccount {
        staked: 987654321,
        last_stake_timestamp: -1234567890,
        is_initialized: true,
    };
    let bytes = user.serialize();
    assert_eq!(bytes.len(), USER_STORAGE_TOTAL_BYTES);
    let back = UserStorageAccount::try_from_slice(&bytes).unwrap();
    assert_eq!(back.staked, user.staked);
    assert_eq!(back.last_stake_timestamp, user.last_stake_timestamp);
    assert_eq!(back.is_initialized, user.is_initialized);
    assert_eq!(back.serialize(), bytes);
}

#[test]
fn zero_pool_buffer_deserializes_uninitialized() {
    let zeroes = vec![0u8; POOL_STORAGE_TOTAL_BYTES];
    let pool = PoolStorageAccount::try_from_slice(&zeroes).unwrap();
    assert!(!pool.is_initialized);
    assert_eq!(pool.pool_authority.bytes, vec![0u8; 32]);
    assert_eq!(pool.total_staked, 0);
    assert_eq!(pool.user_count, 0);
    assert_eq!(pool.rewards_per_token, 0);
}

#[test]
fn zero_user_buffer_deserializes_uninitialized() {
    let zeroes = vec![0u8; USER_STORAGE_TOTAL_BYTES];
    let user = UserStorageAccount::try_from_slice(&zeroes).unwrap();
    assert!(!user.is_initialized);
    assert_eq!(user.staked, 0);
    assert_eq!(user.last_stake_timestamp, 0);
}

#[test]
fn wrong_sized_buffers_are_rejected() {
    assert!(PoolStorageAccount::try_from_slice(&[]).is_none());
    assert!(PoolStorageAccount::try_from_slice(&vec![0u8; 56]).is_none());
    assert!(PoolStorageAccount::try_from_slice(&vec![0u8; 58]).is_none());
    assert!(UserStorageAccount::try_from_slice(&[]).is_none());
    assert!(UserStorageAccount::try_from_slice(&vec![0u8; 16]).is_none());
    assert!(UserStorageAccount::try_from_slice(&vec![0u8; 18]).is_none());
}

#[test]
fn malformed_flag_byte_is_rejected() {
    let mut pool_bytes = vec![0u8; POOL_STORAGE_TOTAL_BYTES];
    pool_bytes[56] = 2;
    assert!(PoolStorageAccount::try_from_slice(&pool_bytes).is_none());
    let mut user_bytes = vec![0u8; USER_STORAGE_TOTAL_BYTES];
    user_bytes[16] = 255;
    assert!(UserStorageAccount::try_from_slice(&user_bytes).is_none());
}

#[test]
fn pool_layout_matches_borsh() {
    let pool = PoolStorageAccount {
        pool_authority: addr(0xab),
        total_staked: 77,
        user_count: 3,
        rewards_per_token: 42,
        is_initialized: true,
    };
    let mut authority = [0u8; 32];
    authority.copy_from_slice(&pool.pool_authority.bytes);
    let reference = borsh::to_vec(&(authority, 77u64, 3u64, 42u64, true)).unwrap();
    assert_eq!(pool.serialize(), reference);
}

#[test]
fn user_layout_matches_borsh() {
    let user = UserStorageAccount {
        staked: 500,
        last_stake_timestamp: -17,
        is_initialized: false,
    };
    let reference = borsh::to_vec(&(500u64, -17i64, false)).unwrap();
    assert_eq!(user.serialize(), reference);
}

#[test]
fn address_eq_compares_bytes() {
    assert!(address_eq(&addr(5), &addr(5)));
    assert!(!address_eq(&addr(5), &addr(6)));
    assert!(!address_eq(&addr(5), &Address { bytes: vec![5u8; 31] }));
}
