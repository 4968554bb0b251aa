use stakingapp::derivation::derive_user_storage_address;
use stakingapp::error::{ProcessError, StakingError};
use stakingapp::instruction::Instruction;
use stakingapp::processor::{
    process, process_create_user, process_create_user_funded, Account, ProcessStep,
};
use stakingapp::state::{
    Address, PoolStorageAccount, UserStorageAccount, POOL_STORAGE_TOTAL_BYTES,
    USER_STORAGE_TOTAL_BYTES,
};

fn addr(fill: u8) -> Address {
    Address { bytes: vec![fill; 32] }
}

fn system_program_address() -> Address {
    Address { bytes: vec![0u8; 32] }
}

fn fresh_pool_account(program_id: &Address) -> Account {
    Account {
        key: addr(0x20),
        is_signer: false,
        owner: program_id.dup(),
        data: vec![0u8; POOL_STORAGE_TOTAL_BYTES],
    }
}

fn initialized_pool_data(authority: &Address, rewards_per_token: u64) -> Vec<u8> {
    PoolStorageAccount {
        pool_authority: authority.dup(),
        total_staked: 0,
        user_count: 0,
        rewards_per_token,
        is_initialized: true,
    }
    .serialize()
}

fn initialize_data(rewards_per_token: u64) -> Vec<u8> {
    Instruction::Initialize { rewards_per_token }.serialize()
}

fn complete_err(step: ProcessStep) -> ProcessError {
    match step {
        ProcessStep::Complete(Err(e)) => e,
        _ => panic!("expected a completed invocation with an error"),
    }
}

#[test]
fn initialize_pool() {
    let program_id = addr(0x11);
    let pool_authority = addr(0x22);
    let mut accounts = vec![
        Account {
            key: pool_authority.dup(),
            is_signer: true,
            owner: Address { bytes: vec![0u8; 32] },
            data: vec![],
        },
        fresh_pool_account(&program_id),
    ];
    let step = process(&program_id, &mut accounts, &initialize_data(42));
    assert!(matches!(step, ProcessStep::Complete(Ok(()))));

    let pool_storage = PoolStorageAccount::try_from_slice(&accounts[1].data).unwrap();
    assert_eq!(pool_storage.pool_authority.bytes, pool_authority.bytes);
    assert_eq!(pool_storage.total_staked, 0);
    assert_eq!(pool_storage.user_count, 0);
    assert_eq!(pool_storage.rewards_per_token, 42);
    assert!(pool_storage.is_initialized);
}

#[test]
fn initialize_by_non_signer_fails_without_write() {
    let program_id = addr(0x11);
    let mut accounts = vec![
        Account {
            key: addr(0x22),
            is_signer: false,
            owner: addr(0),
            data: vec![],
        },
        fresh_pool_account(&program_id),
    ];
    let before = accounts[1].data.clone();
    let step = process(&program_id, &mut accounts, &initialize_data(42));
    assert_eq!(
        complete_err(step),
        ProcessError::Staking(StakingError::InvalidSigner)
    );
    assert_eq!(accounts[1].data, before);
}

#[test]
fn initialize_with_wrong_owner_fails() {
    let program_id = addr(0x11);
    let mut pool = fresh_pool_account(&program_id);
    pool.owner = addr(0x99);
    let mut accounts = vec![
        Account {
            key: addr(0x22),
            is_signer: true,
            owner: addr(0),
            data: vec![],
        },
        pool,
    ];
    let step = process(&program_id, &mut accounts, &initialize_data(42));
    assert_eq!(
        complete_err(step),
        ProcessError::Staking(StakingError::InvalidOwner)
    );
}

#[test]
fn initialize_twice_fails_and_preserves_the_record() {
    let program_id = addr(0x11);
    let mut accounts = vec![
        Account {
            key: addr(0x22),
            is_signer: true,
            owner: addr(0),
            data: vec![],
        },
        fresh_pool_account(&program_id),
    ];
    let step = process(&program_id, &mut accounts, &initialize_data(42));
    assert!(matches!(step, ProcessStep::Complete(Ok(()))));
    let after_first = accounts[1].data.clone();

    // A second initialization, by someone else with another configuration,
    // must fail and leave the stored record byte-for-byte unchanged.
    let mut accounts2 = vec![
        Account {
            key: addr(0x33),
            is_signer: true,
            owner: addr(0),
            data: vec![],
        },
        Account {
            key: accounts[1].key.dup(),
            is_signer: false,
            owner: program_id.dup(),
            data: after_first.clone(),
        },
    ];
    let step = process(&program_id, &mut accounts2, &initialize_data(7));
    assert_eq!(
        complete_err(step),
        ProcessError::Staking(StakingError::AlreadyInitialized)
    );
    assert_eq!(accounts2[1].data, after_first);
}

#[test]
fn initialize_with_missing_accounts_fails() {
    let program_id = addr(0x11);
    let mut accounts = vec![];
    let step = process(&program_id, &mut accounts, &initialize_data(1));
    assert_eq!(complete_err(step), ProcessError::NotEnoughAccountKeys);

    let mut accounts = vec![Account {
        key: addr(0x22),
        is_signer: true,
        owner: addr(0),
        data: vec![],
    }];
    let step = process(&program_id, &mut accounts, &initialize_data(1));
    assert_eq!(complete_err(step), ProcessError::NotEnoughAccountKeys);
}

#[test]
fn initialize_with_undersized_pool_buffer_fails() {
    let program_id = addr(0x11);
    let mut pool = fresh_pool_account(&program_id);
    pool.data = vec![0u8; POOL_STORAGE_TOTAL_BYTES - 1];
    let mut accounts = vec![
        Account {
            key: addr(0x22),
            is_signer: true,
            owner: addr(0),
            data: vec![],
        },
        pool,
    ];
    let step = process(&program_id, &mut accounts, &initialize_data(1));
    assert_eq!(complete_err(step), ProcessError::InvalidAccountData);
}

#[test]
fn malformed_instruction_buffers_fail_without_write() {
    let program_id = addr(0x11);
    let mut accounts = vec![
        Account {
            key: addr(0x22),
            is_signer: true,
            owner: addr(0),
            data: vec![],
        },
        fresh_pool_account(&program_id),
    ];
    let before = accounts[1].data.clone();
    for data in [vec![], vec![0u8], vec![0u8, 1, 2, 3], vec![200u8]] {
        let step = process(&program_id, &mut accounts, &data);
        assert_eq!(
            complete_err(step),
            ProcessError::Staking(StakingError::InvalidInstruction)
        );
        assert_eq!(accounts[1].data, before);
    }
}

#[test]
fn stake_unstake_claim_are_not_supported() {
    let program_id = addr(0x11);
    let mut accounts = vec![
        Account {
            key: addr(0x22),
            is_signer: true,
            owner: addr(0),
            data: vec![],
        },
        fresh_pool_account(&program_id),
    ];
    let unsupported = [
        Instruction::Stake { amount: 5 },
        Instruction::Unstake { amount: 5 },
        Instruction::Claim {},
    ];
    for ix in unsupported {
        let step = process(&program_id, &mut accounts, &ix.serialize());
        assert_eq!(
            complete_err(step),
            ProcessError::Staking(StakingError::InvalidInstruction)
        );
    }
}

#[test]
fn derivation_is_deterministic_and_matches_the_host() {
    let user = addr(0x44);
    let program_id = addr(0x11);
    let (a1, b1) = derive_user_storage_address(&user, &program_id);
    let (a2, b2) = derive_user_storage_address(&user, &program_id);
    assert_eq!(a1.bytes, a2.bytes);
    assert_eq!(b1, b2);

    // The derived pair is exactly what the host runtime derives.
    let user_pk = solana_program::pubkey::Pubkey::try_from(user.bytes.as_slice()).unwrap();
    let program_pk = solana_program::pubkey::Pubkey::try_from(program_id.bytes.as_slice()).unwrap();
    let (expected, expected_bump) =
        solana_program::pubkey::Pubkey::find_program_address(&[user_pk.as_ref()], &program_pk);
    assert_eq!(a1.bytes, expected.to_bytes().to_vec());
    assert_eq!(b1, expected_bump);
}

#[test]
fn create_user_with_wrong_storage_address_fails() {
    let program_id = addr(0x11);
    let accounts = vec![
        Account {
            key: addr(0x44),
            is_signer: true,
            owner: addr(0),
            data: vec![],
        },
        Account {
            key: addr(0x55),
            is_signer: false,
            owner: addr(0),
            data: vec![],
        },
        Account {
            key: system_program_address(),
            is_signer: false,
            owner: addr(0),
            data: vec![],
        },
    ];
    let r = process_create_user(&program_id, &accounts);
    assert_eq!(
        r.unwrap_err(),
        ProcessError::Staking(StakingError::InvalidUserStoragePda)
    );
}

#[test]
fn create_user_with_wrong_allocator_fails() {
    let program_id = addr(0x11);
    let user = addr(0x44);
    let (pda, _bump) = derive_user_storage_address(&user, &program_id);
    let accounts = vec![
        Account {
            key: user,
            is_signer: true,
            owner: addr(0),
            data: vec![],
        },
        Account {
            key: pda,
            is_signer: false,
            owner: addr(0),
            data: vec![],
        },
        Account {
            key: addr(0x66),
            is_signer: false,
            owner: addr(0),
            data: vec![],
        },
    ];
    let r = process_create_user(&program_id, &accounts);
    assert_eq!(
        r.unwrap_err(),
        ProcessError::Staking(StakingError::SystemProgramMismatch)
    );
}

#[test]
fn create_user_by_non_signer_fails() {
    let program_id = addr(0x11);
    let accounts = vec![Account {
        key: addr(0x44),
        is_signer: false,
        owner: addr(0),
        data: vec![],
    }];
    let r = process_create_user(&program_id, &accounts);
    assert_eq!(
        r.unwrap_err(),
        ProcessError::Staking(StakingError::InvalidSigner)
    );
}

#[test]
fn create_user_full_flow_credits_the_pool() {
    let program_id = addr(0x11);
    let user = addr(0x44);
    let pool_authority = addr(0x22);
    let (pda, bump) = derive_user_storage_address(&user, &program_id);

    let mut accounts = vec![
        Account {
            key: user.dup(),
            is_signer: true,
            owner: addr(0),
            data: vec![],
        },
        Account {
            key: pda.dup(),
            is_signer: false,
            owner: addr(0),
            data: vec![],
        },
        Account {
            key: system_program_address(),
            is_signer: false,
            owner: addr(0),
            data: vec![],
        },
        Account {
            key: addr(0x20),
            is_signer: false,
            owner: program_id.dup(),
            data: initialized_pool_data(&pool_authority, 42),
        },
    ];

    let step = process(
        &program_id,
        &mut accounts,
        &Instruction::CreateUser {}.serialize(),
    );
    let plan = match step {
        ProcessStep::CreateUserStorage(plan) => plan,
        _ => panic!("expected a storage allocation request"),
    };
    assert_eq!(plan.user_storage_address.bytes, pda.bytes);
    assert_eq!(plan.bump, bump);
    assert_eq!(plan.space, USER_STORAGE_TOTAL_BYTES as u64);

    // The host allocates the account: zero-filled, sized to the plan, owned
    // by the program. Then the processor finishes the transition.
    accounts[1].data = vec![0u8; plan.space as usize];
    accounts[1].owner = program_id.dup();
    let r = process_create_user_funded(&mut accounts);
    assert_eq!(r, Ok(()));

    let user_record = UserStorageAccount::try_from_slice(&accounts[1].data).unwrap();
    assert_eq!(user_record.staked, 0);
    assert_eq!(user_record.last_stake_timestamp, 0);
    assert!(user_record.is_initialized);

    let pool_record = PoolStorageAccount::try_from_slice(&accounts[3].data).unwrap();
    assert_eq!(pool_record.user_count, 1);
    assert_eq!(pool_record.rewards_per_token, 42);
    assert_eq!(pool_record.pool_authority.bytes, pool_authority.bytes);
}

#[test]
fn create_user_on_uninitialized_pool_fails() {
    let program_id = addr(0x11);
    let user = addr(0x44);
    let (pda, _bump) = derive_user_storage_address(&user, &program_id);
    let mut accounts = vec![
        Account {
            key: user,
            is_signer: true,
            owner: addr(0),
            data: vec![],
        },
        Account {
            key: pda,
            is_signer: false,
            owner: program_id.dup(),
            data: vec![0u8; USER_STORAGE_TOTAL_BYTES],
        },
        Account {
            key: system_program_address(),
            is_signer: false,
            owner: addr(0),
            data: vec![],
        },
        Account {
            key: addr(0x20),
            is_signer: false,
            owner: program_id.dup(),
            data: vec![0u8; POOL_STORAGE_TOTAL_BYTES],
        },
    ];
    let r = process_create_user_funded(&mut accounts);
    assert_eq!(
        r.unwrap_err(),
        ProcessError::Staking(StakingError::NotInitialized)
    );
    // The fresh user record was written before the pool was examined; the
    // host discards the whole invocation on failure.
    let user_record = UserStorageAccount::try_from_slice(&accounts[1].data).unwrap();
    assert!(user_record.is_initialized);
}

#[test]
fn create_user_replay_fails() {
    let program_id = addr(0x11);
    let pool_authority = addr(0x22);
    let already = UserStorageAccount {
        staked: 0,
        last_stake_timestamp: 0,
        is_initialized: true,
    };
    let mut accounts = vec![
        Account {
            key: addr(0x44),
            is_signer: true,
            owner: addr(0),
            data: vec![],
        },
        Account {
            key: addr(0x55),
            is_signer: false,
            owner: program_id.dup(),
            data: already.serialize(),
        },
        Account {
            key: system_program_address(),
            is_signer: false,
            owner: addr(0),
            data: vec![],
        },
        Account {
            key: addr(0x20),
            is_signer: false,
            owner: program_id.dup(),
            data: initialized_pool_data(&pool_authority, 1),
        },
    ];
    let before = accounts[3].data.clone();
    let r = process_create_user_funded(&mut accounts);
    assert_eq!(r.unwrap_err(), ProcessError::AccountAlreadyInitialized);
    // The pool was not credited.
    assert_eq!(accounts[3].data, before);
}
