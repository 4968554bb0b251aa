//! The instruction processor: validates the supplied accounts against each
//! instruction's preconditions, in order, and performs the state transition.
//!
//! The processor works on plain account values. The host adapter loads the
//! accounts, runs [`process`], and when the returned step asks for it,
//! performs the one piece of outside work — allocating the user storage
//! account — before resuming with [`process_create_user_funded`]. The host
//! commits or discards all account writes of one invocation atomically.

use vstd::prelude::*;

use crate::derivation::{derive_user_storage_address, spec_derived_user_address};
use crate::error::{ProcessError, StakingError};
use crate::instruction::{spec_decode_instruction, Instruction};
use crate::state::{
    address_eq, spec_pool_bytes, spec_pool_from_bytes, spec_user_bytes, spec_user_from_bytes,
    Address, PoolStorageAccount, PoolView, UserStorageAccount, UserView, USER_STORAGE_TOTAL_BYTES,
};
use solana_program::system_program;
use solana_program::pubkey::Pubkey;

verus! {

/// One account handle as the host supplies it: its address, whether its
/// holder signed the invocation, the program that owns it, and its stored
/// data bytes.
#[derive(Debug)]
pub struct Account {
    pub key: Address,
    pub is_signer: bool,
    pub owner: Address,
    pub data: Vec<u8>,
}

/// An account handle is well-formed when its addresses are.
pub open spec fn account_wf(a: Account) -> bool {
    a.key.wf() && a.owner.wf()
}

/// Every supplied account handle is well-formed.
pub open spec fn accounts_wf(s: Seq<Account>) -> bool {
    forall|i: int| 0 <= i < s.len() ==> account_wf(#[trigger] s[i])
}

/// Two account values agree on every field, data bytes included.
pub open spec fn account_eq(a: Account, b: Account) -> bool {
    a.key@ == b.key@ && a.is_signer == b.is_signer && a.owner@ == b.owner@ && a.data@ == b.data@
}

/// No account was touched: the lists agree everywhere.
pub open spec fn accounts_unchanged(pre: Seq<Account>, post: Seq<Account>) -> bool {
    post.len() == pre.len() && forall|i: int|
        0 <= i < pre.len() ==> account_eq(#[trigger] pre[i], post[i])
}

/// Exactly one account's data was rewritten: the account at `j` now stores
/// `data`, its other fields and every other account are untouched.
pub open spec fn accounts_data_updated(
    pre: Seq<Account>,
    post: Seq<Account>,
    j: int,
    data: Seq<u8>,
) -> bool {
    &&& post.len() == pre.len()
    &&& forall|i: int| 0 <= i < pre.len() && i != j ==> account_eq(#[trigger] pre[i], post[i])
    &&& post[j].key@ == pre[j].key@
    &&& post[j].is_signer == pre[j].is_signer
    &&& post[j].owner@ == pre[j].owner@
    &&& post[j].data@ == data
}

/// Exactly two accounts' data were rewritten, at `j1` and `j2`.
pub open spec fn accounts_data_updated2(
    pre: Seq<Account>,
    post: Seq<Account>,
    j1: int,
    d1: Seq<u8>,
    j2: int,
    d2: Seq<u8>,
) -> bool {
    &&& post.len() == pre.len()
    &&& forall|i: int|
        0 <= i < pre.len() && i != j1 && i != j2 ==> account_eq(#[trigger] pre[i], post[i])
    &&& post[j1].key@ == pre[j1].key@
    &&& post[j1].is_signer == pre[j1].is_signer
    &&& post[j1].owner@ == pre[j1].owner@
    &&& post[j1].data@ == d1
    &&& post[j2].key@ == pre[j2].key@
    &&& post[j2].is_signer == pre[j2].is_signer
    &&& post[j2].owner@ == pre[j2].owner@
    &&& post[j2].data@ == d2
}

/// The system allocator service's well-known address: the 32 zero bytes.
pub open spec fn spec_system_program_id() -> Seq<u8> {
    Seq::new(32, |i: int| 0u8)
}

/// Relies on `solana_program::system_program::check_id`, which compares the
/// given address against the system program's constant address — the 32 zero
/// bytes ("11111111111111111111111111111111" in base-58).
#[verifier::external_body]
fn check_system_program(key: &Address) -> (r: bool)
    requires
        key.wf(),
    ensures
        r == (key@ == spec_system_program_id()),
{
    let k = Pubkey::try_from(key.bytes.as_slice()).unwrap();
    system_program::check_id(&k)
}

/// The pool record that a successful `Initialize` stores: the signer captured
/// as authority, zeroed counters, the requested reward configuration, and the
/// flag set.
pub open spec fn spec_initialized_pool(authority: Seq<u8>, rewards_per_token: u64) -> PoolView {
    PoolView {
        pool_authority: authority,
        total_staked: 0,
        user_count: 0,
        rewards_per_token,
        is_initialized: true,
    }
}

/// The user record that a successful `CreateUser` stores: nothing staked yet,
/// no stake timestamp, and the flag set.
pub open spec fn spec_initialized_user() -> UserView {
    UserView { staked: 0, last_stake_timestamp: 0, is_initialized: true }
}

/// The pool record after one more user was created.
pub open spec fn spec_pool_with_user_added(p: PoolView) -> PoolView {
    PoolView { user_count: (p.user_count + 1) as u64, ..p }
}

/// The first precondition of `Initialize` that the supplied accounts violate,
/// or `None` when the transition must succeed. The checks run in this order:
/// the signer account is present and signed, the pool storage account is
/// present, is owned by this program, decodes, and is not yet initialized.
pub open spec fn spec_initialize_error(program_id: Seq<u8>, accounts: Seq<Account>) -> Option<
    ProcessError,
> {
    if accounts.len() < 1 {
        Some(ProcessError::NotEnoughAccountKeys)
    } else if !accounts[0].is_signer {
        Some(ProcessError::Staking(StakingError::InvalidSigner))
    } else if accounts.len() < 2 {
        Some(ProcessError::NotEnoughAccountKeys)
    } else if accounts[1].owner@ != program_id {
        Some(ProcessError::Staking(StakingError::InvalidOwner))
    } else if spec_pool_from_bytes(accounts[1].data@) is None {
        Some(ProcessError::InvalidAccountData)
    } else if spec_pool_from_bytes(accounts[1].data@)->Some_0.is_initialized {
        Some(ProcessError::Staking(StakingError::AlreadyInitialized))
    } else {
        None
    }
}

/// Handles `Initialize(rewards_per_token)`: checks that the first account
/// signed, that the second is the program-owned pool storage holding a not
/// yet initialized record, and then writes the initialized pool record. On
/// any failure the first violated precondition is reported and no account is
/// written.
pub fn process_initialize_pool(
    program_id: &Address,
    accounts: &mut Vec<Account>,
    rewards_per_token: u64,
) -> (r: Result<(), ProcessError>)
    requires
        accounts_wf(old(accounts)@),
    ensures
        match r {
            Ok(()) => spec_initialize_error(program_id@, old(accounts)@) is None
                && accounts_data_updated(
                old(accounts)@,
                final(accounts)@,
                1,
                spec_pool_bytes(spec_initialized_pool(old(accounts)@[0].key@, rewards_per_token)),
            ),
            Err(e) => Some(e) == spec_initialize_error(program_id@, old(accounts)@)
                && accounts_unchanged(old(accounts)@, final(accounts)@),
        },
{
    if accounts.len() < 1 {
        return Err(ProcessError::NotEnoughAccountKeys);
    }
    if !accounts[0].is_signer {
        return Err(ProcessError::Staking(StakingError::InvalidSigner));
    }
    if accounts.len() < 2 {
        return Err(ProcessError::NotEnoughAccountKeys);
    }
    if !address_eq(&accounts[1].owner, program_id) {
        return Err(ProcessError::Staking(StakingError::InvalidOwner));
    }
    let parsed = PoolStorageAccount::try_from_slice(accounts[1].data.as_slice());
    let mut pool = match parsed {
        Some(p) => p,
        None => {
            return Err(ProcessError::InvalidAccountData);
        },
    };
    if pool.is_initialized() {
        return Err(ProcessError::Staking(StakingError::AlreadyInitialized));
    }
    pool.pool_authority = accounts[0].key.dup();
    pool.total_staked = 0;
    pool.user_count = 0;
    pool.rewards_per_token = rewards_per_token;
    pool.is_initialized = true;
    let bytes = pool.serialize();
    let storage = &mut accounts[1];
    storage.data = bytes;
    Ok(())
}

/// What the host must allocate before user creation can finish: a fresh
/// account at the derived user storage address, sized to the user schema,
/// owned by this program, funded by the signer, and authorized with the bump
/// discriminant.
#[derive(Debug)]
pub struct CreateUserPlan {
    pub user_storage_address: Address,
    pub bump: u8,
    pub space: u64,
}

/// The first precondition of `CreateUser` that the supplied accounts violate
/// before any allocation, or `None` when allocation may proceed. The checks
/// run in this order: the signer account is present and signed, the user
/// storage account is present and is the derived address for the signer, and
/// the allocator service account is present and is the system program.
pub open spec fn spec_create_user_error(program_id: Seq<u8>, accounts: Seq<Account>) -> Option<
    ProcessError,
> {
    if accounts.len() < 1 {
        Some(ProcessError::NotEnoughAccountKeys)
    } else if !accounts[0].is_signer {
        Some(ProcessError::Staking(StakingError::InvalidSigner))
    } else if accounts.len() < 2 {
        Some(ProcessError::NotEnoughAccountKeys)
    } else if spec_derived_user_address(accounts[0].key@, program_id).0 != accounts[1].key@ {
        Some(ProcessError::Staking(StakingError::InvalidUserStoragePda))
    } else if accounts.len() < 3 {
        Some(ProcessError::NotEnoughAccountKeys)
    } else if accounts[2].key@ != spec_system_program_id() {
        Some(ProcessError::Staking(StakingError::SystemProgramMismatch))
    } else {
        None
    }
}

/// Handles the validation half of `CreateUser`, everything before storage
/// exists: checks the signer, the derived user storage address, and the
/// allocator service, and hands back the allocation the host must perform.
/// No account is written here; the account list is only read.
pub fn process_create_user(program_id: &Address, accounts: &Vec<Account>) -> (r: Result<
    CreateUserPlan,
    ProcessError,
>)
    requires
        accounts_wf(accounts@),
        program_id.wf(),
    ensures
        match r {
            Ok(plan) => spec_create_user_error(program_id@, accounts@) is None
                && plan.user_storage_address@ == spec_derived_user_address(
                accounts@[0].key@,
                program_id@,
            ).0 && plan.user_storage_address@ == accounts@[1].key@ && plan.bump
                == spec_derived_user_address(accounts@[0].key@, program_id@).1 && plan.space
                == USER_STORAGE_TOTAL_BYTES,
            Err(e) => Some(e) == spec_create_user_error(program_id@, accounts@),
        },
{
    if accounts.len() < 1 {
        return Err(ProcessError::NotEnoughAccountKeys);
    }
    if !accounts[0].is_signer {
        return Err(ProcessError::Staking(StakingError::InvalidSigner));
    }
    if accounts.len() < 2 {
        return Err(ProcessError::NotEnoughAccountKeys);
    }
    let (pda, bump) = derive_user_storage_address(&accounts[0].key, program_id);
    if !address_eq(&pda, &accounts[1].key) {
        return Err(ProcessError::Staking(StakingError::InvalidUserStoragePda));
    }
    if accounts.len() < 3 {
        return Err(ProcessError::NotEnoughAccountKeys);
    }
    if !check_system_program(&accounts[2].key) {
        return Err(ProcessError::Staking(StakingError::SystemProgramMismatch));
    }
    Ok(
        CreateUserPlan {
            user_storage_address: pda,
            bump,
            space: USER_STORAGE_TOTAL_BYTES as u64,
        },
    )
}

/// The first failure of the finishing half of `CreateUser`, or `None` when it
/// succeeds: the freshly allocated user storage must decode and must not
/// already be initialized (a replayed creation), and the pool storage account
/// must be present, decode, and already be initialized.
pub open spec fn spec_create_user_funded_error(accounts: Seq<Account>) -> Option<ProcessError> {
    if accounts.len() < 2 {
        Some(ProcessError::NotEnoughAccountKeys)
    } else if spec_user_from_bytes(accounts[1].data@) is None {
        Some(ProcessError::InvalidAccountData)
    } else if spec_user_from_bytes(accounts[1].data@)->Some_0.is_initialized {
        Some(ProcessError::AccountAlreadyInitialized)
    } else if accounts.len() < 4 {
        Some(ProcessError::NotEnoughAccountKeys)
    } else if spec_pool_from_bytes(accounts[3].data@) is None {
        Some(ProcessError::InvalidAccountData)
    } else if !spec_pool_from_bytes(accounts[3].data@)->Some_0.is_initialized {
        Some(ProcessError::Staking(StakingError::NotInitialized))
    } else {
        None
    }
}

/// Whether the finishing half writes the fresh user record: everything up to
/// and including the replay check passed. The user record is written before
/// the pool is examined, as the transition prescribes; the host discards the
/// write if the invocation then fails.
pub open spec fn spec_create_user_writes_user(accounts: Seq<Account>) -> bool {
    &&& accounts.len() >= 2
    &&& spec_user_from_bytes(accounts[1].data@) matches Some(u) && !u.is_initialized
}

/// Handles the finishing half of `CreateUser`, after the host allocated the
/// user storage account: writes the fresh user record into it, then requires
/// the pool record to be initialized and credits one more user to it.
pub fn process_create_user_funded(accounts: &mut Vec<Account>) -> (r: Result<(), ProcessError>)
    requires
        accounts_wf(old(accounts)@),
        spec_create_user_funded_error(old(accounts)@) is None ==> spec_pool_from_bytes(
            old(accounts)@[3].data@,
        )->Some_0.user_count < u64::MAX,
    ensures
        match r {
            Ok(()) => spec_create_user_funded_error(old(accounts)@) is None
                && accounts_data_updated2(
                old(accounts)@,
                final(accounts)@,
                1,
                spec_user_bytes(spec_initialized_user()),
                3,
                spec_pool_bytes(
                    spec_pool_with_user_added(
                        spec_pool_from_bytes(old(accounts)@[3].data@)->Some_0,
                    ),
                ),
            ),
            Err(e) => Some(e) == spec_create_user_funded_error(old(accounts)@) && (
            if spec_create_user_writes_user(old(accounts)@) {
                accounts_data_updated(
                    old(accounts)@,
                    final(accounts)@,
                    1,
                    spec_user_bytes(spec_initialized_user()),
                )
            } else {
                accounts_unchanged(old(accounts)@, final(accounts)@)
            }),
        },
{
    if accounts.len() < 2 {
        return Err(ProcessError::NotEnoughAccountKeys);
    }
    let parsed_user = UserStorageAccount::try_from_slice(accounts[1].data.as_slice());
    let mut user = match parsed_user {
        Some(u) => u,
        None => {
            return Err(ProcessError::InvalidAccountData);
        },
    };
    if user.is_initialized() {
        return Err(ProcessError::AccountAlreadyInitialized);
    }
    user.staked = 0;
    user.last_stake_timestamp = 0;
    user.is_initialized = true;
    let user_bytes = user.serialize();
    let user_storage = &mut accounts[1];
    user_storage.data = user_bytes;
    if accounts.len() < 4 {
        return Err(ProcessError::NotEnoughAccountKeys);
    }
    let parsed_pool = PoolStorageAccount::try_from_slice(accounts[3].data.as_slice());
    let mut pool = match parsed_pool {
        Some(p) => p,
        None => {
            return Err(ProcessError::InvalidAccountData);
        },
    };
    if !pool.is_initialized() {
        return Err(ProcessError::Staking(StakingError::NotInitialized));
    }
    pool.user_count = pool.user_count + 1;
    let pool_bytes = pool.serialize();
    let pool_storage = &mut accounts[3];
    pool_storage.data = pool_bytes;
    Ok(())
}

/// What one invocation of the processor comes to.
pub enum ProcessStep {
    /// The invocation ran to completion with this outcome.
    Complete(Result<(), ProcessError>),
    /// Every precondition of `CreateUser` held; the host must now allocate
    /// the user storage account the plan names and resume with
    /// [`process_create_user_funded`] on the same account list.
    CreateUserStorage(CreateUserPlan),
}

/// Decodes the instruction bytes and dispatches on the variant. A buffer that
/// decodes to no instruction, and the declared but unsupported variants
/// `Stake`, `Unstake` and `Claim`, fail with `InvalidInstruction`; no account
/// is written unless an `Initialize` transition succeeds.
pub fn process(program_id: &Address, accounts: &mut Vec<Account>, instruction_data: &[u8]) -> (r:
    ProcessStep)
    requires
        accounts_wf(old(accounts)@),
        program_id.wf(),
    ensures
        ({
            let pre = old(accounts)@;
            let post = final(accounts)@;
            match spec_decode_instruction(instruction_data@) {
                Some(ix) => match ix {
                    Instruction::Initialize { rewards_per_token } => match r {
                        ProcessStep::Complete(res) => match res {
                            Ok(()) => spec_initialize_error(program_id@, pre) is None
                                && accounts_data_updated(
                                pre,
                                post,
                                1,
                                spec_pool_bytes(
                                    spec_initialized_pool(pre[0].key@, rewards_per_token),
                                ),
                            ),
                            Err(e) => Some(e) == spec_initialize_error(program_id@, pre)
                                && accounts_unchanged(pre, post),
                        },
                        ProcessStep::CreateUserStorage(_) => false,
                    },
                    Instruction::CreateUser {  } => accounts_unchanged(pre, post) && match r {
                        ProcessStep::Complete(res) => match res {
                            Ok(()) => false,
                            Err(e) => Some(e) == spec_create_user_error(program_id@, pre),
                        },
                        ProcessStep::CreateUserStorage(plan) => spec_create_user_error(
                            program_id@,
                            pre,
                        ) is None && plan.user_storage_address@ == spec_derived_user_address(
                            pre[0].key@,
                            program_id@,
                        ).0 && plan.user_storage_address@ == pre[1].key@ && plan.bump
                            == spec_derived_user_address(pre[0].key@, program_id@).1 && plan.space
                            == USER_STORAGE_TOTAL_BYTES,
                    },
                    _ => (r matches ProcessStep::Complete(res) && res matches Err(e) && e
                        == ProcessError::Staking(StakingError::InvalidInstruction))
                        && accounts_unchanged(pre, post),
                },
                None => (r matches ProcessStep::Complete(res) && res matches Err(e) && e
                    == ProcessError::Staking(StakingError::InvalidInstruction))
                    && accounts_unchanged(pre, post),
            }
        }),
{
    let decoded = Instruction::try_from_slice(instruction_data);
    match decoded {
        Ok(Instruction::Initialize { rewards_per_token }) => {
            ProcessStep::Complete(process_initialize_pool(program_id, accounts, rewards_per_token))
        },
        Ok(Instruction::CreateUser {  }) => {
            match process_create_user(program_id, accounts) {
                Ok(plan) => ProcessStep::CreateUserStorage(plan),
                Err(e) => ProcessStep::Complete(Err(e)),
            }
        },
        Ok(_) => ProcessStep::Complete(Err(ProcessError::Staking(StakingError::InvalidInstruction))),
        Err(e) => ProcessStep::Complete(Err(ProcessError::Staking(e))),
    }
}

} // verus!
