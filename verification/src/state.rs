//! The persistent account schemas: the pool record and the per-user record,
//! each a fixed binary layout of a known total size.

use vstd::prelude::*;

use crate::codec::{
    lemma_i64_bits_round_trip, lemma_u64_le_round_trip, push_u64_le, read_u64_le,
    spec_u64_from_le_bytes, spec_u64_to_le_bytes,
};

verus! {

/// A 32-byte account address, as the host runtime identifies accounts.
#[derive(Debug)]
pub struct Address {
    pub bytes: Vec<u8>,
}

impl View for Address {
    type V = Seq<u8>;

    open spec fn view(&self) -> Seq<u8> {
        self.bytes@
    }
}

impl Address {
    /// A valid address holds exactly 32 bytes.
    pub open spec fn wf(&self) -> bool {
        self@.len() == 32
    }

    /// Returns a fresh address holding the same bytes.
    pub fn dup(&self) -> (r: Address)
        ensures
            r@ == self@,
    {
        let n = self.bytes.len();
        let mut out: Vec<u8> = Vec::new();
        let mut i: usize = 0;
        while i < n
            invariant
                i <= n,
                n == self.bytes.len(),
                out@ =~= self@.subrange(0, i as int),
            decreases n - i,
        {
            out.push(self.bytes[i]);
            i += 1;
        }
        proof {
            assert(out@ =~= self@);
        }
        Address { bytes: out }
    }
}

/// Returns whether two addresses hold the same bytes.
pub fn address_eq(a: &Address, b: &Address) -> (r: bool)
    ensures
        r <==> a@ == b@,
{
    if a.bytes.len() != b.bytes.len() {
        return false;
    }
    let n = a.bytes.len();
    let mut i: usize = 0;
    while i < n
        invariant
            i <= n,
            n == a.bytes.len() == b.bytes.len(),
            forall|j: int| 0 <= j < i ==> a@[j] == b@[j],
        decreases n - i,
    {
        if a.bytes[i] != b.bytes[i] {
            return false;
        }
        i += 1;
    }
    proof {
        assert(a@ =~= b@);
    }
    true
}

/// The byte a boolean field stores: one for true, zero for false.
pub open spec fn spec_bool_byte(b: bool) -> u8 {
    if b {
        1
    } else {
        0
    }
}

/// The total size in bytes of a serialized pool record.
pub const POOL_STORAGE_TOTAL_BYTES: usize = 32 + 8 + 8 + 8 + 1;

/// The total size in bytes of a serialized user record.
pub const USER_STORAGE_TOTAL_BYTES: usize = 8 + 8 + 1;

/// The mathematical content of a pool record.
pub struct PoolView {
    pub pool_authority: Seq<u8>,
    pub total_staked: u64,
    pub user_count: u64,
    pub rewards_per_token: u64,
    pub is_initialized: bool,
}

/// Schema of the pool storage account: the authority captured at
/// initialization, the aggregate counters, the reward configuration, and the
/// one-way initialization flag.
#[derive(Debug)]
pub struct PoolStorageAccount {
    pub pool_authority: Address,
    pub total_staked: u64,
    pub user_count: u64,
    pub rewards_per_token: u64,
    pub is_initialized: bool,
}

impl View for PoolStorageAccount {
    type V = PoolView;

    open spec fn view(&self) -> PoolView {
        PoolView {
            pool_authority: self.pool_authority@,
            total_staked: self.total_staked,
            user_count: self.user_count,
            rewards_per_token: self.rewards_per_token,
            is_initialized: self.is_initialized,
        }
    }
}

/// The serialized form of a pool record: the 32 authority bytes, then each
/// counter little-endian, then the initialization flag byte.
pub open spec fn spec_pool_bytes(p: PoolView) -> Seq<u8> {
    p.pool_authority + spec_u64_to_le_bytes(p.total_staked) + spec_u64_to_le_bytes(p.user_count)
        + spec_u64_to_le_bytes(p.rewards_per_token) + seq![spec_bool_byte(p.is_initialized)]
}

/// The pool record stored in `s`, or `None` when `s` is not a well-formed
/// 57-byte pool record (wrong size, or a flag byte other than zero or one).
pub open spec fn spec_pool_from_bytes(s: Seq<u8>) -> Option<PoolView> {
    if s.len() == POOL_STORAGE_TOTAL_BYTES && (s[56] == 0 || s[56] == 1) {
        Some(
            PoolView {
                pool_authority: s.subrange(0, 32),
                total_staked: spec_u64_from_le_bytes(s.subrange(32, 40)),
                user_count: spec_u64_from_le_bytes(s.subrange(40, 48)),
                rewards_per_token: spec_u64_from_le_bytes(s.subrange(48, 56)),
                is_initialized: s[56] == 1,
            },
        )
    } else {
        None
    }
}

impl PoolStorageAccount {
    /// A well-formed record carries a full 32-byte authority address.
    pub open spec fn wf(&self) -> bool {
        self.pool_authority.wf()
    }

    /// Returns whether this record has been initialized.
    pub fn is_initialized(&self) -> (r: bool)
        ensures
            r == self@.is_initialized,
    {
        self.is_initialized
    }

    /// Serializes this record into its fixed 57-byte layout.
    pub fn serialize(&self) -> (r: Vec<u8>)
        ensures
            r@ == spec_pool_bytes(self@),
            self.wf() ==> r@.len() == POOL_STORAGE_TOTAL_BYTES,
    {
        let mut out: Vec<u8> = Vec::new();
        let n = self.pool_authority.bytes.len();
        let mut i: usize = 0;
        while i < n
            invariant
                i <= n,
                n == self.pool_authority.bytes.len(),
                out@ =~= self.pool_authority@.subrange(0, i as int),
            decreases n - i,
        {
            out.push(self.pool_authority.bytes[i]);
            i += 1;
        }
        proof {
            assert(out@ =~= self.pool_authority@);
        }
        push_u64_le(&mut out, self.total_staked);
        push_u64_le(&mut out, self.user_count);
        push_u64_le(&mut out, self.rewards_per_token);
        if self.is_initialized {
            out.push(1);
        } else {
            out.push(0);
        }
        proof {
            assert(out@ =~= spec_pool_bytes(self@));
        }
        out
    }

    /// Deserializes a pool record from its fixed 57-byte layout. Fails on any
    /// buffer of the wrong size and on a malformed flag byte; succeeds on a
    /// zero-filled buffer, yielding an uninitialized record.
    pub fn try_from_slice(data: &[u8]) -> (r: Option<PoolStorageAccount>)
        ensures
            match r {
                Some(p) => spec_pool_from_bytes(data@) == Some(p@) && p.wf(),
                None => spec_pool_from_bytes(data@) is None,
            },
    {
        if data.len() != POOL_STORAGE_TOTAL_BYTES {
            return None;
        }
        let flag = data[56];
        if flag > 1 {
            return None;
        }
        let mut authority: Vec<u8> = Vec::new();
        let mut i: usize = 0;
        while i < 32
            invariant
                i <= 32,
                data@.len() == 57,
                authority@ =~= data@.subrange(0, i as int),
            decreases 32 - i,
        {
            authority.push(data[i]);
            i += 1;
        }
        let p = PoolStorageAccount {
            pool_authority: Address { bytes: authority },
            total_staked: read_u64_le(data, 32),
            user_count: read_u64_le(data, 40),
            rewards_per_token: read_u64_le(data, 48),
            is_initialized: flag == 1,
        };
        proof {
            assert(p.pool_authority@ =~= data@.subrange(0, 32));
        }
        Some(p)
    }
}

/// The mathematical content of a user record.
pub struct UserView {
    pub staked: u64,
    pub last_stake_timestamp: i64,
    pub is_initialized: bool,
}

/// Schema of a per-user storage account: the staked amount, the timestamp of
/// the last stake action, and the one-way initialization flag.
#[derive(Debug)]
pub struct UserStorageAccount {
    pub staked: u64,
    pub last_stake_timestamp: i64,
    pub is_initialized: bool,
}

impl View for UserStorageAccount {
    type V = UserView;

    open spec fn view(&self) -> UserView {
        UserView {
            staked: self.staked,
            last_stake_timestamp: self.last_stake_timestamp,
            is_initialized: self.is_initialized,
        }
    }
}

/// The serialized form of a user record: the staked amount little-endian, the
/// timestamp's bit pattern little-endian, then the initialization flag byte.
pub open spec fn spec_user_bytes(u: UserView) -> Seq<u8> {
    spec_u64_to_le_bytes(u.staked) + spec_u64_to_le_bytes(u.last_stake_timestamp as u64) + seq![
        spec_bool_byte(u.is_initialized),
    ]
}

/// The user record stored in `s`, or `None` when `s` is not a well-formed
/// 17-byte user record.
pub open spec fn spec_user_from_bytes(s: Seq<u8>) -> Option<UserView> {
    if s.len() == USER_STORAGE_TOTAL_BYTES && (s[16] == 0 || s[16] == 1) {
        Some(
            UserView {
                staked: spec_u64_from_le_bytes(s.subrange(0, 8)),
                last_stake_timestamp: spec_u64_from_le_bytes(s.subrange(8, 16)) as i64,
                is_initialized: s[16] == 1,
            },
        )
    } else {
        None
    }
}

impl UserStorageAccount {
    /// Returns whether this record has been initialized.
    pub fn is_initialized(&self) -> (r: bool)
        ensures
            r == self@.is_initialized,
    {
        self.is_initialized
    }

    /// Serializes this record into its fixed 17-byte layout.
    pub fn serialize(&self) -> (r: Vec<u8>)
        ensures
            r@ == spec_user_bytes(self@),
            r@.len() == USER_STORAGE_TOTAL_BYTES,
    {
        let mut out: Vec<u8> = Vec::new();
        push_u64_le(&mut out, self.staked);
        proof {
            assert((self.last_stake_timestamp as u64) == (self@.last_stake_timestamp as u64));
        }
        push_u64_le(&mut out, #[verifier::truncate] (self.last_stake_timestamp as u64));
        if self.is_initialized {
            out.push(1);
        } else {
            out.push(0);
        }
        proof {
            assert(out@ =~= spec_user_bytes(self@));
        }
        out
    }

    /// Deserializes a user record from its fixed 17-byte layout. Fails on any
    /// buffer of the wrong size and on a malformed flag byte; succeeds on a
    /// zero-filled buffer, yielding an uninitialized record.
    pub fn try_from_slice(data: &[u8]) -> (r: Option<UserStorageAccount>)
        ensures
            match r {
                Some(u) => spec_user_from_bytes(data@) == Some(u@),
                None => spec_user_from_bytes(data@) is None,
            },
    {
        if data.len() != USER_STORAGE_TOTAL_BYTES {
            return None;
        }
        let flag = data[16];
        if flag > 1 {
            return None;
        }
        Some(
            UserStorageAccount {
                staked: read_u64_le(data, 0),
                last_stake_timestamp: #[verifier::truncate] (read_u64_le(data, 8) as i64),
                is_initialized: flag == 1,
            },
        )
    }
}

/// Serializing any pool record and reading it back yields the identical
/// record, field for field.
pub proof fn lemma_pool_round_trip(p: PoolView)
    requires
        p.pool_authority.len() == 32,
    ensures
        spec_pool_from_bytes(spec_pool_bytes(p)) == Some(p),
{
    let s = spec_pool_bytes(p);
    assert(s.len() == 57);
    assert(s[56] == spec_bool_byte(p.is_initialized));
    assert(s.subrange(0, 32) =~= p.pool_authority);
    assert(s.subrange(32, 40) =~= spec_u64_to_le_bytes(p.total_staked));
    assert(s.subrange(40, 48) =~= spec_u64_to_le_bytes(p.user_count));
    assert(s.subrange(48, 56) =~= spec_u64_to_le_bytes(p.rewards_per_token));
    lemma_u64_le_round_trip(p.total_staked);
    lemma_u64_le_round_trip(p.user_count);
    lemma_u64_le_round_trip(p.rewards_per_token);
}

/// Serializing any user record and reading it back yields the identical
/// record, field for field.
pub proof fn lemma_user_round_trip(u: UserView)
    ensures
        spec_user_from_bytes(spec_user_bytes(u)) == Some(u),
{
    let s = spec_user_bytes(u);
    assert(s.len() == 17);
    assert(s[16] == spec_bool_byte(u.is_initialized));
    assert(s.subrange(0, 8) =~= spec_u64_to_le_bytes(u.staked));
    assert(s.subrange(8, 16) =~= spec_u64_to_le_bytes(u.last_stake_timestamp as u64));
    lemma_u64_le_round_trip(u.staked);
    lemma_u64_le_round_trip(u.last_stake_timestamp as u64);
    lemma_i64_bits_round_trip(u.last_stake_timestamp);
}

/// A zero-filled pool buffer deserializes, to the record whose fields are all
/// zero and whose initialization flag is false.
pub proof fn lemma_zero_pool_bytes(s: Seq<u8>)
    requires
        s.len() == POOL_STORAGE_TOTAL_BYTES,
        forall|i: int| 0 <= i < s.len() ==> s[i] == 0,
    ensures
        spec_pool_from_bytes(s) == Some(
            PoolView {
                pool_authority: Seq::new(32, |i: int| 0u8),
                total_staked: 0,
                user_count: 0,
                rewards_per_token: 0,
                is_initialized: false,
            },
        ),
{
    assert(s.subrange(0, 32) =~= Seq::new(32, |i: int| 0u8));
    lemma_zero_u64_le(s.subrange(32, 40));
    lemma_zero_u64_le(s.subrange(40, 48));
    lemma_zero_u64_le(s.subrange(48, 56));
}

/// A zero-filled user buffer deserializes, to the record whose fields are all
/// zero and whose initialization flag is false.
pub proof fn lemma_zero_user_bytes(s: Seq<u8>)
    requires
        s.len() == USER_STORAGE_TOTAL_BYTES,
        forall|i: int| 0 <= i < s.len() ==> s[i] == 0,
    ensures
        spec_user_from_bytes(s) == Some(
            UserView { staked: 0, last_stake_timestamp: 0, is_initialized: false },
        ),
{
    lemma_zero_u64_le(s.subrange(0, 8));
    lemma_zero_u64_le(s.subrange(8, 16));
    assert((0u64 as i64) == 0i64) by (bit_vector);
}

/// Eight zero bytes decode to the value zero.
proof fn lemma_zero_u64_le(s: Seq<u8>)
    requires
        s.len() == 8,
        forall|i: int| 0 <= i < s.len() ==> s[i] == 0,
    ensures
        spec_u64_from_le_bytes(s) == 0,
{
    assert((0u64) | ((0u64) << 8) | ((0u64) << 16) | ((0u64) << 24) | ((0u64) << 32) | ((0u64)
        << 40) | ((0u64) << 48) | ((0u64) << 56) == 0) by (bit_vector);
}

} // verus!
