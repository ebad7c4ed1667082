use vstd::prelude::*;
use vstd::string::StrSliceExecFns;

use crate::identity::Identity;

verus! {

/// The longest hash, in characters, that `store_hash` accepts.
pub const MAX_HASH_LEN: usize = 64;

/// The hash a wallet stored last, and when.
#[derive(Clone, Debug)]
pub struct HashRecord {
    pub owner: Identity,
    pub hash: String,
    pub timestamp: i64,
}

/// Why `store_hash` rejected a call. A rejected call writes nothing.
#[derive(Clone, Copy, Debug, PartialEq, Eq, Structural)]
pub enum HashStoreError {
    /// The hash is longer than `MAX_HASH_LEN` characters.
    InvalidHashLength,
}

/// The records `store_hash` sees: the caller's slot, created or existing.
#[derive(Clone, Debug)]
pub struct StoreHash {
    pub hash_record: HashRecord,
    pub user: Identity,
}

/// Writes `hash` as the caller's stored hash, replacing any earlier one.
pub fn store_hash(ctx: &mut StoreHash, now: i64, hash: String) -> (r: Result<(), HashStoreError>)
    ensures
        r is Err <==> hash@.len() > MAX_HASH_LEN,
        r is Err ==> r == Err::<(), HashStoreError>(HashStoreError::InvalidHashLength)
            && *final(ctx) == *old(ctx),
        r is Ok ==> *final(ctx) == (StoreHash {
            hash_record: HashRecord { owner: old(ctx).user, hash, timestamp: now },
            user: old(ctx).user,
        }),
{
    if hash.as_str().unicode_len() > MAX_HASH_LEN {
        return Err(HashStoreError::InvalidHashLength);
    }
    let owner = ctx.user;
    ctx.hash_record = HashRecord { owner, hash, timestamp: now };
    Ok(())
}

} // verus!
