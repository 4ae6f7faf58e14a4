use vstd::prelude::*;

use crate::error::DataStoreError;
use crate::keys::{derives_metadata, find_metadata_address, is_canonical_bump, is_metadata_address, metadata_seeds, program_address_of};
use crate::state::{
    array32_eq, encoding, is_record_prefix, lemma_record_of_with_record, record_of, with_record,
    CloseDataStoreArgs, DataStoreAccountMetadata, FinalizeDataStoreArgs, InitializeDataStoreArgs,
    SerializationStatusOption, UpdateDataStoreArgs, UpdateDataStoreAuthorityArgs, METADATA_LEN,
    METADATA_SIZE,
};

verus! {

/// One ledger account as an operation sees it: its address, the program that
/// owns it, its funding, its bytes, and the flags that the caller declared.
#[derive(Clone, Debug)]
pub struct AccountState {
    pub key: [u8; 32],
    pub owner: [u8; 32],
    pub lamports: u64,
    pub data: Vec<u8>,
    pub is_signer: bool,
    pub is_writable: bool,
}

/// Why Initialize or Update did not complete: a refusal of the data store's
/// own rules, or the ledger's refusal to move funding that the paying account
/// does not hold.
#[derive(Clone, Copy, Debug, PartialEq, Eq, Structural)]
pub enum ProcessorError {
    DataStore(DataStoreError),
    InsufficientFunds,
}

/// Runs the operations on a data account and its metadata record.
pub struct Processor {}

pub open spec fn zeros(n: nat) -> Seq<u8> {
    Seq::new(n, |i: int| 0u8)
}

/// `s` cut to `n` bytes, or extended to `n` bytes with zeros.
pub open spec fn resized(s: Seq<u8>, n: nat) -> Seq<u8> {
    if n <= s.len() {
        s.subrange(0, n as int)
    } else {
        s + zeros((n - s.len()) as nat)
    }
}

/// `s` with `d` written over it from `offset` on.
pub open spec fn overwritten(s: Seq<u8>, offset: int, d: Seq<u8>) -> Seq<u8> {
    s.subrange(0, offset) + d + s.subrange(offset + d.len(), s.len() as int)
}

/// `b` less `a`, or zero where `a` is larger.
pub open spec fn saturating_diff(b: u64, a: u64) -> u64 {
    if b > a { (b - a) as u64 } else { 0 }
}

/// Whether `b` differs from `a` at most in funding and bytes.
pub open spec fn same_identity(a: AccountState, b: AccountState) -> bool {
    &&& b.key == a.key
    &&& b.owner == a.owner
    &&& b.is_signer == a.is_signer
    &&& b.is_writable == a.is_writable
}

/// The first refusal of the checks that every operation makes on an existing
/// record: it is present and readable, its status is accepted, `signer` is
/// its authority, and its bump re-derives the metadata account's address.
pub open spec fn record_refusal(
    program_id: Seq<u8>,
    signer: Seq<u8>,
    data_key: Seq<u8>,
    metadata: AccountState,
    finalized_ok: bool,
) -> Option<DataStoreError> {
    let rec = record_of(metadata.data@);
    if metadata.data@.len() == 0 {
        Some(DataStoreError::NoAccountLength)
    } else if !is_record_prefix(metadata.data@) {
        Some(DataStoreError::InvalidInstructionData)
    } else if rec.data_status == SerializationStatusOption::Uninitialized {
        Some(DataStoreError::NotInitialized)
    } else if rec.data_status == SerializationStatusOption::Finalized && !finalized_ok {
        Some(DataStoreError::AlreadyFinalized)
    } else if rec.authority@ != signer {
        Some(DataStoreError::InvalidAuthority)
    } else if !derives_metadata(program_id, data_key, rec.bump_seed, metadata.key@) {
        Some(DataStoreError::InvalidPDA)
    } else {
        None
    }
}

/// Reads the record of `metadata` and makes the checks of `record_refusal`.
fn load_record(
    program_id: &[u8; 32],
    signer: &[u8; 32],
    data_key: &[u8; 32],
    metadata: &AccountState,
    finalized_ok: bool,
) -> (r: Result<DataStoreAccountMetadata, DataStoreError>)
    ensures
        match record_refusal(program_id@, signer@, data_key@, *metadata, finalized_ok) {
            Some(e) => r == Err::<DataStoreAccountMetadata, DataStoreError>(e),
            None => r == Ok::<DataStoreAccountMetadata, DataStoreError>(record_of(metadata.data@)),
        },
{
    if metadata.data.len() == 0 {
        return Err(DataStoreError::NoAccountLength);
    }
    let rec = match DataStoreAccountMetadata::try_from_slice(metadata.data.as_slice()) {
        Ok(m) => m,
        Err(e) => {
            return Err(e);
        },
    };
    match rec.data_status {
        SerializationStatusOption::Uninitialized => {
            return Err(DataStoreError::NotInitialized);
        },
        SerializationStatusOption::Finalized => {
            if !finalized_ok {
                return Err(DataStoreError::AlreadyFinalized);
            }
        },
        SerializationStatusOption::Initialized => {},
    }
    if !array32_eq(&rec.authority, signer) {
        return Err(DataStoreError::InvalidAuthority);
    }
    if !is_metadata_address(program_id, data_key, rec.bump_seed, &metadata.key) {
        return Err(DataStoreError::InvalidPDA);
    }
    Ok(rec)
}

/// Writes the encoding of `m` over the first bytes of `buf`.
fn store_record(buf: &mut Vec<u8>, m: &DataStoreAccountMetadata)
    requires
        old(buf)@.len() >= METADATA_LEN,
    ensures
        final(buf)@ == with_record(old(buf)@, *m),
{
    let bytes = m.serialize();
    proof {
        crate::state::lemma_encoding_len(*m);
    }
    let mut i: usize = 0;
    while i < METADATA_LEN
        invariant
            i <= METADATA_LEN,
            old(buf)@.len() >= METADATA_LEN,
            bytes@ == encoding(*m),
            bytes@.len() == METADATA_LEN,
            buf@.len() == old(buf)@.len(),
            forall|j: int| 0 <= j < i ==> buf@[j] == bytes@[j],
            forall|j: int| i <= j < buf@.len() ==> buf@[j] == old(buf)@[j],
        decreases METADATA_LEN - i,
    {
        buf[i] = bytes[i];
        i = i + 1;
    }
    assert(buf@ =~= with_record(old(buf)@, *m));
}

/// Sets every byte of `buf` to zero.
fn zero_fill(buf: &mut Vec<u8>)
    ensures
        final(buf)@ == zeros(old(buf)@.len()),
{
    let n = buf.len();
    let mut i: usize = 0;
    while i < n
        invariant
            i <= n,
            n == buf@.len(),
            n == old(buf)@.len(),
            forall|j: int| 0 <= j < i ==> buf@[j] == 0u8,
        decreases n - i,
    {
        buf[i] = 0u8;
        i = i + 1;
    }
    assert(buf@ =~= zeros(old(buf)@.len()));
}

/// Copies `d` into `buf` from `offset` on.
fn write_at(buf: &mut Vec<u8>, offset: usize, d: &Vec<u8>)
    requires
        offset + d@.len() <= old(buf)@.len(),
    ensures
        final(buf)@ == overwritten(old(buf)@, offset as int, d@),
{
    let n = d.len();
    let len = buf.len();
    let mut i: usize = 0;
    while i < n
        invariant
            i <= n,
            n == d@.len(),
            len == old(buf)@.len(),
            offset + n <= buf@.len(),
            buf@.len() == old(buf)@.len(),
            forall|j: int| 0 <= j < offset ==> buf@[j] == old(buf)@[j],
            forall|j: int| 0 <= j < i ==> buf@[offset + j] == d@[j],
            forall|j: int| offset + i <= j < buf@.len() ==> buf@[j] == old(buf)@[j],
        decreases n - i,
    {
        buf[offset + i] = d[i];
        i = i + 1;
    }
    assert(buf@ =~= overwritten(old(buf)@, offset as int, d@));
}

/// The length that Update gives a data account of `old_len` bytes when it
/// writes up to `end`: a static blob keeps its length; a dynamic one shrinks
/// to `end` only on request, and otherwise grows to hold `end`.
pub open spec fn target_len(is_dynamic: bool, old_len: nat, end: nat, realloc_down: bool) -> nat {
    if !is_dynamic {
        old_len
    } else if realloc_down {
        end
    } else if old_len >= end {
        old_len
    } else {
        end
    }
}

/// Where a write of `args.data` at `args.offset` ends.
pub open spec fn write_end(args: UpdateDataStoreArgs) -> nat {
    (args.offset + args.data@.len()) as nat
}

/// The length that Update gives the data account.
pub open spec fn update_len(data_account: AccountState, metadata: AccountState, args: UpdateDataStoreArgs) -> nat {
    target_len(record_of(metadata.data@).is_dynamic, data_account.data@.len(), write_end(args), args.realloc_down)
}

/// The first refusal of Update; `new_minimum_balance` is the ledger's minimum
/// funding for the length that the data account is given.
pub open spec fn update_refusal(
    program_id: Seq<u8>,
    authority: AccountState,
    data_account: AccountState,
    metadata: AccountState,
    args: UpdateDataStoreArgs,
    new_minimum_balance: u64,
) -> Option<DataStoreError> {
    let rec = record_of(metadata.data@);
    let old_len = data_account.data@.len();
    let end = write_end(args);
    let new_len = target_len(rec.is_dynamic, old_len, end, args.realloc_down);
    if !authority.is_signer {
        Some(DataStoreError::NotSigner)
    } else if !authority.is_writable || !data_account.is_writable || !metadata.is_writable {
        Some(DataStoreError::NotWriteable)
    } else if record_refusal(program_id, authority.key@, data_account.key@, metadata, false) is Some {
        record_refusal(program_id, authority.key@, data_account.key@, metadata, false)
    } else if !rec.is_dynamic && old_len < end {
        Some(DataStoreError::InsufficientSpace)
    } else if end > usize::MAX {
        Some(DataStoreError::Overflow)
    } else if new_len < old_len && authority.lamports + saturating_diff(data_account.lamports, new_minimum_balance) > u64::MAX {
        Some(DataStoreError::Overflow)
    } else {
        None
    }
}

/// Whether the authority cannot pay for the growth of the data account, a
/// transfer that the ledger refuses.
pub open spec fn update_unfunded(
    authority: AccountState,
    data_account: AccountState,
    metadata: AccountState,
    args: UpdateDataStoreArgs,
    new_minimum_balance: u64,
) -> bool {
    &&& update_len(data_account, metadata, args) > data_account.data@.len()
    &&& authority.lamports < saturating_diff(new_minimum_balance, data_account.lamports)
}

/// What a successful Update leaves: the bytes written over the resized blob,
/// the new content type in the record, and the funding traded with the
/// authority (the authority pays what growth needs above the data account's
/// funding, and takes back what shrinking frees above the new minimum).
pub open spec fn update_effect(
    authority: AccountState,
    data_account: AccountState,
    metadata: AccountState,
    args: UpdateDataStoreArgs,
    new_minimum_balance: u64,
    authority2: AccountState,
    data_account2: AccountState,
    metadata2: AccountState,
) -> bool {
    let rec = record_of(metadata.data@);
    let old_len = data_account.data@.len();
    let end = write_end(args);
    let new_len = target_len(rec.is_dynamic, old_len, end, args.realloc_down);
    let grow = saturating_diff(new_minimum_balance, data_account.lamports);
    let shrink = saturating_diff(data_account.lamports, new_minimum_balance);
    &&& same_identity(authority, authority2)
    &&& same_identity(data_account, data_account2)
    &&& same_identity(metadata, metadata2)
    &&& authority2.data@ == authority.data@
    &&& metadata2.lamports == metadata.lamports
    &&& data_account2.data@ == overwritten(resized(data_account.data@, new_len), args.offset as int, args.data@)
    &&& metadata2.data@ == with_record(metadata.data@, DataStoreAccountMetadata { data_type: args.data_type, ..rec })
    &&& new_len > old_len ==> {
        &&& data_account2.lamports == data_account.lamports + grow
        &&& authority2.lamports == authority.lamports - grow
    }
    &&& new_len < old_len ==> {
        &&& data_account2.lamports == data_account.lamports - shrink
        &&& authority2.lamports == authority.lamports + shrink
    }
    &&& new_len == old_len ==> {
        &&& data_account2.lamports == data_account.lamports
        &&& authority2.lamports == authority.lamports
    }
}

/// The first refusal of UpdateAuthority. The old authority, the data account
/// and the new authority must all sign.
pub open spec fn authority_refusal(
    program_id: Seq<u8>,
    authority: AccountState,
    data_account: AccountState,
    metadata: AccountState,
    new_authority: AccountState,
) -> Option<DataStoreError> {
    if !authority.is_signer || !data_account.is_signer || !new_authority.is_signer {
        Some(DataStoreError::NotSigner)
    } else if !metadata.is_writable {
        Some(DataStoreError::NotWriteable)
    } else {
        record_refusal(program_id, authority.key@, data_account.key@, metadata, false)
    }
}

/// The first refusal of Close; a finalized record may be closed.
pub open spec fn close_refusal(
    program_id: Seq<u8>,
    authority: AccountState,
    data_account: AccountState,
    metadata: AccountState,
) -> Option<DataStoreError> {
    if !authority.is_signer {
        Some(DataStoreError::NotSigner)
    } else if !authority.is_writable || !data_account.is_writable || !metadata.is_writable {
        Some(DataStoreError::NotWriteable)
    } else if record_refusal(program_id, authority.key@, data_account.key@, metadata, true) is Some {
        record_refusal(program_id, authority.key@, data_account.key@, metadata, true)
    } else if authority.lamports + metadata.lamports > u64::MAX {
        Some(DataStoreError::Overflow)
    } else if authority.lamports + metadata.lamports + data_account.lamports > u64::MAX {
        Some(DataStoreError::Overflow)
    } else {
        None
    }
}

/// Whether some bump from 1 to 255 derives a metadata address for `data_key`.
pub open spec fn has_metadata_address(program_id: Seq<u8>, data_key: Seq<u8>) -> bool {
    exists|c: u8| #![trigger metadata_seeds(data_key, c)]
        1 <= c && program_address_of(metadata_seeds(data_key, c), program_id) is Some
}

/// The largest bump that derives a metadata address for `data_key`.
pub open spec fn canonical_bump(program_id: Seq<u8>, data_key: Seq<u8>) -> u8 {
    choose|b: u8| 1 <= b && is_canonical_bump(program_id, data_key, b)
}

/// Whether an account is free for the ledger to create: no funding, no bytes.
pub open spec fn is_vacant(a: AccountState) -> bool {
    a.lamports == 0 && a.data@.len() == 0
}

/// What Initialize asks of the fee payer: the data account's funding when it
/// creates that account, and the metadata account's.
pub open spec fn initialize_cost(args: InitializeDataStoreArgs, data_minimum_balance: u64, metadata_minimum_balance: u64) -> int {
    (if args.is_created { 0 } else { data_minimum_balance as int }) + metadata_minimum_balance
}

/// Whether the fee payer cannot pay for the accounts that Initialize
/// creates, a transfer that the ledger refuses.
pub open spec fn initialize_unfunded(
    feepayer: AccountState,
    args: InitializeDataStoreArgs,
    data_minimum_balance: u64,
    metadata_minimum_balance: u64,
) -> bool {
    feepayer.lamports < initialize_cost(args, data_minimum_balance, metadata_minimum_balance)
}

/// The first refusal of Initialize.
pub open spec fn initialize_refusal(
    program_id: Seq<u8>,
    feepayer: AccountState,
    data_account: AccountState,
    metadata: AccountState,
    args: InitializeDataStoreArgs,
    data_minimum_balance: u64,
    metadata_minimum_balance: u64,
) -> Option<DataStoreError> {
    if !feepayer.is_signer {
        Some(DataStoreError::NotSigner)
    } else if !feepayer.is_writable || !data_account.is_writable || !metadata.is_writable {
        Some(DataStoreError::NotWriteable)
    } else if !has_metadata_address(program_id, data_account.key@) {
        Some(DataStoreError::InvalidPDA)
    } else if !derives_metadata(program_id, data_account.key@, canonical_bump(program_id, data_account.key@), metadata.key@) {
        Some(DataStoreError::InvalidPDA)
    } else if !is_vacant(metadata) {
        Some(DataStoreError::AlreadyInitialized)
    } else if !args.is_created && !is_vacant(data_account) {
        Some(DataStoreError::NonZeroData)
    } else if !args.is_created && args.space > usize::MAX {
        Some(DataStoreError::Overflow)
    } else {
        None
    }
}

/// The first refusal of Finalize.
pub open spec fn finalize_refusal(
    program_id: Seq<u8>,
    authority: AccountState,
    data_account: AccountState,
    metadata: AccountState,
) -> Option<DataStoreError> {
    if !authority.is_signer {
        Some(DataStoreError::NotSigner)
    } else if !metadata.is_writable {
        Some(DataStoreError::NotWriteable)
    } else {
        record_refusal(program_id, authority.key@, data_account.key@, metadata, false)
    }
}

impl Processor {
    /// Creates (or takes over) the data account, zeroes it, and creates the
    /// metadata record at the address derived from the data account's, with
    /// the bump that the search finds. The new record is initialized, static,
    /// with a zero hash. `data_minimum_balance` and `metadata_minimum_balance`
    /// are the ledger's minimum funding for `args.space` and `METADATA_SIZE`
    /// bytes.
    pub fn initialize_data_store(
        program_id: &[u8; 32],
        feepayer: &mut AccountState,
        data_account: &mut AccountState,
        metadata_account: &mut AccountState,
        args: &InitializeDataStoreArgs,
        data_minimum_balance: u64,
        metadata_minimum_balance: u64,
    ) -> (r: Result<(), ProcessorError>)
        ensures
            match initialize_refusal(program_id@, *old(feepayer), *old(data_account), *old(metadata_account), *args,
                data_minimum_balance, metadata_minimum_balance) {
                Some(e) => {
                    &&& r == Err::<(), ProcessorError>(ProcessorError::DataStore(e))
                    &&& *final(feepayer) == *old(feepayer)
                    &&& *final(data_account) == *old(data_account)
                    &&& *final(metadata_account) == *old(metadata_account)
                },
                None if initialize_unfunded(*old(feepayer), *args, data_minimum_balance, metadata_minimum_balance) => {
                    &&& r == Err::<(), ProcessorError>(ProcessorError::InsufficientFunds)
                    &&& *final(feepayer) == *old(feepayer)
                    &&& *final(data_account) == *old(data_account)
                    &&& *final(metadata_account) == *old(metadata_account)
                },
                None => {
                    let bump = canonical_bump(program_id@, old(data_account).key@);
                    let rec = record_of(final(metadata_account).data@);
                    &&& r is Ok
                    &&& same_identity(*old(feepayer), *final(feepayer))
                    &&& final(feepayer).data@ == old(feepayer).data@
                    &&& final(feepayer).lamports == old(feepayer).lamports
                        - initialize_cost(*args, data_minimum_balance, metadata_minimum_balance)
                    &&& final(data_account).key == old(data_account).key
                    &&& final(data_account).owner == *program_id
                    &&& final(data_account).is_signer == old(data_account).is_signer
                    &&& final(data_account).is_writable == old(data_account).is_writable
                    &&& args.is_created ==> final(data_account).lamports == old(data_account).lamports
                        && final(data_account).data@ == zeros(old(data_account).data@.len())
                    &&& !args.is_created ==> final(data_account).lamports == data_minimum_balance
                        && final(data_account).data@ == zeros(args.space as nat)
                    &&& final(metadata_account).key == old(metadata_account).key
                    &&& final(metadata_account).owner == *program_id
                    &&& final(metadata_account).is_signer == old(metadata_account).is_signer
                    &&& final(metadata_account).is_writable == old(metadata_account).is_writable
                    &&& final(metadata_account).lamports == metadata_minimum_balance
                    &&& final(metadata_account).data@.len() == METADATA_SIZE
                    &&& final(metadata_account).data@ == with_record(zeros(METADATA_SIZE as nat), rec)
                    &&& is_record_prefix(final(metadata_account).data@)
                    &&& rec.authority == args.authority
                    &&& rec.data_type == args.data_type
                    &&& rec.bump_seed == bump
                    &&& rec.data_status == SerializationStatusOption::Initialized
                    &&& rec.data_hash@ == zeros(32)
                    &&& !rec.is_dynamic
                    &&& rec.space == 0
                    &&& is_canonical_bump(program_id@, old(data_account).key@, rec.bump_seed)
                    &&& derives_metadata(program_id@, final(data_account).key@, rec.bump_seed, final(metadata_account).key@)
                },
            },
    {
        if !feepayer.is_signer {
            return Err(ProcessorError::DataStore(DataStoreError::NotSigner));
        }
        if !feepayer.is_writable || !data_account.is_writable || !metadata_account.is_writable {
            return Err(ProcessorError::DataStore(DataStoreError::NotWriteable));
        }
        let (pda, bump) = match find_metadata_address(program_id, &data_account.key) {
            Some(found) => found,
            None => {
                return Err(ProcessorError::DataStore(DataStoreError::InvalidPDA));
            },
        };
        proof {
            let b = canonical_bump(program_id@, data_account.key@);
            assert(1 <= bump && is_canonical_bump(program_id@, data_account.key@, bump));
            if b != bump {
                if b < bump {
                    assert(program_address_of(metadata_seeds(data_account.key@, bump), program_id@) is None);
                } else {
                    assert(program_address_of(metadata_seeds(data_account.key@, b), program_id@) is None);
                }
            }
        }
        if !array32_eq(&pda, &metadata_account.key) {
            return Err(ProcessorError::DataStore(DataStoreError::InvalidPDA));
        }
        if metadata_account.lamports != 0 || metadata_account.data.len() != 0 {
            return Err(ProcessorError::DataStore(DataStoreError::AlreadyInitialized));
        }
        if !args.is_created && (data_account.lamports != 0 || data_account.data.len() != 0) {
            return Err(ProcessorError::DataStore(DataStoreError::NonZeroData));
        }
        if !args.is_created && args.space > usize::MAX as u64 {
            return Err(ProcessorError::DataStore(DataStoreError::Overflow));
        }
        let data_cost: u64 = if args.is_created { 0 } else { data_minimum_balance };
        if feepayer.lamports < data_cost || feepayer.lamports - data_cost < metadata_minimum_balance {
            return Err(ProcessorError::InsufficientFunds);
        }
        feepayer.lamports = feepayer.lamports - data_cost - metadata_minimum_balance;
        if !args.is_created {
            data_account.lamports = data_minimum_balance;
            data_account.data = vec![0u8; args.space as usize];
            proof {
                assert(data_account.data@ =~= zeros(args.space as nat));
            }
        } else {
            zero_fill(&mut data_account.data);
        }
        data_account.owner = *program_id;
        let rec = DataStoreAccountMetadata::new(args.authority, args.data_type, bump);
        metadata_account.lamports = metadata_minimum_balance;
        metadata_account.owner = *program_id;
        metadata_account.data = vec![0u8; METADATA_SIZE];
        proof {
            assert(metadata_account.data@ =~= zeros(METADATA_SIZE as nat));
        }
        store_record(&mut metadata_account.data, &rec);
        proof {
            lemma_record_of_with_record(zeros(METADATA_SIZE as nat), rec);
            assert(rec.data_hash@ =~= zeros(32));
        }
        Ok(())
    }

    /// Hands the data account to the new authority; nothing else changes. A
    /// finalized record keeps its authority.
    pub fn update_data_store_authority(
        program_id: &[u8; 32],
        authority: &AccountState,
        data_account: &AccountState,
        metadata_account: &mut AccountState,
        new_authority: &AccountState,
        args: &UpdateDataStoreAuthorityArgs,
    ) -> (r: Result<(), DataStoreError>)
        ensures
            match authority_refusal(program_id@, *authority, *data_account, *old(metadata_account), *new_authority) {
                Some(e) => r == Err::<(), DataStoreError>(e) && *final(metadata_account) == *old(metadata_account),
                None => {
                    let rec = record_of(old(metadata_account).data@);
                    &&& r is Ok
                    &&& same_identity(*old(metadata_account), *final(metadata_account))
                    &&& final(metadata_account).lamports == old(metadata_account).lamports
                    &&& final(metadata_account).data@ == with_record(
                        old(metadata_account).data@,
                        DataStoreAccountMetadata { authority: new_authority.key, ..rec },
                    )
                },
            },
    {
        if !authority.is_signer || !data_account.is_signer || !new_authority.is_signer {
            return Err(DataStoreError::NotSigner);
        }
        if !metadata_account.is_writable {
            return Err(DataStoreError::NotWriteable);
        }
        let mut rec = match load_record(program_id, &authority.key, &data_account.key, metadata_account, false) {
            Ok(m) => m,
            Err(e) => {
                return Err(e);
            },
        };
        rec.set_authority(&new_authority.key);
        store_record(&mut metadata_account.data, &rec);
        Ok(())
    }

    /// Returns all funding of both accounts to the authority and zeroes both
    /// buffers, leaving both accounts unfunded.
    pub fn close_data_store(
        program_id: &[u8; 32],
        authority: &mut AccountState,
        data_account: &mut AccountState,
        metadata_account: &mut AccountState,
        args: &CloseDataStoreArgs,
    ) -> (r: Result<(), DataStoreError>)
        ensures
            match close_refusal(program_id@, *old(authority), *old(data_account), *old(metadata_account)) {
                Some(e) => {
                    &&& r == Err::<(), DataStoreError>(e)
                    &&& *final(authority) == *old(authority)
                    &&& *final(data_account) == *old(data_account)
                    &&& *final(metadata_account) == *old(metadata_account)
                },
                None => {
                    &&& r is Ok
                    &&& same_identity(*old(authority), *final(authority))
                    &&& same_identity(*old(data_account), *final(data_account))
                    &&& same_identity(*old(metadata_account), *final(metadata_account))
                    &&& final(authority).data@ == old(authority).data@
                    &&& final(authority).lamports == old(authority).lamports + old(metadata_account).lamports
                        + old(data_account).lamports
                    &&& final(metadata_account).lamports == 0
                    &&& final(data_account).lamports == 0
                    &&& final(metadata_account).data@ == zeros(old(metadata_account).data@.len())
                    &&& final(data_account).data@ == zeros(old(data_account).data@.len())
                },
            },
    {
        if !authority.is_signer {
            return Err(DataStoreError::NotSigner);
        }
        if !authority.is_writable || !data_account.is_writable || !metadata_account.is_writable {
            return Err(DataStoreError::NotWriteable);
        }
        let _rec = match load_record(program_id, &authority.key, &data_account.key, metadata_account, true) {
            Ok(m) => m,
            Err(e) => {
                return Err(e);
            },
        };
        let held = authority.lamports;
        if held > u64::MAX - metadata_account.lamports {
            return Err(DataStoreError::Overflow);
        }
        let with_metadata = held + metadata_account.lamports;
        if with_metadata > u64::MAX - data_account.lamports {
            return Err(DataStoreError::Overflow);
        }
        authority.lamports = with_metadata + data_account.lamports;
        metadata_account.lamports = 0;
        zero_fill(&mut metadata_account.data);
        data_account.lamports = 0;
        zero_fill(&mut data_account.data);
        Ok(())
    }

    /// Writes `args.data` into the data account at `args.offset`, resizing a
    /// dynamic blob and trading funding with the authority as it does, and
    /// records the new content type. `new_minimum_balance` is the ledger's
    /// minimum funding for the length that `update_target_len` gives.
    pub fn update_data_store(
        program_id: &[u8; 32],
        authority: &mut AccountState,
        data_account: &mut AccountState,
        metadata_account: &mut AccountState,
        args: &UpdateDataStoreArgs,
        new_minimum_balance: u64,
    ) -> (r: Result<(), ProcessorError>)
        ensures
            match update_refusal(program_id@, *old(authority), *old(data_account), *old(metadata_account), *args, new_minimum_balance) {
                Some(e) => {
                    &&& r == Err::<(), ProcessorError>(ProcessorError::DataStore(e))
                    &&& *final(authority) == *old(authority)
                    &&& *final(data_account) == *old(data_account)
                    &&& *final(metadata_account) == *old(metadata_account)
                },
                None if update_unfunded(*old(authority), *old(data_account), *old(metadata_account), *args,
                    new_minimum_balance) => {
                    &&& r == Err::<(), ProcessorError>(ProcessorError::InsufficientFunds)
                    &&& *final(authority) == *old(authority)
                    &&& *final(data_account) == *old(data_account)
                    &&& *final(metadata_account) == *old(metadata_account)
                },
                None => {
                    &&& r is Ok
                    &&& update_effect(*old(authority), *old(data_account), *old(metadata_account), *args,
                        new_minimum_balance, *final(authority), *final(data_account), *final(metadata_account))
                },
            },
    {
        if !authority.is_signer {
            return Err(ProcessorError::DataStore(DataStoreError::NotSigner));
        }
        if !authority.is_writable || !data_account.is_writable || !metadata_account.is_writable {
            return Err(ProcessorError::DataStore(DataStoreError::NotWriteable));
        }
        let mut rec = match load_record(program_id, &authority.key, &data_account.key, metadata_account, false) {
            Ok(m) => m,
            Err(e) => {
                return Err(ProcessorError::DataStore(e));
            },
        };
        let old_len = data_account.data.len();
        let data_len = args.data.len();
        let end_wide: u128 = args.offset as u128 + data_len as u128;
        if !rec.is_dynamic && (old_len as u128) < end_wide {
            return Err(ProcessorError::DataStore(DataStoreError::InsufficientSpace));
        }
        if end_wide > usize::MAX as u128 {
            return Err(ProcessorError::DataStore(DataStoreError::Overflow));
        }
        let end = end_wide as usize;
        let new_len: usize = if !rec.is_dynamic {
            old_len
        } else if args.realloc_down {
            end
        } else if old_len >= end {
            old_len
        } else {
            end
        };
        let held = data_account.lamports;
        if new_len > old_len {
            let grow: u64 = if new_minimum_balance > held { new_minimum_balance - held } else { 0 };
            if authority.lamports < grow {
                return Err(ProcessorError::InsufficientFunds);
            }
            authority.lamports = authority.lamports - grow;
            data_account.lamports = held + grow;
        } else if new_len < old_len {
            let shrink: u64 = if held > new_minimum_balance { held - new_minimum_balance } else { 0 };
            if authority.lamports > u64::MAX - shrink {
                return Err(ProcessorError::DataStore(DataStoreError::Overflow));
            }
            authority.lamports = authority.lamports + shrink;
            data_account.lamports = held - shrink;
        }
        let ghost before = data_account.data@;
        data_account.data.resize(new_len, 0u8);
        proof {
            assert(data_account.data@ =~= resized(before, new_len as nat));
        }
        write_at(&mut data_account.data, end - data_len, &args.data);
        rec.set_data_type(args.data_type);
        store_record(&mut metadata_account.data, &rec);
        Ok(())
    }

    /// The length that `update_data_store` would give the data account, or
    /// its present length where the record cannot be read or the end of the
    /// write does not fit.
    pub fn update_target_len(data_account: &AccountState, metadata_account: &AccountState, args: &UpdateDataStoreArgs) -> (r: usize)
        ensures
            is_record_prefix(metadata_account.data@) && write_end(*args) <= usize::MAX
                ==> r == target_len(record_of(metadata_account.data@).is_dynamic, data_account.data@.len(),
                    write_end(*args), args.realloc_down),
            !(is_record_prefix(metadata_account.data@) && write_end(*args) <= usize::MAX)
                ==> r == data_account.data@.len(),
    {
        let old_len = data_account.data.len();
        let rec = match DataStoreAccountMetadata::try_from_slice(metadata_account.data.as_slice()) {
            Ok(m) => m,
            Err(_) => {
                return old_len;
            },
        };
        let end_wide: u128 = args.offset as u128 + args.data.len() as u128;
        if end_wide > usize::MAX as u128 {
            return old_len;
        }
        let end = end_wide as usize;
        if !rec.is_dynamic {
            old_len
        } else if args.realloc_down {
            end
        } else if old_len >= end {
            old_len
        } else {
            end
        }
    }
    /// Freezes a data account: its record moves to `Finalized`, for good.
    pub fn finalize_data_store(
        program_id: &[u8; 32],
        authority: &AccountState,
        data_account: &AccountState,
        metadata_account: &mut AccountState,
        args: &FinalizeDataStoreArgs,
    ) -> (r: Result<(), DataStoreError>)
        ensures
            match finalize_refusal(program_id@, *authority, *data_account, *old(metadata_account)) {
                Some(e) => r == Err::<(), DataStoreError>(e) && *final(metadata_account) == *old(metadata_account),
                None => {
                    let rec = record_of(old(metadata_account).data@);
                    &&& r is Ok
                    &&& same_identity(*old(metadata_account), *final(metadata_account))
                    &&& final(metadata_account).lamports == old(metadata_account).lamports
                    &&& final(metadata_account).data@ == with_record(
                        old(metadata_account).data@,
                        DataStoreAccountMetadata { data_status: SerializationStatusOption::Finalized, ..rec },
                    )
                },
            },
    {
        if !authority.is_signer {
            return Err(DataStoreError::NotSigner);
        }
        if !metadata_account.is_writable {
            return Err(DataStoreError::NotWriteable);
        }
        let mut rec = match load_record(program_id, &authority.key, &data_account.key, metadata_account, false) {
            Ok(m) => m,
            Err(e) => {
                return Err(e);
            },
        };
        rec.set_data_status(SerializationStatusOption::Finalized);
        store_record(&mut metadata_account.data, &rec);
        Ok(())
    }
}

/// Initialize refuses, with `AlreadyInitialized`, a data account whose
/// metadata record already holds an initialized record.
pub proof fn lemma_initialize_refuses_existing_record(
    program_id: Seq<u8>,
    feepayer: AccountState,
    data_account: AccountState,
    metadata: AccountState,
    args: InitializeDataStoreArgs,
    data_minimum_balance: u64,
    metadata_minimum_balance: u64,
)
    requires
        feepayer.is_signer,
        feepayer.is_writable,
        data_account.is_writable,
        metadata.is_writable,
        has_metadata_address(program_id, data_account.key@),
        derives_metadata(program_id, data_account.key@, canonical_bump(program_id, data_account.key@), metadata.key@),
        is_record_prefix(metadata.data@),
        record_of(metadata.data@).data_status == SerializationStatusOption::Initialized,
    ensures
        initialize_refusal(program_id, feepayer, data_account, metadata, args, data_minimum_balance,
            metadata_minimum_balance) == Some(DataStoreError::AlreadyInitialized),
{
}

/// Update of a finalized record fails with `AlreadyFinalized`, whatever it
/// would write.
pub proof fn lemma_finalized_refuses_update(
    program_id: Seq<u8>,
    authority: AccountState,
    data_account: AccountState,
    metadata: AccountState,
    args: UpdateDataStoreArgs,
    new_minimum_balance: u64,
)
    requires
        authority.is_signer,
        authority.is_writable,
        data_account.is_writable,
        metadata.is_writable,
        is_record_prefix(metadata.data@),
        record_of(metadata.data@).data_status == SerializationStatusOption::Finalized,
    ensures
        update_refusal(program_id, authority, data_account, metadata, args, new_minimum_balance)
            == Some(DataStoreError::AlreadyFinalized),
{
}

/// On a static blob of length L, Update that would end past L fails with
/// `InsufficientSpace`; one that ends within L succeeds, keeps the length,
/// writes the data in place and leaves every other byte as it was.
pub proof fn lemma_static_update(
    program_id: Seq<u8>,
    authority: AccountState,
    data_account: AccountState,
    metadata: AccountState,
    args: UpdateDataStoreArgs,
    new_minimum_balance: u64,
    authority2: AccountState,
    data_account2: AccountState,
    metadata2: AccountState,
)
    requires
        authority.is_signer,
        authority.is_writable,
        data_account.is_writable,
        metadata.is_writable,
        record_refusal(program_id, authority.key@, data_account.key@, metadata, false) is None,
        !record_of(metadata.data@).is_dynamic,
        data_account.data@.len() <= usize::MAX,
    ensures
        write_end(args) > data_account.data@.len() ==> update_refusal(program_id, authority, data_account, metadata,
            args, new_minimum_balance) == Some(DataStoreError::InsufficientSpace),
        write_end(args) <= data_account.data@.len() ==> update_refusal(program_id, authority, data_account, metadata,
            args, new_minimum_balance) is None && !update_unfunded(authority, data_account, metadata, args,
            new_minimum_balance),
        write_end(args) <= data_account.data@.len() && update_effect(authority, data_account, metadata, args,
            new_minimum_balance, authority2, data_account2, metadata2) ==> {
            &&& data_account2.data@.len() == data_account.data@.len()
            &&& data_account2.data@.subrange(args.offset as int, write_end(args) as int) == args.data@
            &&& forall|i: int| 0 <= i < data_account.data@.len() && !(args.offset <= i < write_end(args))
                ==> #[trigger] data_account2.data@[i] == data_account.data@[i]
            &&& data_account2.lamports == data_account.lamports
            &&& authority2.lamports == authority.lamports
        },
{
    let s = data_account.data@;
    if write_end(args) <= s.len() && update_effect(authority, data_account, metadata, args, new_minimum_balance,
        authority2, data_account2, metadata2) {
        assert(resized(s, s.len()) =~= s);
        let w = data_account2.data@;
        assert(w.subrange(args.offset as int, write_end(args) as int) =~= args.data@);
        assert forall|i: int| 0 <= i < s.len() && !(args.offset <= i < write_end(args)) implies #[trigger] w[i] == s[i] by {
            if i < args.offset {
                assert(w[i] == s.subrange(0, args.offset as int)[i]);
            } else {
                let k = i - write_end(args);
                assert(w[i] == s.subrange(write_end(args) as int, s.len() as int)[k]);
            }
        }
    }
}

/// With the data account funded at exactly the minimum for its old length,
/// growing a dynamic blob moves `min(new) - min(old)` from the authority to
/// the data account, and shrinking moves `min(old) - min(new)` back.
pub proof fn lemma_dynamic_resize_funding(
    authority: AccountState,
    data_account: AccountState,
    metadata: AccountState,
    args: UpdateDataStoreArgs,
    old_minimum_balance: u64,
    new_minimum_balance: u64,
    authority2: AccountState,
    data_account2: AccountState,
    metadata2: AccountState,
)
    requires
        data_account.lamports == old_minimum_balance,
        update_effect(authority, data_account, metadata, args, new_minimum_balance, authority2, data_account2, metadata2),
    ensures
        update_len(data_account, metadata, args) > data_account.data@.len() && new_minimum_balance
            >= old_minimum_balance ==> {
            &&& data_account2.lamports == data_account.lamports + (new_minimum_balance - old_minimum_balance)
            &&& authority2.lamports == authority.lamports - (new_minimum_balance - old_minimum_balance)
        },
        update_len(data_account, metadata, args) < data_account.data@.len() && new_minimum_balance
            <= old_minimum_balance ==> {
            &&& data_account2.lamports == new_minimum_balance
            &&& authority2.lamports == authority.lamports + (old_minimum_balance - new_minimum_balance)
        },
{
}

/// After UpdateAuthority, an Update signed by the old authority fails with
/// `InvalidAuthority`.
pub proof fn lemma_old_authority_refused(
    program_id: Seq<u8>,
    authority: AccountState,
    data_account: AccountState,
    metadata: AccountState,
    new_authority: AccountState,
    metadata2: AccountState,
    args: UpdateDataStoreArgs,
    new_minimum_balance: u64,
)
    requires
        authority_refusal(program_id, authority, data_account, metadata, new_authority) is None,
        same_identity(metadata, metadata2),
        metadata2.data@ == with_record(metadata.data@,
            DataStoreAccountMetadata { authority: new_authority.key, ..record_of(metadata.data@) }),
        authority.key != new_authority.key,
        authority.is_writable,
        data_account.is_writable,
    ensures
        update_refusal(program_id, authority, data_account, metadata2, args, new_minimum_balance)
            == Some(DataStoreError::InvalidAuthority),
{
    let rec = record_of(metadata.data@);
    let rec2 = DataStoreAccountMetadata { authority: new_authority.key, ..rec };
    lemma_record_of_with_record(metadata.data@, rec2);
    if new_authority.key@ == authority.key@ {
        assert(new_authority.key =~= authority.key);
    }
}

} // verus!
