use vstd::bytes::{
    lemma_auto_spec_u64_to_from_le_bytes, spec_u64_from_le_bytes, spec_u64_to_le_bytes,
    u64_from_le_bytes, u64_to_le_bytes,
};
use vstd::prelude::*;

use crate::error::DataStoreError;

verus! {

/// Size in bytes of the account that holds a metadata record.
pub const METADATA_SIZE: usize = 1000;

/// Number of bytes that an encoded metadata record occupies at the start of
/// its account.
pub const METADATA_LEN: usize = 76;

/// Domain-separation seed of the metadata record's derived address: the
/// ASCII text `data_store`.
pub const PDA_SEED: [u8; 10] = [100, 97, 116, 97, 95, 115, 116, 111, 114, 101];

/// Declared interpretation of a blob's bytes.
#[derive(Clone, Copy, Debug, PartialEq, Eq, Structural)]
pub enum DataStoreTypeOption {
    File,
    Directory,
}

/// Lifecycle state of a metadata record; it only moves forward.
#[derive(Clone, Copy, Debug, PartialEq, Eq, Structural)]
pub enum SerializationStatusOption {
    Uninitialized,
    Initialized,
    Finalized,
}

/// The record that describes one data account.
#[derive(Clone, Copy, Debug, PartialEq, Eq)]
pub struct DataStoreAccountMetadata {
    pub data_type: DataStoreTypeOption,
    pub authority: [u8; 32],
    pub data_status: SerializationStatusOption,
    pub bump_seed: u8,
    pub data_hash: [u8; 32],
    pub is_dynamic: bool,
    pub space: u64,
}

/// Arguments of the operation that creates a data account's metadata record.
#[derive(Clone, Copy, Debug)]
pub struct InitializeDataStoreArgs {
    pub debug: bool,
    pub data_type: DataStoreTypeOption,
    pub bump_seed: u8,
    pub is_created: bool,
    pub space: u64,
    pub authority: [u8; 32],
    pub is_dynamic: bool,
}

/// Arguments of the operation that writes bytes into a data account.
#[derive(Clone, Debug)]
pub struct UpdateDataStoreArgs {
    pub debug: bool,
    pub data_hash: [u8; 32],
    pub data: Vec<u8>,
    pub offset: u64,
    pub realloc_down: bool,
    pub data_type: DataStoreTypeOption,
}

/// Arguments of the operation that hands a data account to a new authority.
#[derive(Clone, Copy, Debug)]
pub struct UpdateDataStoreAuthorityArgs {
    pub debug: bool,
}

/// Arguments of the operation that freezes a data account.
#[derive(Clone, Copy, Debug)]
pub struct FinalizeDataStoreArgs {
    pub debug: bool,
}

/// Arguments of the operation that empties and defunds both accounts.
#[derive(Clone, Copy, Debug)]
pub struct CloseDataStoreArgs {
    pub debug: bool,
}

/// Position of a status in the forward-only lifecycle.
pub open spec fn status_rank(s: SerializationStatusOption) -> nat {
    match s {
        SerializationStatusOption::Uninitialized => 0,
        SerializationStatusOption::Initialized => 1,
        SerializationStatusOption::Finalized => 2,
    }
}

pub open spec fn type_tag(t: DataStoreTypeOption) -> u8 {
    match t {
        DataStoreTypeOption::File => 0,
        DataStoreTypeOption::Directory => 1,
    }
}

pub open spec fn status_tag(s: SerializationStatusOption) -> u8 {
    status_rank(s) as u8
}

pub open spec fn bool_tag(b: bool) -> u8 {
    if b { 1 } else { 0 }
}

/// The record's fixed layout: type tag, authority, status tag, bump seed,
/// content hash, dynamic flag, declared space (little endian).
pub open spec fn encoding(m: DataStoreAccountMetadata) -> Seq<u8> {
    seq![type_tag(m.data_type)] + m.authority@ + seq![status_tag(m.data_status), m.bump_seed]
        + m.data_hash@ + seq![bool_tag(m.is_dynamic)] + spec_u64_to_le_bytes(m.space)
}

/// Whether `b` starts with a well-formed record: long enough, and every tag
/// within its range.
pub open spec fn is_record_prefix(b: Seq<u8>) -> bool {
    &&& b.len() >= METADATA_LEN
    &&& b[0] < 2
    &&& b[33] < 3
    &&& b[67] < 2
}

/// What `verify_data` reports for given content and declared type.
pub open spec fn verification_of(data: Seq<u8>, t: DataStoreTypeOption) -> SerializationStatusOption {
    if data.len() == 0 || t == DataStoreTypeOption::File {
        SerializationStatusOption::Uninitialized
    } else {
        SerializationStatusOption::Initialized
    }
}

/// The record that a well-formed prefix holds.
pub open spec fn record_of(b: Seq<u8>) -> DataStoreAccountMetadata {
    choose|m: DataStoreAccountMetadata| encoding(m) == b.subrange(0, METADATA_LEN as int)
}

/// `b` with the encoding of `m` written over its first bytes.
pub open spec fn with_record(b: Seq<u8>, m: DataStoreAccountMetadata) -> Seq<u8> {
    encoding(m) + b.subrange(METADATA_LEN as int, b.len() as int)
}

/// A record written over a buffer is the record read back from it.
pub proof fn lemma_record_of_with_record(b: Seq<u8>, m: DataStoreAccountMetadata)
    requires
        b.len() >= METADATA_LEN,
    ensures
        record_of(with_record(b, m)) == m,
        is_record_prefix(with_record(b, m)),
        with_record(b, m).len() == b.len(),
{
    lemma_encoding_len(m);
    let w = with_record(b, m);
    assert(w.subrange(0, METADATA_LEN as int) =~= encoding(m));
    let n = record_of(w);
    lemma_encoding_injective(m, n);
    assert(is_record_prefix(encoding(m)));
}

pub proof fn lemma_encoding_len(m: DataStoreAccountMetadata)
    ensures
        encoding(m).len() == METADATA_LEN,
{
    lemma_auto_spec_u64_to_from_le_bytes();
}

/// No two records share an encoding, and every encoding is well formed.
proof fn lemma_encoding_injective(m: DataStoreAccountMetadata, n: DataStoreAccountMetadata)
    ensures
        is_record_prefix(encoding(m)),
        encoding(m) == encoding(n) ==> m == n,
{
    lemma_auto_spec_u64_to_from_le_bytes();
    let e = encoding(m);
    let f = encoding(n);
    assert(e[0] == type_tag(m.data_type));
    assert(e[33] == status_tag(m.data_status));
    assert(e[67] == bool_tag(m.is_dynamic));
    if e == f {
        assert(m.authority@ =~= e.subrange(1, 33));
        assert(n.authority@ =~= f.subrange(1, 33));
        assert(m.data_hash@ =~= e.subrange(35, 67));
        assert(n.data_hash@ =~= f.subrange(35, 67));
        assert(m.authority =~= n.authority);
        assert(m.data_hash =~= n.data_hash);
        assert(spec_u64_to_le_bytes(m.space) =~= e.subrange(68, 76));
        assert(spec_u64_to_le_bytes(n.space) =~= f.subrange(68, 76));
        assert(spec_u64_from_le_bytes(spec_u64_to_le_bytes(m.space)) == m.space);
        assert(spec_u64_from_le_bytes(spec_u64_to_le_bytes(n.space)) == n.space);
        assert(e[34] == m.bump_seed && f[34] == n.bump_seed);
        assert(f[0] == type_tag(n.data_type));
        assert(f[33] == status_tag(n.data_status));
        assert(f[67] == bool_tag(n.is_dynamic));
    }
}

/// Encoding a record and reading it back gives the same record, field for
/// field: every encoding is a well-formed prefix, the record read from it is
/// the one encoded, and no two records share an encoding.
pub proof fn lemma_round_trip(m: DataStoreAccountMetadata, n: DataStoreAccountMetadata)
    ensures
        is_record_prefix(encoding(m)),
        record_of(encoding(m)) == m,
        encoding(m) == encoding(n) ==> m == n,
{
    lemma_encoding_len(m);
    lemma_encoding_injective(m, n);
    let e = encoding(m);
    assert(e.subrange(0, METADATA_LEN as int) =~= e);
    lemma_encoding_injective(record_of(e), m);
}

/// Copies 32 bytes of `b`, starting at `start`, into an array.
pub fn read_array32(b: &[u8], start: usize) -> (r: [u8; 32])
    requires
        start + 32 <= b@.len(),
    ensures
        r@ == b@.subrange(start as int, start + 32),
{
    let n = b.len();
    let mut a: [u8; 32] = [0u8; 32];
    let mut i: usize = 0;
    while i < 32
        invariant
            i <= 32,
            start + 32 <= b@.len(),
            n == b@.len(),
            forall|j: int| 0 <= j < i ==> a@[j] == b@[start + j],
        decreases 32 - i,
    {
        a[i] = b[start + i];
        i = i + 1;
    }
    assert(a@ =~= b@.subrange(start as int, start + 32));
    a
}

/// Appends the 32 bytes of `a` to `out`.
pub fn push_array32(out: &mut Vec<u8>, a: &[u8; 32])
    ensures
        final(out)@ == old(out)@ + a@,
{
    let mut i: usize = 0;
    while i < 32
        invariant
            i <= 32,
            out@ == old(out)@ + a@.subrange(0, i as int),
        decreases 32 - i,
    {
        out.push(a[i]);
        i = i + 1;
        assert(a@.subrange(0, i as int) =~= a@.subrange(0, i - 1) + seq![a@[i - 1]]);
    }
    assert(a@.subrange(0, 32) =~= a@);
}

/// Whether two 32-byte values are equal.
pub fn array32_eq(a: &[u8; 32], b: &[u8; 32]) -> (r: bool)
    ensures
        r == (a@ == b@),
        r == (*a == *b),
{
    let mut i: usize = 0;
    while i < 32
        invariant
            i <= 32,
            forall|j: int| 0 <= j < i ==> a@[j] == b@[j],
        decreases 32 - i,
    {
        if a[i] != b[i] {
            return false;
        }
        i = i + 1;
    }
    assert(a@ =~= b@);
    assert(*a =~= *b);
    true
}

impl DataStoreTypeOption {
    pub fn tag(&self) -> (r: u8)
        ensures
            r == type_tag(*self),
    {
        match self {
            DataStoreTypeOption::File => 0,
            DataStoreTypeOption::Directory => 1,
        }
    }
}

impl SerializationStatusOption {
    pub fn tag(&self) -> (r: u8)
        ensures
            r == status_tag(*self),
    {
        match self {
            SerializationStatusOption::Uninitialized => 0,
            SerializationStatusOption::Initialized => 1,
            SerializationStatusOption::Finalized => 2,
        }
    }
}

impl DataStoreAccountMetadata {
    /// A fresh record: initialized, zero hash, static, no declared space.
    pub fn new(authority: [u8; 32], data_type: DataStoreTypeOption, bump_seed: u8) -> (r: Self)
        ensures
            r.authority == authority,
            r.data_type == data_type,
            r.bump_seed == bump_seed,
            r.data_status == SerializationStatusOption::Initialized,
            r.data_hash@ == Seq::new(32, |i: int| 0u8),
            !r.is_dynamic,
            r.space == 0,
    {
        let r = DataStoreAccountMetadata {
            data_type,
            authority,
            data_status: SerializationStatusOption::Initialized,
            bump_seed,
            data_hash: [0u8; 32],
            is_dynamic: false,
            space: 0,
        };
        assert(r.data_hash@ =~= Seq::new(32, |i: int| 0u8));
        r
    }

    pub fn data_type(&self) -> (r: &DataStoreTypeOption)
        ensures
            *r == self.data_type,
    {
        &self.data_type
    }

    pub fn authority(&self) -> (r: &[u8; 32])
        ensures
            *r == self.authority,
    {
        &self.authority
    }

    pub fn data_status(&self) -> (r: &SerializationStatusOption)
        ensures
            *r == self.data_status,
    {
        &self.data_status
    }

    pub fn bump_seed(&self) -> (r: u8)
        ensures
            r == self.bump_seed,
    {
        self.bump_seed
    }

    pub fn data_hash(&self) -> (r: &[u8; 32])
        ensures
            *r == self.data_hash,
    {
        &self.data_hash
    }

    pub fn is_dynamic(&self) -> (r: bool)
        ensures
            r == self.is_dynamic,
    {
        self.is_dynamic
    }

    pub fn set_data_type(&mut self, data_type: DataStoreTypeOption)
        ensures
            *final(self) == (DataStoreAccountMetadata { data_type, ..*old(self) }),
    {
        self.data_type = data_type;
    }

    pub fn set_authority(&mut self, authority: &[u8; 32])
        ensures
            *final(self) == (DataStoreAccountMetadata { authority: *authority, ..*old(self) }),
    {
        self.authority = *authority;
    }

    /// Moves the status forward; a backward move is never asked for.
    pub fn set_data_status(&mut self, status: SerializationStatusOption)
        requires
            status_rank(old(self).data_status) <= status_rank(status),
        ensures
            *final(self) == (DataStoreAccountMetadata { data_status: status, ..*old(self) }),
    {
        self.data_status = status;
    }

    /// The record in its fixed layout.
    pub fn serialize(&self) -> (r: Vec<u8>)
        ensures
            r@ == encoding(*self),
    {
        let mut out: Vec<u8> = Vec::new();
        out.push(self.data_type.tag());
        push_array32(&mut out, &self.authority);
        out.push(self.data_status.tag());
        out.push(self.bump_seed);
        push_array32(&mut out, &self.data_hash);
        out.push(if self.is_dynamic { 1u8 } else { 0u8 });
        let space = u64_to_le_bytes(self.space);
        let mut i: usize = 0;
        let ghost before = out@;
        while i < 8
            invariant
                i <= 8,
                space@.len() == 8,
                out@ == before + space@.subrange(0, i as int),
            decreases 8 - i,
        {
            out.push(space[i]);
            i = i + 1;
            assert(space@.subrange(0, i as int) =~= space@.subrange(0, i - 1) + seq![space@[i - 1]]);
        }
        assert(space@.subrange(0, 8) =~= space@);
        assert(out@ =~= encoding(*self));
        out
    }

    /// Reads a record from the start of `bytes`; bytes past the record are
    /// ignored.
    pub fn try_from_slice(bytes: &[u8]) -> (r: Result<Self, DataStoreError>)
        ensures
            r is Ok <==> is_record_prefix(bytes@),
            r matches Ok(m) ==> encoding(m) == bytes@.subrange(0, METADATA_LEN as int)
                && m == record_of(bytes@),
            r matches Err(e) ==> e == DataStoreError::InvalidInstructionData,
    {
        if bytes.len() < METADATA_LEN {
            return Err(DataStoreError::InvalidInstructionData);
        }
        let data_type = match bytes[0] {
            0 => DataStoreTypeOption::File,
            1 => DataStoreTypeOption::Directory,
            _ => {
                return Err(DataStoreError::InvalidInstructionData);
            },
        };
        let authority = read_array32(bytes, 1);
        let data_status = match bytes[33] {
            0 => SerializationStatusOption::Uninitialized,
            1 => SerializationStatusOption::Initialized,
            2 => SerializationStatusOption::Finalized,
            _ => {
                return Err(DataStoreError::InvalidInstructionData);
            },
        };
        let bump_seed = bytes[34];
        let data_hash = read_array32(bytes, 35);
        let is_dynamic = match bytes[67] {
            0 => false,
            1 => true,
            _ => {
                return Err(DataStoreError::InvalidInstructionData);
            },
        };
        let space_bytes = vstd::slice::slice_subrange(bytes, 68, 76);
        let space = u64_from_le_bytes(space_bytes);
        let m = DataStoreAccountMetadata {
            data_type,
            authority,
            data_status,
            bump_seed,
            data_hash,
            is_dynamic,
            space,
        };
        proof {
            lemma_auto_spec_u64_to_from_le_bytes();
            assert(spec_u64_to_le_bytes(space) == space_bytes@);
            assert(encoding(m) =~= bytes@.subrange(0, METADATA_LEN as int));
            lemma_encoding_injective(m, record_of(bytes@));
        }
        Ok(m)
    }
}

/// Checks content against its declared type. Empty content and opaque files
/// are left unverified; structured content is reported as verified.
pub fn verify_data(data: &[u8], data_type: DataStoreTypeOption) -> (r: SerializationStatusOption)
    ensures
        r == verification_of(data@, data_type),
{
    if data.len() == 0 || data_type == DataStoreTypeOption::File {
        return SerializationStatusOption::Uninitialized;
    }
    match data_type {
        DataStoreTypeOption::Directory => SerializationStatusOption::Initialized,
        _ => SerializationStatusOption::Finalized,
    }
}

} // verus!
