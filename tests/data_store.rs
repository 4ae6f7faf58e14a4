use data_store::error::DataStoreError;
use data_store::keys::{find_metadata_address, is_metadata_address};
use data_store::processor::{AccountState, Processor, ProcessorError};
use data_store::state::{
    verify_data, CloseDataStoreArgs, DataStoreAccountMetadata, DataStoreTypeOption,
    FinalizeDataStoreArgs, InitializeDataStoreArgs, SerializationStatusOption, UpdateDataStoreArgs,
    UpdateDataStoreAuthorityArgs, METADATA_LEN, METADATA_SIZE,
};

const PROGRAM: [u8; 32] = [7u8; 32];
const SYSTEM: [u8; 32] = [0u8; 32];
const DATA_KEY: [u8; 32] = [1u8; 32];
const PAYER_KEY: [u8; 32] = [2u8; 32];
const OTHER_KEY: [u8; 32] = [3u8; 32];
const DATA_RENT: u64 = 8_000;
const METADATA_RENT: u64 = 7_850;

fn account(key: [u8; 32], lamports: u64, data: Vec<u8>, is_signer: bool, is_writable: bool) -> AccountState {
    AccountState { key, owner: SYSTEM, lamports, data, is_signer, is_writable }
}

fn metadata_key() -> ([u8; 32], u8) {
    find_metadata_address(&PROGRAM, &DATA_KEY).expect("a derived address exists")
}

fn init_args(space: u64, is_created: bool) -> InitializeDataStoreArgs {
    InitializeDataStoreArgs {
        debug: false,
        data_type: DataStoreTypeOption::File,
        bump_seed: 0,
        is_created,
        space,
        authority: PAYER_KEY,
        is_dynamic: false,
    }
}

fn update_args(offset: u64, data: Vec<u8>, realloc_down: bool) -> UpdateDataStoreArgs {
    UpdateDataStoreArgs {
        debug: false,
        data_hash: [0u8; 32],
        data,
        offset,
        realloc_down,
        data_type: DataStoreTypeOption::Directory,
    }
}

/// A payer, a fresh data account of `space` bytes and its metadata record,
/// after a successful Initialize.
fn initialized(space: u64) -> (AccountState, AccountState, AccountState) {
    let mut payer = account(PAYER_KEY, 1_000_000, vec![], true, true);
    let mut data = account(DATA_KEY, 0, vec![], false, true);
    let mut meta = account(metadata_key().0, 0, vec![], false, true);
    Processor::initialize_data_store(&PROGRAM, &mut payer, &mut data, &mut meta, &init_args(space, false), DATA_RENT, METADATA_RENT)
        .expect("initialize succeeds");
    (payer, data, meta)
}

fn record(meta: &AccountState) -> DataStoreAccountMetadata {
    DataStoreAccountMetadata::try_from_slice(&meta.data).expect("record decodes")
}

/// A metadata account holding `rec` at the derived address.
fn metadata_with(rec: &DataStoreAccountMetadata) -> AccountState {
    let mut bytes = rec.serialize();
    bytes.resize(METADATA_SIZE, 0);
    account(metadata_key().0, METADATA_RENT, bytes, false, true)
}

fn dynamic_record() -> DataStoreAccountMetadata {
    let mut rec = DataStoreAccountMetadata::new(PAYER_KEY, DataStoreTypeOption::File, metadata_key().1);
    rec.is_dynamic = true;
    rec
}

#[test]
fn initialize_then_write_then_overflowing_write() {
    let (mut payer, mut data, mut meta) = initialized(1024);
    assert_eq!(data.data.len(), 1024);
    Processor::update_data_store(&PROGRAM, &mut payer, &mut data, &mut meta, &update_args(0, vec![1, 2, 3], false), DATA_RENT)
        .expect("write within the blob succeeds");
    assert_eq!(&data.data[0..3], &[1, 2, 3]);
    assert!(data.data[3..].iter().all(|b| *b == 0));
    let before = data.data.clone();
    let r = Processor::update_data_store(&PROGRAM, &mut payer, &mut data, &mut meta, &update_args(1022, vec![9, 9, 9], false), DATA_RENT);
    assert_eq!(r, Err(ProcessorError::DataStore(DataStoreError::InsufficientSpace)));
    assert_eq!(data.data, before);
}

#[test]
fn initialize_creates_funded_accounts_and_record() {
    let (payer, data, meta) = initialized(64);
    assert_eq!(payer.lamports, 1_000_000 - DATA_RENT - METADATA_RENT);
    assert_eq!(data.lamports, DATA_RENT);
    assert_eq!(data.owner, PROGRAM);
    assert_eq!(data.data, vec![0u8; 64]);
    assert_eq!(meta.lamports, METADATA_RENT);
    assert_eq!(meta.owner, PROGRAM);
    assert_eq!(meta.data.len(), METADATA_SIZE);
    assert!(meta.data[METADATA_LEN..].iter().all(|b| *b == 0));
    let rec = record(&meta);
    assert_eq!(rec.authority, PAYER_KEY);
    assert_eq!(rec.data_type, DataStoreTypeOption::File);
    assert_eq!(rec.data_status, SerializationStatusOption::Initialized);
    assert_eq!(rec.data_hash, [0u8; 32]);
    assert!(!rec.is_dynamic);
    assert_eq!(rec.space, 0);
}

#[test]
fn initialize_bump_rederives_metadata_address() {
    let (_payer, data, meta) = initialized(16);
    let rec = record(&meta);
    assert_eq!(rec.bump_seed, metadata_key().1);
    assert!(is_metadata_address(&PROGRAM, &data.key, rec.bump_seed, &meta.key));
}

#[test]
fn derived_address_differs_from_its_inputs() {
    let (pda, bump) = metadata_key();
    assert_ne!(pda, DATA_KEY);
    assert_ne!(pda, PROGRAM);
    assert!(bump >= 1);
    assert!(!is_metadata_address(&PROGRAM, &DATA_KEY, bump, &DATA_KEY));
    assert!(is_metadata_address(&PROGRAM, &DATA_KEY, bump, &pda));
    let (other, _) = find_metadata_address(&PROGRAM, &OTHER_KEY).expect("a derived address exists");
    assert_ne!(other, pda);
}

#[test]
fn initialize_twice_is_already_initialized() {
    let (mut payer, mut data, mut meta) = initialized(32);
    let meta_before = meta.data.clone();
    for is_created in [true, false] {
        let r = Processor::initialize_data_store(&PROGRAM, &mut payer, &mut data, &mut meta, &init_args(32, is_created), DATA_RENT, METADATA_RENT);
        assert_eq!(r, Err(ProcessorError::DataStore(DataStoreError::AlreadyInitialized)));
    }
    assert_eq!(meta.data, meta_before);
}

#[test]
fn initialize_existing_data_account_keeps_funding_and_zeroes() {
    let mut payer = account(PAYER_KEY, 1_000_000, vec![], true, true);
    let mut data = account(DATA_KEY, 500, vec![5, 6, 7], false, true);
    let mut meta = account(metadata_key().0, 0, vec![], false, true);
    Processor::initialize_data_store(&PROGRAM, &mut payer, &mut data, &mut meta, &init_args(99, true), DATA_RENT, METADATA_RENT)
        .expect("initialize succeeds");
    assert_eq!(data.data, vec![0, 0, 0]);
    assert_eq!(data.lamports, 500);
    assert_eq!(data.owner, PROGRAM);
    assert_eq!(payer.lamports, 1_000_000 - METADATA_RENT);
}

#[test]
fn initialize_refusals() {
    let args = init_args(8, false);
    let mk = || {
        (
            account(PAYER_KEY, 1_000_000, vec![], true, true),
            account(DATA_KEY, 0, vec![], false, true),
            account(metadata_key().0, 0, vec![], false, true),
        )
    };
    let (mut p, mut d, mut m) = mk();
    p.is_signer = false;
    assert_eq!(Processor::initialize_data_store(&PROGRAM, &mut p, &mut d, &mut m, &args, DATA_RENT, METADATA_RENT), Err(ProcessorError::DataStore(DataStoreError::NotSigner)));
    let (mut p, mut d, mut m) = mk();
    d.is_writable = false;
    assert_eq!(Processor::initialize_data_store(&PROGRAM, &mut p, &mut d, &mut m, &args, DATA_RENT, METADATA_RENT), Err(ProcessorError::DataStore(DataStoreError::NotWriteable)));
    let (mut p, mut d, mut m) = mk();
    m.key = OTHER_KEY;
    assert_eq!(Processor::initialize_data_store(&PROGRAM, &mut p, &mut d, &mut m, &args, DATA_RENT, METADATA_RENT), Err(ProcessorError::DataStore(DataStoreError::InvalidPDA)));
    let (mut p, mut d, mut m) = mk();
    d.lamports = 1;
    assert_eq!(Processor::initialize_data_store(&PROGRAM, &mut p, &mut d, &mut m, &args, DATA_RENT, METADATA_RENT), Err(ProcessorError::DataStore(DataStoreError::NonZeroData)));
    let (mut p, mut d, mut m) = mk();
    p.lamports = DATA_RENT + METADATA_RENT - 1;
    let r = Processor::initialize_data_store(&PROGRAM, &mut p, &mut d, &mut m, &args, DATA_RENT, METADATA_RENT);
    assert_eq!(r, Err(ProcessorError::InsufficientFunds));
    assert_eq!(p.lamports, DATA_RENT + METADATA_RENT - 1);
    assert!(m.data.is_empty());
}

#[test]
fn update_of_finalized_record_fails() {
    let (mut payer, mut data, mut meta) = initialized(16);
    Processor::finalize_data_store(&PROGRAM, &payer, &data, &mut meta, &FinalizeDataStoreArgs { debug: false })
        .expect("finalize succeeds");
    assert_eq!(record(&meta).data_status, SerializationStatusOption::Finalized);
    for payload in [vec![], vec![1], vec![1, 2, 3, 4]] {
        let r = Processor::update_data_store(&PROGRAM, &mut payer, &mut data, &mut meta, &update_args(0, payload, false), DATA_RENT);
        assert_eq!(r, Err(ProcessorError::DataStore(DataStoreError::AlreadyFinalized)));
    }
    let r = Processor::finalize_data_store(&PROGRAM, &payer, &data, &mut meta, &FinalizeDataStoreArgs { debug: false });
    assert_eq!(r, Err(DataStoreError::AlreadyFinalized));
}

#[test]
fn static_update_keeps_other_bytes_and_length() {
    let (mut payer, mut data, mut meta) = initialized(10);
    Processor::update_data_store(&PROGRAM, &mut payer, &mut data, &mut meta, &update_args(0, vec![1; 10], false), DATA_RENT).unwrap();
    let lamports = (payer.lamports, data.lamports);
    Processor::update_data_store(&PROGRAM, &mut payer, &mut data, &mut meta, &update_args(4, vec![8, 9], true), DATA_RENT).unwrap();
    assert_eq!(data.data, vec![1, 1, 1, 1, 8, 9, 1, 1, 1, 1]);
    assert_eq!((payer.lamports, data.lamports), lamports);
    assert_eq!(record(&meta).data_type, DataStoreTypeOption::Directory);
    Processor::update_data_store(&PROGRAM, &mut payer, &mut data, &mut meta, &update_args(7, vec![5, 5, 5], false), DATA_RENT).unwrap();
    assert_eq!(data.data, vec![1, 1, 1, 1, 8, 9, 1, 5, 5, 5]);
    let r = Processor::update_data_store(&PROGRAM, &mut payer, &mut data, &mut meta, &update_args(8, vec![5, 5, 5], false), DATA_RENT);
    assert_eq!(r, Err(ProcessorError::DataStore(DataStoreError::InsufficientSpace)));
}

#[test]
fn dynamic_growth_and_shrink_trade_funding() {
    let mut payer = account(PAYER_KEY, 1_000, vec![], true, true);
    let mut data = account(DATA_KEY, 100, vec![4; 4], false, true);
    let mut meta = metadata_with(&dynamic_record());
    let grow = update_args(2, vec![1, 2, 3, 4], false);
    assert_eq!(Processor::update_target_len(&data, &meta, &grow), 6);
    Processor::update_data_store(&PROGRAM, &mut payer, &mut data, &mut meta, &grow, 160).unwrap();
    assert_eq!(data.data, vec![4, 4, 1, 2, 3, 4]);
    assert_eq!(data.lamports, 160);
    assert_eq!(payer.lamports, 940);
    let shrink = update_args(0, vec![7, 7], true);
    assert_eq!(Processor::update_target_len(&data, &meta, &shrink), 2);
    Processor::update_data_store(&PROGRAM, &mut payer, &mut data, &mut meta, &shrink, 110).unwrap();
    assert_eq!(data.data, vec![7, 7]);
    assert_eq!(data.lamports, 110);
    assert_eq!(payer.lamports, 990);
    let larger_write = update_args(0, vec![3], false);
    assert_eq!(Processor::update_target_len(&data, &meta, &larger_write), 2);
    Processor::update_data_store(&PROGRAM, &mut payer, &mut data, &mut meta, &larger_write, 110).unwrap();
    assert_eq!(data.data, vec![3, 7]);
    assert_eq!((data.lamports, payer.lamports), (110, 990));
}

#[test]
fn dynamic_growth_zeroes_the_gap() {
    let mut payer = account(PAYER_KEY, 1_000, vec![], true, true);
    let mut data = account(DATA_KEY, 100, vec![4; 2], false, true);
    let mut meta = metadata_with(&dynamic_record());
    Processor::update_data_store(&PROGRAM, &mut payer, &mut data, &mut meta, &update_args(5, vec![9], false), 100).unwrap();
    assert_eq!(data.data, vec![4, 4, 0, 0, 0, 9]);
    assert_eq!((data.lamports, payer.lamports), (100, 1_000));
}

#[test]
fn dynamic_growth_without_funds_fails() {
    let mut payer = account(PAYER_KEY, 10, vec![], true, true);
    let mut data = account(DATA_KEY, 100, vec![4; 2], false, true);
    let mut meta = metadata_with(&dynamic_record());
    let r = Processor::update_data_store(&PROGRAM, &mut payer, &mut data, &mut meta, &update_args(0, vec![1; 8], false), 200);
    assert_eq!(r, Err(ProcessorError::InsufficientFunds));
    assert_eq!(data.data, vec![4, 4]);
    assert_eq!(payer.lamports, 10);
}

#[test]
fn shrink_overflowing_authority_balance_fails() {
    let mut payer = account(PAYER_KEY, u64::MAX, vec![], true, true);
    let mut data = account(DATA_KEY, 100, vec![4; 4], false, true);
    let mut meta = metadata_with(&dynamic_record());
    let r = Processor::update_data_store(&PROGRAM, &mut payer, &mut data, &mut meta, &update_args(0, vec![1], true), 50);
    assert_eq!(r, Err(ProcessorError::DataStore(DataStoreError::Overflow)));
}

#[test]
fn update_refusals() {
    let (payer, data, meta) = initialized(8);
    let args = update_args(0, vec![1], false);
    let mut p = payer.clone();
    p.is_signer = false;
    assert_eq!(Processor::update_data_store(&PROGRAM, &mut p, &mut data.clone(), &mut meta.clone(), &args, DATA_RENT), Err(ProcessorError::DataStore(DataStoreError::NotSigner)));
    let mut m = meta.clone();
    m.is_writable = false;
    assert_eq!(Processor::update_data_store(&PROGRAM, &mut payer.clone(), &mut data.clone(), &mut m, &args, DATA_RENT), Err(ProcessorError::DataStore(DataStoreError::NotWriteable)));
    let mut m = meta.clone();
    m.data = vec![];
    assert_eq!(Processor::update_data_store(&PROGRAM, &mut payer.clone(), &mut data.clone(), &mut m, &args, DATA_RENT), Err(ProcessorError::DataStore(DataStoreError::NoAccountLength)));
    let mut m = meta.clone();
    m.data[0] = 9;
    assert_eq!(Processor::update_data_store(&PROGRAM, &mut payer.clone(), &mut data.clone(), &mut m, &args, DATA_RENT), Err(ProcessorError::DataStore(DataStoreError::InvalidInstructionData)));
    let mut m = meta.clone();
    m.data[33] = 0;
    assert_eq!(Processor::update_data_store(&PROGRAM, &mut payer.clone(), &mut data.clone(), &mut m, &args, DATA_RENT), Err(ProcessorError::DataStore(DataStoreError::NotInitialized)));
    let mut p = payer.clone();
    p.key = OTHER_KEY;
    assert_eq!(Processor::update_data_store(&PROGRAM, &mut p, &mut data.clone(), &mut meta.clone(), &args, DATA_RENT), Err(ProcessorError::DataStore(DataStoreError::InvalidAuthority)));
    let mut d = data.clone();
    d.key = OTHER_KEY;
    assert_eq!(Processor::update_data_store(&PROGRAM, &mut payer.clone(), &mut d, &mut meta.clone(), &args, DATA_RENT), Err(ProcessorError::DataStore(DataStoreError::InvalidPDA)));
    let mut m = meta.clone();
    m.data[34] = m.data[34].wrapping_sub(1);
    assert_eq!(Processor::update_data_store(&PROGRAM, &mut payer.clone(), &mut data.clone(), &mut m, &args, DATA_RENT), Err(ProcessorError::DataStore(DataStoreError::InvalidPDA)));
}

#[test]
fn update_authority_changes_only_authority() {
    let (mut payer, mut data, mut meta) = initialized(8);
    let before = record(&meta);
    let mut signed_data = data.clone();
    signed_data.is_signer = true;
    let new_authority = account(OTHER_KEY, 0, vec![], true, true);
    Processor::update_data_store_authority(&PROGRAM, &payer, &signed_data, &mut meta, &new_authority, &UpdateDataStoreAuthorityArgs { debug: false })
        .expect("authority handoff succeeds");
    let after = record(&meta);
    assert_eq!(after, DataStoreAccountMetadata { authority: OTHER_KEY, ..before });
    let r = Processor::update_data_store(&PROGRAM, &mut payer, &mut data, &mut meta, &update_args(0, vec![1], false), DATA_RENT);
    assert_eq!(r, Err(ProcessorError::DataStore(DataStoreError::InvalidAuthority)));
    let mut new_signer = account(OTHER_KEY, 0, vec![], true, true);
    Processor::update_data_store(&PROGRAM, &mut new_signer, &mut data, &mut meta, &update_args(0, vec![1], false), DATA_RENT)
        .expect("the new authority may write");
    assert_eq!(data.data[0], 1);
}

#[test]
fn update_authority_needs_all_signatures() {
    let (payer, data, mut meta) = initialized(8);
    let new_authority = account(OTHER_KEY, 0, vec![], true, true);
    let r = Processor::update_data_store_authority(&PROGRAM, &payer, &data, &mut meta, &new_authority, &UpdateDataStoreAuthorityArgs { debug: false });
    assert_eq!(r, Err(DataStoreError::NotSigner));
    assert_eq!(record(&meta).authority, PAYER_KEY);
}

#[test]
fn close_returns_all_funding_and_zeroes() {
    let (mut payer, mut data, mut meta) = initialized(16);
    Processor::update_data_store(&PROGRAM, &mut payer, &mut data, &mut meta, &update_args(0, vec![5; 16], false), DATA_RENT).unwrap();
    Processor::finalize_data_store(&PROGRAM, &payer, &data, &mut meta, &FinalizeDataStoreArgs { debug: false }).unwrap();
    Processor::close_data_store(&PROGRAM, &mut payer, &mut data, &mut meta, &CloseDataStoreArgs { debug: false })
        .expect("close succeeds");
    assert_eq!(payer.lamports, 1_000_000);
    assert_eq!((data.lamports, meta.lamports), (0, 0));
    assert_eq!(data.data, vec![0u8; 16]);
    assert_eq!(meta.data, vec![0u8; METADATA_SIZE]);
    let r = Processor::close_data_store(&PROGRAM, &mut payer, &mut data, &mut meta, &CloseDataStoreArgs { debug: false });
    assert_eq!(r, Err(DataStoreError::NotInitialized));
}

#[test]
fn close_overflowing_authority_balance_fails() {
    let (mut payer, mut data, mut meta) = initialized(16);
    payer.lamports = u64::MAX - METADATA_RENT;
    let r = Processor::close_data_store(&PROGRAM, &mut payer, &mut data, &mut meta, &CloseDataStoreArgs { debug: false });
    assert_eq!(r, Err(DataStoreError::Overflow));
    assert_eq!(data.lamports, DATA_RENT);
    assert_eq!(meta.lamports, METADATA_RENT);
}

#[test]
fn record_round_trip() {
    let rec = DataStoreAccountMetadata {
        data_type: DataStoreTypeOption::Directory,
        authority: [9u8; 32],
        data_status: SerializationStatusOption::Finalized,
        bump_seed: 254,
        data_hash: [3u8; 32],
        is_dynamic: true,
        space: 0x0102_0304_0506_0708,
    };
    let bytes = rec.serialize();
    assert_eq!(bytes.len(), METADATA_LEN);
    assert_eq!(bytes[0], 1);
    assert_eq!(bytes[33], 2);
    assert_eq!(bytes[34], 254);
    assert_eq!(bytes[67], 1);
    assert_eq!(&bytes[68..76], &[8, 7, 6, 5, 4, 3, 2, 1]);
    assert_eq!(DataStoreAccountMetadata::try_from_slice(&bytes), Ok(rec));
    let mut padded = bytes.clone();
    padded.extend_from_slice(&[0xff; 10]);
    assert_eq!(DataStoreAccountMetadata::try_from_slice(&padded), Ok(rec));
}

#[test]
fn malformed_records_are_refused() {
    let bytes = DataStoreAccountMetadata::new(PAYER_KEY, DataStoreTypeOption::File, 255).serialize();
    assert_eq!(DataStoreAccountMetadata::try_from_slice(&bytes[..METADATA_LEN - 1]), Err(DataStoreError::InvalidInstructionData));
    for (at, value) in [(0usize, 2u8), (33, 3), (67, 2)] {
        let mut bad = bytes.clone();
        bad[at] = value;
        assert_eq!(DataStoreAccountMetadata::try_from_slice(&bad), Err(DataStoreError::InvalidInstructionData));
    }
}

#[test]
fn accessors_and_setters() {
    let mut rec = DataStoreAccountMetadata::new(PAYER_KEY, DataStoreTypeOption::File, 200);
    assert_eq!(*rec.data_type(), DataStoreTypeOption::File);
    assert_eq!(*rec.authority(), PAYER_KEY);
    assert_eq!(*rec.data_status(), SerializationStatusOption::Initialized);
    assert_eq!(rec.bump_seed(), 200);
    assert_eq!(*rec.data_hash(), [0u8; 32]);
    assert!(!rec.is_dynamic());
    rec.set_data_type(DataStoreTypeOption::Directory);
    rec.set_authority(&OTHER_KEY);
    rec.set_data_status(SerializationStatusOption::Finalized);
    assert_eq!(*rec.data_type(), DataStoreTypeOption::Directory);
    assert_eq!(*rec.authority(), OTHER_KEY);
    assert_eq!(*rec.data_status(), SerializationStatusOption::Finalized);
}

#[test]
fn verify_data_by_type() {
    assert_eq!(verify_data(&[], DataStoreTypeOption::Directory), SerializationStatusOption::Uninitialized);
    assert_eq!(verify_data(&[1, 2], DataStoreTypeOption::File), SerializationStatusOption::Uninitialized);
    assert_eq!(verify_data(&[1, 2], DataStoreTypeOption::Directory), SerializationStatusOption::Initialized);
}

#[test]
fn error_codes() {
    assert_eq!(DataStoreError::from_u32(0), Some(DataStoreError::NotImplemented));
    assert_eq!(DataStoreError::from_u32(7), Some(DataStoreError::InvalidPDA));
    assert_eq!(DataStoreError::from_u32(15), Some(DataStoreError::InvalidInstructionData));
    assert_eq!(DataStoreError::from_u32(16), None);
    assert_eq!(DataStoreError::from_u32(17), None);
    assert_eq!(DataStoreError::from_i64(12), Some(DataStoreError::InsufficientSpace));
    assert_eq!(DataStoreError::from_u64(11), Some(DataStoreError::Overflow));
    assert_eq!(DataStoreError::from_i32(-1), None);
    assert_eq!(DataStoreError::AlreadyFinalized.code(), 10);
    assert_eq!(DataStoreError::InvalidInstructionData.code(), 15);
}
