use vstd::prelude::*;

use crate::state::{
    CloseDataStoreArgs, FinalizeDataStoreArgs, InitializeDataStoreArgs, UpdateDataStoreArgs,
    UpdateDataStoreAuthorityArgs,
};

verus! {

/// The operations on a data account. The accounts that each one takes, in
/// order:
/// - Initialize: fee payer (signer, writable), data account (writable),
///   metadata record (writable), system program.
/// - Update: authority (signer, writable), data account (writable), metadata
///   record (writable), system program.
/// - UpdateAuthority: old authority (signer), data account (signer), metadata
///   record (writable), new authority (signer).
/// - Finalize: authority (signer), data account, metadata record (writable).
/// - Close: authority (signer, writable), data account (writable), metadata
///   record (writable).
#[derive(Clone, Debug)]
pub enum DataStoreInstruction {
    InitializeDataStore(InitializeDataStoreArgs),
    UpdateDataStore(UpdateDataStoreArgs),
    UpdateDataStoreAuthority(UpdateDataStoreAuthorityArgs),
    FinalizeDataStore(FinalizeDataStoreArgs),
    CloseDataStore(CloseDataStoreArgs),
}

} // verus!
