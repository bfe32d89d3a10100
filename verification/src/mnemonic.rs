//! How the encrypted mnemonic is saved: a single row with id 1, updated in
//! place when it exists, inserted otherwise. The database access is the
//! caller's.
use vstd::prelude::*;

verus! {

/// The id of the one mnemonic row.
pub const MNEMONIC_ROW_ID: i32 = 1;

/// The values to store for the mnemonic row. `created_at == None` leaves the
/// stored creation time as it is.
#[derive(Debug, Clone, PartialEq, Eq)]
pub struct MnemonicRow {
    pub id: i32,
    pub encrypted_mnemonic: String,
    pub created_at: Option<i64>,
    pub updated_at: i64,
}

/// Whether the row is updated or inserted.
#[derive(Debug, Clone, PartialEq, Eq)]
pub enum MnemonicWrite {
    Update(MnemonicRow),
    Insert(MnemonicRow),
}

/// The write that saves `encrypted_mnemonic` at time `now`, given whether a
/// mnemonic is already stored: an update keeps the creation time, an insert
/// sets both times to `now`.
pub fn mnemonic_write(existing: bool, encrypted_mnemonic: String, now: i64) -> (r: MnemonicWrite)
    ensures
        existing ==> (r matches MnemonicWrite::Update(row) && row.id == MNEMONIC_ROW_ID
            && row.encrypted_mnemonic@ == encrypted_mnemonic@ && row.created_at is None
            && row.updated_at == now),
        !existing ==> (r matches MnemonicWrite::Insert(row) && row.id == MNEMONIC_ROW_ID
            && row.encrypted_mnemonic@ == encrypted_mnemonic@ && row.created_at == Some(now)
            && row.updated_at == now),
{
    if existing {
        MnemonicWrite::Update(
            MnemonicRow { id: MNEMONIC_ROW_ID, encrypted_mnemonic, created_at: None, updated_at: now },
        )
    } else {
        MnemonicWrite::Insert(
            MnemonicRow {
                id: MNEMONIC_ROW_ID,
                encrypted_mnemonic,
                created_at: Some(now),
                updated_at: now,
            },
        )
    }
}

} // verus!
