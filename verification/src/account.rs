//! The data held in the storage account: the entry records, the ledger
//! payload with its count, and the raw account that may or may not have been
//! initialized yet.

use vstd::prelude::*;

verus! {

/// Upper bound on the entry count. The host allocates a fixed 9000 bytes for
/// the account; the stored record is an 8-byte count, a 4-byte
/// sequence-length prefix, and at least 36 bytes per entry (a 4-byte
/// text-length prefix plus a 32-byte address), so no allocation of that size
/// can ever hold more than (9000 - 12) / 36 = 249 entries.
pub const MAX_ENTRIES: u64 = 249;

/// A submitter's public address: 32 raw bytes, as the host's signature
/// scheme defines it.
#[derive(Clone, Copy, PartialEq, Eq, Debug)]
pub struct Pubkey {
    pub bytes: [u8; 32],
}

/// One submitted record: a text reference and the address of its submitter.
/// Immutable once appended; the ledger offers no update or delete.
#[derive(Clone, PartialEq, Debug)]
pub struct ItemStruct {
    pub gif_link: String,
    pub user_address: Pubkey,
}

/// The ledger payload of the storage account: a running entry count and the
/// append-only list of entries.
#[derive(Clone, PartialEq, Debug)]
pub struct BaseAccount {
    pub total_gifs: u64,
    pub gif_list: Vec<ItemStruct>,
}

impl BaseAccount {
    /// Invariant of an initialized ledger: the count always equals the
    /// number of stored entries, and the entries never outnumber what the
    /// fixed allocation can hold.
    pub open spec fn wf(self) -> bool {
        &&& self.total_gifs == self.gif_list@.len()
        &&& self.gif_list@.len() <= MAX_ENTRIES
    }
}

/// The raw storage account. Until the initialize operation has run, its
/// payload bytes carry no meaning; `initialized` records whether that
/// has happened.
#[derive(Clone, PartialEq, Debug)]
pub struct StorageAccount {
    pub initialized: bool,
    pub ledger: BaseAccount,
}

impl StorageAccount {
    /// A storage account is well formed when its ledger invariant holds as
    /// soon as the account has been initialized.
    pub open spec fn wf(self) -> bool {
        self.initialized ==> self.ledger.wf()
    }

    /// The entries the account holds, oldest first.
    pub open spec fn entries(self) -> Seq<ItemStruct> {
        self.ledger.gif_list@
    }
}

} // verus!
