//! The two operations of the program: initialize the storage account, and
//! append one entry to the ledger it holds.
//!
//! The host runtime validates every call before the logic here runs: it
//! checks signatures, account ownership and allocation, and serializes all
//! mutations of one account into a single total order. Those checks appear
//! here as explicit guards on a plain request context, evaluated before any
//! mutation, so that every rejection leaves the account untouched.

use vstd::prelude::*;

use crate::account::BaseAccount;
use crate::account::ItemStruct;
use crate::account::Pubkey;
use crate::account::StorageAccount;
use crate::account::MAX_ENTRIES;

verus! {

/// Why a call was rejected. Every rejection happens before any mutation, so
/// a caller that sees one of these knows the account is exactly as it was.
#[derive(Clone, Copy, PartialEq, Eq, Structural, Debug)]
pub enum ProgramError {
    /// The paying or submitting user did not co-sign the call.
    MissingSignature,
    /// Initialize was called on an account that already holds a ledger.
    AccountAlreadyInitialized,
    /// Append was called on an account that was never initialized.
    AccountNotInitialized,
    /// The ledger already holds as many entries as the fixed allocation can.
    StorageCapacityExceeded,
}

/// Request context of the initialize operation: the storage account to be
/// created, the paying user's address, and whether that user co-signed.
/// (The host's allocator reference is not modelled: the logic never reads
/// it.)
pub struct StartStuffOff {
    pub base_account: StorageAccount,
    pub user: Pubkey,
    pub user_is_signer: bool,
}

/// Request context of the append operation: the storage account to append
/// to, the submitting user's address, and whether that user co-signed.
pub struct AddGif {
    pub base_account: StorageAccount,
    pub user: Pubkey,
    pub user_is_signer: bool,
}

/// Create the ledger: on a co-signed call against a not-yet-initialized
/// account, install an empty ledger with an entry count of zero. Any
/// rejection leaves the context exactly as it was.
pub fn start_stuff_off(ctx: &mut StartStuffOff) -> (r: Result<(), ProgramError>)
    ensures
        final(ctx).user == old(ctx).user,
        final(ctx).user_is_signer == old(ctx).user_is_signer,
        !old(ctx).user_is_signer ==> r == Err::<(), ProgramError>(ProgramError::MissingSignature)
            && *final(ctx) == *old(ctx),
        old(ctx).user_is_signer && old(ctx).base_account.initialized
            ==> r == Err::<(), ProgramError>(ProgramError::AccountAlreadyInitialized)
                && *final(ctx) == *old(ctx),
        old(ctx).user_is_signer && !old(ctx).base_account.initialized ==> {
            &&& r == Ok::<(), ProgramError>(())
            &&& final(ctx).base_account.initialized
            &&& final(ctx).base_account.ledger.total_gifs == 0
            &&& final(ctx).base_account.entries() == Seq::<ItemStruct>::empty()
            &&& final(ctx).base_account.wf()
        },
{
    if !ctx.user_is_signer {
        return Err(ProgramError::MissingSignature);
    }
    if ctx.base_account.initialized {
        return Err(ProgramError::AccountAlreadyInitialized);
    }
    ctx.base_account.ledger = BaseAccount { total_gifs: 0, gif_list: Vec::new() };
    ctx.base_account.initialized = true;
    proof {
        assert(final(ctx).base_account.entries() =~= Seq::<ItemStruct>::empty());
    }
    Ok(())
}

/// Append one entry: on a co-signed call against an initialized ledger with
/// room left, record the submitted link together with the submitter's
/// address, verbatim and at the end of the sequence, and raise the count by
/// one. Any rejection leaves the context exactly as it was.
pub fn add_gif(ctx: &mut AddGif, gif_link: String) -> (r: Result<(), ProgramError>)
    requires
        old(ctx).base_account.wf(),
    ensures
        final(ctx).base_account.wf(),
        final(ctx).user == old(ctx).user,
        final(ctx).user_is_signer == old(ctx).user_is_signer,
        !old(ctx).user_is_signer ==> r == Err::<(), ProgramError>(ProgramError::MissingSignature)
            && *final(ctx) == *old(ctx),
        old(ctx).user_is_signer && !old(ctx).base_account.initialized
            ==> r == Err::<(), ProgramError>(ProgramError::AccountNotInitialized)
                && *final(ctx) == *old(ctx),
        old(ctx).user_is_signer && old(ctx).base_account.initialized
            && old(ctx).base_account.entries().len() >= MAX_ENTRIES
            ==> r == Err::<(), ProgramError>(ProgramError::StorageCapacityExceeded)
                && *final(ctx) == *old(ctx),
        old(ctx).user_is_signer && old(ctx).base_account.initialized
            && old(ctx).base_account.entries().len() < MAX_ENTRIES ==> {
            &&& r == Ok::<(), ProgramError>(())
            &&& final(ctx).base_account.initialized
            &&& final(ctx).base_account.entries() == old(ctx).base_account.entries().push(
                (ItemStruct { gif_link: gif_link, user_address: old(ctx).user }),
            )
            &&& final(ctx).base_account.ledger.total_gifs
                == old(ctx).base_account.ledger.total_gifs + 1
        },
{
    if !ctx.user_is_signer {
        return Err(ProgramError::MissingSignature);
    }
    if !ctx.base_account.initialized {
        return Err(ProgramError::AccountNotInitialized);
    }
    if ctx.base_account.ledger.total_gifs >= MAX_ENTRIES {
        return Err(ProgramError::StorageCapacityExceeded);
    }
    let item = ItemStruct { gif_link, user_address: ctx.user };
    ctx.base_account.ledger.gif_list.push(item);
    ctx.base_account.ledger.total_gifs = ctx.base_account.ledger.total_gifs + 1;
    Ok(())
}

/// The entry sequence that a run of append calls leaves behind: starting
/// from `base`, each successful call pushes exactly one entry, in call
/// order, as the postcondition of `add_gif` states.
pub open spec fn appended(base: Seq<ItemStruct>, items: Seq<ItemStruct>) -> Seq<ItemStruct>
    decreases items.len(),
{
    if items.len() == 0 {
        base
    } else {
        appended(base, items.drop_last()).push(items.last())
    }
}

/// Law: appends accumulate in call order. A run of successful append calls
/// adds exactly its entries, after the ones already there and in the order
/// the calls were made; in particular, N calls add exactly N entries.
pub proof fn lemma_appends_in_call_order(base: Seq<ItemStruct>, items: Seq<ItemStruct>)
    ensures
        appended(base, items) == base + items,
        appended(base, items).len() == base.len() + items.len(),
    decreases items.len(),
{
    if items.len() == 0 {
        assert(appended(base, items) =~= base + items);
    } else {
        lemma_appends_in_call_order(base, items.drop_last());
        assert(appended(base, items) =~= base + items);
    }
}

/// Law: a run of N successful append calls against the freshly initialized
/// ledger, whose entry sequence is empty, leaves exactly those N entries,
/// in call order.
pub proof fn lemma_appends_from_empty(items: Seq<ItemStruct>)
    ensures
        appended(Seq::<ItemStruct>::empty(), items) == items,
{
    lemma_appends_in_call_order(Seq::<ItemStruct>::empty(), items);
    assert(Seq::<ItemStruct>::empty() + items =~= items);
}

/// Law: the count tracks the entries. In every well-formed ledger the count
/// equals the number of stored entries; `start_stuff_off` establishes this
/// with a count of zero, and `add_gif` preserves it while raising both by
/// one, so after N successful appends the count is N.
pub proof fn lemma_count_matches_entries(account: BaseAccount)
    requires
        account.wf(),
    ensures
        account.total_gifs == account.gif_list@.len(),
{
}

/// Law: no deduplication. Two appended entries that carry the same text
/// reference from different submitters are both retained, as distinct
/// records in their own positions.
pub proof fn lemma_no_deduplication(base: Seq<ItemStruct>, first: ItemStruct, second: ItemStruct)
    requires
        first.gif_link == second.gif_link,
        first.user_address != second.user_address,
    ensures
        appended(base, seq![first, second]).len() == base.len() + 2,
        appended(base, seq![first, second])[base.len() as int] == first,
        appended(base, seq![first, second])[base.len() as int + 1] == second,
{
    lemma_appends_in_call_order(base, seq![first, second]);
}

} // verus!
