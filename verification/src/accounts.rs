//! Account descriptors and the account-list assembler.
//!
//! An instruction carries a list of account descriptors. `RequestUnits`
//! declares no accounts of its own, so its final list is exactly the
//! caller-supplied remaining accounts, appended after the (empty) declared
//! set in the order given, with no reordering, no deduplication, and no
//! validation of the addresses: those are the runtime's concern.
use vstd::prelude::*;

verus! {

/// One account's participation in an instruction: its 32-byte address and
/// whether it must sign the transaction and may be written. The crate never
/// owns account state, only these descriptors.
#[derive(Clone, Copy, Debug, PartialEq, Eq)]
pub struct AccountMeta {
    pub pubkey: [u8; 32],
    pub is_signer: bool,
    pub is_writable: bool,
}

/// The final account list of an instruction: the statically declared
/// accounts followed by the caller-supplied remaining accounts.
pub open spec fn assembled_accounts(
    declared: Seq<AccountMeta>,
    remaining: Seq<AccountMeta>,
) -> Seq<AccountMeta> {
    declared + remaining
}

/// Builds the account list for an instruction with no declared accounts:
/// a copy of the remaining accounts, order preserved.
pub fn assemble_accounts(remaining: &Vec<AccountMeta>) -> (r: Vec<AccountMeta>)
    ensures
        r@ == assembled_accounts(Seq::<AccountMeta>::empty(), remaining@),
        r@ == remaining@,
{
    let mut accounts: Vec<AccountMeta> = Vec::new();
    let mut i: usize = 0;
    while i < remaining.len()
        invariant
            i <= remaining@.len(),
            accounts@ == remaining@.subrange(0, i as int),
        decreases remaining@.len() - i,
    {
        accounts.push(remaining[i]);
        i = i + 1;
        proof {
            assert(accounts@ =~= remaining@.subrange(0, i as int));
        }
    }
    proof {
        assert(accounts@ =~= remaining@);
        assert(assembled_accounts(Seq::<AccountMeta>::empty(), remaining@) =~= remaining@);
    }
    accounts
}

} // verus!
