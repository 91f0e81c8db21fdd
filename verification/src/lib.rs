//! Client-side construction of the `RequestUnits` compute-budget instruction.
//!
//! The crate builds the discriminator-prefixed binary payload for the
//! instruction, assembles its account-metadata list (this instruction declares
//! no accounts of its own, so the list is exactly the caller-supplied
//! "remaining accounts"), and offers two ways to use the result: returning the
//! assembled instruction value, or submitting it to the ledger runtime as a
//! cross-program invocation, signed or unsigned.
use vstd::prelude::*;

pub mod accounts;
pub mod codec;
pub mod cpi;
pub mod instruction;

verus! {

/// The address of the on-chain program that executes `RequestUnits`,
/// as a 32-byte sequence.
pub open spec fn compute_budget_id_spec() -> Seq<u8> {
    seq![
        3u8, 6u8, 70u8, 111u8, 229u8, 33u8, 23u8, 50u8, 255u8, 236u8, 173u8, 186u8, 114u8, 195u8,
        155u8, 231u8, 188u8, 140u8, 229u8, 187u8, 197u8, 247u8, 18u8, 107u8, 44u8, 67u8, 155u8,
        58u8, 64u8, 0u8, 0u8, 0u8,
    ]
}

/// The address of the on-chain program that executes `RequestUnits`.
pub fn compute_budget_id() -> (r: [u8; 32])
    ensures
        r@ == compute_budget_id_spec(),
{
    let r: [u8; 32] = [
        3u8, 6u8, 70u8, 111u8, 229u8, 33u8, 23u8, 50u8, 255u8, 236u8, 173u8, 186u8, 114u8, 195u8,
        155u8, 231u8, 188u8, 140u8, 229u8, 187u8, 197u8, 247u8, 18u8, 107u8, 44u8, 67u8, 155u8,
        58u8, 64u8, 0u8, 0u8, 0u8,
    ];
    proof {
        assert(r@ =~= compute_budget_id_spec());
    }
    r
}

} // verus!
