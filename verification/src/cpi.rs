//! The cross-program-invocation path of `RequestUnits`.
//!
//! A program already running on the ledger can submit this instruction to
//! the runtime directly. The caller hands over borrowed account handles —
//! the runtime's account values, each paired with its address held as plain
//! bytes — plus the argument fields, and optionally signer seeds proving
//! authority over a derived address. Assembling the instruction is ordinary
//! verified logic; only the submission itself goes through the runtime's two
//! invocation primitives, which are trusted. A failure verdict from the
//! runtime is surfaced verbatim, as its `u64` error code; this layer adds no
//! interpretation and no retry.
use crate::accounts::AccountMeta;
use crate::codec::encode_instruction_data;
use crate::codec::RequestUnitsInstructionArgs;
use crate::compute_budget_id;
use crate::instruction::required_fields_missing;
use crate::instruction::request_units_instruction;
use crate::instruction::Instruction;
use crate::instruction::MissingField;
use solana_program::instruction as sol_instruction;
use solana_program::program as sol_program;
use solana_program::pubkey::Pubkey;
use vstd::prelude::*;

verus! {

/// Declares `solana_program::account_info::AccountInfo`, the runtime's
/// borrowed account value, so that handles can carry a reference to one.
/// The value stays opaque: nothing inside it is relied on here.
#[verifier::external_type_specification]
#[verifier::external_body]
pub struct ExAccountInfo<'a>(solana_program::account_info::AccountInfo<'a>);

/// A borrowed account handle for a cross-program invocation: the runtime's
/// account value, together with the account's address held as plain bytes so
/// that the account-list logic can be verified over the address alone.
///
/// `key` must be the address of `info` (for a runtime account value `a`,
/// `a.key.to_bytes()`); the pairing is the caller's to keep. A handle is
/// valid only as long as the borrow it carries and is never stored beyond
/// the invocation it serves.
#[derive(Clone, Copy)]
pub struct AccountHandle<'a, 'info> {
    /// The runtime's account value, passed through to the invocation.
    pub info: &'a solana_program::account_info::AccountInfo<'info>,
    /// The address of that account.
    pub key: [u8; 32],
}

/// The account descriptors for a sequence of remaining-account triples:
/// one descriptor per triple, in order, taking the address from the handle,
/// then the writability flag, then the signer flag.
pub open spec fn cpi_metas<'a, 'info>(
    ts: Seq<(AccountHandle<'a, 'info>, bool, bool)>,
) -> Seq<AccountMeta> {
    ts.map(
        |i: int, t: (AccountHandle<'a, 'info>, bool, bool)|
            AccountMeta { pubkey: t.0.key, is_signer: t.2, is_writable: t.1 },
    )
}

/// The handle of each remaining-account triple, in order.
pub open spec fn remaining_handles<'a, 'info>(
    ts: Seq<(AccountHandle<'a, 'info>, bool, bool)>,
) -> Seq<AccountHandle<'a, 'info>> {
    ts.map(|i: int, t: (AccountHandle<'a, 'info>, bool, bool)| t.0)
}

/// The account-value list handed to the runtime primitive: the invoked
/// program's own handle first, then each remaining account's handle, in the
/// caller's order.
pub open spec fn cpi_account_values<'a, 'info>(
    program: AccountHandle<'a, 'info>,
    ts: Seq<(AccountHandle<'a, 'info>, bool, bool)>,
) -> Seq<AccountHandle<'a, 'info>> {
    seq![program] + remaining_handles(ts)
}

/// Relies on `solana_program::program::invoke`: submits the instruction —
/// given as its program address, account descriptors and payload — with the
/// given account values to the runtime, with no signer authority, and
/// returns its verdict, a failure being the runtime-defined `u64` code of
/// the error, surfaced verbatim. The verdict is the runtime's alone, so
/// nothing is promised of it.
#[verifier::external_body]
fn submit_invoke(
    program_id: &[u8; 32],
    metas: &Vec<AccountMeta>,
    data: &Vec<u8>,
    account_infos: &Vec<AccountHandle<'_, '_>>,
) -> Result<(), u64> {
    let ix = sol_instruction::Instruction {
        program_id: Pubkey::from(*program_id),
        accounts: metas.iter().map(|m| sol_instruction::AccountMeta {
            pubkey: Pubkey::from(m.pubkey),
            is_signer: m.is_signer,
            is_writable: m.is_writable,
        }).collect(),
        data: data.clone(),
    };
    let infos: Vec<_> = account_infos.iter().map(|h| h.info.clone()).collect();
    sol_program::invoke(&ix, &infos).map_err(u64::from)
}

/// Whether `r` borrows exactly the seeds of `seeds`: the same number of
/// signer groups, each of the same length, holding the same bytes in the
/// same order.
pub open spec fn same_seeds(r: Seq<Vec<&[u8]>>, seeds: Seq<Vec<Vec<u8>>>) -> bool {
    &&& r.len() == seeds.len()
    &&& forall|i: int| 0 <= i < r.len() ==> #[trigger] r[i]@.len() == seeds[i]@.len()
    &&& forall|i: int, j: int|
        0 <= i < r.len() && 0 <= j < r[i]@.len() ==> #[trigger] r[i]@[j]@ == seeds[i]@[j]@
}

/// Borrows every seed of every signer group as a slice, keeping the group
/// structure, the order, and the bytes.
fn seed_slices<'s>(signers_seeds: &'s Vec<Vec<Vec<u8>>>) -> (r: Vec<Vec<&'s [u8]>>)
    ensures
        same_seeds(r@, signers_seeds@),
{
    let mut r: Vec<Vec<&'s [u8]>> = Vec::new();
    let mut i: usize = 0;
    while i < signers_seeds.len()
        invariant
            i <= signers_seeds@.len(),
            same_seeds(r@, signers_seeds@.subrange(0, i as int)),
        decreases signers_seeds@.len() - i,
    {
        let group: &Vec<Vec<u8>> = &signers_seeds[i];
        let mut g: Vec<&'s [u8]> = Vec::new();
        let mut j: usize = 0;
        while j < group.len()
            invariant
                j <= group@.len(),
                g@.len() == j,
                forall|k: int| 0 <= k < j ==> #[trigger] g@[k]@ == group@[k]@,
            decreases group@.len() - j,
        {
            g.push(group[j].as_slice());
            j = j + 1;
        }
        r.push(g);
        i = i + 1;
        proof {
            assert(same_seeds(r@, signers_seeds@.subrange(0, i as int)));
        }
    }
    proof {
        assert(signers_seeds@.subrange(0, signers_seeds@.len() as int) =~= signers_seeds@);
    }
    r
}

/// Relies on `solana_program::program::invoke_signed`: as `submit_invoke`,
/// but passing the signer-seed groups through to the runtime unchanged so it
/// can check derived-address authority. Nothing is promised of the verdict.
#[verifier::external_body]
fn submit_invoke_signed(
    program_id: &[u8; 32],
    metas: &Vec<AccountMeta>,
    data: &Vec<u8>,
    account_infos: &Vec<AccountHandle<'_, '_>>,
    seed_groups: &Vec<Vec<&[u8]>>,
) -> Result<(), u64> {
    let ix = sol_instruction::Instruction {
        program_id: Pubkey::from(*program_id),
        accounts: metas.iter().map(|m| sol_instruction::AccountMeta {
            pubkey: Pubkey::from(m.pubkey),
            is_signer: m.is_signer,
            is_writable: m.is_writable,
        }).collect(),
        data: data.clone(),
    };
    let infos: Vec<_> = account_infos.iter().map(|h| h.info.clone()).collect();
    let groups: Vec<&[&[u8]]> = seed_groups.iter().map(|g| g.as_slice()).collect();
    sol_program::invoke_signed(&ix, &infos, &groups).map_err(u64::from)
}

/// The `RequestUnits` cross-program invocation: the program to invoke and
/// the fully populated arguments.
pub struct RequestUnitsCpi<'a, 'info> {
    /// The program to invoke.
    pub program: AccountHandle<'a, 'info>,
    /// The arguments for the instruction.
    pub args: RequestUnitsInstructionArgs,
}

impl<'a, 'info> RequestUnitsCpi<'a, 'info> {
    pub fn new(program: AccountHandle<'a, 'info>, args: RequestUnitsInstructionArgs) -> (r: Self)
        ensures
            r.program == program,
            r.args == args,
    {
        Self { program, args }
    }

    /// The exact instruction that the invoke calls submit: the
    /// compute-budget program address, one account descriptor per
    /// remaining-account triple in the order given, and the encoded payload.
    pub fn cpi_instruction(
        &self,
        remaining_accounts: &Vec<(AccountHandle<'a, 'info>, bool, bool)>,
    ) -> (r: Instruction)
        ensures
            r@ == request_units_instruction(self.args, cpi_metas(remaining_accounts@)),
    {
        let mut metas: Vec<AccountMeta> = Vec::new();
        let mut i: usize = 0;
        while i < remaining_accounts.len()
            invariant
                i <= remaining_accounts@.len(),
                metas@ == cpi_metas(remaining_accounts@.subrange(0, i as int)),
            decreases remaining_accounts@.len() - i,
        {
            let t = remaining_accounts[i];
            metas.push(AccountMeta { pubkey: t.0.key, is_signer: t.2, is_writable: t.1 });
            i = i + 1;
            proof {
                assert(metas@ =~= cpi_metas(remaining_accounts@.subrange(0, i as int)));
            }
        }
        let data = encode_instruction_data(&self.args);
        let r = Instruction { program_id: compute_budget_id(), accounts: metas, data };
        proof {
            assert(remaining_accounts@.subrange(0, remaining_accounts@.len() as int)
                =~= remaining_accounts@);
            assert(r@ =~= request_units_instruction(self.args, cpi_metas(remaining_accounts@)));
        }
        r
    }

    /// Invokes with no remaining accounts and no signer authority.
    pub fn invoke(&self) -> Result<(), u64> {
        let remaining: Vec<(AccountHandle<'a, 'info>, bool, bool)> = Vec::new();
        let seeds: Vec<Vec<Vec<u8>>> = Vec::new();
        self.invoke_signed_with_remaining_accounts(&seeds, &remaining)
    }

    /// Invokes with the given remaining accounts appended, still with no
    /// signer authority.
    pub fn invoke_with_remaining_accounts(
        &self,
        remaining_accounts: &Vec<(AccountHandle<'a, 'info>, bool, bool)>,
    ) -> Result<(), u64> {
        let seeds: Vec<Vec<Vec<u8>>> = Vec::new();
        self.invoke_signed_with_remaining_accounts(&seeds, remaining_accounts)
    }

    /// Invokes with derived-address signer proof and no remaining accounts.
    pub fn invoke_signed(&self, signers_seeds: &Vec<Vec<Vec<u8>>>) -> Result<(), u64> {
        let remaining: Vec<(AccountHandle<'a, 'info>, bool, bool)> = Vec::new();
        self.invoke_signed_with_remaining_accounts(signers_seeds, &remaining)
    }

    /// The exact account-value list that the invoke calls hand to the
    /// runtime primitive for the given remaining accounts: the invoked
    /// program's own handle first, then each remaining account's handle, in
    /// the caller's order.
    pub fn account_values(
        &self,
        remaining_accounts: &Vec<(AccountHandle<'a, 'info>, bool, bool)>,
    ) -> (r: Vec<AccountHandle<'a, 'info>>)
        ensures
            r@ == cpi_account_values(self.program, remaining_accounts@),
    {
        let mut r: Vec<AccountHandle<'a, 'info>> = Vec::new();
        r.push(self.program);
        let mut i: usize = 0;
        while i < remaining_accounts.len()
            invariant
                i <= remaining_accounts@.len(),
                r@ == cpi_account_values(
                    self.program,
                    remaining_accounts@.subrange(0, i as int),
                ),
            decreases remaining_accounts@.len() - i,
        {
            r.push(remaining_accounts[i].0);
            i = i + 1;
            proof {
                assert(r@ =~= cpi_account_values(
                    self.program,
                    remaining_accounts@.subrange(0, i as int),
                ));
            }
        }
        proof {
            assert(remaining_accounts@.subrange(0, remaining_accounts@.len() as int)
                =~= remaining_accounts@);
        }
        r
    }

    /// The general case, to which the other invoke calls delegate. What it
    /// submits is contract-fixed piece by piece: the instruction by
    /// `cpi_instruction`, the account-value list by `account_values`, and
    /// the borrowed seeds by `seed_slices`. An empty seed list means no
    /// elevated authority is requested, so it dispatches to the no-signer
    /// runtime primitive; only a non-empty one goes to the signer-aware
    /// primitive, carrying the seeds unchanged.
    pub fn invoke_signed_with_remaining_accounts(
        &self,
        signers_seeds: &Vec<Vec<Vec<u8>>>,
        remaining_accounts: &Vec<(AccountHandle<'a, 'info>, bool, bool)>,
    ) -> Result<(), u64> {
        let instruction = self.cpi_instruction(remaining_accounts);
        let account_infos = self.account_values(remaining_accounts);
        if signers_seeds.len() == 0 {
            submit_invoke(
                &instruction.program_id,
                &instruction.accounts,
                &instruction.data,
                &account_infos,
            )
        } else {
            let groups = seed_slices(signers_seeds);
            submit_invoke_signed(
                &instruction.program_id,
                &instruction.accounts,
                &instruction.data,
                &account_infos,
                &groups,
            )
        }
    }
}

/// Why a builder-driven invocation did not go through. The two variants are
/// different in kind: `Missing` is caller misuse, found before anything was
/// submitted; `Runtime` is the runtime's own verdict on a submitted
/// instruction, surfaced verbatim.
#[derive(Clone, Copy, Debug, PartialEq, Eq, Structural)]
pub enum CpiFailure {
    /// A required builder field was never set; nothing was submitted.
    Missing(MissingField),
    /// The runtime rejected or aborted the invocation, with this code.
    Runtime(u64),
}

/// The abstract state of a CPI builder: the program to invoke, which
/// argument fields have been set, and the remaining-account triples gathered
/// so far, in order.
#[verifier::ext_equal]
pub ghost struct CpiBuilderModel<'a, 'info> {
    pub program: AccountHandle<'a, 'info>,
    pub units: Option<u32>,
    pub additional_fee: Option<u32>,
    pub remaining_accounts: Seq<(AccountHandle<'a, 'info>, bool, bool)>,
}

/// Gathers the `RequestUnits` arguments and remaining accounts for a
/// cross-program invocation. The program handle is fixed at construction;
/// validation of the required fields happens only when an invoke call
/// finalizes the builder.
pub struct RequestUnitsCpiBuilder<'a, 'info> {
    program: AccountHandle<'a, 'info>,
    units: Option<u32>,
    additional_fee: Option<u32>,
    remaining_accounts: Vec<(AccountHandle<'a, 'info>, bool, bool)>,
}

impl<'a, 'info> View for RequestUnitsCpiBuilder<'a, 'info> {
    type V = CpiBuilderModel<'a, 'info>;

    closed spec fn view(&self) -> CpiBuilderModel<'a, 'info> {
        CpiBuilderModel {
            program: self.program,
            units: self.units,
            additional_fee: self.additional_fee,
            remaining_accounts: self.remaining_accounts@,
        }
    }
}

impl<'a, 'info> RequestUnitsCpiBuilder<'a, 'info> {
    /// A builder for invoking the given program: every argument field unset,
    /// no remaining accounts.
    pub fn new(program: AccountHandle<'a, 'info>) -> (r: Self)
        ensures
            r@ == (CpiBuilderModel {
                program,
                units: None,
                additional_fee: None,
                remaining_accounts: Seq::empty(),
            }),
    {
        let r = Self { program, units: None, additional_fee: None, remaining_accounts: Vec::new() };
        proof {
            assert(r@ =~= (CpiBuilderModel {
                program,
                units: None,
                additional_fee: None,
                remaining_accounts: Seq::empty(),
            }));
        }
        r
    }

    /// Sets `units`, replacing any earlier value.
    pub fn units(&mut self, units: u32) -> (r: &mut Self)
        ensures
            (*r)@ == (CpiBuilderModel { units: Some(units), ..old(self)@ }),
            *final(self) == *final(r),
    {
        self.units = Some(units);
        proof {
            assert(self@ =~= (CpiBuilderModel { units: Some(units), ..old(self)@ }));
        }
        self
    }

    /// Sets `additional_fee`, replacing any earlier value.
    pub fn additional_fee(&mut self, additional_fee: u32) -> (r: &mut Self)
        ensures
            (*r)@ == (CpiBuilderModel { additional_fee: Some(additional_fee), ..old(self)@ }),
            *final(self) == *final(r),
    {
        self.additional_fee = Some(additional_fee);
        proof {
            assert(self@ =~= (CpiBuilderModel {
                additional_fee: Some(additional_fee),
                ..old(self)@
            }));
        }
        self
    }

    /// Appends one remaining account after those already gathered: the
    /// handle, then whether it is writable, then whether it signs.
    pub fn add_remaining_account(
        &mut self,
        account: AccountHandle<'a, 'info>,
        is_writable: bool,
        is_signer: bool,
    ) -> (r: &mut Self)
        ensures
            (*r)@ == (CpiBuilderModel {
                remaining_accounts: old(self)@.remaining_accounts + seq![
                    (account, is_writable, is_signer),
                ],
                ..old(self)@
            }),
            *final(self) == *final(r),
    {
        self.remaining_accounts.push((account, is_writable, is_signer));
        proof {
            assert(self@ =~= (CpiBuilderModel {
                remaining_accounts: old(self)@.remaining_accounts + seq![
                    (account, is_writable, is_signer),
                ],
                ..old(self)@
            }));
        }
        self
    }

    /// Appends the given remaining-account triples, keeping their order.
    pub fn add_remaining_accounts(
        &mut self,
        accounts: &Vec<(AccountHandle<'a, 'info>, bool, bool)>,
    ) -> (r: &mut Self)
        ensures
            (*r)@ == (CpiBuilderModel {
                remaining_accounts: old(self)@.remaining_accounts + accounts@,
                ..old(self)@
            }),
            *final(self) == *final(r),
    {
        let mut i: usize = 0;
        while i < accounts.len()
            invariant
                i <= accounts@.len(),
                self.program == old(self).program,
                self.units == old(self).units,
                self.additional_fee == old(self).additional_fee,
                self.remaining_accounts@ == old(self).remaining_accounts@ + accounts@.subrange(
                    0,
                    i as int,
                ),
            decreases accounts@.len() - i,
        {
            self.remaining_accounts.push(accounts[i]);
            i = i + 1;
            proof {
                assert(self.remaining_accounts@ =~= old(self).remaining_accounts@
                    + accounts@.subrange(0, i as int));
            }
        }
        proof {
            assert(accounts@.subrange(0, accounts@.len() as int) =~= accounts@);
            assert(self@ =~= (CpiBuilderModel {
                remaining_accounts: old(self)@.remaining_accounts + accounts@,
                ..old(self)@
            }));
        }
        self
    }

    /// Invokes with no signer authority; delegates to `invoke_signed` with
    /// an empty seed list.
    pub fn invoke(&self) -> (r: Result<(), CpiFailure>)
        ensures
            required_fields_missing(self@.units, self@.additional_fee) matches Some(f) ==> r
                == Err::<(), CpiFailure>(CpiFailure::Missing(f)),
            required_fields_missing(self@.units, self@.additional_fee) is None ==> !(r matches Err(
                CpiFailure::Missing(_),
            )),
    {
        let seeds: Vec<Vec<Vec<u8>>> = Vec::new();
        self.invoke_signed(&seeds)
    }

    /// Finalizes the builder without invoking: fails naming the first
    /// missing required field, else yields the invocation value carrying
    /// exactly the gathered program handle and argument fields, together
    /// with the gathered remaining accounts in their given order. The
    /// builder is left untouched.
    pub fn cpi(&self) -> (r: Result<
        (RequestUnitsCpi<'a, 'info>, &Vec<(AccountHandle<'a, 'info>, bool, bool)>),
        MissingField,
    >)
        ensures
            required_fields_missing(self@.units, self@.additional_fee) matches Some(f) ==> r
                is Err && r->Err_0 == f,
            required_fields_missing(self@.units, self@.additional_fee) is None ==> {
                &&& r is Ok
                &&& r->Ok_0.0.program == self@.program
                &&& r->Ok_0.0.args == (RequestUnitsInstructionArgs {
                    units: self@.units->0,
                    additional_fee: self@.additional_fee->0,
                })
                &&& r->Ok_0.1@ == self@.remaining_accounts
            },
    {
        let units = match self.units {
            Some(u) => u,
            None => { return Err(MissingField::Units) },
        };
        let additional_fee = match self.additional_fee {
            Some(f) => f,
            None => { return Err(MissingField::AdditionalFee) },
        };
        let args = RequestUnitsInstructionArgs { units, additional_fee };
        Ok((RequestUnitsCpi::new(self.program, args), &self.remaining_accounts))
    }

    /// Finalizes the builder and invokes: fails naming the first missing
    /// required field without submitting anything; otherwise submits through
    /// the value that `cpi` yields — whose contract ties it to the gathered
    /// program handle, argument fields and remaining accounts — and surfaces
    /// the runtime's verdict verbatim.
    pub fn invoke_signed(&self, signers_seeds: &Vec<Vec<Vec<u8>>>) -> (r: Result<(), CpiFailure>)
        ensures
            required_fields_missing(self@.units, self@.additional_fee) matches Some(f) ==> r
                == Err::<(), CpiFailure>(CpiFailure::Missing(f)),
            required_fields_missing(self@.units, self@.additional_fee) is None ==> !(r matches Err(
                CpiFailure::Missing(_),
            )),
    {
        let (instruction, remaining_accounts) = match self.cpi() {
            Ok(p) => p,
            Err(f) => { return Err(CpiFailure::Missing(f)) },
        };
        match instruction.invoke_signed_with_remaining_accounts(signers_seeds, remaining_accounts) {
            Ok(()) => Ok(()),
            Err(code) => Err(CpiFailure::Runtime(code)),
        }
    }
}

} // verus!
