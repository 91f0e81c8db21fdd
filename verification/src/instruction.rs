//! The assembled `RequestUnits` instruction and its fluent builder.
//!
//! An instruction is a target program address, an ordered account list, and
//! the encoded payload. The builder gathers the two required argument fields
//! and any remaining accounts; it validates lazily, at finalization, and
//! reports the first missing required field as a caller-misuse error rather
//! than proceeding with incomplete data.
use crate::accounts::assemble_accounts;
use crate::accounts::assembled_accounts;
use crate::accounts::AccountMeta;
use crate::codec::encode_instruction_data;
use crate::codec::instruction_data_bytes;
use crate::codec::RequestUnitsInstructionArgs;
use crate::compute_budget_id;
use crate::compute_budget_id_spec;
use vstd::prelude::*;

verus! {

/// A single unit of work for the ledger runtime: the address of the program
/// to execute, the accounts it touches, and its opaque byte payload.
#[derive(Clone, Debug, PartialEq, Eq)]
pub struct Instruction {
    pub program_id: [u8; 32],
    pub accounts: Vec<AccountMeta>,
    pub data: Vec<u8>,
}

/// The abstract content of an instruction: each field as a sequence.
#[verifier::ext_equal]
pub ghost struct InstructionModel {
    pub program_id: Seq<u8>,
    pub accounts: Seq<AccountMeta>,
    pub data: Seq<u8>,
}

impl View for Instruction {
    type V = InstructionModel;

    open spec fn view(&self) -> InstructionModel {
        InstructionModel {
            program_id: self.program_id@,
            accounts: self.accounts@,
            data: self.data@,
        }
    }
}

/// The statically declared accounts of `RequestUnits`: there are none, so
/// this struct is empty and exists to mirror the account-then-argument shape
/// shared by every instruction of the program.
pub struct RequestUnits {}

/// The instruction that `RequestUnits` produces for the given arguments and
/// remaining accounts: the compute-budget program address, the remaining
/// accounts appended after the empty declared set, and the encoded payload.
pub open spec fn request_units_instruction(
    args: RequestUnitsInstructionArgs,
    remaining: Seq<AccountMeta>,
) -> InstructionModel {
    InstructionModel {
        program_id: compute_budget_id_spec(),
        accounts: assembled_accounts(Seq::<AccountMeta>::empty(), remaining),
        data: instruction_data_bytes(args),
    }
}

impl RequestUnits {
    /// The instruction with no remaining accounts.
    pub fn instruction(&self, args: RequestUnitsInstructionArgs) -> (r: Instruction)
        ensures
            r@ == request_units_instruction(args, Seq::<AccountMeta>::empty()),
    {
        let remaining: Vec<AccountMeta> = Vec::new();
        self.instruction_with_remaining_accounts(args, &remaining)
    }

    /// The instruction with the given remaining accounts appended, in order.
    pub fn instruction_with_remaining_accounts(
        &self,
        args: RequestUnitsInstructionArgs,
        remaining_accounts: &Vec<AccountMeta>,
    ) -> (r: Instruction)
        ensures
            r@ == request_units_instruction(args, remaining_accounts@),
    {
        let accounts = assemble_accounts(remaining_accounts);
        let data = encode_instruction_data(&args);
        let r = Instruction { program_id: compute_budget_id(), accounts, data };
        proof {
            assert(r@ =~= request_units_instruction(args, remaining_accounts@));
        }
        r
    }
}

/// A required builder field that was never set when finalization was asked
/// for. This is a caller-misuse error, distinct in kind from a runtime
/// invocation failure; it names the field so the misuse is easy to find.
#[derive(Clone, Copy, Debug, PartialEq, Eq, Structural)]
pub enum MissingField {
    Units,
    AdditionalFee,
}

impl MissingField {
    /// The diagnostic naming the missing field.
    pub fn message(&self) -> (r: &'static str)
        ensures
            *self == MissingField::Units ==> r@ == "units is not set"@,
            *self == MissingField::AdditionalFee ==> r@ == "additional_fee is not set"@,
    {
        match self {
            MissingField::Units => "units is not set",
            MissingField::AdditionalFee => "additional_fee is not set",
        }
    }
}

/// The abstract state of a builder: which argument fields have been set, and
/// the remaining accounts gathered so far, in order.
#[verifier::ext_equal]
pub ghost struct BuilderModel {
    pub units: Option<u32>,
    pub additional_fee: Option<u32>,
    pub remaining_accounts: Seq<AccountMeta>,
}

/// The builder state with `units` set to the given value; any earlier value
/// is replaced.
pub open spec fn with_units(m: BuilderModel, units: u32) -> BuilderModel {
    BuilderModel { units: Some(units), ..m }
}

/// The builder state with `additional_fee` set to the given value; any
/// earlier value is replaced.
pub open spec fn with_additional_fee(m: BuilderModel, additional_fee: u32) -> BuilderModel {
    BuilderModel { additional_fee: Some(additional_fee), ..m }
}

/// The builder state with the given accounts appended after the remaining
/// accounts already gathered.
pub open spec fn with_remaining(m: BuilderModel, accounts: Seq<AccountMeta>) -> BuilderModel {
    BuilderModel { remaining_accounts: m.remaining_accounts + accounts, ..m }
}

/// The first required argument field missing from a pair of optional
/// values, if any: `units` is checked before `additional_fee`.
pub open spec fn required_fields_missing(units: Option<u32>, additional_fee: Option<u32>) -> Option<
    MissingField,
> {
    if units is None {
        Some(MissingField::Units)
    } else if additional_fee is None {
        Some(MissingField::AdditionalFee)
    } else {
        None
    }
}

/// The first required field that the builder state is missing, if any.
pub open spec fn missing_field(m: BuilderModel) -> Option<MissingField> {
    required_fields_missing(m.units, m.additional_fee)
}

/// What finalizing a builder state yields: the missing field if one remains,
/// else the instruction for the gathered arguments and accounts.
pub open spec fn finalize_spec(m: BuilderModel) -> Result<InstructionModel, MissingField> {
    match missing_field(m) {
        Some(f) => Err(f),
        None => Ok(
            request_units_instruction(
                RequestUnitsInstructionArgs {
                    units: m.units->0,
                    additional_fee: m.additional_fee->0,
                },
                m.remaining_accounts,
            ),
        ),
    }
}

/// The abstract content of a finalization result.
pub open spec fn finalize_result_view(r: Result<Instruction, MissingField>) -> Result<
    InstructionModel,
    MissingField,
> {
    match r {
        Ok(ix) => Ok(ix@),
        Err(e) => Err(e),
    }
}

/// Gathers the `RequestUnits` arguments and remaining accounts, then
/// finalizes into an [`Instruction`]. Construction starts with every field
/// unset; validation happens only at finalization.
#[derive(Clone, Debug)]
pub struct RequestUnitsBuilder {
    units: Option<u32>,
    additional_fee: Option<u32>,
    remaining_accounts: Vec<AccountMeta>,
}

impl View for RequestUnitsBuilder {
    type V = BuilderModel;

    closed spec fn view(&self) -> BuilderModel {
        BuilderModel {
            units: self.units,
            additional_fee: self.additional_fee,
            remaining_accounts: self.remaining_accounts@,
        }
    }
}

/// The state of a freshly made builder: nothing set, no accounts.
pub open spec fn empty_builder() -> BuilderModel {
    BuilderModel { units: None, additional_fee: None, remaining_accounts: Seq::empty() }
}

impl RequestUnitsBuilder {
    /// A builder with every field unset and no remaining accounts.
    pub fn new() -> (r: Self)
        ensures
            r@ == empty_builder(),
    {
        let r = Self { units: None, additional_fee: None, remaining_accounts: Vec::new() };
        proof {
            assert(r@ =~= empty_builder());
        }
        r
    }

    /// Sets `units`, replacing any earlier value.
    pub fn units(&mut self, units: u32) -> (r: &mut Self)
        ensures
            (*r)@ == with_units(old(self)@, units),
            *final(self) == *final(r),
    {
        self.units = Some(units);
        proof {
            assert(self@ =~= with_units(old(self)@, units));
        }
        self
    }

    /// Sets `additional_fee`, replacing any earlier value.
    pub fn additional_fee(&mut self, additional_fee: u32) -> (r: &mut Self)
        ensures
            (*r)@ == with_additional_fee(old(self)@, additional_fee),
            *final(self) == *final(r),
    {
        self.additional_fee = Some(additional_fee);
        proof {
            assert(self@ =~= with_additional_fee(old(self)@, additional_fee));
        }
        self
    }

    /// Appends one remaining account after those already gathered.
    pub fn add_remaining_account(&mut self, account: AccountMeta) -> (r: &mut Self)
        ensures
            (*r)@ == with_remaining(old(self)@, seq![account]),
            *final(self) == *final(r),
    {
        self.remaining_accounts.push(account);
        proof {
            assert(self@ =~= with_remaining(old(self)@, seq![account]));
        }
        self
    }

    /// Appends the given remaining accounts, keeping their order.
    pub fn add_remaining_accounts(&mut self, accounts: &Vec<AccountMeta>) -> (r: &mut Self)
        ensures
            (*r)@ == with_remaining(old(self)@, accounts@),
            *final(self) == *final(r),
    {
        let mut i: usize = 0;
        while i < accounts.len()
            invariant
                i <= accounts@.len(),
                self.units == old(self).units,
                self.additional_fee == old(self).additional_fee,
                self.remaining_accounts@ == old(self).remaining_accounts@ + accounts@.subrange(
                    0,
                    i as int,
                ),
            decreases accounts@.len() - i,
        {
            self.remaining_accounts.push(accounts[i]);
            i = i + 1;
            proof {
                assert(self.remaining_accounts@ =~= old(self).remaining_accounts@
                    + accounts@.subrange(0, i as int));
            }
        }
        proof {
            assert(accounts@.subrange(0, accounts@.len() as int) =~= accounts@);
            assert(self@ =~= with_remaining(old(self)@, accounts@));
        }
        self
    }

    /// Finalizes the builder: fails naming the first missing required field,
    /// else yields the instruction for the gathered state. The builder is
    /// left untouched, so finalizing again gives an equivalent result.
    pub fn instruction(&self) -> (r: Result<Instruction, MissingField>)
        ensures
            finalize_result_view(r) == finalize_spec(self@),
    {
        let units = match self.units {
            Some(u) => u,
            None => { return Err(MissingField::Units) },
        };
        let additional_fee = match self.additional_fee {
            Some(f) => f,
            None => { return Err(MissingField::AdditionalFee) },
        };
        let args = RequestUnitsInstructionArgs { units, additional_fee };
        let accounts = RequestUnits {};
        Ok(accounts.instruction_with_remaining_accounts(args, &self.remaining_accounts))
    }
}

impl Default for RequestUnitsBuilder {
    fn default() -> (r: Self)
        ensures
            r@ == empty_builder(),
    {
        Self::new()
    }
}

/// Builder completeness: finalizing a state that misses a required field
/// always fails naming that field — `units` first — and finalizing a state
/// with both fields set always succeeds.
pub proof fn lemma_finalize_completeness(m: BuilderModel)
    ensures
        m.units is None ==> finalize_spec(m) == Err::<InstructionModel, _>(MissingField::Units),
        m.units is Some && m.additional_fee is None ==> finalize_spec(m) == Err::<
            InstructionModel,
            _,
        >(MissingField::AdditionalFee),
        m.units is Some && m.additional_fee is Some ==> finalize_spec(m) is Ok,
{
}

/// Order preservation: appending remaining accounts and then finalizing a
/// complete builder yields an account list whose trailing entries are exactly
/// the appended accounts, in their given order.
pub proof fn lemma_remaining_accounts_order(m: BuilderModel, accounts: Seq<AccountMeta>)
    requires
        missing_field(m) is None,
    ensures
        finalize_spec(with_remaining(m, accounts)) is Ok,
        finalize_spec(with_remaining(m, accounts))->Ok_0.accounts.len()
            == m.remaining_accounts.len() + accounts.len(),
        finalize_spec(with_remaining(m, accounts))->Ok_0.accounts.subrange(
            m.remaining_accounts.len() as int,
            (m.remaining_accounts.len() + accounts.len()) as int,
        ) == accounts,
{
    let all = finalize_spec(with_remaining(m, accounts))->Ok_0.accounts;
    assert(all =~= m.remaining_accounts + accounts);
    assert(all.subrange(
        m.remaining_accounts.len() as int,
        (m.remaining_accounts.len() + accounts.len()) as int,
    ) =~= accounts);
}

/// Idempotent construction: setting the same field twice retains only the
/// value given last.
pub proof fn lemma_setter_last_value_wins(m: BuilderModel, v1: u32, v2: u32)
    ensures
        with_units(with_units(m, v1), v2) == with_units(m, v2),
        with_additional_fee(with_additional_fee(m, v1), v2) == with_additional_fee(m, v2),
{
    assert(with_units(with_units(m, v1), v2) =~= with_units(m, v2));
    assert(with_additional_fee(with_additional_fee(m, v1), v2) =~= with_additional_fee(m, v2));
}

} // verus!
