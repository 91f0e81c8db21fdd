use request_units::accounts::AccountMeta;
use request_units::codec::decode_instruction_data;
use request_units::codec::DecodeError;
use request_units::codec::RequestUnitsInstructionArgs;
use request_units::compute_budget_id;
use request_units::instruction::MissingField;
use request_units::instruction::RequestUnits;
use request_units::instruction::RequestUnitsBuilder;

fn meta(tag: u8, is_signer: bool, is_writable: bool) -> AccountMeta {
    AccountMeta { pubkey: [tag; 32], is_signer, is_writable }
}

#[test]
fn encode_is_nine_bytes_with_zero_tag() {
    let args = RequestUnitsInstructionArgs { units: 123, additional_fee: 456 };
    let ix = RequestUnits {}.instruction(args);
    assert_eq!(ix.data.len(), 9);
    assert_eq!(ix.data[0], 0);
}

#[test]
fn end_to_end_example() {
    let args = RequestUnitsInstructionArgs { units: 1_000_000, additional_fee: 5000 };
    let ix = RequestUnits {}.instruction(args);
    assert_eq!(ix.data, vec![0, 64, 66, 15, 0, 136, 19, 0, 0]);
    assert_eq!(ix.accounts, Vec::<AccountMeta>::new());
    assert_eq!(ix.program_id, compute_budget_id());
}

#[test]
fn encode_matches_borsh_layout() {
    let args = RequestUnitsInstructionArgs { units: 1_000_000, additional_fee: 5000 };
    let ix = RequestUnits {}.instruction(args);
    let expected = borsh::to_vec(&(0u8, 1_000_000u32, 5000u32)).unwrap();
    assert_eq!(ix.data, expected);
}

#[test]
fn decode_undoes_encode() {
    let cases = [
        (0u32, 0u32),
        (1, 2),
        (1_000_000, 5000),
        (u32::MAX, u32::MAX),
        (u32::MAX, 0),
    ];
    for (units, additional_fee) in cases {
        let args = RequestUnitsInstructionArgs { units, additional_fee };
        let ix = RequestUnits {}.instruction(args);
        assert_eq!(decode_instruction_data(&ix.data), Ok(args));
    }
}

#[test]
fn decode_rejects_wrong_length() {
    assert_eq!(
        decode_instruction_data(&vec![0, 64, 66, 15, 0, 136, 19, 0]),
        Err(DecodeError::WrongLength)
    );
    assert_eq!(decode_instruction_data(&Vec::new()), Err(DecodeError::WrongLength));
}

#[test]
fn decode_rejects_wrong_discriminator() {
    assert_eq!(
        decode_instruction_data(&vec![1, 64, 66, 15, 0, 136, 19, 0, 0]),
        Err(DecodeError::WrongDiscriminator)
    );
}

#[test]
fn builder_missing_units_fails_naming_it() {
    let e = RequestUnitsBuilder::new().instruction().unwrap_err();
    assert_eq!(e, MissingField::Units);
    assert_eq!(e.message(), "units is not set");
}

#[test]
fn builder_missing_additional_fee_fails_naming_it() {
    let mut b = RequestUnitsBuilder::new();
    b.units(42);
    let e = b.instruction().unwrap_err();
    assert_eq!(e, MissingField::AdditionalFee);
    assert_eq!(e.message(), "additional_fee is not set");
}

#[test]
fn builder_with_both_fields_succeeds() {
    let mut b = RequestUnitsBuilder::default();
    b.units(1_000_000).additional_fee(5000);
    let ix = b.instruction().unwrap();
    assert_eq!(ix.data, vec![0, 64, 66, 15, 0, 136, 19, 0, 0]);
    assert_eq!(ix.accounts, Vec::<AccountMeta>::new());
}

#[test]
fn builder_preserves_remaining_account_order() {
    let a = meta(1, false, true);
    let b2 = meta(2, true, false);
    let c = meta(3, true, true);
    let mut b = RequestUnitsBuilder::new();
    b.units(7).additional_fee(8);
    b.add_remaining_account(meta(9, false, false));
    b.add_remaining_accounts(&vec![a, b2, c]);
    let ix = b.instruction().unwrap();
    assert_eq!(ix.accounts.len(), 4);
    assert_eq!(ix.accounts[1..], [a, b2, c]);
    assert_eq!(ix.accounts[0], meta(9, false, false));
}

#[test]
fn setter_retains_last_value() {
    let mut b = RequestUnitsBuilder::new();
    b.units(1).units(1_000_000);
    b.additional_fee(2);
    b.additional_fee(5000);
    let ix = b.instruction().unwrap();
    assert_eq!(ix.data, vec![0, 64, 66, 15, 0, 136, 19, 0, 0]);
}

#[test]
fn refinalizing_gives_an_equivalent_instruction() {
    let mut b = RequestUnitsBuilder::new();
    b.units(11).additional_fee(22);
    b.add_remaining_account(meta(5, true, false));
    let first = b.instruction().unwrap();
    let second = b.instruction().unwrap();
    assert_eq!(first, second);
}

#[test]
fn instruction_equals_instruction_with_no_remaining_accounts() {
    let args = RequestUnitsInstructionArgs { units: 3, additional_fee: 4 };
    let direct = RequestUnits {}.instruction(args);
    let with_empty = RequestUnits {}.instruction_with_remaining_accounts(args, &Vec::new());
    assert_eq!(direct, with_empty);
}
