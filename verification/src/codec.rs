//! Wire format of the `RequestUnits` instruction.
//!
//! The payload is a tagged encoding: one discriminator byte selecting the
//! instruction variant, followed by the two argument fields in declared
//! order, each as a little-endian 32-bit integer. The payload is always
//! exactly nine bytes.
use vstd::prelude::*;

verus! {

/// The tag byte that selects the `RequestUnits` variant within the owning
/// program's instruction set.
pub const DISCRIMINATOR: u8 = 0;

/// The little-endian four-byte encoding of a 32-bit integer.
pub open spec fn u32_le(x: u32) -> Seq<u8> {
    seq![
        (x % 256) as u8,
        ((x / 256) % 256) as u8,
        ((x / 65536) % 256) as u8,
        (x / 16777216) as u8,
    ]
}

/// The 32-bit integer read back from four little-endian bytes.
pub open spec fn u32_from_le(b: Seq<u8>) -> u32
    recommends
        b.len() == 4,
{
    (b[0] + b[1] * 256 + b[2] * 65536 + b[3] * 16777216) as u32
}

/// Reading four little-endian bytes undoes writing them: `u32_le` followed by
/// `u32_from_le` gives the integer back, and the encoding is four bytes long.
pub proof fn lemma_u32_le_roundtrip(x: u32)
    ensures
        u32_le(x).len() == 4,
        u32_from_le(u32_le(x)) == x,
{
    assert(x == (x % 256) + 256 * ((x / 256) % 256) + 65536 * ((x / 65536) % 256) + 16777216 * (
    x / 16777216)) by (bit_vector);
}

/// Appends the little-endian four-byte encoding of `x` to `out`.
fn push_u32_le(out: &mut Vec<u8>, x: u32)
    ensures
        final(out)@ == old(out)@ + u32_le(x),
{
    out.push((x % 256) as u8);
    out.push(((x / 256) % 256) as u8);
    out.push(((x / 65536) % 256) as u8);
    out.push((x / 16777216) as u8);
    proof {
        assert(out@ =~= old(out)@ + u32_le(x));
    }
}

/// Reads the 32-bit integer stored little-endian at `b[i..i + 4]`.
fn read_u32_le(b: &Vec<u8>, i: usize) -> (r: u32)
    requires
        i + 4 <= b@.len(),
    ensures
        r == u32_from_le(b@.subrange(i as int, i + 4)),
{
    let n: usize = b.len();
    assert(i + 4 <= n);
    let r = b[i] as u32 + b[i + 1] as u32 * 256 + b[i + 2] as u32 * 65536 + b[i + 3] as u32
        * 16777216;
    proof {
        let s = b@.subrange(i as int, i + 4);
        assert(s[0] == b@[i as int] && s[1] == b@[i + 1] && s[2] == b@[i + 2] && s[3] == b@[i + 3]);
    }
    r
}

/// The single-byte record that precedes the argument fields on the wire.
/// Its only content is the discriminator, fixed at construction.
pub struct RequestUnitsInstructionData {
    discriminator: u8,
}

impl View for RequestUnitsInstructionData {
    type V = u8;

    closed spec fn view(&self) -> u8 {
        self.discriminator
    }
}

impl RequestUnitsInstructionData {
    pub fn new() -> (r: Self)
        ensures
            r@ == DISCRIMINATOR,
    {
        Self { discriminator: DISCRIMINATOR }
    }

    /// The serialized form of the record: its one byte.
    pub fn to_bytes(&self) -> (r: Vec<u8>)
        ensures
            r@ == seq![self@],
    {
        let mut out: Vec<u8> = Vec::new();
        out.push(self.discriminator);
        out
    }
}

impl Default for RequestUnitsInstructionData {
    fn default() -> (r: Self)
        ensures
            r@ == DISCRIMINATOR,
    {
        Self::new()
    }
}

/// The arguments of the `RequestUnits` instruction. Field order is part of
/// the wire contract: `units` is serialized first, `additional_fee` second.
#[derive(Clone, Copy, Debug, PartialEq, Eq, Structural)]
pub struct RequestUnitsInstructionArgs {
    pub units: u32,
    pub additional_fee: u32,
}

/// The serialized argument fields: each as a little-endian 32-bit integer,
/// in declared order.
pub open spec fn args_bytes(a: RequestUnitsInstructionArgs) -> Seq<u8> {
    u32_le(a.units) + u32_le(a.additional_fee)
}

/// The full payload: the discriminator byte followed by the serialized
/// argument fields.
pub open spec fn instruction_data_bytes(a: RequestUnitsInstructionArgs) -> Seq<u8> {
    seq![DISCRIMINATOR] + args_bytes(a)
}

impl RequestUnitsInstructionArgs {
    /// The serialized form of the argument fields, eight bytes.
    pub fn to_bytes(&self) -> (r: Vec<u8>)
        ensures
            r@ == args_bytes(*self),
    {
        let mut out: Vec<u8> = Vec::new();
        push_u32_le(&mut out, self.units);
        push_u32_le(&mut out, self.additional_fee);
        proof {
            assert(out@ =~= args_bytes(*self));
        }
        out
    }
}

/// Builds the full nine-byte payload for the given arguments: discriminator
/// first, then both fields little-endian.
pub fn encode_instruction_data(args: &RequestUnitsInstructionArgs) -> (r: Vec<u8>)
    ensures
        r@ == instruction_data_bytes(*args),
        r@.len() == 9,
        r@[0] == DISCRIMINATOR,
{
    let mut out = RequestUnitsInstructionData::new().to_bytes();
    let mut rest = args.to_bytes();
    out.append(&mut rest);
    proof {
        assert(out@ =~= instruction_data_bytes(*args));
    }
    out
}

/// Why a byte sequence is not a well-formed `RequestUnits` payload.
#[derive(Clone, Copy, Debug, PartialEq, Eq, Structural)]
pub enum DecodeError {
    /// The payload is not exactly nine bytes long.
    WrongLength,
    /// The leading tag byte does not select this instruction variant.
    WrongDiscriminator,
}

/// What decoding a byte sequence yields: the arguments if and only if the
/// sequence is nine bytes long and starts with the discriminator.
pub open spec fn decode_spec(b: Seq<u8>) -> Result<RequestUnitsInstructionArgs, DecodeError> {
    if b.len() != 9 {
        Err(DecodeError::WrongLength)
    } else if b[0] != DISCRIMINATOR {
        Err(DecodeError::WrongDiscriminator)
    } else {
        Ok(
            RequestUnitsInstructionArgs {
                units: u32_from_le(b.subrange(1, 5)),
                additional_fee: u32_from_le(b.subrange(5, 9)),
            },
        )
    }
}

/// Reads a payload back: checks the length, dispatches on the tag byte, then
/// decodes the two little-endian fields.
pub fn decode_instruction_data(bytes: &Vec<u8>) -> (r: Result<
    RequestUnitsInstructionArgs,
    DecodeError,
>)
    ensures
        r == decode_spec(bytes@),
{
    if bytes.len() != 9 {
        return Err(DecodeError::WrongLength);
    }
    if bytes[0] != DISCRIMINATOR {
        return Err(DecodeError::WrongDiscriminator);
    }
    let units = read_u32_le(bytes, 1);
    let additional_fee = read_u32_le(bytes, 5);
    Ok(RequestUnitsInstructionArgs { units, additional_fee })
}

/// Round trip: decoding an encoded payload gives the arguments back, for
/// every argument pair; and the encoding is always exactly nine bytes long
/// and starts with the discriminator byte.
pub proof fn lemma_encode_decode_roundtrip(args: RequestUnitsInstructionArgs)
    ensures
        instruction_data_bytes(args).len() == 9,
        instruction_data_bytes(args)[0] == DISCRIMINATOR,
        decode_spec(instruction_data_bytes(args)) == Ok::<_, DecodeError>(args),
{
    let b = instruction_data_bytes(args);
    lemma_u32_le_roundtrip(args.units);
    lemma_u32_le_roundtrip(args.additional_fee);
    assert(b.subrange(1, 5) =~= u32_le(args.units));
    assert(b.subrange(5, 9) =~= u32_le(args.additional_fee));
}

} // verus!
