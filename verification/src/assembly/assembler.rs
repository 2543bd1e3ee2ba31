//! The assembler: resolves each tokenized line's mnemonic through the
//! instruction registry, encodes its operands big-endian into their
//! registered widths, and pads every instruction to exactly four
//! bytes.

use vstd::prelude::*;
use vstd::string::StrSliceExecFns;

use crate::instructions::{
    operand_width, signature_width, spec_lookup_mnemonic, spec_opcode_registered,
    spec_operand_number, spec_operand_types_of, spec_operand_value, spec_operands,
    InstructionRegistry, OperandType, OperandValue,
};
use crate::program::Program;
use crate::vm::REGISTER_COUNT;

verus! {

/// Why a tokenized assembly source could not be assembled.
#[derive(Debug, PartialEq, Eq, Clone, Copy)]
pub enum AssemblerError {
    /// A line's first token is not a registered mnemonic.
    UnknownMnemonic,
    /// A line's operand count differs from its mnemonic's signature.
    WrongOperandCount,
    /// An operand token is not a plain decimal number.
    MalformedOperand,
    /// An operand's value does not fit its slot: a register id must
    /// be below the register count, a constant below its width's
    /// range.
    OperandOutOfRange,
}

/// Whether a character is a decimal digit.
pub open spec fn spec_is_dec_digit(c: char) -> bool {
    '0' <= c && c <= '9'
}

/// The value of a string of decimal digits, most significant first.
pub open spec fn spec_decimal_value(t: Seq<char>) -> int
    decreases t.len(),
{
    if t.len() == 0 {
        0
    } else {
        spec_decimal_value(t.drop_last()) * 10 + (t.last() as int - '0' as int)
    }
}

/// The number a token stands for: it must be non-empty and all
/// decimal digits.
pub open spec fn spec_parse_decimal(t: Seq<char>) -> Option<int> {
    if t.len() > 0 && (forall|j: int| 0 <= j < t.len() ==> spec_is_dec_digit(t[j])) {
        Some(spec_decimal_value(t))
    } else {
        None
    }
}

/// The first value too large for an operand slot of type `t`.
pub open spec fn spec_operand_limit(t: OperandType) -> int {
    match t {
        OperandType::Unused => 0,
        OperandType::RegisterId => REGISTER_COUNT as int,
        OperandType::ConstantByte => 256,
        OperandType::ConstantHalfWord => 65536,
        OperandType::ConstantWord => 16777216,
    }
}

/// The big-endian bytes that encode `value` into an operand slot of
/// type `t`: the low `width` bytes of the value, most significant
/// first.
pub open spec fn spec_encode_operand(t: OperandType, value: int) -> Seq<u8>
    recommends
        0 <= value < spec_operand_limit(t),
{
    match t {
        OperandType::Unused => Seq::<u8>::empty(),
        OperandType::RegisterId => seq![value as u8],
        OperandType::ConstantByte => seq![value as u8],
        OperandType::ConstantHalfWord => seq![(value / 256) as u8, (value % 256) as u8],
        OperandType::ConstantWord => seq![
            (value / 65536) as u8,
            ((value / 256) % 256) as u8,
            (value % 256) as u8,
        ],
    }
}

/// How many of a signature's three slots carry an operand.
pub open spec fn spec_operand_count(ops: Seq<OperandType>) -> int
    recommends
        ops.len() == 3,
{
    (if ops[0] is Unused {
        0int
    } else {
        1int
    }) + (if ops[1] is Unused {
        0int
    } else {
        1int
    }) + (if ops[2] is Unused {
        0int
    } else {
        1int
    })
}

/// The operand bytes of one line, from signature slot `j` on, reading
/// operand tokens from `cursor` on: each carrying slot consumes one
/// token, which must be a decimal number within the slot's range.
pub open spec fn spec_slots(
    ops: Seq<OperandType>,
    tokens: Seq<Seq<char>>,
    j: int,
    cursor: int,
) -> Result<Seq<u8>, AssemblerError>
    recommends
        ops.len() == 3,
        0 <= j,
    decreases 3 - j,
{
    if j >= 3 {
        Ok(Seq::<u8>::empty())
    } else if ops[j] is Unused {
        spec_slots(ops, tokens, j + 1, cursor)
    } else {
        match spec_parse_decimal(tokens[cursor]) {
            None => Err(AssemblerError::MalformedOperand),
            Some(value) => if value >= spec_operand_limit(ops[j]) {
                Err(AssemblerError::OperandOutOfRange)
            } else {
                match spec_slots(ops, tokens, j + 1, cursor + 1) {
                    Err(e) => Err(e),
                    Ok(rest) => Ok(spec_encode_operand(ops[j], value) + rest),
                }
            },
        }
    }
}

/// The four bytes one tokenized line assembles to: the mnemonic's
/// opcode, the encoded operands, and zero padding up to the fixed
/// four-byte instruction width.
pub open spec fn spec_assemble_line(tokens: Seq<Seq<char>>) -> Result<Seq<u8>, AssemblerError> {
    if tokens.len() == 0 {
        Err(AssemblerError::UnknownMnemonic)
    } else {
        match spec_lookup_mnemonic(tokens[0]) {
            None => Err(AssemblerError::UnknownMnemonic),
            Some(opcode) => {
                let ops = spec_operand_types_of(opcode).unwrap();
                if tokens.len() != 1 + spec_operand_count(ops) {
                    Err(AssemblerError::WrongOperandCount)
                } else {
                    match spec_slots(ops, tokens, 0, 1) {
                        Err(e) => Err(e),
                        Ok(body) => if 1 + body.len() <= 4 {
                            Ok(
                                seq![opcode] + body + Seq::new(
                                    (3 - body.len()) as nat,
                                    |i: int| 0u8,
                                ),
                            )
                        } else {
                            Ok(seq![opcode] + body)
                        },
                    }
                }
            },
        }
    }
}

/// The bytes a whole tokenized source assembles to: each line's four
/// bytes in order, or the first line's error.
pub open spec fn spec_assemble(lines: Seq<Seq<Seq<char>>>) -> Result<Seq<u8>, AssemblerError>
    decreases lines.len(),
{
    if lines.len() == 0 {
        Ok(Seq::<u8>::empty())
    } else {
        match spec_assemble_line(lines[0]) {
            Err(e) => Err(e),
            Ok(bytes) => match spec_assemble(lines.skip(1)) {
                Err(e) => Err(e),
                Ok(rest) => Ok(bytes + rest),
            },
        }
    }
}

/// The four bytes that re-encoding a decoded instruction through the
/// assembler's operand encoding produces: the opcode, each operand's
/// big-endian bytes, and zero padding up to the fixed width.
pub open spec fn spec_reencode_instruction(opcode: u8, vals: Seq<OperandValue>) -> Seq<u8>
    recommends
        spec_opcode_registered(opcode),
        vals.len() == 3,
{
    let ops = spec_operand_types_of(opcode).unwrap();
    let body = spec_encode_operand(ops[0], spec_operand_number(vals[0])) + spec_encode_operand(
        ops[1],
        spec_operand_number(vals[1]),
    ) + spec_encode_operand(ops[2], spec_operand_number(vals[2]));
    if body.len() <= 3 {
        seq![opcode] + body + Seq::new((3 - body.len()) as nat, |i: int| 0u8)
    } else {
        seq![opcode] + body
    }
}

/// Splitting a two-byte big-endian value back into its bytes.
proof fn lemma_split_halfword(a: int, b: int)
    requires
        0 <= a < 256,
        0 <= b < 256,
    ensures
        (a * 256 + b) / 256 == a,
        (a * 256 + b) % 256 == b,
{
    assert((a * 256 + b) / 256 == a) by (nonlinear_arith)
        requires
            0 <= a < 256,
            0 <= b < 256,
    ;
    assert((a * 256 + b) % 256 == b) by (nonlinear_arith)
        requires
            0 <= a < 256,
            0 <= b < 256,
    ;
}

/// Splitting a three-byte big-endian value back into its bytes.
proof fn lemma_split_word(a: int, b: int, c: int)
    requires
        0 <= a < 256,
        0 <= b < 256,
        0 <= c < 256,
    ensures
        (a * 65536 + b * 256 + c) / 65536 == a,
        ((a * 65536 + b * 256 + c) / 256) % 256 == b,
        (a * 65536 + b * 256 + c) % 256 == c,
{
    let w = a * 65536 + b * 256 + c;
    assert(w / 65536 == a) by (nonlinear_arith)
        requires
            w == a * 65536 + b * 256 + c,
            0 <= a < 256,
            0 <= b < 256,
            0 <= c < 256,
    ;
    assert(w / 256 == a * 256 + b) by (nonlinear_arith)
        requires
            w == a * 65536 + b * 256 + c,
            0 <= a < 256,
            0 <= b < 256,
            0 <= c < 256,
    ;
    lemma_split_halfword(a, b);
    assert(w % 256 == c) by (nonlinear_arith)
        requires
            w == a * 65536 + b * 256 + c,
            0 <= a < 256,
            0 <= b < 256,
            0 <= c < 256,
    ;
}

/// Law (round trip): decoding a well-formed instruction and
/// re-encoding it through the codec reproduces the identical
/// four-byte sequence, for every opcode in the registry.
///
/// Well-formed means what the assembler always emits: the opcode is
/// registered, and the operand bytes its signature leaves unused are
/// zero.
pub proof fn lemma_codec_round_trip(prog: Seq<u8>, at: int)
    requires
        0 <= at,
        at + 4 <= prog.len(),
        spec_opcode_registered(prog[at]),
        forall|j: int|
            1 + signature_width(spec_operand_types_of(prog[at]).unwrap()) <= j < 4 ==> #[trigger](
            prog[at + j]) == 0,
    ensures
        spec_reencode_instruction(
            prog[at],
            spec_operands(spec_operand_types_of(prog[at]).unwrap(), prog, at + 1),
        ) == prog.subrange(at, at + 4),
{
    let opcode = prog[at];
    let ops = spec_operand_types_of(opcode).unwrap();
    let vals = spec_operands(ops, prog, at + 1);
    let reencoded = spec_reencode_instruction(opcode, vals);
    let p1 = prog[at + 1];
    let p2 = prog[at + 2];
    let p3 = prog[at + 3];

    let no_operands = seq![OperandType::Unused, OperandType::Unused, OperandType::Unused];
    let register_constant = seq![
        OperandType::RegisterId,
        OperandType::ConstantHalfWord,
        OperandType::Unused,
    ];
    let wide_constant = seq![OperandType::ConstantWord, OperandType::Unused, OperandType::Unused];
    let three_registers = seq![
        OperandType::RegisterId,
        OperandType::RegisterId,
        OperandType::RegisterId,
    ];
    assert(ops == no_operands || ops == register_constant || ops == wide_constant || ops
        == three_registers);

    if ops == no_operands {
        assert(signature_width(ops) == 0);
        assert(reencoded =~= prog.subrange(at, at + 4)) by {
            assert(prog[at + 1] == 0 && prog[at + 2] == 0 && prog[at + 3] == 0);
        }
    } else if ops == register_constant {
        assert(vals[1] == spec_operand_value(ops[1], prog, at + 2));
        lemma_split_halfword(p2 as int, p3 as int);
        assert(reencoded =~= prog.subrange(at, at + 4));
    } else if ops == wide_constant {
        assert(vals[0] == spec_operand_value(ops[0], prog, at + 1));
        lemma_split_word(p1 as int, p2 as int, p3 as int);
        assert(reencoded =~= prog.subrange(at, at + 4));
    } else {
        assert(reencoded =~= prog.subrange(at, at + 4));
    }
}

/// Law (round trip, codec level): decoding is the inverse of the
/// assembler's encoding direction for one operand: the bytes that
/// encode an in-range value decode back to an operand numerically
/// equal to it, and an unused slot decodes to an empty operand.
pub proof fn lemma_encode_operand_decodes(t: OperandType, value: int, prog: Seq<u8>, at: int)
    requires
        !(t is Unused) ==> 0 <= value < spec_operand_limit(t),
        0 <= at,
        at + operand_width(t) <= prog.len(),
        prog.subrange(at, at + operand_width(t)) == spec_encode_operand(t, value),
    ensures
        !(t is Unused) ==> spec_operand_number(spec_operand_value(t, prog, at)) == value,
        t is Unused ==> spec_operand_value(t, prog, at) is Empty,
{
    let encoded = spec_encode_operand(t, value);
    match t {
        OperandType::Unused => {},
        OperandType::RegisterId => {
            assert(prog[at] == encoded[0]);
        },
        OperandType::ConstantByte => {
            assert(prog[at] == encoded[0]);
        },
        OperandType::ConstantHalfWord => {
            assert(prog[at] == encoded[0]);
            assert(prog[at + 1] == encoded[1]);
            lemma_join_halfword(value);
        },
        OperandType::ConstantWord => {
            assert(prog[at] == encoded[0]);
            assert(prog[at + 1] == encoded[1]);
            assert(prog[at + 2] == encoded[2]);
            lemma_join_word(value);
        },
    }
}

/// Law (round trip, codec level, full signature): a byte window that
/// holds the big-endian, right-justified encodings of three in-range
/// operand values, slot after slot as the signature lays them out,
/// decodes back to operands numerically equal to those values, with
/// every unused slot empty. Padding bytes past the signature's width
/// are never read, so they are unconstrained.
pub proof fn lemma_encoded_operands_decode(
    ops: Seq<OperandType>,
    v0: int,
    v1: int,
    v2: int,
    prog: Seq<u8>,
    at: int,
)
    requires
        ops.len() == 3,
        !(ops[0] is Unused) ==> 0 <= v0 < spec_operand_limit(ops[0]),
        !(ops[1] is Unused) ==> 0 <= v1 < spec_operand_limit(ops[1]),
        !(ops[2] is Unused) ==> 0 <= v2 < spec_operand_limit(ops[2]),
        0 <= at,
        at + signature_width(ops) <= prog.len(),
        prog.subrange(at, at + operand_width(ops[0])) == spec_encode_operand(ops[0], v0),
        prog.subrange(
            at + operand_width(ops[0]),
            at + operand_width(ops[0]) + operand_width(ops[1]),
        ) == spec_encode_operand(ops[1], v1),
        prog.subrange(
            at + operand_width(ops[0]) + operand_width(ops[1]),
            at + signature_width(ops),
        ) == spec_encode_operand(ops[2], v2),
    ensures
        ({
            let vals = spec_operands(ops, prog, at);
            &&& (!(ops[0] is Unused) ==> spec_operand_number(vals[0]) == v0)
            &&& (!(ops[1] is Unused) ==> spec_operand_number(vals[1]) == v1)
            &&& (!(ops[2] is Unused) ==> spec_operand_number(vals[2]) == v2)
            &&& (ops[0] is Unused ==> vals[0] is Empty)
            &&& (ops[1] is Unused ==> vals[1] is Empty)
            &&& (ops[2] is Unused ==> vals[2] is Empty)
        }),
{
    lemma_encode_operand_decodes(ops[0], v0, prog, at);
    lemma_encode_operand_decodes(ops[1], v1, prog, at + operand_width(ops[0]));
    lemma_encode_operand_decodes(
        ops[2],
        v2,
        prog,
        at + operand_width(ops[0]) + operand_width(ops[1]),
    );
}

/// A string of decimal digits stands for a non-negative number.
proof fn lemma_decimal_value_nonneg(t: Seq<char>)
    requires
        forall|j: int| 0 <= j < t.len() ==> spec_is_dec_digit(t[j]),
    ensures
        spec_decimal_value(t) >= 0,
    decreases t.len(),
{
    if t.len() > 0 {
        assert(forall|j: int| 0 <= j < t.drop_last().len() ==> spec_is_dec_digit(
            t.drop_last()[j],
        ));
        lemma_decimal_value_nonneg(t.drop_last());
    }
}

/// Reconstructing a two-byte value from its big-endian bytes.
proof fn lemma_join_halfword(v: int)
    requires
        0 <= v < 65536,
    ensures
        (v / 256) * 256 + v % 256 == v,
        0 <= v / 256 < 256,
        0 <= v % 256 < 256,
{
    assert((v / 256) * 256 + v % 256 == v) by (nonlinear_arith)
        requires
            0 <= v < 65536,
    ;
    assert(0 <= v / 256 < 256) by (nonlinear_arith)
        requires
            0 <= v < 65536,
    ;
}

/// Reconstructing a three-byte value from its big-endian bytes.
proof fn lemma_join_word(v: int)
    requires
        0 <= v < 16777216,
    ensures
        (v / 65536) * 65536 + ((v / 256) % 256) * 256 + v % 256 == v,
        0 <= v / 65536 < 256,
        0 <= (v / 256) % 256 < 256,
        0 <= v % 256 < 256,
{
    assert((v / 65536) * 65536 + ((v / 256) % 256) * 256 + v % 256 == v) by (nonlinear_arith)
        requires
            0 <= v < 16777216,
    ;
    assert(0 <= v / 65536 < 256) by (nonlinear_arith)
        requires
            0 <= v < 16777216,
    ;
}

/// Law (round trip, encode direction): a line the assembler accepts
/// assembles to four bytes that decode back to the very operand
/// values written in the line: the opcode is the mnemonic's, each
/// carrying slot decodes to the number in its token, and each unused
/// slot decodes to an empty operand.
pub proof fn lemma_assembled_line_decodes(tokens: Seq<Seq<char>>)
    requires
        spec_assemble_line(tokens) is Ok,
    ensures
        ({
            let bytes = spec_assemble_line(tokens).unwrap();
            let opcode = spec_lookup_mnemonic(tokens[0]).unwrap();
            let ops = spec_operand_types_of(opcode).unwrap();
            let decoded = spec_operands(ops, bytes, 1);
            &&& bytes.len() == 4
            &&& bytes[0] == opcode
            &&& spec_opcode_registered(opcode)
            &&& (ops[0] is Unused ==> decoded[0] is Empty)
            &&& (ops[1] is Unused ==> decoded[1] is Empty)
            &&& (ops[2] is Unused ==> decoded[2] is Empty)
            &&& (!(ops[0] is Unused) ==> spec_operand_number(decoded[0]) == spec_parse_decimal(
                tokens[1],
            ).unwrap())
            &&& (!(ops[1] is Unused) ==> spec_operand_number(decoded[1]) == spec_parse_decimal(
                tokens[2],
            ).unwrap())
            &&& (!(ops[2] is Unused) ==> spec_operand_number(decoded[2]) == spec_parse_decimal(
                tokens[3],
            ).unwrap())
        }),
{
    reveal_with_fuel(spec_slots, 5);
    let bytes = spec_assemble_line(tokens).unwrap();
    let opcode = spec_lookup_mnemonic(tokens[0]).unwrap();
    let ops = spec_operand_types_of(opcode).unwrap();
    let decoded = spec_operands(ops, bytes, 1);

    let no_operands = seq![OperandType::Unused, OperandType::Unused, OperandType::Unused];
    let register_constant = seq![
        OperandType::RegisterId,
        OperandType::ConstantHalfWord,
        OperandType::Unused,
    ];
    let wide_constant = seq![OperandType::ConstantWord, OperandType::Unused, OperandType::Unused];
    let three_registers = seq![
        OperandType::RegisterId,
        OperandType::RegisterId,
        OperandType::RegisterId,
    ];
    assert(ops == no_operands || ops == register_constant || ops == wide_constant || ops
        == three_registers);

    if ops == no_operands {
        assert(spec_slots(ops, tokens, 0, 1) == spec_slots(ops, tokens, 3, 1));
    } else if ops == register_constant {
        let v0 = spec_parse_decimal(tokens[1]).unwrap();
        let v1 = spec_parse_decimal(tokens[2]).unwrap();
        lemma_decimal_value_nonneg(tokens[1]);
        lemma_decimal_value_nonneg(tokens[2]);
        assert(0 <= v0 < 32 && 0 <= v1 < 65536);
        lemma_join_halfword(v1);
        assert(decoded[1] == spec_operand_value(ops[1], bytes, 2));
    } else if ops == wide_constant {
        let v0 = spec_parse_decimal(tokens[1]).unwrap();
        lemma_decimal_value_nonneg(tokens[1]);
        assert(0 <= v0 < 16777216);
        lemma_join_word(v0);
        assert(decoded[0] == spec_operand_value(ops[0], bytes, 1));
    } else {
        let v0 = spec_parse_decimal(tokens[1]).unwrap();
        let v1 = spec_parse_decimal(tokens[2]).unwrap();
        let v2 = spec_parse_decimal(tokens[3]).unwrap();
        lemma_decimal_value_nonneg(tokens[1]);
        lemma_decimal_value_nonneg(tokens[2]);
        lemma_decimal_value_nonneg(tokens[3]);
        assert(decoded[1] == spec_operand_value(ops[1], bytes, 2));
        assert(decoded[2] == spec_operand_value(ops[2], bytes, 3));
    }
}

/// Parses a token of decimal digits, capping the result at values
/// that already exceed every operand range.
fn parse_decimal_capped(s: &str) -> (r: Option<u64>)
    ensures
        r is Some <==> spec_parse_decimal(s@) is Some,
        r matches Some(v) ==> {
            let value = spec_parse_decimal(s@).unwrap();
            &&& value < 0x1_0000_0000 ==> v == value
            &&& value >= 0x1_0000_0000 ==> v >= 0x1_0000_0000
        },
{
    let len = s.unicode_len();
    if len == 0 {
        return None;
    }

    let mut i: usize = 0;
    while i < len
        invariant
            i <= len == s@.len(),
            forall|j: int| 0 <= j < i ==> spec_is_dec_digit(s@[j]),
        decreases len - i,
    {
        let c = s.get_char(i);
        if !('0' <= c && c <= '9') {
            return None;
        }
        i = i + 1;
    }

    let mut value: u64 = 0;
    let mut i: usize = 0;
    while i < len
        invariant
            i <= len == s@.len(),
            forall|j: int| 0 <= j < len ==> spec_is_dec_digit(s@[j]),
            spec_decimal_value(s@.subrange(0, i as int)) < 0x1_0000_0000 ==> value
                == spec_decimal_value(s@.subrange(0, i as int)),
            spec_decimal_value(s@.subrange(0, i as int)) >= 0x1_0000_0000 ==> 0x1_0000_0000
                <= value,
            value < 0x10_0000_0000,
        decreases len - i,
    {
        let c = s.get_char(i);
        let digit = (c as u8) - ('0' as u8);
        proof {
            let prefix = s@.subrange(0, i as int);
            let longer = s@.subrange(0, i + 1 as int);
            assert(longer.drop_last() =~= prefix);
            assert(longer.last() == s@[i as int]);
        }
        if value < 0x1_0000_0000 {
            value = value * 10 + digit as u64;
        }
        i = i + 1;
    }
    proof {
        assert(s@.subrange(0, len as int) =~= s@);
    }
    Some(value)
}

/// The first value too large for an operand slot of type `t`.
fn operand_limit(t: OperandType) -> (r: u32)
    ensures
        r == spec_operand_limit(t),
{
    match t {
        OperandType::Unused => 0,
        OperandType::RegisterId => 32,
        OperandType::ConstantByte => 256,
        OperandType::ConstantHalfWord => 65536,
        OperandType::ConstantWord => 16777216,
    }
}

/// Encodes one operand token into the bytes of its signature slot.
fn encode_slot(t: OperandType, token: &str) -> (r: Result<Vec<u8>, AssemblerError>)
    requires
        !(t is Unused),
    ensures
        match spec_parse_decimal(token@) {
            None => r == Err::<Vec<u8>, _>(AssemblerError::MalformedOperand),
            Some(value) => if value >= spec_operand_limit(t) {
                r == Err::<Vec<u8>, _>(AssemblerError::OperandOutOfRange)
            } else {
                r matches Ok(bytes) && bytes@ == spec_encode_operand(t, value)
            },
        },
{
    let value = match parse_decimal_capped(token) {
        Some(value) => value,
        None => {
            return Err(AssemblerError::MalformedOperand);
        },
    };
    let limit = operand_limit(t);
    if value >= limit as u64 {
        return Err(AssemblerError::OperandOutOfRange);
    }
    let value = value as u32;

    let bytes: Vec<u8> = match t {
        OperandType::Unused => Vec::new(),
        OperandType::RegisterId => vec![value as u8],
        OperandType::ConstantByte => vec![value as u8],
        OperandType::ConstantHalfWord => vec![(value / 256) as u8, (value % 256) as u8],
        OperandType::ConstantWord => vec![
            (value / 65536) as u8,
            ((value / 256) % 256) as u8,
            (value % 256) as u8,
        ],
    };
    proof {
        assert(bytes@ =~= spec_encode_operand(t, spec_parse_decimal(token@).unwrap()));
    }
    Ok(bytes)
}

/// Assembles one tokenized line into its four instruction bytes.
#[verifier::loop_isolation(false)]
#[verifier::rlimit(60)]
fn assemble_line(line: &Vec<&str>) -> (r: Result<Vec<u8>, AssemblerError>)
    ensures
        match spec_assemble_line(line.deep_view()) {
            Err(e) => r == Err::<Vec<u8>, _>(e),
            Ok(bytes) => r matches Ok(out) && out@ == bytes,
        },
{
    proof {
        reveal_with_fuel(spec_slots, 5);
    }
    let ghost tokens = line.deep_view();
    if line.len() == 0 {
        return Err(AssemblerError::UnknownMnemonic);
    }

    let entry = match InstructionRegistry::get(line[0]) {
        Some(entry) => entry,
        None => {
            return Err(AssemblerError::UnknownMnemonic);
        },
    };
    let ghost opcode = entry.1;
    let ghost ops = spec_operand_types_of(opcode).unwrap();
    proof {
        assert(tokens[0] == line@[0]@);
        assert(spec_lookup_mnemonic(tokens[0]) == Some(opcode));
        assert(entry.2@ == ops);
    }

    let expected: usize = (if matches!(entry.2[0], OperandType::Unused) {
        0
    } else {
        1
    }) + (if matches!(entry.2[1], OperandType::Unused) {
        0
    } else {
        1
    }) + (if matches!(entry.2[2], OperandType::Unused) {
        0
    } else {
        1
    });
    if line.len() != 1 + expected {
        return Err(AssemblerError::WrongOperandCount);
    }

    let mut cursor: usize = 1;
    let slot0: Vec<u8> = if matches!(entry.2[0], OperandType::Unused) {
        Vec::new()
    } else {
        proof {
            assert(tokens[cursor as int] == line@[cursor as int]@);
        }
        let encoded = match encode_slot(entry.2[0], line[cursor]) {
            Ok(encoded) => encoded,
            Err(e) => {
                proof {
                    assert(spec_slots(ops, tokens, 0, 1) == Err::<Seq<u8>, AssemblerError>(e));
                }
                return Err(e);
            },
        };
        cursor = cursor + 1;
        encoded
    };
    let ghost cursor1 = cursor as int;

    let slot1: Vec<u8> = if matches!(entry.2[1], OperandType::Unused) {
        Vec::new()
    } else {
        proof {
            assert(tokens[cursor as int] == line@[cursor as int]@);
        }
        let encoded = match encode_slot(entry.2[1], line[cursor]) {
            Ok(encoded) => encoded,
            Err(e) => {
                proof {
                    assert(spec_slots(ops, tokens, 1, cursor1) == Err::<Seq<u8>, AssemblerError>(
                        e,
                    ));
                    assert(spec_slots(ops, tokens, 0, 1) == Err::<Seq<u8>, AssemblerError>(e));
                }
                return Err(e);
            },
        };
        cursor = cursor + 1;
        encoded
    };
    let ghost cursor2 = cursor as int;

    let slot2: Vec<u8> = if matches!(entry.2[2], OperandType::Unused) {
        Vec::new()
    } else {
        proof {
            assert(tokens[cursor as int] == line@[cursor as int]@);
        }
        let encoded = match encode_slot(entry.2[2], line[cursor]) {
            Ok(encoded) => encoded,
            Err(e) => {
                proof {
                    assert(spec_slots(ops, tokens, 2, cursor2) == Err::<Seq<u8>, AssemblerError>(
                        e,
                    ));
                    assert(spec_slots(ops, tokens, 1, cursor1) == Err::<Seq<u8>, AssemblerError>(
                        e,
                    ));
                    assert(spec_slots(ops, tokens, 0, 1) == Err::<Seq<u8>, AssemblerError>(e));
                }
                return Err(e);
            },
        };
        cursor = cursor + 1;
        encoded
    };

    proof {
        assert(spec_slots(ops, tokens, 3, cursor as int) == Ok::<Seq<u8>, AssemblerError>(
            Seq::<u8>::empty(),
        ));
        assert(spec_slots(ops, tokens, 3, cursor2 + 1) == Ok::<Seq<u8>, AssemblerError>(
            Seq::<u8>::empty(),
        ));
        assert(spec_slots(ops, tokens, 3, cursor2) == Ok::<Seq<u8>, AssemblerError>(
            Seq::<u8>::empty(),
        ));
        assert(slot2@ + Seq::<u8>::empty() =~= slot2@);
        assert(spec_slots(ops, tokens, 2, cursor2) == Ok::<Seq<u8>, AssemblerError>(slot2@));
        if ops[1] is Unused {
            assert(slot1@ + slot2@ =~= slot2@);
        }
        assert(spec_slots(ops, tokens, 1, cursor1) == Ok::<Seq<u8>, AssemblerError>(
            slot1@ + slot2@,
        ));
        if ops[0] is Unused {
            assert(slot0@ + (slot1@ + slot2@) =~= slot1@ + slot2@);
        }
        assert(spec_slots(ops, tokens, 0, 1) == Ok::<Seq<u8>, AssemblerError>(
            slot0@ + (slot1@ + slot2@),
        ));
    }
    let ghost body = slot0@ + (slot1@ + slot2@);

    let mut bytes: Vec<u8> = Vec::new();
    bytes.push(entry.1);
    let mut rest0 = slot0;
    bytes.append(&mut rest0);
    let mut rest1 = slot1;
    bytes.append(&mut rest1);
    let mut rest2 = slot2;
    bytes.append(&mut rest2);

    let ghost core = bytes@;
    proof {
        assert(core =~= seq![opcode] + body);
    }
    while bytes.len() < 4
        invariant
            core.len() <= bytes@.len(),
            bytes@.len() <= 4 || bytes@.len() == core.len(),
            bytes@ == core + Seq::new((bytes@.len() - core.len()) as nat, |i: int| 0u8),
        decreases 4 - bytes.len(),
    {
        bytes.push(0);
        proof {
            assert(bytes@ =~= core + Seq::new((bytes@.len() - core.len()) as nat, |i: int| 0u8));
        }
    }

    proof {
        if core.len() <= 4 {
            assert(bytes@.len() == 4);
            assert(bytes@ =~= seq![opcode] + body + Seq::new(
                (3 - body.len()) as nat,
                |i: int| 0u8,
            ));
        } else {
            assert(bytes@ =~= seq![opcode] + body);
        }
    }
    Ok(bytes)
}

/// Core structure for the assembler.
pub struct Assembler {}

impl Assembler {
    /// Creates a new assembler.
    pub fn new() -> (r: Self) {
        Assembler {}
    }

    /// Assembles tokenized assembly lines into a bytecode program.
    #[verifier::loop_isolation(false)]
    pub fn assemble_parsed_asm(&self, parsed: Vec<Vec<&str>>) -> (r: Result<
        Program,
        AssemblerError,
    >)
        ensures
            match spec_assemble(parsed.deep_view()) {
                Err(e) => r == Err::<Program, _>(e),
                Ok(bytes) => r matches Ok(program) && program@ == bytes,
            },
    {
        let ghost lines = parsed.deep_view();
        proof {
            assert(lines.skip(0) =~= lines);
        }
        let mut bytes: Vec<u8> = Vec::new();
        let mut i: usize = 0;
        while i < parsed.len()
            invariant
                i <= parsed.len(),
                lines.len() == parsed.len(),
                forall|k: int| 0 <= k < lines.len() ==> lines[k] == parsed[k].deep_view(),
                match spec_assemble(lines.skip(i as int)) {
                    Err(e) => spec_assemble(lines) == Err::<Seq<u8>, _>(e),
                    Ok(rest) => spec_assemble(lines) == Ok::<Seq<u8>, AssemblerError>(
                        bytes@ + rest,
                    ),
                },
            decreases parsed.len() - i,
        {
            let ghost remaining = lines.skip(i as int);
            proof {
                assert(remaining[0] == lines[i as int]);
                assert(remaining.skip(1) =~= lines.skip(i + 1));
            }
            let line_bytes = match assemble_line(&parsed[i]) {
                Ok(line_bytes) => line_bytes,
                Err(e) => {
                    proof {
                        assert(spec_assemble(remaining) == Err::<Seq<u8>, AssemblerError>(e));
                    }
                    return Err(e);
                },
            };
            let ghost prev_bytes = bytes@;
            let ghost emitted = line_bytes@;
            let mut rest = line_bytes;
            bytes.append(&mut rest);
            i = i + 1;
            proof {
                match spec_assemble(lines.skip(i as int)) {
                    Err(e) => {
                        assert(spec_assemble(remaining) == Err::<Seq<u8>, AssemblerError>(e));
                    },
                    Ok(rest_bytes) => {
                        assert(spec_assemble(remaining) == Ok::<Seq<u8>, AssemblerError>(
                            emitted + rest_bytes,
                        ));
                        assert(prev_bytes + (emitted + rest_bytes) =~= bytes@ + rest_bytes);
                    },
                }
            }
        }
        proof {
            assert(lines.skip(parsed.len() as int) =~= Seq::<Seq<Seq<char>>>::empty());
            assert(bytes@ + Seq::<u8>::empty() =~= bytes@);
        }
        Ok(Program::from(bytes))
    }
}

/// Assembles tokenized assembly lines into a bytecode program.
pub fn into_bytecode(parsed: Vec<Vec<&str>>) -> (r: Result<Program, AssemblerError>)
    ensures
        match spec_assemble(parsed.deep_view()) {
            Err(e) => r == Err::<Program, _>(e),
            Ok(bytes) => r matches Ok(program) && program@ == bytes,
        },
{
    let assembler = Assembler::new();
    assembler.assemble_parsed_asm(parsed)
}

} // verus!
