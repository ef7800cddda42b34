//! Instructions, and the two compute-budget instructions that lead every
//! transaction.
//!
//! An [`Instruction`] holds, as plain bytes, what the ledger's instruction
//! holds: the address of the program, the accounts it touches, and its data.
//! The library reads of it the addresses and the lengths of the lists, to
//! see whether a message can hold them; it puts the caller's instructions,
//! in their order, behind a compute-unit limit and a compute-unit price.

use vstd::prelude::*;

verus! {

/// An account that an instruction touches.
#[derive(Debug, PartialEq, Eq)]
pub struct AccountMeta {
    /// The account's address.
    pub pubkey: [u8; 32],
    /// Whether the account signs the transaction.
    pub is_signer: bool,
    /// Whether the instruction may write to the account.
    pub is_writable: bool,
}

/// One operation of a transaction.
#[derive(Debug, PartialEq, Eq)]
pub struct Instruction {
    /// The address of the program that executes the instruction.
    pub program_id: [u8; 32],
    /// The accounts that the instruction touches.
    pub accounts: Vec<AccountMeta>,
    /// The instruction's data, as the program reads it.
    pub data: Vec<u8>,
}

/// The address of the compute-budget program,
/// `ComputeBudget111111111111111111111111111111`.
pub const COMPUTE_BUDGET_PROGRAM: [u8; 32] = [
    3, 6, 70, 111, 229, 33, 23, 50, 255, 236, 173, 186, 114, 195, 155, 231,
    188, 140, 229, 187, 197, 247, 18, 107, 44, 67, 155, 58, 64, 0, 0, 0,
];

/// The tag of the compute-budget program's "set compute-unit limit".
pub const SET_COMPUTE_UNIT_LIMIT: u8 = 2;

/// The tag of the compute-budget program's "set compute-unit price".
pub const SET_COMPUTE_UNIT_PRICE: u8 = 3;

/// The four bytes of `x`, least significant first.
pub open spec fn le_bytes_u32(x: u32) -> Seq<u8> {
    seq![
        (x % 0x100) as u8,
        (x / 0x100 % 0x100) as u8,
        (x / 0x1_0000 % 0x100) as u8,
        (x / 0x100_0000 % 0x100) as u8,
    ]
}

/// The eight bytes of `x`, least significant first.
pub open spec fn le_bytes_u64(x: u64) -> Seq<u8> {
    seq![
        (x % 0x100) as u8,
        (x / 0x100 % 0x100) as u8,
        (x / 0x1_0000 % 0x100) as u8,
        (x / 0x100_0000 % 0x100) as u8,
        (x / 0x1_0000_0000 % 0x100) as u8,
        (x / 0x100_0000_0000 % 0x100) as u8,
        (x / 0x1_0000_0000_0000 % 0x100) as u8,
        (x / 0x100_0000_0000_0000 % 0x100) as u8,
    ]
}

/// The data of "set compute-unit limit": the tag, then the limit.
pub open spec fn limit_data(units: u32) -> Seq<u8> {
    seq![SET_COMPUTE_UNIT_LIMIT] + le_bytes_u32(units)
}

/// The data of "set compute-unit price": the tag, then the price in
/// micro-lamports per compute unit.
pub open spec fn price_data(micro_lamports: u64) -> Seq<u8> {
    seq![SET_COMPUTE_UNIT_PRICE] + le_bytes_u64(micro_lamports)
}

impl Instruction {
    /// The instruction is one of the compute-budget program, touches no
    /// account, and carries `data`.
    pub open spec fn is_compute_budget(self, data: Seq<u8>) -> bool {
        &&& self.program_id@ == COMPUTE_BUDGET_PROGRAM@
        &&& self.accounts@.len() == 0
        &&& self.data@ == data
    }

    /// The instruction sets the compute-unit limit to `units`.
    pub open spec fn sets_limit(self, units: u32) -> bool {
        self.is_compute_budget(limit_data(units))
    }

    /// The instruction sets the compute-unit price to `micro_lamports`.
    pub open spec fn sets_price(self, micro_lamports: u64) -> bool {
        self.is_compute_budget(price_data(micro_lamports))
    }
}

/// The instruction list of a transaction: a compute-unit limit, a compute-unit
/// price, then the caller's instructions in their order.
pub open spec fn is_assembled(
    assembled: Seq<Instruction>,
    instructions: Seq<Instruction>,
    compute_limit: u32,
    price: u64,
) -> bool {
    &&& assembled.len() == instructions.len() + 2
    &&& assembled[0].sets_limit(compute_limit)
    &&& assembled[1].sets_price(price)
    &&& assembled.skip(2) == instructions
}

/// Calls `ComputeBudgetInstruction::set_compute_unit_limit` of `solana_sdk`
/// and copies the result out field by field. The contract states what the
/// function's source shows: the instruction is addressed to the
/// compute-budget program, names no account, and its data is the borsh
/// encoding of the variant `SetComputeUnitLimit(units)`, which is the
/// variant's index 2 in one byte followed by `units` in four bytes, least
/// significant first.
#[verifier::external_body]
pub(crate) fn compute_unit_limit_instruction(units: u32) -> (instruction: Instruction)
    ensures
        instruction.sets_limit(units),
{
    let made = solana_sdk::compute_budget::ComputeBudgetInstruction::set_compute_unit_limit(units);
    Instruction {
        program_id: made.program_id.to_bytes(),
        accounts: made.accounts.iter().map(|meta| AccountMeta {
            pubkey: meta.pubkey.to_bytes(),
            is_signer: meta.is_signer,
            is_writable: meta.is_writable,
        }).collect(),
        data: made.data,
    }
}

/// Calls `ComputeBudgetInstruction::set_compute_unit_price` of `solana_sdk`
/// and copies the result out field by field. The contract states what the
/// function's source shows: the instruction is addressed to the
/// compute-budget program, names no account, and its data is the borsh
/// encoding of the variant `SetComputeUnitPrice(micro_lamports)`, which is
/// the variant's index 3 in one byte followed by `micro_lamports` in eight
/// bytes, least significant first.
#[verifier::external_body]
pub(crate) fn compute_unit_price_instruction(micro_lamports: u64) -> (instruction: Instruction)
    ensures
        instruction.sets_price(micro_lamports),
{
    let made = solana_sdk::compute_budget::ComputeBudgetInstruction::set_compute_unit_price(
        micro_lamports,
    );
    Instruction {
        program_id: made.program_id.to_bytes(),
        accounts: made.accounts.iter().map(|meta| AccountMeta {
            pubkey: meta.pubkey.to_bytes(),
            is_signer: meta.is_signer,
            is_writable: meta.is_writable,
        }).collect(),
        data: made.data,
    }
}

/// Puts the compute-unit limit and the compute-unit price in front of the
/// caller's instructions, which keep their order.
pub fn assemble_instructions(instructions: Vec<Instruction>, compute_limit: u32, price: u64) -> (assembled:
    Vec<Instruction>)
    ensures
        is_assembled(assembled@, instructions@, compute_limit, price),
{
    let mut instructions = instructions;
    let mut assembled: Vec<Instruction> = Vec::new();
    assembled.push(compute_unit_limit_instruction(compute_limit));
    assembled.push(compute_unit_price_instruction(price));
    let ghost head = assembled@;
    let ghost tail = instructions@;
    assembled.append(&mut instructions);
    assert(assembled@ == head + tail);
    assert(assembled@.skip(2) =~= tail);
    assembled
}

} // verus!
