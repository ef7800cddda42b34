//! Building and signing the transaction.
//!
//! The message of a transaction lists the fee payer and every program and
//! account of its instructions once, and counts them in single bytes; on the
//! wire, the length of every list is stated in sixteen bits. The library
//! refuses instructions that name more distinct addresses, or hold longer
//! lists, than that. The authority signs; the fee payer signs too, unless it
//! is the authority.

use vstd::prelude::*;
use solana_sdk::signer::keypair::Keypair;
use solana_sdk::signer::SignerError;
use solana_sdk::transaction::Transaction;
use crate::instruction::{AccountMeta, Instruction, COMPUTE_BUDGET_PROGRAM};
use crate::instruction::{assemble_instructions, is_assembled};

verus! {

/// The most distinct addresses that the instructions of one transaction may
/// name, programs and accounts together. With the fee payer they are the most
/// that a message header counts.
pub const MAX_NAMED_KEYS: usize = 254;

/// The longest list whose length the wire format can state.
pub const MAX_WIRE_LEN: usize = 65535;

/// Why no transaction was built.
#[derive(Debug, PartialEq, Eq)]
pub enum AssembleError {
    /// The instructions, or the accounts or the data of one of them, are more
    /// than the wire format can state the number of.
    TooLong,
    /// The instructions name more distinct addresses than a message can
    /// count.
    TooManyAccounts,
    /// The signing call refused, with its own error.
    Signing(SignerError),
}

/// A signed transaction, with what it was made from.
#[derive(Debug, PartialEq, Eq)]
pub struct SignedTransaction {
    /// The instructions of the message, in order.
    pub instructions: Vec<Instruction>,
    /// The address of the authority.
    pub authority: [u8; 32],
    /// The address of the fee payer.
    pub fee_payer: [u8; 32],
    /// The addresses that signed, in the order of their signing.
    pub signers: Vec<[u8; 32]>,
    /// The transaction as the transport takes it.
    pub transaction: Transaction,
}

/// A transaction that the ledger's constructor has just made and that nothing
/// has touched since: its signature slots are as many as its message
/// requires, and its message is made of instructions that fit the wire.
struct Draft {
    transaction: Transaction,
}

/// The addresses that an instruction names, in the order of naming: its
/// program, then its accounts.
pub open spec fn names_of(instruction: Instruction) -> Seq<[u8; 32]> {
    seq![instruction.program_id] + instruction.accounts@.map_values(
        |meta: AccountMeta| meta.pubkey,
    )
}

/// The addresses that a list of instructions names, in the order of naming.
pub open spec fn mentions(instructions: Seq<Instruction>) -> Seq<[u8; 32]>
    decreases instructions.len(),
{
    if instructions.len() == 0 {
        Seq::empty()
    } else {
        mentions(instructions.drop_last()) + names_of(instructions.last())
    }
}

/// The distinct addresses that a list of instructions names.
pub open spec fn named_keys(instructions: Seq<Instruction>) -> Set<[u8; 32]> {
    mentions(instructions).to_set()
}

/// Whether a message can hold the caller's instructions together with the two
/// compute-budget instructions, which name their program and nothing else.
pub open spec fn has_room(instructions: Seq<Instruction>) -> bool {
    named_keys(instructions).insert(COMPUTE_BUDGET_PROGRAM).len() <= MAX_NAMED_KEYS
}

/// Whether the wire format can state the length of every list of an
/// instruction.
pub open spec fn fits_wire(instruction: Instruction) -> bool {
    instruction.accounts@.len() <= MAX_WIRE_LEN && instruction.data@.len() <= MAX_WIRE_LEN
}

/// Whether the wire format can state the length of a list of instructions
/// and of every list in it.
pub open spec fn all_fit_wire(instructions: Seq<Instruction>) -> bool {
    &&& instructions.len() <= MAX_WIRE_LEN
    &&& forall|i: int| 0 <= i < instructions.len() ==> fits_wire(#[trigger] instructions[i])
}

/// Whether the wire format can state the caller's instructions together with
/// the two compute-budget instructions.
pub open spec fn is_sendable(instructions: Seq<Instruction>) -> bool {
    &&& instructions.len() + 2 <= MAX_WIRE_LEN
    &&& forall|i: int| 0 <= i < instructions.len() ==> fits_wire(#[trigger] instructions[i])
}

/// The address of a key pair: what `Signer::pubkey` of `solana_sdk` returns
/// for it, as bytes.
pub uninterp spec fn address_of(keypair: Keypair) -> [u8; 32];

/// The addresses that must sign a transaction: the first
/// `num_required_signatures` of its message's account keys, which are the ones
/// that `Transaction::try_sign` of `solana_sdk` looks the signers up in.
pub uninterp spec fn required_signers(transaction: Transaction) -> Set<[u8; 32]>;

/// What `Transaction::is_signed` of `solana_sdk` returns for a transaction:
/// whether every signature slot is filled.
pub uninterp spec fn is_signed(transaction: Transaction) -> bool;

/// The address that pays for a transaction: the first of its message's
/// account keys.
pub uninterp spec fn fee_payer_of(transaction: Transaction) -> [u8; 32];

/// The blockhash that a transaction's message holds.
pub uninterp spec fn blockhash_of(transaction: Transaction) -> [u8; 32];

/// Whether an instruction names `key` as an account that signs.
pub open spec fn signs_in(instruction: Instruction, key: [u8; 32]) -> bool {
    exists|j: int|
        0 <= j < instruction.accounts@.len() && (#[trigger] instruction.accounts@[j]).pubkey == key
            && instruction.accounts@[j].is_signer
}

/// Whether some instruction of the list names `key` as an account that signs.
pub open spec fn requires_signature(instructions: Seq<Instruction>, key: [u8; 32]) -> bool {
    exists|i: int| 0 <= i < instructions.len() && signs_in(#[trigger] instructions[i], key)
}

/// Whether the signers are the ones that a transaction requires: each of them
/// is required, and each required address is that of one of them.
pub open spec fn signers_fit(required: Set<[u8; 32]>, signers: Seq<&Keypair>) -> bool {
    &&& forall|i: int| 0 <= i < signers.len() ==> required.contains(address_of(*#[trigger] signers[i]))
    &&& forall|key: [u8; 32]| #[trigger]
        required.contains(key) ==> exists|i: int|
            0 <= i < signers.len() && address_of(*#[trigger] signers[i]) == key
}

/// Whether the authority and the fee payer are the signers that the
/// instructions call for: the authority pays the fee or is named as a signer,
/// and nobody else is named as one.
pub open spec fn signing_accepts(
    instructions: Seq<Instruction>,
    authority: [u8; 32],
    fee_payer: [u8; 32],
) -> bool {
    &&& authority == fee_payer || requires_signature(instructions, authority)
    &&& forall|key: [u8; 32]| #[trigger]
        requires_signature(instructions, key) ==> key == authority || key == fee_payer
}

/// The addresses that sign: the authority, and the fee payer where it is not
/// the authority.
pub open spec fn signer_addresses(authority: [u8; 32], fee_payer: [u8; 32]) -> Seq<[u8; 32]> {
    if authority == fee_payer {
        seq![authority]
    } else {
        seq![authority, fee_payer]
    }
}

impl SignedTransaction {
    /// One signer where the authority pays the fee, else two: first the
    /// authority, then the fee payer.
    pub open spec fn wf(self) -> bool {
        self.signers@ == signer_addresses(self.authority, self.fee_payer)
    }

    /// The number of signatures.
    pub fn signature_count(&self) -> (count: usize)
        ensures
            count == self.signers@.len(),
            self.wf() ==> count == (if self.authority == self.fee_payer {
                1usize
            } else {
                2usize
            }),
    {
        self.signers.len()
    }
}

/// A transaction carries one signature where the authority pays the fee and
/// two where another does: the authority's and then the fee payer's.
pub proof fn law_signer_count(authority: [u8; 32], fee_payer: [u8; 32])
    ensures
        signer_addresses(authority, fee_payer).len() == (if authority == fee_payer {
            1nat
        } else {
            2nat
        }),
        signer_addresses(authority, fee_payer)[0] == authority,
        authority != fee_payer ==> signer_addresses(authority, fee_payer)[1] == fee_payer,
        signer_addresses(authority, fee_payer).no_duplicates(),
{
}

/// The addresses that a list names are those that its parts name, in order.
pub proof fn lemma_mentions_add(first: Seq<Instruction>, second: Seq<Instruction>)
    ensures
        mentions(first + second) == mentions(first) + mentions(second),
    decreases second.len(),
{
    if second.len() == 0 {
        assert(first + second =~= first);
        assert(mentions(first) + mentions(second) =~= mentions(first));
    } else {
        lemma_mentions_add(first, second.drop_last());
        assert((first + second).drop_last() =~= first + second.drop_last());
        assert((first + second).last() == second.last());
        assert(mentions(first + second) =~= mentions(first) + mentions(second));
    }
}

/// The two compute-budget instructions in front of a list name no account,
/// so the assembled list requires the signatures that the caller's
/// instructions require.
pub proof fn lemma_assembly_requires_no_signature(
    assembled: Seq<Instruction>,
    instructions: Seq<Instruction>,
    compute_limit: u32,
    price: u64,
    key: [u8; 32],
)
    requires
        is_assembled(assembled, instructions, compute_limit, price),
    ensures
        requires_signature(assembled, key) <==> requires_signature(instructions, key),
{
    if requires_signature(assembled, key) {
        let i = choose|i: int| 0 <= i < assembled.len() && signs_in(#[trigger] assembled[i], key);
        assert(i >= 2);
        assert(assembled.skip(2)[i - 2] == assembled[i]);
        assert(signs_in(instructions[i - 2], key));
    }
    if requires_signature(instructions, key) {
        let i = choose|i: int|
            0 <= i < instructions.len() && signs_in(#[trigger] instructions[i], key);
        assert(assembled.skip(2)[i] == assembled[i + 2]);
        assert(signs_in(assembled[i + 2], key));
    }
}

/// Where a message requires the fee payer and whoever the instructions name
/// as a signer, the authority, with the fee payer where it is another, are
/// the required signers exactly where the instructions call for the two, and
/// the required addresses are then theirs.
proof fn lemma_fitting_signers(
    required: Set<[u8; 32]>,
    instructions: Seq<Instruction>,
    signers: Seq<&Keypair>,
    authority: &Keypair,
    fee_payer: &Keypair,
)
    requires
        forall|key: [u8; 32]| #[trigger]
            required.contains(key) <==> (key == address_of(*fee_payer) || requires_signature(
                instructions,
                key,
            )),
        signers == (if address_of(*authority) == address_of(*fee_payer) {
            seq![authority]
        } else {
            seq![authority, fee_payer]
        }),
    ensures
        signers_fit(required, signers) <==> signing_accepts(
            instructions,
            address_of(*authority),
            address_of(*fee_payer),
        ),
        signers_fit(required, signers) ==> forall|key: [u8; 32]| #[trigger]
            required.contains(key) <==> (key == address_of(*authority) || key == address_of(
                *fee_payer,
            )),
{
    let a = address_of(*authority);
    let p = address_of(*fee_payer);
    assert(*signers[0] == *authority);
    if a != p {
        assert(*signers[1] == *fee_payer);
    }
    if signers_fit(required, signers) {
        assert(required.contains(address_of(*signers[0])));
        assert forall|key: [u8; 32]| #[trigger] required.contains(key) implies key == a || key
            == p by {
            let i = choose|i: int| 0 <= i < signers.len() && address_of(*#[trigger] signers[i]) == key;
        }
        assert forall|key: [u8; 32]| #[trigger]
            requires_signature(instructions, key) implies key == a || key == p by {
            assert(required.contains(key));
        }
    }
    if signing_accepts(instructions, a, p) {
        assert forall|i: int| 0 <= i < signers.len() implies required.contains(
            address_of(*#[trigger] signers[i]),
        ) by {
            if i == 0 {
                assert(required.contains(a));
            } else {
                assert(required.contains(p));
            }
        }
        assert forall|key: [u8; 32]| #[trigger] required.contains(key) implies exists|i: int|
            0 <= i < signers.len() && address_of(*#[trigger] signers[i]) == key by {
            if key == a {
                assert(address_of(*signers[0]) == key);
            } else {
                assert(key == p);
                assert(address_of(*signers[1]) == key);
            }
        }
    }
}

/// Reads the address of a key pair: `Signer::pubkey` of `solana_sdk` on a
/// `Keypair`, and `Pubkey::to_bytes` on the result. The address is the public
/// half of the key pair and depends on nothing else, so it has a name.
#[verifier::external_body]
fn keypair_address(keypair: &Keypair) -> (address: [u8; 32])
    ensures
        address == address_of(*keypair),
{
    solana_sdk::signer::Signer::pubkey(keypair).to_bytes()
}

/// Calls `Transaction::new_with_payer` of `solana_sdk` on the instructions,
/// converted field by field, and the fee payer. The call panics only where
/// the signing, the read-only signing or the read-only unsigned addresses of
/// the message are more than 255; each of the three is a set of distinct
/// addresses among the fee payer and those that the instructions name, so the
/// bound required here rules that out. The lengths required here are not
/// needed by this call, but by the signing call that takes the draft.
///
/// The contract states which addresses the message requires to sign, as the
/// constructor compiles them: the fee payer, and every address that some
/// account of some instruction names with `is_signer` set; a program's
/// address as such is none. The fee payer is the first account key. No
/// signature slot is filled yet.
#[verifier::external_body]
fn unsigned_transaction(instructions: &Vec<Instruction>, fee_payer: &[u8; 32]) -> (draft: Draft)
    requires
        named_keys(instructions@).len() <= MAX_NAMED_KEYS,
        all_fit_wire(instructions@),
    ensures
        forall|key: [u8; 32]| #[trigger]
            required_signers(draft.transaction).contains(key) <==> (key == *fee_payer
                || requires_signature(instructions@, key)),
        fee_payer_of(draft.transaction) == *fee_payer,
        !is_signed(draft.transaction),
{
    let converted: Vec<solana_sdk::instruction::Instruction> = instructions.iter().map(|ix|
        solana_sdk::instruction::Instruction {
            program_id: solana_sdk::pubkey::Pubkey::from(ix.program_id),
            accounts: ix.accounts.iter().map(|meta| solana_sdk::instruction::AccountMeta {
                pubkey: solana_sdk::pubkey::Pubkey::from(meta.pubkey),
                is_signer: meta.is_signer,
                is_writable: meta.is_writable,
            }).collect(),
            data: ix.data.clone(),
        }).collect();
    let payer = solana_sdk::pubkey::Pubkey::from(*fee_payer);
    Draft { transaction: Transaction::new_with_payer(&converted, Some(&payer)) }
}

/// Calls `Transaction::try_sign` of `solana_sdk` with the signers and the
/// blockhash, and hands back the transaction where the call succeeded, the
/// call's error where it did not. The call indexes the signature slots by
/// positions below the number that the message requires, and a draft has that
/// many slots; it serializes the message, which panics on a list of more than
/// 65535 entries, and a draft's message has none.
///
/// The contract states when the call succeeds, as its source shows. It
/// refuses a signer whose address the message does not require; it then fills
/// the slot of each signer, and refuses unless every slot is filled. A key
/// pair always signs, and never with the empty signature that marks an
/// unfilled slot. So the call succeeds exactly where the signers are the
/// required ones. It sets the blockhash of the message to the one given,
/// and changes the signatures and nothing else.
#[verifier::external_body]
fn try_sign(draft: Draft, signers: &Vec<&Keypair>, blockhash: &[u8; 32]) -> (signed: Result<
    Transaction,
    SignerError,
>)
    ensures
        signed is Ok <==> signers_fit(required_signers(draft.transaction), signers@),
        signed matches Ok(transaction) ==> {
            &&& is_signed(transaction)
            &&& required_signers(transaction) == required_signers(draft.transaction)
            &&& fee_payer_of(transaction) == fee_payer_of(draft.transaction)
            &&& blockhash_of(transaction) == *blockhash
        },
{
    let mut transaction = draft.transaction;
    match transaction.try_sign(signers, solana_sdk::hash::Hash::new_from_array(*blockhash)) {
        Ok(()) => Ok(transaction),
        Err(refusal) => Err(refusal),
    }
}

/// Whether two addresses are the same.
pub fn same_address(a: &[u8; 32], b: &[u8; 32]) -> (same: bool)
    ensures
        same == (*a == *b),
{
    let mut i: usize = 0;
    while i < 32
        invariant
            i <= 32,
            forall|k: int| 0 <= k < i ==> a[k] == b[k],
        decreases 32 - i,
    {
        if a[i] != b[i] {
            return false;
        }
        i += 1;
    }
    assert(*a =~= *b);
    true
}

/// Whether the wire format can state the length of the list and of every list
/// in it.
pub fn check_wire(instructions: &Vec<Instruction>) -> (fit: bool)
    ensures
        fit == all_fit_wire(instructions@),
{
    if instructions.len() > MAX_WIRE_LEN {
        return false;
    }
    let mut i: usize = 0;
    while i < instructions.len()
        invariant
            i <= instructions.len(),
            instructions.len() <= MAX_WIRE_LEN,
            forall|k: int| 0 <= k < i ==> fits_wire(#[trigger] instructions@[k]),
        decreases instructions.len() - i,
    {
        let instruction = &instructions[i];
        if instruction.accounts.len() > MAX_WIRE_LEN || instruction.data.len() > MAX_WIRE_LEN {
            return false;
        }
        i += 1;
    }
    true
}

/// Whether `key` is among `seen`.
fn is_among(seen: &Vec<[u8; 32]>, key: &[u8; 32]) -> (found: bool)
    ensures
        found == seen@.contains(*key),
{
    let mut i: usize = 0;
    while i < seen.len()
        invariant
            i <= seen.len(),
            forall|k: int| 0 <= k < i ==> seen@[k] != *key,
        decreases seen.len() - i,
    {
        if same_address(&seen[i], key) {
            return true;
        }
        i += 1;
    }
    false
}

/// Adds `key` to the distinct addresses seen so far, unless it is one of
/// them. Refuses where that would make them more than `limit`.
fn note(seen: &mut Vec<[u8; 32]>, key: &[u8; 32], limit: usize) -> (noted: bool)
    requires
        old(seen)@.no_duplicates(),
        old(seen)@.len() <= limit,
    ensures
        final(seen)@.no_duplicates(),
        final(seen)@.len() <= limit,
        noted ==> final(seen)@.to_set() == old(seen)@.to_set().insert(*key),
        !noted ==> final(seen)@ == old(seen)@ && old(seen)@.len() == limit && !old(seen)@.contains(
            *key,
        ),
{
    if is_among(seen, key) {
        assert(seen@.to_set().insert(*key) =~= seen@.to_set());
        true
    } else if seen.len() == limit {
        false
    } else {
        let ghost before = seen@;
        seen.push(*key);
        proof {
            assert(seen@ =~= before + seq![*key]);
            Seq::lemma_to_set_insert_commutes(before, *key);
        }
        true
    }
}

/// More than `limit` distinct addresses are named where `limit` of them are
/// seen and another one is named.
proof fn lemma_one_too_many(seen: Seq<[u8; 32]>, key: [u8; 32], all: Seq<[u8; 32]>)
    requires
        seen.no_duplicates(),
        !seen.contains(key),
        all.contains(key),
        seen.to_set().subset_of(all.to_set()),
    ensures
        all.to_set().len() > seen.len(),
{
    let more = seen + seq![key];
    assert(more.no_duplicates());
    more.unique_seq_to_set();
    assert(more.to_set().subset_of(all.to_set())) by {
        assert forall|k: [u8; 32]| more.to_set().contains(k) implies all.to_set().contains(k) by {
            if k != key {
                assert(seen.contains(k));
                assert(seen.to_set().contains(k));
            }
        }
    }
    vstd::seq_lib::seq_to_set_is_finite(all);
    vstd::set_lib::lemma_len_subset(more.to_set(), all.to_set());
}

/// Whether the instructions name at most `limit` distinct addresses.
pub fn names_at_most(instructions: &Vec<Instruction>, limit: usize) -> (within: bool)
    ensures
        within == (named_keys(instructions@).len() <= limit),
{
    let ghost all = mentions(instructions@);
    let mut seen: Vec<[u8; 32]> = Vec::new();
    let mut i: usize = 0;
    assert(instructions@.take(0) =~= Seq::<Instruction>::empty());
    assert(seen@.to_set() =~= mentions(instructions@.take(0)).to_set());
    while i < instructions.len()
        invariant
            i <= instructions.len(),
            all == mentions(instructions@),
            seen@.no_duplicates(),
            seen@.len() <= limit,
            seen@.to_set() == mentions(instructions@.take(i as int)).to_set(),
        decreases instructions.len() - i,
    {
        let instruction = &instructions[i];
        let ghost before = mentions(instructions@.take(i as int));
        let ghost names = names_of(*instruction);
        proof {
            let next = instructions@.take(i + 1);
            assert(next.drop_last() =~= instructions@.take(i as int));
            assert(next.last() == *instruction);
            assert(mentions(next) == before + names);
            assert(instructions@ =~= next + instructions@.skip(i + 1));
            lemma_mentions_add(next, instructions@.skip(i + 1));
            assert(forall|k: int| 0 <= k < names.len() ==> all.contains(#[trigger] names[k])) by {
                assert forall|k: int| 0 <= k < names.len() implies all.contains(
                    #[trigger] names[k],
                ) by {
                    assert(all[before.len() + k] == names[k]);
                }
            }
            assert forall|k: int| 0 <= k < before.len() implies all.contains(
                #[trigger] before[k],
            ) by {
                assert(all[k] == before[k]);
            }
            assert(seen@.to_set().subset_of(all.to_set())) by {
                assert forall|key: [u8; 32]| seen@.to_set().contains(key) implies all.to_set().contains(
                    key,
                ) by {
                    assert(before.to_set().contains(key));
                    assert(before.contains(key));
                    let k = choose|k: int| 0 <= k < before.len() && before[k] == key;
                    assert(all[k] == key);
                }
            }
        }
        if !note(&mut seen, &instruction.program_id, limit) {
            proof {
                assert(names[0] == instruction.program_id);
                lemma_one_too_many(seen@, instruction.program_id, all);
            }
            return false;
        }
        proof {
            assert(names.take(1) =~= seq![instruction.program_id]);
            Seq::lemma_to_set_insert_commutes(before, instruction.program_id);
        }
        let mut j: usize = 0;
        while j < instruction.accounts.len()
            invariant
                j <= instruction.accounts.len(),
                i < instructions.len(),
                *instruction == instructions@[i as int],
                names == names_of(*instruction),
                before == mentions(instructions@.take(i as int)),
                all == mentions(instructions@),
                forall|k: int| 0 <= k < names.len() ==> all.contains(#[trigger] names[k]),
                forall|k: int| 0 <= k < before.len() ==> all.contains(#[trigger] before[k]),
                seen@.no_duplicates(),
                seen@.len() <= limit,
                seen@.to_set() == (before + names.take(j + 1)).to_set(),
            decreases instruction.accounts.len() - j,
        {
            let ghost prefix = before + names.take(j + 1);
            let key = &instruction.accounts[j].pubkey;
            assert(names[j + 1] == *key);
            proof {
                assert(seen@.to_set().subset_of(all.to_set())) by {
                    assert forall|k: [u8; 32]| seen@.to_set().contains(k) implies all.to_set().contains(
                        k,
                    ) by {
                        assert(prefix.contains(k));
                        let n = choose|n: int| 0 <= n < prefix.len() && prefix[n] == k;
                        if n < before.len() {
                            assert(before[n] == k);
                        } else {
                            assert(names[n - before.len()] == k);
                        }
                    }
                }
            }
            if !note(&mut seen, key, limit) {
                proof {
                    lemma_one_too_many(seen@, *key, all);
                }
                return false;
            }
            proof {
                assert(before + names.take(j + 2) =~= prefix + seq![*key]);
                Seq::lemma_to_set_insert_commutes(prefix, *key);
            }
            j += 1;
        }
        proof {
            assert(names.take(j + 1) =~= names);
        }
        i += 1;
    }
    proof {
        assert(instructions@.take(i as int) =~= instructions@);
        seen@.unique_seq_to_set();
    }
    true
}

/// The key pairs that sign a transaction, given their addresses: the
/// authority alone where it pays the fee, else the authority and then the fee
/// payer.
pub fn signing_set<'a>(
    authority: &'a Keypair,
    authority_address: &[u8; 32],
    fee_payer: &'a Keypair,
    fee_payer_address: &[u8; 32],
) -> (signers: Vec<&'a Keypair>)
    ensures
        signers@ == (if *authority_address == *fee_payer_address {
            seq![authority]
        } else {
            seq![authority, fee_payer]
        }),
        signers@.len() == signer_addresses(*authority_address, *fee_payer_address).len(),
{
    let mut signers: Vec<&'a Keypair> = Vec::new();
    signers.push(authority);
    if !same_address(authority_address, fee_payer_address) {
        signers.push(fee_payer);
    }
    signers
}

/// Builds and signs the transaction of a request: the compute-unit limit, the
/// compute-unit price and the caller's instructions, in that order, paid for
/// by `fee_payer` and signed by `authority` and, where it is another, by
/// `fee_payer`.
///
/// Instructions that the wire format cannot state, and then instructions
/// that name too many distinct addresses, are refused before anything is
/// built. Otherwise the transaction is built, and signed exactly where the
/// two key pairs are the signers that the instructions call for: the signing
/// call refuses where the authority neither pays the fee nor is named as a
/// signer, and where a third address is named as one. The signed transaction
/// is paid for by the fee payer, holds the blockhash given, and requires the
/// signatures of the two and of nobody else.
pub fn build(
    instructions: Vec<Instruction>,
    compute_limit: u32,
    price: u64,
    fee_payer: &Keypair,
    authority: &Keypair,
    blockhash: &[u8; 32],
) -> (built: Result<SignedTransaction, AssembleError>)
    ensures
        built == Err::<SignedTransaction, AssembleError>(AssembleError::TooLong) <==> !is_sendable(
            instructions@,
        ),
        built == Err::<SignedTransaction, AssembleError>(AssembleError::TooManyAccounts)
            <==> is_sendable(instructions@) && !has_room(instructions@),
        built is Ok <==> is_sendable(instructions@) && has_room(instructions@) && signing_accepts(
            instructions@,
            address_of(*authority),
            address_of(*fee_payer),
        ),
        match built {
            Ok(signed) => {
                &&& is_assembled(signed.instructions@, instructions@, compute_limit, price)
                &&& signed.wf()
                &&& signed.authority == address_of(*authority)
                &&& signed.fee_payer == address_of(*fee_payer)
                &&& is_signed(signed.transaction)
                &&& fee_payer_of(signed.transaction) == address_of(*fee_payer)
                &&& blockhash_of(signed.transaction) == *blockhash
                &&& forall|key: [u8; 32]| #[trigger]
                    required_signers(signed.transaction).contains(key) <==> signed.signers@.contains(
                        key,
                    )
            },
            Err(refusal) => refusal is Signing <==> is_sendable(instructions@) && has_room(
                instructions@,
            ),
        },
{
    let ghost given = instructions@;
    let assembled = assemble_instructions(instructions, compute_limit, price);
    proof {
        let head = assembled@.take(2);
        assert(assembled@ =~= head + given);
        lemma_mentions_add(head, given);
        assert(assembled@[0].program_id =~= COMPUTE_BUDGET_PROGRAM);
        assert(assembled@[1].program_id =~= COMPUTE_BUDGET_PROGRAM);
        assert(names_of(assembled@[0]) =~= seq![COMPUTE_BUDGET_PROGRAM]);
        assert(names_of(assembled@[1]) =~= seq![COMPUTE_BUDGET_PROGRAM]);
        assert(head.drop_last().drop_last() =~= Seq::<Instruction>::empty());
        assert(mentions(head.drop_last().drop_last()) =~= Seq::<[u8; 32]>::empty());
        assert(head.drop_last().last() == assembled@[0]);
        assert(head.last() == assembled@[1]);
        assert(mentions(head.drop_last()) =~= seq![COMPUTE_BUDGET_PROGRAM]);
        assert(mentions(head) =~= seq![COMPUTE_BUDGET_PROGRAM, COMPUTE_BUDGET_PROGRAM]);
        assert(named_keys(assembled@) =~= named_keys(given).insert(COMPUTE_BUDGET_PROGRAM)) by {
            vstd::seq_lib::seq_to_set_distributes_over_add(mentions(head), mentions(given));
            assert(mentions(head).to_set() =~= set![COMPUTE_BUDGET_PROGRAM]) by {
                assert(mentions(head)[0] == COMPUTE_BUDGET_PROGRAM);
            }
        }
    }
    proof {
        assert(all_fit_wire(assembled@) <==> is_sendable(given)) by {
            if is_sendable(given) {
                assert forall|i: int| 0 <= i < assembled@.len() implies fits_wire(
                    #[trigger] assembled@[i],
                ) by {
                    if i >= 2 {
                        assert(assembled@[i] == given[i - 2]);
                    }
                }
            }
            if all_fit_wire(assembled@) {
                assert forall|i: int| 0 <= i < given.len() implies fits_wire(#[trigger] given[i]) by {
                    assert(given[i] == assembled@[i + 2]);
                }
            }
        }
    }
    if !check_wire(&assembled) {
        return Err(AssembleError::TooLong);
    }
    if !names_at_most(&assembled, MAX_NAMED_KEYS) {
        return Err(AssembleError::TooManyAccounts);
    }
    let authority_address = keypair_address(authority);
    let fee_payer_address = keypair_address(fee_payer);
    let draft = unsigned_transaction(&assembled, &fee_payer_address);
    let signers = signing_set(authority, &authority_address, fee_payer, &fee_payer_address);
    let ghost required = required_signers(draft.transaction);
    proof {
        assert forall|key: [u8; 32]| #[trigger]
            required.contains(key) <==> (key == fee_payer_address || requires_signature(
                given,
                key,
            )) by {
            lemma_assembly_requires_no_signature(assembled@, given, compute_limit, price, key);
        }
        lemma_fitting_signers(required, given, signers@, authority, fee_payer);
    }
    match try_sign(draft, &signers, blockhash) {
        Ok(transaction) => {
            let mut addresses: Vec<[u8; 32]> = Vec::new();
            addresses.push(authority_address);
            if signers.len() == 2 {
                addresses.push(fee_payer_address);
            }
            assert(addresses@ =~= signer_addresses(authority_address, fee_payer_address));
            assert forall|key: [u8; 32]| #[trigger]
                required_signers(transaction).contains(key) <==> addresses@.contains(key) by {
                if key == authority_address {
                    assert(addresses@[0] == key);
                } else if key == fee_payer_address {
                    assert(addresses@[1] == key);
                }
            }
            Ok(
                SignedTransaction {
                    instructions: assembled,
                    authority: authority_address,
                    fee_payer: fee_payer_address,
                    signers: addresses,
                    transaction,
                },
            )
        },
        Err(refusal) => Err(AssembleError::Signing(refusal)),
    }
}

} // verus!
