use solana_sdk::pubkey::Pubkey;
use solana_sdk::signer::keypair::{keypair_from_seed, Keypair};
use solana_sdk::signer::{Signer, SignerError};
use tx_delivery::instruction::{
    assemble_instructions, AccountMeta, Instruction, COMPUTE_BUDGET_PROGRAM,
    SET_COMPUTE_UNIT_LIMIT, SET_COMPUTE_UNIT_PRICE,
};
use tx_delivery::transaction::{
    build, check_wire, names_at_most, same_address, signing_set, AssembleError, MAX_NAMED_KEYS,
    MAX_WIRE_LEN,
};

fn keypair(seed: u8) -> Keypair {
    keypair_from_seed(&[seed; 32]).unwrap()
}

fn address(keypair: &Keypair) -> [u8; 32] {
    keypair.pubkey().to_bytes()
}

fn account(pubkey: [u8; 32], is_signer: bool, is_writable: bool) -> AccountMeta {
    AccountMeta { pubkey, is_signer, is_writable }
}

/// An instruction that the authority must sign.
fn mine(authority: &Keypair, data: Vec<u8>) -> Instruction {
    Instruction {
        program_id: [9; 32],
        accounts: vec![account(address(authority), true, true), account([4; 32], false, true)],
        data,
    }
}

/// An instruction that names `accounts` accounts, none of which signs.
fn wide(accounts: usize) -> Instruction {
    let mut metas = Vec::new();
    for i in 0..accounts {
        let mut pubkey = [200u8; 32];
        pubkey[0] = (i % 256) as u8;
        pubkey[1] = (i / 256) as u8;
        metas.push(account(pubkey, false, false));
    }
    Instruction { program_id: [9; 32], accounts: metas, data: vec![] }
}

#[test]
fn compute_budget_program_address() {
    assert_eq!(COMPUTE_BUDGET_PROGRAM, solana_sdk::compute_budget::id().to_bytes());
    assert_eq!(
        Pubkey::from(COMPUTE_BUDGET_PROGRAM).to_string(),
        "ComputeBudget111111111111111111111111111111"
    );
}

#[test]
fn assembled_list_starts_with_limit_and_price() {
    let authority = keypair(1);
    let assembled = assemble_instructions(
        vec![mine(&authority, vec![1]), mine(&authority, vec![2, 2]), wide(3)],
        1_400_000,
        5_000,
    );
    assert_eq!(assembled.len(), 5);
    assert_eq!(
        assembled[0],
        Instruction {
            program_id: COMPUTE_BUDGET_PROGRAM,
            accounts: vec![],
            data: vec![2, 0xc0, 0x5c, 0x15, 0x00],
        }
    );
    assert_eq!(
        assembled[1],
        Instruction {
            program_id: COMPUTE_BUDGET_PROGRAM,
            accounts: vec![],
            data: vec![3, 0x88, 0x13, 0, 0, 0, 0, 0, 0],
        }
    );
    assert_eq!(assembled[2], mine(&authority, vec![1]));
    assert_eq!(assembled[3], mine(&authority, vec![2, 2]));
    assert_eq!(assembled[4], wide(3));
}

#[test]
fn assembled_list_of_no_instructions() {
    let assembled = assemble_instructions(vec![], 0, 0);
    assert_eq!(assembled.len(), 2);
    assert_eq!(assembled[0].data, vec![SET_COMPUTE_UNIT_LIMIT, 0, 0, 0, 0]);
    assert_eq!(assembled[1].data, vec![SET_COMPUTE_UNIT_PRICE, 0, 0, 0, 0, 0, 0, 0, 0]);
}

#[test]
fn limit_and_price_are_little_endian() {
    let assembled = assemble_instructions(vec![], 0x0403_0201, 0x0807_0605_0403_0201);
    assert_eq!(assembled[0].data, vec![2, 1, 2, 3, 4]);
    assert_eq!(assembled[1].data, vec![3, 1, 2, 3, 4, 5, 6, 7, 8]);
    let assembled = assemble_instructions(vec![], u32::MAX, u64::MAX);
    assert_eq!(assembled[0].data, vec![2, 255, 255, 255, 255]);
    assert_eq!(assembled[1].data, vec![3, 255, 255, 255, 255, 255, 255, 255, 255]);
    assert_eq!(assembled[0].program_id, COMPUTE_BUDGET_PROGRAM);
    assert!(assembled[0].accounts.is_empty());
    assert!(assembled[1].accounts.is_empty());
}

#[test]
fn address_comparison() {
    let mut other = [7u8; 32];
    assert!(same_address(&[7; 32], &other));
    other[31] = 8;
    assert!(!same_address(&[7; 32], &other));
    other[31] = 7;
    other[0] = 6;
    assert!(!same_address(&[7; 32], &other));
}

#[test]
fn one_signer_where_the_authority_pays() {
    let authority = keypair(1);
    let payer = keypair(1);
    let signers = signing_set(&authority, &address(&authority), &payer, &address(&payer));
    assert_eq!(signers.len(), 1);
    assert_eq!(signers[0].pubkey(), authority.pubkey());
}

#[test]
fn two_signers_where_another_pays() {
    let authority = keypair(1);
    let payer = keypair(2);
    let signers = signing_set(&authority, &address(&authority), &payer, &address(&payer));
    assert_eq!(signers.len(), 2);
    assert_eq!(signers[0].pubkey(), authority.pubkey());
    assert_eq!(signers[1].pubkey(), payer.pubkey());
}

#[test]
fn built_transaction_with_one_signature() {
    let authority = keypair(1);
    let payer = keypair(1);
    let blockhash = [5u8; 32];
    let signed =
        build(vec![mine(&authority, vec![1, 2, 3])], 300_000, 7, &payer, &authority, &blockhash)
            .unwrap();
    assert_eq!(signed.signature_count(), 1);
    assert_eq!(signed.signers, vec![address(&authority)]);
    assert_eq!(signed.authority, address(&authority));
    assert_eq!(signed.fee_payer, address(&payer));
    assert_eq!(signed.instructions.len(), 3);
    assert_eq!(signed.instructions[2], mine(&authority, vec![1, 2, 3]));

    let transaction = &signed.transaction;
    assert_eq!(transaction.signatures.len(), 1);
    assert!(transaction.is_signed());
    assert!(transaction.verify().is_ok());
    assert_eq!(transaction.message.recent_blockhash, solana_sdk::hash::Hash::new_from_array(blockhash));
    assert_eq!(transaction.message.account_keys[0], payer.pubkey());
    assert_eq!(transaction.message.header.num_required_signatures, 1);
    let message = &transaction.message;
    assert_eq!(message.instructions.len(), 3);
    let program = |i: usize| message.account_keys[message.instructions[i].program_id_index as usize];
    assert_eq!(program(0), solana_sdk::compute_budget::id());
    assert_eq!(message.instructions[0].data, vec![2, 0xe0, 0x93, 0x04, 0x00]);
    assert_eq!(program(1), solana_sdk::compute_budget::id());
    assert_eq!(message.instructions[1].data, vec![3, 7, 0, 0, 0, 0, 0, 0, 0]);
    assert_eq!(program(2), Pubkey::from([9; 32]));
    assert_eq!(message.instructions[2].data, vec![1, 2, 3]);
}

#[test]
fn built_transaction_with_two_signatures() {
    let authority = keypair(1);
    let payer = keypair(2);
    let blockhash = [6u8; 32];
    let signed =
        build(vec![mine(&authority, vec![9])], 1_400_000, 0, &payer, &authority, &blockhash)
            .unwrap();
    assert_eq!(signed.signature_count(), 2);
    assert_eq!(signed.signers, vec![address(&authority), address(&payer)]);

    let transaction = &signed.transaction;
    assert_eq!(transaction.signatures.len(), 2);
    assert!(transaction.is_signed());
    assert!(transaction.verify().is_ok());
    assert_eq!(transaction.message.header.num_required_signatures, 2);
    assert_eq!(transaction.message.account_keys[0], payer.pubkey());
    assert_eq!(transaction.message.account_keys[1], authority.pubkey());
    let positions = transaction
        .get_signing_keypair_positions(&[authority.pubkey(), payer.pubkey()])
        .unwrap();
    assert_eq!(positions, vec![Some(1), Some(0)]);
}

#[test]
fn built_transactions_of_one_request_are_the_same() {
    let authority = keypair(1);
    let payer = keypair(2);
    let first =
        build(vec![mine(&authority, vec![9])], 10, 20, &payer, &authority, &[1; 32]).unwrap();
    let second =
        build(vec![mine(&authority, vec![9])], 10, 20, &payer, &authority, &[1; 32]).unwrap();
    assert_eq!(first, second);
    let other =
        build(vec![mine(&authority, vec![9])], 10, 20, &payer, &authority, &[2; 32]).unwrap();
    assert_ne!(first.transaction.signatures, other.transaction.signatures);
}

#[test]
fn signing_fails_where_the_authority_is_no_signer_of_the_message() {
    let authority = keypair(1);
    let payer = keypair(2);
    let built = build(vec![wide(2)], 10, 20, &payer, &authority, &[1; 32]);
    assert_eq!(built, Err(AssembleError::Signing(SignerError::KeypairPubkeyMismatch)));
}

#[test]
fn signing_fails_where_a_third_signature_is_required() {
    let authority = keypair(1);
    let payer = keypair(2);
    let stranger = keypair(3);
    let built = build(
        vec![mine(&authority, vec![]), mine(&stranger, vec![])],
        10,
        20,
        &payer,
        &authority,
        &[1; 32],
    );
    assert_eq!(built, Err(AssembleError::Signing(SignerError::NotEnoughSigners)));
}

/// An instruction that names one account `times` times over.
fn repetitive(times: usize) -> Instruction {
    let mut metas = Vec::new();
    for _ in 0..times {
        metas.push(account([77; 32], false, true));
    }
    Instruction { program_id: [9; 32], accounts: metas, data: vec![1] }
}

#[test]
fn named_addresses_are_counted_once_each() {
    assert!(names_at_most(&vec![], 0));
    assert!(!names_at_most(&vec![wide(0)], 0));
    assert!(names_at_most(&vec![wide(0)], 1));
    assert!(names_at_most(&vec![wide(0), wide(0), wide(0)], 1));
    assert!(names_at_most(&vec![wide(3)], 4));
    assert!(!names_at_most(&vec![wide(3)], 3));
    assert!(names_at_most(&vec![wide(3), wide(0), wide(2)], 4));
    assert!(!names_at_most(&vec![wide(3), wide(0), wide(4)], 4));
    assert!(names_at_most(&vec![repetitive(1000)], 2));
    assert!(!names_at_most(&vec![repetitive(1000)], 1));
    assert!(names_at_most(&vec![repetitive(5), wide(2), repetitive(9)], 4));
    assert!(!names_at_most(&vec![repetitive(5), wide(2), repetitive(9)], 3));
    assert!(names_at_most(&vec![wide(3), wide(3)], usize::MAX));
}

#[test]
fn instructions_that_fill_the_message_are_built() {
    assert_eq!(MAX_NAMED_KEYS, 254);
    let payer = keypair(1);
    let authority = keypair(1);
    let signed = build(vec![wide(252)], 10, 20, &payer, &authority, &[1; 32]).unwrap();
    assert_eq!(signed.transaction.message.account_keys.len(), 255);
    assert_eq!(signed.transaction.message.header.num_readonly_unsigned_accounts, 254);
    assert_eq!(signed.signature_count(), 1);
}

#[test]
fn instructions_that_name_too_much_are_refused() {
    let payer = keypair(1);
    let authority = keypair(1);
    assert_eq!(
        build(vec![wide(253)], 10, 20, &payer, &authority, &[1; 32]),
        Err(AssembleError::TooManyAccounts)
    );
    assert_eq!(
        build(vec![wide(100), wide(300)], 10, 20, &payer, &authority, &[1; 32]),
        Err(AssembleError::TooManyAccounts)
    );
    assert!(build(vec![wide(100), wide(252), wide(7)], 10, 20, &payer, &authority, &[1; 32])
        .is_ok());
}

#[test]
fn repeated_addresses_take_no_room() {
    let payer = keypair(1);
    let authority = keypair(1);
    let signed =
        build(vec![repetitive(400), wide(250)], 10, 20, &payer, &authority, &[1; 32]).unwrap();
    assert_eq!(signed.instructions.len(), 4);
    assert_eq!(signed.instructions[2].accounts.len(), 400);
    assert_eq!(signed.transaction.message.account_keys.len(), 254);
    assert_eq!(signed.transaction.message.instructions[2].accounts.len(), 400);
    assert!(signed.transaction.verify().is_ok());
}

/// An instruction with `len` bytes of data and no account.
fn bulky(len: usize) -> Instruction {
    Instruction { program_id: [9; 32], accounts: vec![], data: vec![0xab; len] }
}

fn many(count: usize) -> Vec<Instruction> {
    let mut instructions = Vec::new();
    for _ in 0..count {
        instructions.push(bulky(0));
    }
    instructions
}

#[test]
fn wire_lengths_are_checked_list_by_list() {
    assert_eq!(MAX_WIRE_LEN, 65535);
    assert!(check_wire(&vec![]));
    assert!(check_wire(&vec![bulky(0), bulky(65535), repetitive(65535)]));
    assert!(!check_wire(&vec![bulky(0), bulky(65536)]));
    assert!(!check_wire(&vec![repetitive(65536), bulky(0)]));
    assert!(check_wire(&many(65535)));
    assert!(!check_wire(&many(65536)));
}

#[test]
fn data_that_the_wire_cannot_state_is_refused() {
    let payer = keypair(1);
    let authority = keypair(1);
    assert_eq!(
        build(vec![bulky(65536)], 10, 20, &payer, &authority, &[1; 32]),
        Err(AssembleError::TooLong)
    );
    let signed = build(vec![bulky(65535)], 10, 20, &payer, &authority, &[1; 32]).unwrap();
    assert_eq!(signed.transaction.message.instructions[2].data.len(), 65535);
    assert!(signed.transaction.verify().is_ok());
}

#[test]
fn accounts_that_the_wire_cannot_state_are_refused() {
    let payer = keypair(1);
    let authority = keypair(1);
    assert_eq!(
        build(vec![repetitive(65536)], 10, 20, &payer, &authority, &[1; 32]),
        Err(AssembleError::TooLong)
    );
    assert!(build(vec![repetitive(65535)], 10, 20, &payer, &authority, &[1; 32]).is_ok());
}

#[test]
fn instructions_that_the_wire_cannot_count_are_refused() {
    let payer = keypair(1);
    let authority = keypair(1);
    assert_eq!(
        build(many(65534), 10, 20, &payer, &authority, &[1; 32]),
        Err(AssembleError::TooLong)
    );
    let signed = build(many(65533), 10, 20, &payer, &authority, &[1; 32]).unwrap();
    assert_eq!(signed.transaction.message.instructions.len(), 65535);
}

#[test]
fn length_is_refused_before_room() {
    let payer = keypair(1);
    let authority = keypair(1);
    assert_eq!(
        build(vec![wide(300), bulky(65536)], 10, 20, &payer, &authority, &[1; 32]),
        Err(AssembleError::TooLong)
    );
}

/// An instruction of the program at `program` that names each of `signers`
/// as a signing account and each of `others` as one that does not sign.
fn naming(program: [u8; 32], signers: &[[u8; 32]], others: &[[u8; 32]]) -> Instruction {
    let mut accounts = Vec::new();
    for key in others {
        accounts.push(account(*key, false, true));
    }
    for key in signers {
        accounts.push(account(*key, true, false));
    }
    Instruction { program_id: program, accounts, data: vec![7] }
}

/// Builds with fixed limit, price and blockhash.
fn built(
    instructions: Vec<Instruction>,
    authority: &Keypair,
    payer: &Keypair,
) -> Result<tx_delivery::transaction::SignedTransaction, AssembleError> {
    build(instructions, 1000, 1, payer, authority, &[3; 32])
}

/// The addresses that the real transaction requires to sign.
fn required(signed: &tx_delivery::transaction::SignedTransaction) -> Vec<[u8; 32]> {
    let message = &signed.transaction.message;
    let count = message.header.num_required_signatures as usize;
    let mut keys: Vec<[u8; 32]> =
        message.account_keys[..count].iter().map(|key| key.to_bytes()).collect();
    keys.sort();
    keys
}

fn sorted(mut keys: Vec<[u8; 32]>) -> Vec<[u8; 32]> {
    keys.sort();
    keys
}

#[test]
fn authority_that_pays_needs_no_naming() {
    let a = keypair(1);
    let signed = built(vec![naming([9; 32], &[], &[[4; 32]])], &a, &keypair(1)).unwrap();
    assert_eq!(signed.authority, address(&a));
    assert_eq!(signed.fee_payer, address(&a));
    assert_eq!(required(&signed), vec![address(&a)]);
    assert_eq!(sorted(signed.signers), vec![address(&a)]);
    assert!(built(vec![], &a, &keypair(1)).is_ok());
    assert!(built(vec![naming([9; 32], &[address(&a)], &[])], &a, &keypair(1)).is_ok());
}

#[test]
fn authority_and_payer_sign_where_the_authority_is_named() {
    let a = keypair(1);
    let p = keypair(2);
    let both = sorted(vec![address(&a), address(&p)]);
    let signed = built(vec![naming([9; 32], &[address(&a)], &[[4; 32]])], &a, &p).unwrap();
    assert_eq!(signed.authority, address(&a));
    assert_eq!(signed.fee_payer, address(&p));
    assert_eq!(required(&signed), both);
    assert_eq!(sorted(signed.signers), both);
    assert!(signed.transaction.is_signed());
    let signed =
        built(vec![naming([9; 32], &[address(&a), address(&p)], &[])], &a, &p).unwrap();
    assert_eq!(required(&signed), both);
    let signed = built(
        vec![naming([9; 32], &[], &[address(&a)]), naming([8; 32], &[address(&a)], &[])],
        &a,
        &p,
    )
    .unwrap();
    assert_eq!(required(&signed), both);
}

#[test]
fn authority_that_is_not_named_is_refused() {
    let a = keypair(1);
    let p = keypair(2);
    let mismatch = Err(AssembleError::Signing(SignerError::KeypairPubkeyMismatch));
    assert_eq!(built(vec![], &a, &p), mismatch);
    assert_eq!(built(vec![naming([9; 32], &[], &[address(&a)])], &a, &p), mismatch);
    assert_eq!(built(vec![naming([9; 32], &[address(&p)], &[])], &a, &p), mismatch);
    assert_eq!(built(vec![naming(address(&a), &[], &[[4; 32]])], &a, &p), mismatch);
}

#[test]
fn third_signer_is_refused() {
    let a = keypair(1);
    let p = keypair(2);
    let s = keypair(3);
    let missing = Err(AssembleError::Signing(SignerError::NotEnoughSigners));
    assert_eq!(built(vec![naming([9; 32], &[address(&s)], &[])], &a, &keypair(1)), missing);
    assert_eq!(built(vec![naming([9; 32], &[address(&a), address(&s)], &[])], &a, &p), missing);
    assert_eq!(
        built(
            vec![naming([9; 32], &[address(&a)], &[]), naming([8; 32], &[address(&s)], &[])],
            &a,
            &p
        ),
        missing
    );
    assert!(built(vec![naming([9; 32], &[address(&a)], &[address(&s)])], &a, &p).is_ok());
}
