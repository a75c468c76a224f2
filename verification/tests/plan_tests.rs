use swap::exchange::{prepare_swap, AssetDescriptor, HolderRecord, Swap};
use swap::identity::Identity;

fn ident(n: u8) -> Identity {
    Identity { bytes: [n; 32] }
}

fn key(identity: &Identity) -> solana_pubkey::Pubkey {
    solana_pubkey::Pubkey::new_from_array(identity.bytes)
}

fn valid_accounts() -> Swap {
    let program_identity = ident(9);
    let (derived_address, _) = solana_pubkey::Pubkey::try_find_program_address(
        &[b"mint_authority"],
        &key(&program_identity),
    )
    .expect("derivation should find a counter");
    let issuance_authority = ident(5);
    Swap {
        source_asset: AssetDescriptor {
            identity: ident(1),
            precision: 6,
            issuance_authority: Some(ident(11)),
        },
        destination_asset: AssetDescriptor {
            identity: ident(2),
            precision: 6,
            issuance_authority: Some(issuance_authority),
        },
        source_holder: ident(3),
        source_record: HolderRecord { identity: ident(4), balance: 100 },
        destination_holder: ident(6),
        destination_record: HolderRecord { identity: ident(7), balance: 0 },
        issuance_authority,
        co_signer: ident(8),
        derived_authority: Identity { bytes: derived_address.to_bytes() },
        ledger_subsystem: Identity { bytes: spl_token::ID.to_bytes() },
        program_identity,
    }
}

#[test]
fn plan_recomputes_the_derived_authority() {
    let accounts = valid_accounts();
    let plan = prepare_swap(&accounts, 40).expect("a valid exchange should yield a plan");
    let (expected_address, expected_counter) = solana_pubkey::Pubkey::try_find_program_address(
        &[b"mint_authority"],
        &key(&accounts.program_identity),
    )
    .expect("derivation should find a counter");
    assert_eq!(plan.quantity, 40);
    assert_eq!(plan.derived_authority.bytes, expected_address.to_bytes());
    assert_eq!(plan.disambiguation, expected_counter);
}

#[test]
fn destroy_instruction_addresses_the_token_ledger() {
    let accounts = valid_accounts();
    let plan = prepare_swap(&accounts, 40).expect("a valid exchange should yield a plan");
    let ix = &plan.destroy_instruction;
    assert_eq!(ix.program_id, spl_token::ID);

    let mut expected_data = vec![8u8];
    expected_data.extend_from_slice(&40u64.to_le_bytes());
    assert_eq!(ix.data, expected_data);

    assert_eq!(ix.accounts.len(), 3);
    // the source holder's balance record, mutated by the destroy
    assert_eq!(ix.accounts[0].pubkey, key(&accounts.source_record.identity));
    assert!(ix.accounts[0].is_writable && !ix.accounts[0].is_signer);
    // the source asset, whose supply shrinks
    assert_eq!(ix.accounts[1].pubkey, key(&accounts.source_asset.identity));
    assert!(ix.accounts[1].is_writable && !ix.accounts[1].is_signer);
    // the holder authorizes by direct signature
    assert_eq!(ix.accounts[2].pubkey, key(&accounts.source_holder));
    assert!(!ix.accounts[2].is_writable && ix.accounts[2].is_signer);
}

#[test]
fn issue_instruction_carries_both_signers() {
    let accounts = valid_accounts();
    let plan = prepare_swap(&accounts, 40).expect("a valid exchange should yield a plan");
    let ix = &plan.issue_instruction;
    assert_eq!(ix.program_id, spl_token::ID);

    let mut expected_data = vec![7u8];
    expected_data.extend_from_slice(&40u64.to_le_bytes());
    assert_eq!(ix.data, expected_data);

    assert_eq!(ix.accounts.len(), 5);
    // the destination asset, whose supply grows
    assert_eq!(ix.accounts[0].pubkey, key(&accounts.destination_asset.identity));
    assert!(ix.accounts[0].is_writable && !ix.accounts[0].is_signer);
    // the destination holder's balance record, mutated by the issue
    assert_eq!(ix.accounts[1].pubkey, key(&accounts.destination_record.identity));
    assert!(ix.accounts[1].is_writable && !ix.accounts[1].is_signer);
    // the configured multi-party issuance authority itself does not sign
    assert_eq!(ix.accounts[2].pubkey, key(&accounts.issuance_authority));
    assert!(!ix.accounts[2].is_writable && !ix.accounts[2].is_signer);
    // the external co-signing credential signs
    assert_eq!(ix.accounts[3].pubkey, key(&accounts.co_signer));
    assert!(!ix.accounts[3].is_writable && ix.accounts[3].is_signer);
    // the derived authority signs, via seed and disambiguation counter
    assert_eq!(ix.accounts[4].pubkey, key(&plan.derived_authority));
    assert!(!ix.accounts[4].is_writable && ix.accounts[4].is_signer);
}

#[test]
fn instructions_are_a_function_of_the_request_alone() {
    let accounts = valid_accounts();
    let first = prepare_swap(&accounts, 40).expect("a valid exchange should yield a plan");
    let second = prepare_swap(&accounts, 40).expect("a valid exchange should yield a plan");
    assert_eq!(first.destroy_instruction, second.destroy_instruction);
    assert_eq!(first.issue_instruction, second.issue_instruction);
    // and the two instructions of one plan never coincide
    assert_ne!(first.destroy_instruction, first.issue_instruction);
}

#[test]
fn quantity_threads_through_the_instruction_data() {
    let accounts = valid_accounts();
    let plan = prepare_swap(&accounts, 99).expect("a valid exchange should yield a plan");
    let mut destroy_data = vec![8u8];
    destroy_data.extend_from_slice(&99u64.to_le_bytes());
    let mut issue_data = vec![7u8];
    issue_data.extend_from_slice(&99u64.to_le_bytes());
    assert_eq!(plan.destroy_instruction.data, destroy_data);
    assert_eq!(plan.issue_instruction.data, issue_data);
}
