use vstd::prelude::*;

use crate::identity::Identity;

verus! {

#[verifier::external_type_specification]
#[verifier::external_body]
pub struct ExInstruction(solana_instruction::Instruction);

#[verifier::external_type_specification]
#[verifier::external_body]
pub struct ExProgramError(solana_program_error::ProgramError);

/// The fixed identity of the external token ledger program, the bytes of the
/// base58 address "TokenkegQfeZyiNwAJbNbGKPFXCWuBvf9Ss623VQ5DA".
pub open spec fn token_ledger_id() -> Seq<u8> {
    seq![
        0x06u8,
        0xddu8,
        0xf6u8,
        0xe1u8,
        0xd7u8,
        0x65u8,
        0xa1u8,
        0x93u8,
        0xd9u8,
        0xcbu8,
        0xe1u8,
        0x46u8,
        0xceu8,
        0xebu8,
        0x79u8,
        0xacu8,
        0x1cu8,
        0xb4u8,
        0x85u8,
        0xedu8,
        0x5fu8,
        0x5bu8,
        0x37u8,
        0x91u8,
        0x3au8,
        0x8cu8,
        0xf5u8,
        0x85u8,
        0x7eu8,
        0xffu8,
        0x00u8,
        0xa9u8,
    ]
}

/// Relies on spl_token::ID: the token ledger program's identity is the fixed
/// address declared in the crate as "TokenkegQfeZyiNwAJbNbGKPFXCWuBvf9Ss623VQ5DA".
#[verifier::external_body]
pub(crate) fn ledger_program_identity() -> (r: Identity)
    ensures
        r@ == token_ledger_id(),
{
    Identity { bytes: spl_token::ID.to_bytes() }
}

/// The destroy instruction the token ledger crate builds for a holder
/// balance record, its asset, the holder who signs, and a quantity: a pure
/// construction from these four values alone.
pub uninterp spec fn destroy_instruction_of(
    record: Seq<u8>,
    asset: Seq<u8>,
    holder: Seq<u8>,
    quantity: u64,
) -> solana_instruction::Instruction;

/// The issue instruction the token ledger crate builds for an asset, a
/// holder balance record, the asset's configured issuance authority, and the
/// two signers (the co-signer and the derived authority), with a quantity: a
/// pure construction from these six values alone.
pub uninterp spec fn issue_instruction_of(
    asset: Seq<u8>,
    record: Seq<u8>,
    authority: Seq<u8>,
    co_signer: Seq<u8>,
    derived: Seq<u8>,
    quantity: u64,
) -> solana_instruction::Instruction;

/// Relies on spl_token::instruction::burn: handed the token ledger's own
/// identity as program id, it always returns the destroy instruction, a
/// function of the record, asset, holder and quantity alone.
#[verifier::external_body]
pub(crate) fn build_destroy_instruction(
    record: &Identity,
    asset: &Identity,
    holder: &Identity,
    quantity: u64,
) -> (r: Result<solana_instruction::Instruction, solana_program_error::ProgramError>)
    ensures
        r is Ok,
        r->Ok_0 == destroy_instruction_of(record@, asset@, holder@, quantity),
{
    spl_token::instruction::burn(
        &spl_token::ID,
        &solana_pubkey::Pubkey::new_from_array(record.bytes),
        &solana_pubkey::Pubkey::new_from_array(asset.bytes),
        &solana_pubkey::Pubkey::new_from_array(holder.bytes),
        &[],
        quantity,
    )
}

/// Relies on spl_token::instruction::mint_to: handed the token ledger's own
/// identity as program id, it always returns the issue instruction, with the
/// co-signer and the derived authority in the signer list, a function of the
/// six argument values alone.
#[verifier::external_body]
pub(crate) fn build_issue_instruction(
    asset: &Identity,
    record: &Identity,
    authority: &Identity,
    co_signer: &Identity,
    derived: &Identity,
    quantity: u64,
) -> (r: Result<solana_instruction::Instruction, solana_program_error::ProgramError>)
    ensures
        r is Ok,
        r->Ok_0 == issue_instruction_of(
            asset@,
            record@,
            authority@,
            co_signer@,
            derived@,
            quantity,
        ),
{
    spl_token::instruction::mint_to(
        &spl_token::ID,
        &solana_pubkey::Pubkey::new_from_array(asset.bytes),
        &solana_pubkey::Pubkey::new_from_array(record.bytes),
        &solana_pubkey::Pubkey::new_from_array(authority.bytes),
        &[
            &solana_pubkey::Pubkey::new_from_array(co_signer.bytes),
            &solana_pubkey::Pubkey::new_from_array(derived.bytes),
        ],
        quantity,
    )
}

} // verus!
