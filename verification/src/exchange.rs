use vstd::prelude::*;

use crate::authority::{authority_seed, derive_program_authority, derived_authority_of};
use crate::errors::SwapErrors;
use crate::identity::{identity_eq, Identity};
use crate::ledger::{
    build_destroy_instruction, build_issue_instruction, destroy_instruction_of,
    issue_instruction_of, ledger_program_identity, token_ledger_id,
};

verus! {

/// The immutable identity of a fungible asset: its address, its decimal
/// precision, and the authority configured to issue it, if any.
#[derive(Clone, Copy)]
pub struct AssetDescriptor {
    pub identity: Identity,
    pub precision: u8,
    pub issuance_authority: Option<Identity>,
}

/// A holder balance record on the external ledger: its own address and the
/// quantity it currently holds.
#[derive(Clone, Copy)]
pub struct HolderRecord {
    pub identity: Identity,
    pub balance: u64,
}

/// The account and identity references of one exchange operation, together
/// with the read state of the two holder balance records.
#[derive(Clone, Copy)]
pub struct Swap {
    /// The asset whose quantity is destroyed.
    pub source_asset: AssetDescriptor,
    /// The asset whose quantity is issued.
    pub destination_asset: AssetDescriptor,
    /// The holder surrendering the source quantity; signs the destroy call.
    pub source_holder: Identity,
    /// The source holder's balance record.
    pub source_record: HolderRecord,
    /// The holder receiving the destination quantity.
    pub destination_holder: Identity,
    /// The destination holder's balance record.
    pub destination_record: HolderRecord,
    /// The authority configured on the destination asset; a multi-party
    /// authority joining the co-signer and the derived authority.
    pub issuance_authority: Identity,
    /// The external co-signing credential for the issue call.
    pub co_signer: Identity,
    /// The caller's reference to the program's derived authority.
    pub derived_authority: Identity,
    /// The caller's reference to the ledger-mutation subsystem.
    pub ledger_subsystem: Identity,
    /// The executing program's own identity.
    pub program_identity: Identity,
}

/// Whether the destination asset is configured to be issued by the supplied
/// issuance authority.
pub open spec fn issuance_authority_matches(a: Swap) -> bool {
    match a.destination_asset.issuance_authority {
        Some(configured) => configured@ == a.issuance_authority@,
        None => false,
    }
}

/// Whether the caller's derived-authority reference equals the identity
/// recomputed from the fixed seed and the program identity.
pub open spec fn derived_authority_matches(a: Swap) -> bool {
    match derived_authority_of(authority_seed(), a.program_identity@) {
        Some(p) => p.0 == a.derived_authority@,
        None => false,
    }
}

/// The validation outcome: the first violated precondition, in the fixed
/// order, or `Ok` when every precondition holds.
pub open spec fn spec_validate(a: Swap, quantity: u64) -> Result<(), SwapErrors> {
    if quantity == 0 {
        Err(SwapErrors::ZeroQuantity)
    } else if a.source_asset.identity@ == a.destination_asset.identity@ {
        Err(SwapErrors::SameAssetSwap)
    } else if a.source_record.balance < quantity {
        Err(SwapErrors::InsufficientBalance)
    } else if a.source_asset.precision != a.destination_asset.precision {
        Err(SwapErrors::PrecisionMismatch)
    } else if !issuance_authority_matches(a) {
        Err(SwapErrors::AuthorityMismatch)
    } else if !derived_authority_matches(a) {
        Err(SwapErrors::AuthorityMismatch)
    } else if a.ledger_subsystem@ != token_ledger_id() {
        Err(SwapErrors::LedgerSubsystemMismatch)
    } else {
        Ok(())
    }
}

/// Checks every precondition of the exchange, in the fixed order, without
/// mutating anything.
pub fn validate(a: &Swap, quantity: u64) -> (r: Result<(), SwapErrors>)
    ensures
        r == spec_validate(*a, quantity),
{
    if quantity == 0 {
        return Err(SwapErrors::ZeroQuantity);
    }
    if identity_eq(&a.source_asset.identity, &a.destination_asset.identity) {
        return Err(SwapErrors::SameAssetSwap);
    }
    if a.source_record.balance < quantity {
        return Err(SwapErrors::InsufficientBalance);
    }
    if a.source_asset.precision != a.destination_asset.precision {
        return Err(SwapErrors::PrecisionMismatch);
    }
    match &a.destination_asset.issuance_authority {
        Some(configured) => {
            if !identity_eq(configured, &a.issuance_authority) {
                return Err(SwapErrors::AuthorityMismatch);
            }
        },
        None => {
            return Err(SwapErrors::AuthorityMismatch);
        },
    }
    match derive_program_authority(&a.program_identity) {
        Some(p) => {
            if !identity_eq(&p.0, &a.derived_authority) {
                return Err(SwapErrors::AuthorityMismatch);
            }
        },
        None => {
            return Err(SwapErrors::AuthorityMismatch);
        },
    }
    let expected_ledger = ledger_program_identity();
    if !identity_eq(&a.ledger_subsystem, &expected_ledger) {
        return Err(SwapErrors::LedgerSubsystemMismatch);
    }
    Ok(())
}

/// A validated exchange, ready to run against the external ledger: the
/// recomputed derived authority with its disambiguation counter, and the two
/// ledger instructions, to be invoked in order (destroy, then issue).
pub struct SwapPlan {
    pub quantity: u64,
    pub derived_authority: Identity,
    pub disambiguation: u8,
    pub destroy_instruction: solana_instruction::Instruction,
    pub issue_instruction: solana_instruction::Instruction,
}

/// Validates the exchange and, when every precondition holds, derives the
/// signing authority and builds the two ledger instructions: the destroy of
/// the requested quantity from the source record, signed by the holder alone,
/// and the issue of the same quantity to the destination record, signed by
/// the co-signer and the recomputed derived authority. Mutates nothing.
pub fn prepare_swap(a: &Swap, quantity: u64) -> (r: Result<SwapPlan, SwapErrors>)
    ensures
        (match r {
            Ok(plan) => {
                &&& spec_validate(*a, quantity) is Ok
                &&& plan.quantity == quantity
                &&& Some((plan.derived_authority@, plan.disambiguation)) == derived_authority_of(
                    authority_seed(),
                    a.program_identity@,
                )
                &&& plan.destroy_instruction == destroy_instruction_of(
                    a.source_record.identity@,
                    a.source_asset.identity@,
                    a.source_holder@,
                    quantity,
                )
                &&& plan.issue_instruction == issue_instruction_of(
                    a.destination_asset.identity@,
                    a.destination_record.identity@,
                    a.issuance_authority@,
                    a.co_signer@,
                    plan.derived_authority@,
                    quantity,
                )
            },
            Err(e) => spec_validate(*a, quantity) == Err::<(), SwapErrors>(e),
        }),
{
    match validate(a, quantity) {
        Ok(()) => {},
        Err(e) => {
            return Err(e);
        },
    }
    let derived = match derive_program_authority(&a.program_identity) {
        Some(p) => p,
        None => {
            proof {
                assert(false);
            }
            return Err(SwapErrors::AuthorityMismatch);
        },
    };
    let destroy_instruction = match build_destroy_instruction(
        &a.source_record.identity,
        &a.source_asset.identity,
        &a.source_holder,
        quantity,
    ) {
        Ok(ix) => ix,
        Err(_) => {
            proof {
                assert(false);
            }
            return Err(SwapErrors::ExternalMutationFailure);
        },
    };
    let issue_instruction = match build_issue_instruction(
        &a.destination_asset.identity,
        &a.destination_record.identity,
        &a.issuance_authority,
        &a.co_signer,
        &derived.0,
        quantity,
    ) {
        Ok(ix) => ix,
        Err(_) => {
            proof {
                assert(false);
            }
            return Err(SwapErrors::ExternalMutationFailure);
        },
    };
    Ok(
        SwapPlan {
            quantity,
            derived_authority: derived.0,
            disambiguation: derived.1,
            destroy_instruction,
            issue_instruction,
        },
    )
}

/// The operation state with the requested quantity destroyed from the source
/// holder's record.
pub open spec fn debit_source(a: Swap, quantity: u64) -> Swap {
    Swap {
        source_record: HolderRecord {
            balance: (a.source_record.balance - quantity) as u64,
            ..a.source_record
        },
        ..a
    }
}

/// The operation state with the requested quantity issued to the destination
/// holder's record.
pub open spec fn credit_destination(a: Swap, quantity: u64) -> Swap {
    Swap {
        destination_record: HolderRecord {
            balance: (a.destination_record.balance + quantity) as u64,
            ..a.destination_record
        },
        ..a
    }
}

/// The whole operation's outcome, given the external ledger's answer to each
/// of the two mutation calls.
pub open spec fn spec_swap_result(
    a: Swap,
    quantity: u64,
    destroy_accepted: bool,
    issue_accepted: bool,
) -> Result<(), SwapErrors> {
    if spec_validate(a, quantity) is Err {
        spec_validate(a, quantity)
    } else if !destroy_accepted {
        Err(SwapErrors::ExternalMutationFailure)
    } else if !issue_accepted {
        Err(SwapErrors::ExternalMutationFailure)
    } else if a.destination_record.balance + quantity > u64::MAX {
        Err(SwapErrors::ExternalMutationFailure)
    } else {
        Ok(())
    }
}

/// The state the two holder records are left in, given the external ledger's
/// answer to each of the two mutation calls. A destroy that the ledger
/// accepted stays visible even when the following issue fails: this core
/// performs no rollback, the host's transactional boundary discards the whole
/// unit on failure.
pub open spec fn spec_swap_state(
    a: Swap,
    quantity: u64,
    destroy_accepted: bool,
    issue_accepted: bool,
) -> Swap {
    if spec_validate(a, quantity) is Err {
        a
    } else if !destroy_accepted {
        a
    } else if !issue_accepted {
        debit_source(a, quantity)
    } else if a.destination_record.balance + quantity > u64::MAX {
        debit_source(a, quantity)
    } else {
        credit_destination(debit_source(a, quantity), quantity)
    }
}

/// Runs one exchange: validates, derives the authority, builds the two
/// ledger instructions, then applies the destroy and the issue to the holder
/// records, in that fixed order. `destroy_accepted` and `issue_accepted` are
/// the external ledger's answers to the respective call, handed in by the
/// host that performs the calls; a rejected call has no effect on its record,
/// and an issue whose quantity would overflow the destination record is
/// rejected by the ledger itself.
pub fn swap(
    accounts: &mut Swap,
    quantity: u64,
    destroy_accepted: bool,
    issue_accepted: bool,
) -> (r: Result<(), SwapErrors>)
    ensures
        r == spec_swap_result(*old(accounts), quantity, destroy_accepted, issue_accepted),
        *final(accounts) == spec_swap_state(
            *old(accounts),
            quantity,
            destroy_accepted,
            issue_accepted,
        ),
{
    let snapshot = *accounts;
    match prepare_swap(&snapshot, quantity) {
        Ok(_) => {},
        Err(e) => {
            return Err(e);
        },
    }
    if !destroy_accepted {
        return Err(SwapErrors::ExternalMutationFailure);
    }
    accounts.source_record.balance = accounts.source_record.balance - quantity;
    if !issue_accepted {
        return Err(SwapErrors::ExternalMutationFailure);
    }
    match accounts.destination_record.balance.checked_add(quantity) {
        Some(credited) => {
            accounts.destination_record.balance = credited;
            Ok(())
        },
        None => Err(SwapErrors::ExternalMutationFailure),
    }
}

/// Law: a zero requested quantity is rejected with `ZeroQuantity`, whatever
/// the ledger would have answered, and the holder records are untouched.
pub proof fn zero_quantity_rejected(a: Swap, destroy_accepted: bool, issue_accepted: bool)
    ensures
        spec_swap_result(a, 0, destroy_accepted, issue_accepted) == Err::<(), SwapErrors>(
            SwapErrors::ZeroQuantity,
        ),
        spec_swap_state(a, 0, destroy_accepted, issue_accepted) == a,
{
}

/// Law: exchanging an asset for itself is rejected with `SameAssetSwap`,
/// whatever the quantity above zero, and the holder records are untouched.
pub proof fn same_asset_rejected(
    a: Swap,
    quantity: u64,
    destroy_accepted: bool,
    issue_accepted: bool,
)
    requires
        quantity > 0,
        a.source_asset.identity@ == a.destination_asset.identity@,
    ensures
        spec_swap_result(a, quantity, destroy_accepted, issue_accepted) == Err::<(), SwapErrors>(
            SwapErrors::SameAssetSwap,
        ),
        spec_swap_state(a, quantity, destroy_accepted, issue_accepted) == a,
{
}

/// Law: a quantity above the source holder's balance is rejected with
/// `InsufficientBalance` whenever the two assets differ, and the holder
/// records are untouched.
pub proof fn insufficient_balance_rejected(
    a: Swap,
    quantity: u64,
    destroy_accepted: bool,
    issue_accepted: bool,
)
    requires
        a.source_asset.identity@ != a.destination_asset.identity@,
        a.source_record.balance < quantity,
    ensures
        spec_swap_result(a, quantity, destroy_accepted, issue_accepted) == Err::<(), SwapErrors>(
            SwapErrors::InsufficientBalance,
        ),
        spec_swap_state(a, quantity, destroy_accepted, issue_accepted) == a,
{
}

/// Law: assets of unequal precision are rejected with `PrecisionMismatch`
/// even when the quantity and the source balance are otherwise valid, and the
/// holder records are untouched.
pub proof fn precision_mismatch_rejected(
    a: Swap,
    quantity: u64,
    destroy_accepted: bool,
    issue_accepted: bool,
)
    requires
        quantity > 0,
        a.source_asset.identity@ != a.destination_asset.identity@,
        a.source_record.balance >= quantity,
        a.source_asset.precision != a.destination_asset.precision,
    ensures
        spec_swap_result(a, quantity, destroy_accepted, issue_accepted) == Err::<(), SwapErrors>(
            SwapErrors::PrecisionMismatch,
        ),
        spec_swap_state(a, quantity, destroy_accepted, issue_accepted) == a,
{
}

/// Law: a validation that succeeds means every precondition of the exchange
/// held: a positive quantity, distinct assets, a sufficient source balance,
/// equal precisions, the configured issuance authority, the recomputed
/// derived authority, and the expected ledger subsystem.
pub proof fn validated_implies_invariants(a: Swap, quantity: u64)
    requires
        spec_validate(a, quantity) is Ok,
    ensures
        quantity > 0,
        a.source_asset.identity@ != a.destination_asset.identity@,
        a.source_record.balance >= quantity,
        a.source_asset.precision == a.destination_asset.precision,
        issuance_authority_matches(a),
        derived_authority_matches(a),
        a.ledger_subsystem@ == token_ledger_id(),
{
}

/// Law: an operation the validator rejects leaves both holder records
/// untouched: no ledger mutation is reached.
pub proof fn rejected_validation_leaves_state(
    a: Swap,
    quantity: u64,
    destroy_accepted: bool,
    issue_accepted: bool,
)
    requires
        spec_validate(a, quantity) is Err,
    ensures
        spec_swap_state(a, quantity, destroy_accepted, issue_accepted) == a,
        spec_swap_result(a, quantity, destroy_accepted, issue_accepted) == spec_validate(
            a,
            quantity,
        ),
{
}

/// Law: the destroy effect is never absent when the issue effect is present.
/// Whenever the destination record's balance changed, the source record's
/// balance decreased by the requested quantity first.
pub proof fn issue_effect_implies_destroy_effect(
    a: Swap,
    quantity: u64,
    destroy_accepted: bool,
    issue_accepted: bool,
)
    ensures
        ({
            let s = spec_swap_state(a, quantity, destroy_accepted, issue_accepted);
            s.destination_record.balance != a.destination_record.balance
                ==> s.source_record.balance == a.source_record.balance - quantity
        }),
{
}

/// Law: a successful exchange moves exactly the requested quantity, the
/// source balance down and the destination balance up, and changes nothing
/// else of the operation's state.
pub proof fn successful_swap_moves_quantity(
    a: Swap,
    quantity: u64,
    destroy_accepted: bool,
    issue_accepted: bool,
)
    requires
        spec_swap_result(a, quantity, destroy_accepted, issue_accepted) is Ok,
    ensures
        ({
            let s = spec_swap_state(a, quantity, destroy_accepted, issue_accepted);
            &&& s.source_record.balance == a.source_record.balance - quantity
            &&& s.destination_record.balance == a.destination_record.balance + quantity
            &&& s == credit_destination(debit_source(a, quantity), quantity)
        }),
{
}

} // verus!
