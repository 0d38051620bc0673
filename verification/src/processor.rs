use vstd::prelude::*;
use vstd::bytes::{spec_u64_from_le_bytes, u64_from_le_bytes};
use vstd::slice::slice_subrange;
use crate::error::VaultError;
use crate::identity::Identity;
use crate::instructions::{
    deposit, deposit_post, initialize, initialize_post, partial_withdraw, withdraw_post,
    CreateAccountRequest, DepositEffect, WithdrawEffect,
};
use crate::records::Vault;

verus! {

/// The discriminated operations of the inbound request envelope.
#[derive(Clone, Copy, Debug, PartialEq, Eq)]
pub enum NativeVaultInstruction {
    Initialize(),
    Deposit(u64),
    PartialWithdraw(),
}

/// The binary layout of an operation: a single discriminant byte, followed
/// for a deposit by the amount as a little-endian word, with nothing after.
pub open spec fn spec_decode_instruction(input: Seq<u8>) -> Option<NativeVaultInstruction> {
    if input.len() == 1 && input[0] == 0 {
        Some(NativeVaultInstruction::Initialize())
    } else if input.len() == 9 && input[0] == 1 {
        Some(NativeVaultInstruction::Deposit(spec_u64_from_le_bytes(input.subrange(1, 9))))
    } else if input.len() == 1 && input[0] == 2 {
        Some(NativeVaultInstruction::PartialWithdraw())
    } else {
        None
    }
}

/// Decodes the inbound operation bytes, rejecting anything that is not
/// exactly one discriminated operation.
pub fn decode_instruction(input: &Vec<u8>) -> (r: Result<NativeVaultInstruction, VaultError>)
    ensures
        match r {
            Ok(ins) => spec_decode_instruction(input@) == Some(ins),
            Err(e) => e == VaultError::Malformed && spec_decode_instruction(input@) is None,
        },
{
    if input.len() == 0 {
        return Err(VaultError::Malformed);
    }
    let tag = input[0];
    if tag == 0 && input.len() == 1 {
        Ok(NativeVaultInstruction::Initialize())
    } else if tag == 1 && input.len() == 9 {
        let amount = u64_from_le_bytes(slice_subrange(input.as_slice(), 1, 9));
        Ok(NativeVaultInstruction::Deposit(amount))
    } else if tag == 2 && input.len() == 1 {
        Ok(NativeVaultInstruction::PartialWithdraw())
    } else {
        Err(VaultError::Malformed)
    }
}

/// What a dispatched operation asks of the external runtime.
#[derive(Clone, Debug, PartialEq, Eq)]
pub enum Effect {
    Initialized(Vault, CreateAccountRequest),
    Deposited(DepositEffect),
    Withdrawn(WithdrawEffect),
}

/// Decodes the inbound bytes and routes the operation: `caller` is the
/// user-held identity that signed the request, `target_address` the account
/// the operation works on (the registry address for an initialization, the
/// claimed custody address otherwise), and `target_data` that account's
/// stored bytes. `reserve` is the ledger's minimum funding for a new
/// account, `now` its clock reading, and `delay` the maturation delay.
pub fn process_instruction(
    program_id: &Identity,
    seed_tag: &Vec<u8>,
    caller: &Identity,
    target_address: &Identity,
    target_data: &Vec<u8>,
    reserve: u64,
    now: i64,
    delay: i64,
    input: &Vec<u8>,
) -> (r: Result<Effect, VaultError>)
    ensures
        spec_decode_instruction(input@) is None ==> r == Err::<Effect, VaultError>(
            VaultError::Malformed,
        ),
        spec_decode_instruction(input@) matches Some(ins) ==> match ins {
            NativeVaultInstruction::Initialize() => {
                &&& r matches Ok(e)
                &&& e matches Effect::Initialized(v, c)
                &&& initialize_post((v, c), *program_id, *caller, *target_address, reserve)
            },
            NativeVaultInstruction::Deposit(amount) => match r {
                Ok(e) => {
                    &&& e matches Effect::Deposited(d)
                    &&& deposit_post(
                        Ok::<DepositEffect, VaultError>(d),
                        *program_id,
                        seed_tag@,
                        *caller,
                        *target_address,
                        target_data@,
                        amount,
                        now,
                        reserve,
                    )
                },
                Err(err) => deposit_post(
                    Err::<DepositEffect, VaultError>(err),
                    *program_id,
                    seed_tag@,
                    *caller,
                    *target_address,
                    target_data@,
                    amount,
                    now,
                    reserve,
                ),
            },
            NativeVaultInstruction::PartialWithdraw() => match r {
                Ok(e) => {
                    &&& e matches Effect::Withdrawn(w)
                    &&& withdraw_post(
                        Ok::<WithdrawEffect, VaultError>(w),
                        *program_id,
                        seed_tag@,
                        *caller,
                        *target_address,
                        target_data@,
                        now,
                        delay,
                    )
                },
                Err(err) => withdraw_post(
                    Err::<WithdrawEffect, VaultError>(err),
                    *program_id,
                    seed_tag@,
                    *caller,
                    *target_address,
                    target_data@,
                    now,
                    delay,
                ),
            },
        },
{
    let instruction = match decode_instruction(input) {
        Ok(ins) => ins,
        Err(e) => {
            return Err(e);
        },
    };
    match instruction {
        NativeVaultInstruction::Initialize() => {
            let (record, create) = initialize(program_id, caller, target_address, reserve);
            Ok(Effect::Initialized(record, create))
        },
        NativeVaultInstruction::Deposit(amount) => {
            match deposit(
                program_id,
                seed_tag,
                caller,
                target_address,
                target_data,
                amount,
                now,
                reserve,
            ) {
                Ok(d) => Ok(Effect::Deposited(d)),
                Err(e) => Err(e),
            }
        },
        NativeVaultInstruction::PartialWithdraw() => {
            match partial_withdraw(
                program_id,
                seed_tag,
                caller,
                target_address,
                target_data,
                now,
                delay,
            ) {
                Ok(w) => Ok(Effect::Withdrawn(w)),
                Err(e) => Err(e),
            }
        },
    }
}

} // verus!
