use vstd::prelude::*;
use crate::derivation::{derived_of, spec_address_valid, validate_address};
use crate::error::VaultError;
use crate::identity::Identity;
use crate::records::{
    decode_pda, lemma_pda_codec_round_trip, spec_encode_pda, spec_valid_pda_bytes, Pda,
    Vault, PDA_RECORD_SIZE, VAULT_RECORD_SIZE,
};

verus! {

/// A request to the external ledger to allocate and fund a new account.
#[derive(Clone, Copy, Debug, PartialEq, Eq)]
pub struct CreateAccountRequest {
    pub payer: Identity,
    pub new_address: Identity,
    pub reserve: u64,
    pub byte_size: u64,
    pub owning_program: Identity,
}

/// A request to the external ledger for a transfer signed by a user-held key.
#[derive(Clone, Copy, Debug, PartialEq, Eq)]
pub struct TransferRequest {
    pub from: Identity,
    pub to: Identity,
    pub amount: u64,
}

/// A request for a transfer whose source is the derived custody address:
/// it carries the seed tag, the owner and the disambiguation byte so the
/// ledger can verify the derivation in place of a signature.
#[derive(Clone, Debug, PartialEq, Eq)]
pub struct SignedTransferRequest {
    pub from: Identity,
    pub to: Identity,
    pub amount: u64,
    pub seed_tag: Vec<u8>,
    pub owner: Identity,
    pub bump: u8,
}

/// What a deposit asks of its caller: create the custody account first if
/// needed, persist the new record, then request the transfer.
#[derive(Clone, Debug, PartialEq, Eq)]
pub struct DepositEffect {
    pub create: Option<CreateAccountRequest>,
    pub record: Pda,
    pub transfer: TransferRequest,
}

/// What a withdrawal asks of its caller: persist the new record, then
/// request the authority-signed transfer.
#[derive(Clone, Debug, PartialEq, Eq)]
pub struct WithdrawEffect {
    pub record: Pda,
    pub transfer: SignedTransferRequest,
}

/// The custody record written when the account is first created: the payer
/// becomes the signer, with no balance, no deposit time, and the one-shot
/// withdrawal still available.
pub open spec fn spec_fresh_pda(owner: Identity) -> Pda {
    Pda { signer: owner, balance: 0, deposit_time: 0, done: false }
}

/// The deposit transition of the custody state machine.
pub open spec fn spec_deposit(rec: Pda, caller: Identity, amount: u64, now: i64) -> Result<
    Pda,
    VaultError,
> {
    if rec.done {
        Err(VaultError::Completed)
    } else if rec.signer@ != caller@ {
        Err(VaultError::NotOwner)
    } else if rec.balance + amount > u64::MAX {
        Err(VaultError::Overflow)
    } else {
        Ok(
            Pda {
                signer: rec.signer,
                balance: (rec.balance + amount) as u64,
                deposit_time: now,
                done: false,
            },
        )
    }
}

/// The one-shot withdrawal transition: a tenth of the balance leaves the
/// vault once the delay has elapsed, and the record is closed for good.
pub open spec fn spec_withdraw(rec: Pda, caller: Identity, now: i64, delay: i64) -> Result<
    (Pda, u64),
    VaultError,
> {
    if rec.signer@ != caller@ {
        Err(VaultError::NotOwner)
    } else if rec.done {
        Err(VaultError::Completed)
    } else if rec.balance / 10 == 0 {
        Err(VaultError::InsufficientFunds)
    } else if now - rec.deposit_time < delay {
        Err(VaultError::TooSoon)
    } else {
        Ok(
            (
                Pda {
                    signer: rec.signer,
                    balance: (rec.balance - rec.balance / 10) as u64,
                    deposit_time: rec.deposit_time,
                    done: true,
                },
                rec.balance / 10,
            ),
        )
    }
}

/// Everything `initialize` promises: the registry record carries the user
/// as owner, and the creation request is funded by the user, targets the
/// supplied address, and sizes the account for a registry record.
pub open spec fn initialize_post(
    r: (Vault, CreateAccountRequest),
    program_id: Identity,
    user: Identity,
    vault_address: Identity,
    reserve: u64,
) -> bool {
    &&& r.0 == (Vault { owner: user })
    &&& r.1 == (CreateAccountRequest {
        payer: user,
        new_address: vault_address,
        reserve,
        byte_size: VAULT_RECORD_SIZE as u64,
        owning_program: program_id,
    })
}

/// Registers an owner: builds the registry record and the request that
/// asks the ledger to create and fund its account at the supplied address.
/// The ledger refuses the request if the account already exists, and that
/// failure is surfaced unchanged by the caller of this function.
pub fn initialize(
    program_id: &Identity,
    user: &Identity,
    vault_address: &Identity,
    reserve: u64,
) -> (r: (Vault, CreateAccountRequest))
    ensures
        initialize_post(r, *program_id, *user, *vault_address, reserve),
{
    let record = Vault { owner: *user };
    let create = CreateAccountRequest {
        payer: *user,
        new_address: *vault_address,
        reserve,
        byte_size: VAULT_RECORD_SIZE as u64,
        owning_program: *program_id,
    };
    (record, create)
}

/// Everything `deposit` promises, as a predicate on its result.
pub open spec fn deposit_post(
    r: Result<DepositEffect, VaultError>,
    program_id: Identity,
    seed_tag: Seq<u8>,
    caller: Identity,
    claimed: Identity,
    stored: Seq<u8>,
    amount: u64,
    now: i64,
    reserve: u64,
) -> bool {
    &&& (r == Err::<DepositEffect, VaultError>(VaultError::InvalidAddress) <==> !spec_address_valid(
        claimed@,
        seed_tag,
        caller@,
        program_id@,
    ))
    &&& (spec_address_valid(claimed@, seed_tag, caller@, program_id@) && stored.len() == 0) ==> {
        &&& r matches Ok(eff)
        &&& eff.create == Some(
            CreateAccountRequest {
                payer: caller,
                new_address: claimed,
                reserve,
                byte_size: PDA_RECORD_SIZE as u64,
                owning_program: program_id,
            },
        )
        &&& Ok::<Pda, VaultError>(eff.record) == spec_deposit(
            spec_fresh_pda(caller),
            caller,
            amount,
            now,
        )
        &&& eff.transfer == (TransferRequest { from: caller, to: claimed, amount })
    }
    &&& (spec_address_valid(claimed@, seed_tag, caller@, program_id@) && stored.len() != 0
        && !spec_valid_pda_bytes(stored)) ==> r == Err::<DepositEffect, VaultError>(
        VaultError::Malformed,
    )
    &&& spec_address_valid(claimed@, seed_tag, caller@, program_id@) ==> forall|rec: Pda|
        stored == spec_encode_pda(rec) ==> match spec_deposit(rec, caller, amount, now) {
            Ok(newrec) => {
                &&& r matches Ok(eff)
                &&& eff.create is None
                &&& eff.record == newrec
                &&& eff.transfer == (TransferRequest { from: caller, to: claimed, amount })
            },
            Err(e) => r == Err::<DepositEffect, VaultError>(e),
        }
}

/// Deposits `amount` into the custody record held at `claimed_address`.
///
/// `stored` is the custody account's current data: empty when the account
/// has not been created yet, in which case the effect carries a creation
/// request and the record starts fresh with the caller as signer. The
/// claimed address is re-derived and compared before any stored byte is
/// read, the balance grows by checked addition, and the deposit time is
/// set to the ledger clock reading `now`.
pub fn deposit(
    program_id: &Identity,
    seed_tag: &Vec<u8>,
    caller: &Identity,
    claimed_address: &Identity,
    stored: &Vec<u8>,
    amount: u64,
    now: i64,
    reserve: u64,
) -> (r: Result<DepositEffect, VaultError>)
    ensures
        deposit_post(
            r,
            *program_id,
            seed_tag@,
            *caller,
            *claimed_address,
            stored@,
            amount,
            now,
            reserve,
        ),
{
    if validate_address(claimed_address, seed_tag, caller, program_id).is_none() {
        return Err(VaultError::InvalidAddress);
    }
    if stored.len() == 0 {
        proof {
            assert forall|rec: Pda| stored@ == spec_encode_pda(rec) implies false by {
                lemma_pda_codec_round_trip(rec);
            }
        }
        let record = Pda { signer: *caller, balance: amount, deposit_time: now, done: false };
        let create = CreateAccountRequest {
            payer: *caller,
            new_address: *claimed_address,
            reserve,
            byte_size: PDA_RECORD_SIZE as u64,
            owning_program: *program_id,
        };
        return Ok(
            DepositEffect {
                create: Some(create),
                record,
                transfer: TransferRequest { from: *caller, to: *claimed_address, amount },
            },
        );
    }
    let rec = match decode_pda(stored) {
        Some(rec) => rec,
        None => {
            proof {
                assert forall|q: Pda| stored@ == spec_encode_pda(q) implies false by {
                    lemma_pda_codec_round_trip(q);
                }
            }
            return Err(VaultError::Malformed);
        },
    };
    proof {
        lemma_pda_codec_round_trip(rec);
    }
    if rec.done {
        return Err(VaultError::Completed);
    }
    if !rec.signer.equals(caller) {
        return Err(VaultError::NotOwner);
    }
    let new_balance = match rec.balance.checked_add(amount) {
        Some(b) => b,
        None => {
            return Err(VaultError::Overflow);
        },
    };
    let record = Pda { signer: rec.signer, balance: new_balance, deposit_time: now, done: false };
    Ok(
        DepositEffect {
            create: None,
            record,
            transfer: TransferRequest { from: *caller, to: *claimed_address, amount },
        },
    )
}

/// Everything `partial_withdraw` promises, as a predicate on its result.
pub open spec fn withdraw_post(
    r: Result<WithdrawEffect, VaultError>,
    program_id: Identity,
    seed_tag: Seq<u8>,
    caller: Identity,
    claimed: Identity,
    stored: Seq<u8>,
    now: i64,
    delay: i64,
) -> bool {
    &&& (r == Err::<WithdrawEffect, VaultError>(VaultError::InvalidAddress) <==> !spec_address_valid(
        claimed@,
        seed_tag,
        caller@,
        program_id@,
    ))
    &&& (spec_address_valid(claimed@, seed_tag, caller@, program_id@) && !spec_valid_pda_bytes(
        stored,
    )) ==> r == Err::<WithdrawEffect, VaultError>(VaultError::Malformed)
    &&& spec_address_valid(claimed@, seed_tag, caller@, program_id@) ==> forall|rec: Pda|
        stored == spec_encode_pda(rec) ==> match spec_withdraw(rec, caller, now, delay) {
            Ok(pr) => {
                &&& r matches Ok(eff)
                &&& eff.record == pr.0
                &&& eff.transfer.from == claimed
                &&& eff.transfer.to == caller
                &&& eff.transfer.amount == pr.1
                &&& eff.transfer.seed_tag@ == seed_tag
                &&& eff.transfer.owner == caller
                &&& derived_of(seed_tag, caller@, program_id@) == Some(
                    (claimed@, eff.transfer.bump),
                )
            },
            Err(e) => r == Err::<WithdrawEffect, VaultError>(e),
        }
}

/// Withdraws a tenth of the balance from the custody record, once, after
/// the maturation delay; closes the record for any further withdrawal.
///
/// The claimed address is re-derived and compared before any stored byte
/// is read. On success the effect carries the transfer request that the
/// custody address itself authorizes through the seed tag, the owner and
/// the disambiguation byte.
pub fn partial_withdraw(
    program_id: &Identity,
    seed_tag: &Vec<u8>,
    caller: &Identity,
    claimed_address: &Identity,
    stored: &Vec<u8>,
    now: i64,
    delay: i64,
) -> (r: Result<WithdrawEffect, VaultError>)
    ensures
        withdraw_post(
            r,
            *program_id,
            seed_tag@,
            *caller,
            *claimed_address,
            stored@,
            now,
            delay,
        ),
{
    let bump = match validate_address(claimed_address, seed_tag, caller, program_id) {
        Some(b) => b,
        None => {
            return Err(VaultError::InvalidAddress);
        },
    };
    let rec = match decode_pda(stored) {
        Some(rec) => rec,
        None => {
            proof {
                assert forall|q: Pda| stored@ == spec_encode_pda(q) implies false by {
                    lemma_pda_codec_round_trip(q);
                }
            }
            return Err(VaultError::Malformed);
        },
    };
    proof {
        lemma_pda_codec_round_trip(rec);
    }
    if !rec.signer.equals(caller) {
        return Err(VaultError::NotOwner);
    }
    if rec.done {
        return Err(VaultError::Completed);
    }
    let withdrawal_amount: u64 = rec.balance / 10;
    proof {
        assert(rec.balance / 10 <= rec.balance) by (nonlinear_arith);
    }
    if withdrawal_amount == 0 || rec.balance < withdrawal_amount {
        return Err(VaultError::InsufficientFunds);
    }
    if !crate::delay_elapsed(now, rec.deposit_time, delay) {
        return Err(VaultError::TooSoon);
    }
    let record = Pda {
        signer: rec.signer,
        balance: rec.balance - withdrawal_amount,
        deposit_time: rec.deposit_time,
        done: true,
    };
    let mut tag: Vec<u8> = Vec::new();
    let mut i: usize = 0;
    while i < seed_tag.len()
        invariant
            i <= seed_tag.len(),
            tag@ =~= seed_tag@.subrange(0, i as int),
        decreases seed_tag.len() - i,
    {
        tag.push(seed_tag[i]);
        i = i + 1;
    }
    proof {
        assert(tag@ =~= seed_tag@);
    }
    Ok(
        WithdrawEffect {
            record,
            transfer: SignedTransferRequest {
                from: *claimed_address,
                to: *caller,
                amount: withdrawal_amount,
                seed_tag: tag,
                owner: *caller,
                bump,
            },
        },
    )
}

} // verus!
