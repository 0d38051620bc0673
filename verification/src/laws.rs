use vstd::prelude::*;
use crate::derivation::{derived_of, spec_address_valid};
use crate::error::VaultError;
use crate::identity::Identity;
use crate::instructions::{spec_deposit, spec_withdraw};
use crate::records::Pda;

verus! {

/// Law: the derivation is deterministic, so an address obtained from the
/// deriver always passes the address guard for the same seed tag, owner
/// and program.
pub proof fn lemma_derived_address_validates(
    seed_tag: Seq<u8>,
    owner: Seq<u8>,
    program: Seq<u8>,
    addr: Seq<u8>,
    bump: u8,
)
    requires
        derived_of(seed_tag, owner, program) == Some((addr, bump)),
    ensures
        spec_address_valid(addr, seed_tag, owner, program),
{
}

/// Law: a deposit followed by a withdrawal attempt before the delay has
/// elapsed fails with TooSoon, so no new record is written and the balance
/// is unchanged. (A balance that computes a zero withdrawal amount is
/// rejected as insufficient before the clock is consulted, so such records
/// are left out here.)
pub proof fn lemma_withdraw_before_delay_fails(
    rec: Pda,
    rec1: Pda,
    caller: Identity,
    amount: u64,
    t0: i64,
    t1: i64,
    delay: i64,
)
    requires
        spec_deposit(rec, caller, amount, t0) == Ok::<Pda, VaultError>(rec1),
        rec1.balance / 10 != 0,
        t1 - t0 < delay,
    ensures
        spec_withdraw(rec1, caller, t1, delay) == Err::<(Pda, u64), VaultError>(
            VaultError::TooSoon,
        ),
{
}

/// Law: the withdrawal is one-shot: after a successful withdrawal every
/// further attempt by the same caller fails with Completed, whatever the
/// remaining balance and whatever the clock then reads.
pub proof fn lemma_second_withdraw_fails(
    rec: Pda,
    rec1: Pda,
    amt: u64,
    caller: Identity,
    t1: i64,
    t2: i64,
    delay: i64,
)
    requires
        spec_withdraw(rec, caller, t1, delay) == Ok::<(Pda, u64), VaultError>((rec1, amt)),
    ensures
        spec_withdraw(rec1, caller, t2, delay) == Err::<(Pda, u64), VaultError>(
            VaultError::Completed,
        ),
{
}

/// Law: a deposit that would overflow the 64-bit balance fails with
/// Overflow, so no new record is written and the balance is unchanged.
pub proof fn lemma_deposit_overflow(rec: Pda, caller: Identity, amount: u64, now: i64)
    requires
        !rec.done,
        rec.signer@ == caller@,
        rec.balance + amount > u64::MAX,
    ensures
        spec_deposit(rec, caller, amount, now) == Err::<Pda, VaultError>(VaultError::Overflow),
{
}

/// Law: the signer recorded at creation is immutable: no transition of the
/// custody state machine changes it.
pub proof fn lemma_transitions_preserve_signer(
    rec: Pda,
    caller: Identity,
    amount: u64,
    now: i64,
    delay: i64,
)
    ensures
        spec_deposit(rec, caller, amount, now) matches Ok(r1) ==> r1.signer == rec.signer,
        spec_withdraw(rec, caller, now, delay) matches Ok(p) ==> p.0.signer == rec.signer,
{
}

/// Law: a closed custody record is terminal: once `done` is set, no
/// transition succeeds, so the flag is never reset and the balance never
/// moves again.
pub proof fn lemma_done_is_terminal(rec: Pda, caller: Identity, amount: u64, now: i64, delay: i64)
    requires
        rec.done,
    ensures
        spec_deposit(rec, caller, amount, now) == Err::<Pda, VaultError>(VaultError::Completed),
        spec_withdraw(rec, caller, now, delay) is Err,
{
}

/// The sum of a sequence of deposit amounts.
pub open spec fn spec_sum(amounts: Seq<u64>) -> int
    decreases amounts.len(),
{
    if amounts.len() == 0 {
        0
    } else {
        amounts[0] + spec_sum(amounts.drop_first())
    }
}

pub proof fn lemma_sum_nonneg(amounts: Seq<u64>)
    ensures
        spec_sum(amounts) >= 0,
    decreases amounts.len(),
{
    if amounts.len() > 0 {
        lemma_sum_nonneg(amounts.drop_first());
    }
}

/// The custody record after a whole sequence of deposits, stopping at the
/// first one that fails.
pub open spec fn spec_deposit_all(rec: Pda, caller: Identity, amounts: Seq<u64>, now: i64) -> Result<
    Pda,
    VaultError,
>
    decreases amounts.len(),
{
    if amounts.len() == 0 {
        Ok(rec)
    } else {
        match spec_deposit(rec, caller, amounts[0], now) {
            Ok(rec1) => spec_deposit_all(rec1, caller, amounts.drop_first(), now),
            Err(e) => Err(e),
        }
    }
}

/// Law: a sequence of deposits whose sum does not overflow the 64-bit
/// balance succeeds and adds exactly that sum to the balance.
pub proof fn lemma_deposits_accumulate(rec: Pda, caller: Identity, amounts: Seq<u64>, now: i64)
    requires
        !rec.done,
        rec.signer@ == caller@,
        rec.balance + spec_sum(amounts) <= u64::MAX,
    ensures
        spec_deposit_all(rec, caller, amounts, now) matches Ok(r) && r.balance == rec.balance
            + spec_sum(amounts) && r.signer == rec.signer && !r.done,
    decreases amounts.len(),
{
    if amounts.len() > 0 {
        lemma_sum_nonneg(amounts.drop_first());
        let rec1 = Pda {
            signer: rec.signer,
            balance: (rec.balance + amounts[0]) as u64,
            deposit_time: now,
            done: false,
        };
        assert(spec_deposit(rec, caller, amounts[0], now) == Ok::<Pda, VaultError>(rec1));
        lemma_deposits_accumulate(rec1, caller, amounts.drop_first(), now);
    }
}

} // verus!
