use native_vault::error::VaultError;
use native_vault::identity::Identity;
use native_vault::instructions::{deposit, initialize, partial_withdraw};
use native_vault::processor::{decode_instruction, process_instruction, Effect, NativeVaultInstruction};
use native_vault::records::{decode_pda, decode_vault, encode_pda, encode_vault, Pda, Vault};
use native_vault::{delay_elapsed, tag_ssf_pda, DELAY};

fn id(b: u8) -> Identity {
    Identity([b; 32])
}

fn derived_for(owner: &Identity, program: &Identity) -> (Identity, u8) {
    native_vault::derivation::derive(&tag_ssf_pda(), owner, program).expect("derivation should find a bump")
}

#[test]
fn derivation_is_deterministic() {
    let owner = id(7);
    let program = id(9);
    let a = native_vault::derivation::derive(&tag_ssf_pda(), &owner, &program);
    let b = native_vault::derivation::derive(&tag_ssf_pda(), &owner, &program);
    assert!(a.is_some());
    assert_eq!(a, b);
}

#[test]
fn derivation_matches_ledger_library() {
    let owner = id(7);
    let program = id(9);
    let (addr, bump) = derived_for(&owner, &program);
    let program_pk = solana_program::pubkey::Pubkey::new_from_array(program.0);
    let owner_pk = solana_program::pubkey::Pubkey::new_from_array(owner.0);
    let (expected, expected_bump) = solana_program::pubkey::Pubkey::find_program_address(
        &[b"SSF_PDA", owner_pk.as_ref()],
        &program_pk,
    );
    assert_eq!(addr.0, expected.to_bytes());
    assert_eq!(bump, expected_bump);
    // the derived address is a new value, not one of the inputs
    assert_ne!(addr.0, owner.0);
    assert_ne!(addr.0, program.0);
}

#[test]
fn distinct_owners_get_distinct_addresses() {
    let program = id(9);
    let (a, _) = derived_for(&id(1), &program);
    let (b, _) = derived_for(&id(2), &program);
    assert_ne!(a.0, b.0);
}

#[test]
fn pda_codec_round_trips() {
    let rec = Pda { signer: id(3), balance: 12345, deposit_time: -77, done: true };
    let bytes = encode_pda(&rec);
    assert_eq!(bytes.len(), 49);
    assert_eq!(decode_pda(&bytes), Some(rec));
    let rec2 = Pda { signer: id(0), balance: 0, deposit_time: 0, done: false };
    let bytes2 = encode_pda(&rec2);
    assert_eq!(decode_pda(&bytes2), Some(rec2));
}

#[test]
fn pda_decode_rejects_malformed_bytes() {
    assert_eq!(decode_pda(&vec![0u8; 48]), None);
    assert_eq!(decode_pda(&vec![0u8; 50]), None);
    let mut bytes = encode_pda(&Pda { signer: id(3), balance: 1, deposit_time: 2, done: false });
    bytes[48] = 7;
    assert_eq!(decode_pda(&bytes), None);
}

#[test]
fn vault_codec_round_trips() {
    let v = Vault { owner: id(5) };
    let bytes = encode_vault(&v);
    assert_eq!(bytes.len(), 32);
    assert_eq!(decode_vault(&bytes), Some(v));
    assert_eq!(decode_vault(&vec![0u8; 31]), None);
}

#[test]
fn instruction_decoding() {
    assert_eq!(
        decode_instruction(&vec![0]),
        Ok(NativeVaultInstruction::Initialize())
    );
    let mut dep = vec![1u8];
    dep.extend_from_slice(&1000u64.to_le_bytes());
    assert_eq!(decode_instruction(&dep), Ok(NativeVaultInstruction::Deposit(1000)));
    assert_eq!(
        decode_instruction(&vec![2]),
        Ok(NativeVaultInstruction::PartialWithdraw())
    );
    assert_eq!(decode_instruction(&vec![]), Err(VaultError::Malformed));
    assert_eq!(decode_instruction(&vec![3]), Err(VaultError::Malformed));
    assert_eq!(decode_instruction(&vec![1, 2, 3]), Err(VaultError::Malformed));
    assert_eq!(decode_instruction(&vec![0, 0]), Err(VaultError::Malformed));
}

#[test]
fn initialize_builds_record_and_request() {
    let program = id(9);
    let user = id(1);
    let vault_addr = id(4);
    let (record, create) = initialize(&program, &user, &vault_addr, 500);
    assert_eq!(record.owner, user);
    assert_eq!(create.payer, user);
    assert_eq!(create.new_address, vault_addr);
    assert_eq!(create.reserve, 500);
    assert_eq!(create.byte_size, 32);
    assert_eq!(create.owning_program, program);
}

#[test]
fn first_deposit_creates_and_funds() {
    let program = id(9);
    let user = id(1);
    let (addr, _) = derived_for(&user, &program);
    let eff = deposit(&program, &tag_ssf_pda(), &user, &addr, &Vec::new(), 1000, 0, 800)
        .expect("first deposit should succeed");
    let create = eff.create.expect("first deposit must request account creation");
    assert_eq!(create.payer, user);
    assert_eq!(create.new_address, addr);
    assert_eq!(create.reserve, 800);
    assert_eq!(create.byte_size, 49);
    assert_eq!(eff.record, Pda { signer: user, balance: 1000, deposit_time: 0, done: false });
    assert_eq!(eff.transfer.from, user);
    assert_eq!(eff.transfer.to, addr);
    assert_eq!(eff.transfer.amount, 1000);
}

#[test]
fn deposit_rejects_wrong_address() {
    let program = id(9);
    let user = id(1);
    let wrong = id(2);
    let r = deposit(&program, &tag_ssf_pda(), &user, &wrong, &Vec::new(), 1000, 0, 800);
    assert_eq!(r, Err(VaultError::InvalidAddress));
}

#[test]
fn withdraw_rejects_wrong_address() {
    let program = id(9);
    let user = id(1);
    let wrong = id(2);
    let stored = encode_pda(&Pda { signer: user, balance: 1000, deposit_time: 0, done: false });
    let r = partial_withdraw(&program, &tag_ssf_pda(), &user, &wrong, &stored, 50, DELAY);
    assert_eq!(r, Err(VaultError::InvalidAddress));
}

#[test]
fn deposit_rejects_foreign_signer() {
    let program = id(9);
    let user = id(1);
    let other = id(2);
    let (addr, _) = derived_for(&user, &program);
    let stored = encode_pda(&Pda { signer: other, balance: 40, deposit_time: 0, done: false });
    let r = deposit(&program, &tag_ssf_pda(), &user, &addr, &stored, 10, 3, 800);
    assert_eq!(r, Err(VaultError::NotOwner));
    // the stored record is untouched: the caller got no new record to write
    assert_eq!(decode_pda(&stored).unwrap().balance, 40);
}

#[test]
fn deposits_accumulate() {
    let program = id(9);
    let user = id(1);
    let (addr, _) = derived_for(&user, &program);
    let mut stored = Vec::new();
    let mut t = 0i64;
    for amount in [1u64, 2, 3] {
        let eff = deposit(&program, &tag_ssf_pda(), &user, &addr, &stored, amount, t, 800)
            .expect("deposit should succeed");
        stored = encode_pda(&eff.record);
        t += 1;
    }
    let rec = decode_pda(&stored).unwrap();
    assert_eq!(rec.balance, 6);
    assert_eq!(rec.deposit_time, 2);
    assert!(!rec.done);
}

#[test]
fn deposit_overflow_fails_and_preserves_balance() {
    let program = id(9);
    let user = id(1);
    let (addr, _) = derived_for(&user, &program);
    let stored = encode_pda(&Pda { signer: user, balance: u64::MAX, deposit_time: 0, done: false });
    let r = deposit(&program, &tag_ssf_pda(), &user, &addr, &stored, 1, 5, 800);
    assert_eq!(r, Err(VaultError::Overflow));
    assert_eq!(decode_pda(&stored).unwrap().balance, u64::MAX);
}

#[test]
fn deposit_rejects_malformed_record() {
    let program = id(9);
    let user = id(1);
    let (addr, _) = derived_for(&user, &program);
    let r = deposit(&program, &tag_ssf_pda(), &user, &addr, &vec![1u8; 10], 1, 5, 800);
    assert_eq!(r, Err(VaultError::Malformed));
}

#[test]
fn small_balance_withdrawal_is_insufficient() {
    let program = id(9);
    let user = id(1);
    let (addr, _) = derived_for(&user, &program);
    let stored = encode_pda(&Pda { signer: user, balance: 5, deposit_time: 0, done: false });
    let r = partial_withdraw(&program, &tag_ssf_pda(), &user, &addr, &stored, 100, DELAY);
    assert_eq!(r, Err(VaultError::InsufficientFunds));
    assert_eq!(decode_pda(&stored).unwrap().balance, 5);
}

#[test]
fn withdraw_lifecycle_scenario() {
    let program = id(9);
    let user = id(1);
    let (addr, bump) = derived_for(&user, &program);
    let tag = tag_ssf_pda();

    // deposit 1000 units at t = 0
    let eff = deposit(&program, &tag, &user, &addr, &Vec::new(), 1000, 0, 800).unwrap();
    let stored = encode_pda(&eff.record);

    // too soon at t = 5
    let r = partial_withdraw(&program, &tag, &user, &addr, &stored, 5, DELAY);
    assert_eq!(r, Err(VaultError::TooSoon));

    // succeeds at t = 11: a tenth of the balance leaves
    let w = partial_withdraw(&program, &tag, &user, &addr, &stored, 11, DELAY).unwrap();
    assert_eq!(w.transfer.amount, 100);
    assert_eq!(w.record.balance, 900);
    assert!(w.record.done);
    assert_eq!(w.transfer.from, addr);
    assert_eq!(w.transfer.to, user);
    assert_eq!(w.transfer.owner, user);
    assert_eq!(w.transfer.bump, bump);
    assert_eq!(w.transfer.seed_tag, tag);

    // a third call at t = 20 finds the record closed
    let stored2 = encode_pda(&w.record);
    let r2 = partial_withdraw(&program, &tag, &user, &addr, &stored2, 20, DELAY);
    assert_eq!(r2, Err(VaultError::Completed));
}

#[test]
fn deposit_after_withdrawal_is_rejected() {
    let program = id(9);
    let user = id(1);
    let (addr, _) = derived_for(&user, &program);
    let stored = encode_pda(&Pda { signer: user, balance: 900, deposit_time: 0, done: true });
    let r = deposit(&program, &tag_ssf_pda(), &user, &addr, &stored, 10, 30, 800);
    assert_eq!(r, Err(VaultError::Completed));
}

#[test]
fn withdraw_by_foreign_caller_is_rejected() {
    let program = id(9);
    let user = id(1);
    let other = id(2);
    let (addr, _) = derived_for(&user, &program);
    // the caller's own derivation must match, so hand the record of `other`
    // to `user` at user's derived address
    let stored = encode_pda(&Pda { signer: other, balance: 1000, deposit_time: 0, done: false });
    let r = partial_withdraw(&program, &tag_ssf_pda(), &user, &addr, &stored, 50, DELAY);
    assert_eq!(r, Err(VaultError::NotOwner));
}

#[test]
fn delay_gate_is_exact() {
    assert!(!delay_elapsed(9, 0, DELAY));
    assert!(delay_elapsed(10, 0, DELAY));
    assert!(delay_elapsed(11, 0, DELAY));
    assert!(delay_elapsed(5, -5, DELAY));
    assert!(!delay_elapsed(i64::MIN, i64::MAX, DELAY));
    assert!(delay_elapsed(i64::MAX, i64::MIN, DELAY));
}

#[test]
fn processor_routes_operations() {
    let program = id(9);
    let user = id(1);
    let tag = tag_ssf_pda();
    let (addr, _) = derived_for(&user, &program);

    let r = process_instruction(&program, &tag, &user, &id(4), &Vec::new(), 500, 0, DELAY, &vec![0]);
    match r {
        Ok(Effect::Initialized(v, c)) => {
            assert_eq!(v.owner, user);
            assert_eq!(c.new_address, id(4));
        }
        other => panic!("expected an initialization effect, got {:?}", other),
    }

    let mut dep = vec![1u8];
    dep.extend_from_slice(&1000u64.to_le_bytes());
    let r = process_instruction(&program, &tag, &user, &addr, &Vec::new(), 800, 0, DELAY, &dep);
    let stored = match r {
        Ok(Effect::Deposited(d)) => {
            assert_eq!(d.record.balance, 1000);
            encode_pda(&d.record)
        }
        other => panic!("expected a deposit effect, got {:?}", other),
    };

    let r = process_instruction(&program, &tag, &user, &addr, &stored, 800, 11, DELAY, &vec![2]);
    match r {
        Ok(Effect::Withdrawn(w)) => {
            assert_eq!(w.transfer.amount, 100);
            assert_eq!(w.record.balance, 900);
        }
        other => panic!("expected a withdrawal effect, got {:?}", other),
    }

    let r = process_instruction(&program, &tag, &user, &addr, &stored, 800, 11, DELAY, &vec![9]);
    assert_eq!(r, Err(VaultError::Malformed));
}
