use vstd::prelude::*;

pub mod derivation;
pub mod error;
pub mod identity;
pub mod instructions;
pub mod laws;
pub mod processor;
pub mod records;

verus! {

/// Number of time units that must elapse after a deposit before a
/// withdrawal is allowed.
pub const DELAY: i64 = 10;

/// The constant seed tag that every custody derivation of this program is
/// bound to: the bytes of "SSF_PDA".
pub open spec fn spec_tag_ssf_pda() -> Seq<u8> {
    seq![83u8, 83u8, 70u8, 95u8, 80u8, 68u8, 65u8]
}

pub fn tag_ssf_pda() -> (r: Vec<u8>)
    ensures
        r@ == spec_tag_ssf_pda(),
{
    let mut v: Vec<u8> = Vec::new();
    v.push(83);
    v.push(83);
    v.push(70);
    v.push(95);
    v.push(80);
    v.push(68);
    v.push(65);
    proof {
        assert(v@ =~= spec_tag_ssf_pda());
    }
    v
}

/// The time-lock gate: funds may be released only once `delay` time units
/// have passed since the recorded deposit time.
pub open spec fn spec_delay_elapsed(now: int, deposit_time: int, delay: int) -> bool {
    now - deposit_time >= delay
}

pub fn delay_elapsed(now: i64, deposit_time: i64, delay: i64) -> (r: bool)
    ensures
        r == spec_delay_elapsed(now as int, deposit_time as int, delay as int),
{
    let elapsed: i128 = (now as i128) - (deposit_time as i128);
    elapsed >= (delay as i128)
}

} // verus!
