//! Address validation: the all-zero account and contract ids are burn
//! addresses and are refused wherever an address is stored or paid.
use vstd::prelude::*;

use crate::types::ContractError;

verus! {

pub const ASCII_4: u8 = 52;
pub const ASCII_A: u8 = 65;
pub const ASCII_B: u8 = 66;
pub const ASCII_C: u8 = 67;
pub const ASCII_F: u8 = 70;
pub const ASCII_G: u8 = 71;
pub const ASCII_H: u8 = 72;
pub const ASCII_S: u8 = 83;
pub const ASCII_W: u8 = 87;

/// Whether `s` is the strkey text of the all-zero account
/// (`GAAA…AWHF`) or the all-zero contract id (`CAAA…ABSC4`).
pub open spec fn is_zero_strkey(s: Seq<u8>) -> bool {
    &&& s.len() == 56
    &&& {
        ||| (s[0] == ASCII_G && (forall|i: int| 1 <= i < 53 ==> s[i] == ASCII_A) && s[53] == ASCII_W
            && s[54] == ASCII_H && s[55] == ASCII_F)
        ||| (s[0] == ASCII_C && (forall|i: int| 1 <= i < 52 ==> s[i] == ASCII_A) && s[52] == ASCII_B
            && s[53] == ASCII_S && s[54] == ASCII_C && s[55] == ASCII_4)
    }
}

fn all_a(s: &[u8], from: usize, to: usize) -> (b: bool)
    requires
        from <= to <= s@.len(),
    ensures
        b == (forall|i: int| from <= i < to ==> s@[i] == ASCII_A),
{
    let mut i: usize = from;
    while i < to
        invariant
            from <= i <= to <= s@.len(),
            forall|k: int| from <= k < i ==> s@[k] == ASCII_A,
        decreases to - i,
    {
        if s[i] != ASCII_A {
            return false;
        }
        i = i + 1;
    }
    true
}

/// Returns `Err(InvalidAddress)` if the strkey `strkey` names the all-zero
/// account or the all-zero contract.
pub fn require_not_zero(strkey: &[u8]) -> (r: Result<(), ContractError>)
    ensures
        r == (if is_zero_strkey(strkey@) {
            Err(ContractError::InvalidAddress)
        } else {
            Ok(())
        }),
{
    if strkey.len() != 56 {
        return Ok(());
    }
    let zero_account = strkey[0] == ASCII_G && all_a(strkey, 1, 53) && strkey[53] == ASCII_W
        && strkey[54] == ASCII_H && strkey[55] == ASCII_F;
    let zero_contract = strkey[0] == ASCII_C && all_a(strkey, 1, 52) && strkey[52] == ASCII_B
        && strkey[53] == ASCII_S && strkey[54] == ASCII_C && strkey[55] == ASCII_4;
    if zero_account || zero_contract {
        return Err(ContractError::InvalidAddress);
    }
    Ok(())
}

} // verus!
